use am_api::text::{join, join_names, join_strings, owned, replace_spaces, to_decimal, Named};
use am_api::primitive::TrackType;

#[test]
fn join_of_nothing_is_empty() {
    assert_eq!(join(&[], ","), "");
}

#[test]
fn join_of_one_has_no_separator() {
    assert_eq!(join(&["1676791755"], ","), "1676791755");
}

#[test]
fn join_puts_the_separator_between_neighbours() {
    assert_eq!(join(&["a", "b", "c"], ","), "a,b,c");
    assert_eq!(join(&["a", "", "c"], ", "), "a, , c");
}

#[test]
fn join_strings_matches_join() {
    let parts = vec![String::from("tracks"), String::from("artists")];
    assert_eq!(join_strings(&parts, ","), "tracks,artists");
    assert_eq!(join_strings(&Vec::new(), ","), "");
}

#[test]
fn join_names_writes_each_name() {
    let types = [TrackType::Song, TrackType::LibraryMusicVideo];
    assert_eq!(join_names(&types, ","), "songs,library-music-videos");
    let none: [TrackType; 0] = [];
    assert_eq!(join_names(&none, ","), "");
}

#[test]
fn decimal_of_small_numbers() {
    assert_eq!(to_decimal(0), "0");
    assert_eq!(to_decimal(7), "7");
    assert_eq!(to_decimal(9), "9");
    assert_eq!(to_decimal(10), "10");
    assert_eq!(to_decimal(21), "21");
    assert_eq!(to_decimal(47), "47");
    assert_eq!(to_decimal(100), "100");
    assert_eq!(to_decimal(1905), "1905");
}

#[test]
fn decimal_agrees_with_std() {
    for n in [0usize, 1, 9, 10, 11, 99, 100, 101, 12345, 1 << 31, usize::MAX - 1, usize::MAX] {
        assert_eq!(to_decimal(n), n.to_string());
    }
}

#[test]
fn spaces_become_plus_signs() {
    assert_eq!(replace_spaces("taylor swift"), "taylor+swift");
    assert_eq!(replace_spaces(" a  b "), "+a++b+");
    assert_eq!(replace_spaces("nospace"), "nospace");
    assert_eq!(replace_spaces(""), "");
}

#[test]
fn spaces_are_replaced_in_text_beyond_ascii() {
    assert_eq!(replace_spaces("bj\u{f6}rk gu\u{f0}mundsd\u{f3}ttir"), "bj\u{f6}rk+gu\u{f0}mundsd\u{f3}ttir");
    assert_eq!(replace_spaces("a\tb"), "a\tb");
}

#[test]
fn owned_copies_the_text() {
    assert_eq!(owned("en-US"), "en-US");
}

#[test]
fn track_types_are_named_as_the_server_names_them() {
    assert_eq!(TrackType::LibraryMusicVideo.to_string(), "library-music-videos");
    assert_eq!(TrackType::LibrarySong.to_string(), "library-songs");
    assert_eq!(TrackType::MusicVideo.to_string(), "music-videos");
    assert_eq!(TrackType::Song.to_string(), "songs");
}
