use am_api::resource::catalog::activity::Activity;
use am_api::resource::catalog::album::Album;
use am_api::resource::catalog::artist::Artist;
use am_api::resource::catalog::curator::{AppleCurator, Curator};
use am_api::resource::catalog::music_video::MusicVideo;
use am_api::resource::catalog::record_label::RecordLabel;
use am_api::resource::catalog::song::Song;
use am_api::resource::catalog::station::{Station, StationGenre};
use am_api::resource::genre::Genre;
use am_api::resource::library::album::LibraryAlbum;
use am_api::resource::library::artist::LibraryArtist;
use am_api::resource::library::music_video::LibraryMusicVideo;
use am_api::resource::library::playlist::{LibraryPlaylist, LibraryPlaylistFolder};
use am_api::resource::library::song::LibrarySong;
use am_api::resource::rating::Rating;
use am_api::resource::{Resource, ResourceHeader, ResourceInfo, ResourceKind, ResourceType};

fn header(id: &str) -> ResourceHeader {
    ResourceHeader { id: id.to_string(), href: format!("/v1/x/{}", id) }
}

fn samples() -> Vec<(Resource, &'static str, ResourceKind)> {
    vec![
        (Resource::from(Activity { header: header("1"), ..Activity::default() }), "activities", ResourceKind::Activity),
        (Resource::from(Album { header: header("2"), ..Album::default() }), "albums", ResourceKind::Album),
        (Resource::from(Artist { header: header("3"), ..Artist::default() }), "artists", ResourceKind::Artist),
        (Resource::from(AppleCurator { header: header("4"), ..AppleCurator::default() }), "apple-curators", ResourceKind::AppleCurator),
        (Resource::from(Curator { header: header("5"), ..Curator::default() }), "curators", ResourceKind::Curator),
        (Resource::from(Genre { header: header("6"), ..Genre::default() }), "genres", ResourceKind::Genre),
        (Resource::from(MusicVideo { header: header("7"), ..MusicVideo::default() }), "music-videos", ResourceKind::MusicVideo),
        (Resource::from(Rating { header: header("10"), ..Rating::default() }), "ratings", ResourceKind::Rating),
        (Resource::from(RecordLabel { header: header("11"), ..RecordLabel::default() }), "record-labels", ResourceKind::RecordLabel),
        (Resource::from(Song { header: header("12"), ..Song::default() }), "songs", ResourceKind::Song),
        (Resource::from(Station { header: header("13"), ..Station::default() }), "stations", ResourceKind::Station),
        (Resource::from(StationGenre { header: header("14"), ..StationGenre::default() }), "station-genres", ResourceKind::StationGenre),
        (Resource::from(LibraryAlbum { header: header("15"), ..LibraryAlbum::default() }), "library-albums", ResourceKind::LibraryAlbum),
        (Resource::from(LibraryArtist { header: header("16"), ..LibraryArtist::default() }), "library-artists", ResourceKind::LibraryArtist),
        (Resource::from(LibraryMusicVideo { header: header("17"), ..LibraryMusicVideo::default() }), "library-music-videos", ResourceKind::LibraryMusicVideo),
        (Resource::from(LibraryPlaylist { header: header("18"), ..LibraryPlaylist::default() }), "library-playlists", ResourceKind::LibraryPlaylist),
        (Resource::from(LibraryPlaylistFolder { header: header("19"), ..LibraryPlaylistFolder::default() }), "library-playlist-folders", ResourceKind::LibraryPlaylistFolder),
        (Resource::from(LibrarySong { header: header("20"), ..LibrarySong::default() }), "library-songs", ResourceKind::LibrarySong),
    ]
}

#[test]
fn every_variant_tells_its_type() {
    for (resource, name, _) in samples() {
        assert_eq!(resource.get_type(), name);
    }
}

#[test]
fn every_variant_hands_out_its_header() {
    for (resource, _, _) in samples() {
        let header = resource.get_header();
        assert_eq!(header.href, format!("/v1/x/{}", header.id));
    }
    let song = Resource::from(Song { header: header("1676791755"), ..Song::default() });
    assert_eq!(song.get_header().id, "1676791755");
    assert_eq!(song.get_header().href, "/v1/x/1676791755");
}

#[test]
fn wrapping_a_resource_keeps_its_data() {
    let song = Song { header: header("9"), ..Song::default() };
    match Resource::from(song.clone()) {
        Resource::Song { data } => assert_eq!(data, song),
        _ => panic!("a song was expected"),
    }
    let album = Album { header: header("8"), ..Album::default() };
    assert!(matches!(Resource::from(album), Resource::Album { .. }));
    let wrapped: Resource = LibrarySong::default().into();
    assert!(matches!(wrapped, Resource::LibrarySong { .. }));
}

#[test]
fn the_kind_of_a_resource_is_written_as_its_type() {
    for (resource, name, kind) in samples() {
        assert_eq!(resource.get_kind(), kind);
        assert_eq!(resource.get_kind().get_name(), name);
        assert_eq!(resource.get_kind().get_name(), resource.get_type());
    }
}

#[test]
fn the_name_of_a_kind_is_read_as_that_kind() {
    let kinds = [
        ResourceKind::Activity,
        ResourceKind::Album,
        ResourceKind::Artist,
        ResourceKind::AppleCurator,
        ResourceKind::Curator,
        ResourceKind::Genre,
        ResourceKind::MusicVideo,
        ResourceKind::PersonalRecommendation,
        ResourceKind::Playlist,
        ResourceKind::Rating,
        ResourceKind::RecordLabel,
        ResourceKind::Song,
        ResourceKind::Station,
        ResourceKind::StationGenre,
        ResourceKind::LibraryAlbum,
        ResourceKind::LibraryArtist,
        ResourceKind::LibraryMusicVideo,
        ResourceKind::LibraryPlaylist,
        ResourceKind::LibraryPlaylistFolder,
        ResourceKind::LibrarySong,
    ];
    for kind in kinds {
        assert_eq!(ResourceKind::from_name(kind.get_name()), Some(kind));
    }
    for (i, a) in kinds.iter().enumerate() {
        for b in &kinds[i + 1..] {
            assert_ne!(a.get_name(), b.get_name());
        }
    }
}

#[test]
fn songs_are_read_as_songs() {
    assert_eq!(ResourceKind::from_name("songs"), Some(ResourceKind::Song));
    assert_eq!(ResourceKind::from_name("personal-recommendation"), Some(ResourceKind::PersonalRecommendation));
    assert_eq!(ResourceKind::from_name("library-playlist-folders"), Some(ResourceKind::LibraryPlaylistFolder));
}

#[test]
fn a_type_that_is_not_known_is_read_as_no_kind() {
    assert_eq!(ResourceKind::from_name("podcasts"), None);
    assert_eq!(ResourceKind::from_name(""), None);
    assert_eq!(ResourceKind::from_name("Songs"), None);
    assert_eq!(ResourceKind::from_name("songs "), None);
    assert_eq!(ResourceKind::from_name("song"), None);
    assert_eq!(ResourceKind::from_name("library-song"), None);
    assert_eq!(ResourceKind::from_name("personal-recommendations"), None);
}
