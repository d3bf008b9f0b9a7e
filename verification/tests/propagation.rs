use am_api::request::context::{ContextContainer, ContextSlot, RequestContext};
use am_api::resource::attributes::TitleOnlyAttribute;
use am_api::resource::catalog::album::{Album, AlbumRelationships, AlbumViews};
use am_api::resource::catalog::artist::{Artist, ArtistRelationships, ArtistViews};
use am_api::resource::catalog::playlist::{Playlist, PlaylistRelationships, PlaylistViews};
use am_api::resource::catalog::search::CatalogSearchResults;
use am_api::resource::catalog::song::Song;
use am_api::resource::genre::Genre;
use am_api::resource::library::search::LibrarySearchResults;
use am_api::resource::library::song::LibrarySong;
use am_api::resource::relationship::Relationship;
use am_api::resource::view::View;
use am_api::resource::{Resource, ResourceHeader};
use am_api::Country;
use std::sync::Arc;

fn context() -> Arc<RequestContext> {
    Arc::new(RequestContext {
        storefront: Country { alpha2: "JP" },
        query: vec![(String::from("l"), String::from("ja-JP"))],
    })
}

fn holds<T>(relationship: &Option<Relationship<T>>, context: &Arc<RequestContext>) -> bool {
    match relationship {
        Some(relationship) => match relationship.context.get() {
            Some(held) => Arc::ptr_eq(&held, context),
            None => false,
        },
        None => false,
    }
}

fn view_holds<T>(view: &Option<View<TitleOnlyAttribute, T>>, context: &Arc<RequestContext>) -> bool {
    match view {
        Some(view) => match view.context.get() {
            Some(held) => Arc::ptr_eq(&held, context),
            None => false,
        },
        None => false,
    }
}

fn nested_album() -> Album {
    let inner_album = Album {
        header: ResourceHeader { id: String::from("inner"), href: String::new() },
        relationships: AlbumRelationships {
            genres: Some(Relationship::new(None, None, vec![Genre::default()])),
            tracks: Some(Relationship::new(
                None,
                Some(String::from("/next")),
                vec![Resource::Song { data: Song::default() }],
            )),
            ..AlbumRelationships::default()
        },
        ..Album::default()
    };
    let artist = Artist {
        header: ResourceHeader { id: String::from("artist"), href: String::new() },
        attributes: None,
        relationships: ArtistRelationships {
            albums: Some(Relationship::new(None, None, vec![inner_album, Album::default()])),
            ..ArtistRelationships::default()
        },
        views: ArtistViews {
            top_songs: Some(View::new(None, None, TitleOnlyAttribute::default(), vec![Song::default()])),
            ..ArtistViews::default()
        },
    };
    Album {
        header: ResourceHeader { id: String::from("outer"), href: String::from("/albums/outer") },
        attributes: None,
        relationships: AlbumRelationships {
            artists: Some(Relationship::new(None, None, vec![artist, Artist::default()])),
            ..AlbumRelationships::default()
        },
        views: AlbumViews {
            other_versions: Some(View::new(
                Some(String::from("/view")),
                None,
                TitleOnlyAttribute { title: String::from("Other Versions") },
                vec![Album::default()],
            )),
            ..AlbumViews::default()
        },
    }
}

#[test]
fn every_nested_relationship_and_view_gets_the_same_handle() {
    let shared = context();
    let mut album = nested_album();
    album.set_context(shared.clone());

    assert!(holds(&album.relationships.artists, &shared));
    assert!(view_holds(&album.views.other_versions, &shared));
    let artists = album.relationships.artists.as_ref().unwrap();
    let artist = &artists.data[0];
    assert!(holds(&artist.relationships.albums, &shared));
    assert!(view_holds(&artist.views.top_songs, &shared));
    let inner = &artist.relationships.albums.as_ref().unwrap().data[0];
    assert!(holds(&inner.relationships.genres, &shared));
    assert!(holds(&inner.relationships.tracks, &shared));
}

#[test]
fn propagation_changes_nothing_but_the_context() {
    let before = nested_album();
    let mut after = nested_album();
    after.set_context(context());
    assert_eq!(before, after);
    assert_eq!(after.header.id, "outer");
    let view = after.views.other_versions.as_ref().unwrap();
    assert_eq!(view.attributes.title, "Other Versions");
    assert_eq!(view.href.as_deref(), Some("/view"));
    let inner = &after.relationships.artists.as_ref().unwrap().data[0].relationships.albums;
    let tracks = inner.as_ref().unwrap().data[0].relationships.tracks.as_ref().unwrap();
    assert_eq!(tracks.next.as_deref(), Some("/next"));
    assert_eq!(tracks.data.len(), 1);
}

#[test]
fn missing_relationships_stay_missing() {
    let mut album = nested_album();
    album.set_context(context());
    assert!(album.relationships.genres.is_none());
    assert!(album.relationships.tracks.is_none());
    assert!(album.views.appears_on.is_none());
    let plain = &album.relationships.artists.as_ref().unwrap().data[1];
    assert!(plain.relationships.albums.is_none());
}

#[test]
fn a_second_propagation_replaces_the_context() {
    let first = context();
    let second = context();
    let mut album = nested_album();
    album.set_context(first.clone());
    album.set_context(second.clone());
    assert!(holds(&album.relationships.artists, &second));
    assert!(!holds(&album.relationships.artists, &first));
    let artist = &album.relationships.artists.as_ref().unwrap().data[0];
    assert!(holds(&artist.relationships.albums, &second));
}

#[test]
fn propagation_reaches_into_options_and_sequences() {
    let shared = context();
    let mut albums: Option<Vec<Album>> = Some(vec![nested_album(), nested_album()]);
    albums.set_context(shared.clone());
    for album in albums.as_ref().unwrap() {
        assert!(holds(&album.relationships.artists, &shared));
    }
    let mut nothing: Option<Album> = None;
    nothing.set_context(shared.clone());
    assert!(nothing.is_none());
    let mut empty: Vec<Album> = Vec::new();
    empty.set_context(shared);
    assert!(empty.is_empty());
}

#[test]
fn propagation_reaches_every_component_of_a_tuple() {
    let shared = context();
    let mut pair = (nested_album(), Some(Relationship::new(None, None, vec![Genre::default()])));
    pair.set_context(shared.clone());
    assert!(holds(&pair.0.relationships.artists, &shared));
    assert!(holds(&pair.1, &shared));
    let mut triple = (1u8, String::from("kept"), Relationship::new(None, None, vec![Song::default()]));
    triple.set_context(shared.clone());
    assert_eq!(triple.0, 1);
    assert_eq!(triple.1, "kept");
    assert!(Arc::ptr_eq(&triple.2.context.get().unwrap(), &shared));
    let mut single = (Relationship::new(None, None, vec![Song::default()]),);
    single.set_context(shared.clone());
    assert!(Arc::ptr_eq(&single.0.context.get().unwrap(), &shared));
}

#[test]
fn plain_values_are_left_as_they_are() {
    let shared = context();
    let mut values = (1u8, 2u16, 3u32, 4u64, -1i8, -2i16, -3i32, -4i64, true, String::from("s"), "t");
    values.set_context(shared);
    assert_eq!(values, (1u8, 2u16, 3u32, 4u64, -1i8, -2i16, -3i32, -4i64, true, String::from("s"), "t"));
}

#[test]
fn propagation_reaches_the_last_of_twelve_components() {
    let shared = context();
    let mut values = (
        1u8,
        2u16,
        3u32,
        4u64,
        5i8,
        6i16,
        7i32,
        8i64,
        false,
        String::from("ten"),
        "eleven",
        Some(vec![Relationship::new(None, None, vec![Genre::default()])]),
    );
    values.set_context(shared.clone());
    let last = &values.11.as_ref().unwrap()[0];
    assert!(Arc::ptr_eq(&last.context.get().unwrap(), &shared));
    assert_eq!(values.9, "ten");
    assert_eq!(values.10, "eleven");
}

#[test]
fn propagation_reaches_the_data_of_every_resource_variant() {
    let shared = context();
    let playlist = Playlist {
        header: ResourceHeader::default(),
        attributes: None,
        relationships: PlaylistRelationships {
            tracks: Some(Relationship::new(None, None, vec![Resource::Song { data: Song::default() }])),
            ..PlaylistRelationships::default()
        },
        views: PlaylistViews::default(),
    };
    let mut resources = vec![
        Resource::Album { data: nested_album() },
        Resource::Playlist { data: playlist },
        Resource::LibrarySong { data: LibrarySong::default() },
        Resource::Genre { data: Genre::default() },
    ];
    resources.set_context(shared.clone());
    match &resources[0] {
        Resource::Album { data } => assert!(holds(&data.relationships.artists, &shared)),
        _ => panic!("an album was expected"),
    }
    match &resources[1] {
        Resource::Playlist { data } => assert!(holds(&data.relationships.tracks, &shared)),
        _ => panic!("a playlist was expected"),
    }
    assert!(matches!(resources[2], Resource::LibrarySong { .. }));
    assert!(matches!(resources[3], Resource::Genre { .. }));
}

#[test]
fn search_results_get_the_context_in_every_relationship() {
    let shared = context();
    let mut results = CatalogSearchResults::default();
    results.albums.data.push(nested_album());
    results.set_context(shared.clone());
    for held in [
        results.activities.context.get(),
        results.albums.context.get(),
        results.apple_curators.context.get(),
        results.curators.context.get(),
        results.artists.context.get(),
        results.music_videos.context.get(),
        results.playlists.context.get(),
        results.record_labels.context.get(),
        results.songs.context.get(),
        results.stations.context.get(),
    ] {
        assert!(Arc::ptr_eq(&held.unwrap(), &shared));
    }
    assert!(holds(&results.albums.data[0].relationships.artists, &shared));

    let mut library = LibrarySearchResults::default();
    library.set_context(shared.clone());
    for held in [
        library.library_albums.context.get(),
        library.library_artists.context.get(),
        library.library_music_videos.context.get(),
        library.library_playlists.context.get(),
        library.library_songs.context.get(),
    ] {
        assert!(Arc::ptr_eq(&held.unwrap(), &shared));
    }
}

#[test]
fn any_two_context_slots_compare_equal() {
    let empty = ContextSlot::empty();
    let holding = ContextSlot::holding(context());
    assert!(empty == holding);
    assert!(empty.get().is_none());
    assert!(!empty.is_some());
    assert!(holding.is_some());
    let with = Relationship::new(None, None, vec![1u8]);
    let mut without = Relationship::new(None, None, vec![1u8]);
    without.set_context(context());
    assert_eq!(with, without);
}

#[test]
fn a_copy_of_a_resource_holds_the_same_data_and_context() {
    let shared = context();
    let mut album = nested_album();
    album.set_context(shared.clone());
    let copy = album.clone();
    assert_eq!(copy, album);
    assert!(holds(&copy.relationships.artists, &shared));
    let resource = Resource::Album { data: album };
    let copied = resource.clone();
    assert_eq!(copied, resource);
}

#[test]
fn a_copy_holds_a_copy_of_every_nested_item_with_its_context() {
    let shared = context();
    let mut album = nested_album();
    album.set_context(shared.clone());
    let copy = album.clone();
    assert_eq!(copy.header.id, "outer");
    assert_eq!(copy.header.href, "/albums/outer");
    let artists = copy.relationships.artists.as_ref().unwrap();
    assert_eq!(artists.data.len(), 2);
    assert_eq!(artists.data[0].header.id, "artist");
    let inner = artists.data[0].relationships.albums.as_ref().unwrap();
    assert_eq!(inner.data.len(), 2);
    assert_eq!(inner.data[0].header.id, "inner");
    let tracks = inner.data[0].relationships.tracks.as_ref().unwrap();
    assert_eq!(tracks.next.as_deref(), Some("/next"));
    assert_eq!(tracks.data.len(), 1);
    assert!(holds(&inner.data[0].relationships.tracks, &shared));
    assert!(view_holds(&artists.data[0].views.top_songs, &shared));
    let view = copy.views.other_versions.as_ref().unwrap();
    assert_eq!(view.attributes.title, "Other Versions");
    assert_eq!(view.href.as_deref(), Some("/view"));
    assert!(view_holds(&copy.views.other_versions, &shared));
    assert!(copy.relationships.genres.is_none());
}

#[test]
fn a_copy_of_what_holds_no_context_holds_none() {
    let album = nested_album();
    let copy = album.clone();
    assert!(!copy.relationships.artists.as_ref().unwrap().has_context());
    assert!(!copy.views.other_versions.as_ref().unwrap().has_context());
    let slot = ContextSlot::empty().clone();
    assert!(!slot.is_some());
    let shared = context();
    let slot = ContextSlot::holding(shared.clone()).clone();
    assert!(Arc::ptr_eq(&slot.get().unwrap(), &shared));
    let header = ResourceHeader { id: String::from("1"), href: String::from("/1") };
    assert_eq!(header.clone(), header);
}
