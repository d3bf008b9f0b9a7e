use am_api::request::context::RequestContext;
use am_api::request::extension::{ExtensionStorage, ExtensionTrait};
use am_api::request::fields::FieldSets;
use am_api::request::relationship::{RelationshipStorage, RelationshipTrait};
use am_api::request::view::{ViewStorage, ViewTrait};
use am_api::resource::catalog::album::{
    AlbumAttributesExtension, AlbumRelationshipType, AlbumViewType,
};
use am_api::resource::catalog::artist::{ArtistRelationshipType, ArtistViewType};
use am_api::resource::catalog::song::SongAttributesExtension;
use am_api::text::Named;
use am_api::Country;

fn empty_context() -> RequestContext {
    RequestContext { storefront: Country { alpha2: "US" }, query: Vec::new() }
}

fn pair(key: &str, value: &str) -> (String, String) {
    (key.to_string(), value.to_string())
}

#[test]
fn an_extension_added_twice_is_drained_once() {
    let mut storage = ExtensionStorage::default();
    storage.add_extension(AlbumAttributesExtension::ArtistUrl);
    storage.add_extension(AlbumAttributesExtension::ArtistUrl);
    let mut context = empty_context();
    storage.build_query_drain(&mut context);
    assert_eq!(context.query, vec![pair("extend[albums]", "artistUrl")]);
}

#[test]
fn an_extension_added_many_times_is_drained_as_if_added_once() {
    let mut once = ExtensionStorage::default();
    once.add_extension(SongAttributesExtension::AudioVariants);
    let mut context_once = empty_context();
    once.build_query_drain(&mut context_once);
    for times in 2..10 {
        let mut storage = ExtensionStorage::default();
        for _ in 0..times {
            storage.add_extension(SongAttributesExtension::AudioVariants);
        }
        let mut context = empty_context();
        storage.build_query_drain(&mut context);
        assert_eq!(context.query, context_once.query);
    }
    assert_eq!(context_once.query, vec![pair("extend[songs]", "audioVariants")]);
}

#[test]
fn two_extensions_of_one_object_are_joined_by_a_comma() {
    let mut storage = ExtensionStorage::default();
    storage.add_extension(SongAttributesExtension::ArtistUrl);
    storage.add_extension(SongAttributesExtension::AudioVariants);
    storage.add_extension(SongAttributesExtension::ArtistUrl);
    let mut context = empty_context();
    storage.build_query_drain(&mut context);
    assert_eq!(context.query, vec![pair("extend[songs]", "artistUrl,audioVariants")]);
}

#[test]
fn extensions_of_two_objects_are_drained_into_two_parameters() {
    let mut storage = ExtensionStorage::default();
    storage.add_extension(SongAttributesExtension::ArtistUrl);
    storage.add_extension(AlbumAttributesExtension::ArtistUrl);
    storage.add_extension(SongAttributesExtension::AudioVariants);
    let mut context = empty_context();
    storage.build_query_drain(&mut context);
    assert_eq!(
        context.query,
        vec![pair("extend[songs]", "artistUrl,audioVariants"), pair("extend[albums]", "artistUrl")]
    );
}

#[test]
fn draining_empties_the_storage() {
    let mut storage = ExtensionStorage::default();
    storage.add_extension(AlbumAttributesExtension::ArtistUrl);
    let mut context = empty_context();
    storage.build_query_drain(&mut context);
    storage.build_query_drain(&mut context);
    assert_eq!(context.query.len(), 1);
}

#[test]
fn draining_keeps_what_the_context_held() {
    let mut storage = ViewStorage::default();
    storage.add_view(AlbumViewType::AppearsOn);
    let mut context = empty_context();
    context.query.push(pair("l", "en-US"));
    storage.build_query_drain(&mut context);
    assert_eq!(context.query, vec![pair("l", "en-US"), pair("views[albums]", "appears-on")]);
    assert_eq!(context.storefront, Country { alpha2: "US" });
}

#[test]
fn an_empty_storage_drains_into_nothing() {
    let mut context = empty_context();
    ExtensionStorage::default().build_query_drain(&mut context);
    RelationshipStorage::default().build_query_drain(&mut context);
    ViewStorage::default().build_query_drain(&mut context);
    assert!(context.query.is_empty());
}

#[test]
fn an_eager_relationship_is_included() {
    let mut storage = RelationshipStorage::default();
    storage.add_relationship(AlbumRelationshipType::Tracks);
    storage.add_relationship(AlbumRelationshipType::Tracks);
    storage.add_relationship(AlbumRelationshipType::RecordLabels);
    let mut context = empty_context();
    storage.build_query_drain(&mut context);
    assert_eq!(context.query, vec![pair("include[albums]", "tracks,record-labels")]);
}

#[test]
fn a_lazy_relationship_is_related() {
    let mut storage = RelationshipStorage::default();
    storage.add_relationship_lazy(AlbumRelationshipType::Artists);
    storage.add_relationship_lazy(AlbumRelationshipType::Artists);
    let mut context = empty_context();
    storage.build_query_drain(&mut context);
    assert_eq!(context.query, vec![pair("relate[albums]", "artists")]);
}

#[test]
fn the_same_relation_eager_and_lazy_gives_two_parameters() {
    let mut storage = RelationshipStorage::default();
    storage.add_relationship(AlbumRelationshipType::Tracks);
    storage.add_relationship_lazy(AlbumRelationshipType::Tracks);
    storage.add_relationship(AlbumRelationshipType::Tracks);
    storage.add_relationship_lazy(AlbumRelationshipType::Tracks);
    let mut context = empty_context();
    storage.build_query_drain(&mut context);
    assert_eq!(
        context.query,
        vec![pair("include[albums]", "tracks"), pair("relate[albums]", "tracks")]
    );
}

#[test]
fn eager_and_lazy_relations_of_several_objects_stay_apart() {
    let mut storage = RelationshipStorage::default();
    storage.add_relationship_lazy(ArtistRelationshipType::Albums);
    storage.add_relationship(AlbumRelationshipType::Artists);
    storage.add_relationship(ArtistRelationshipType::Albums);
    storage.add_relationship_lazy(ArtistRelationshipType::MusicVideos);
    storage.add_relationship(AlbumRelationshipType::Genres);
    let mut context = empty_context();
    storage.build_query_drain(&mut context);
    assert_eq!(
        context.query,
        vec![
            pair("relate[artists]", "albums,music-videos"),
            pair("include[albums]", "artists,genres"),
            pair("include[artists]", "albums"),
        ]
    );
}

#[test]
fn views_are_drained_by_object() {
    let mut storage = ViewStorage::default();
    storage.add_view(ArtistViewType::TopSongs);
    storage.add_view(ArtistViewType::FeaturedAlbums);
    storage.add_view(ArtistViewType::TopSongs);
    storage.add_view(AlbumViewType::OtherVersions);
    let mut context = empty_context();
    storage.build_query_drain(&mut context);
    assert_eq!(
        context.query,
        vec![pair("views[artists]", "top-songs,featured-albums"), pair("views[albums]", "other-versions")]
    );
}

#[test]
fn field_sets_keep_lazy_and_eager_keys_apart() {
    let mut sets = FieldSets::new();
    sets.add("songs", false, String::from("1"));
    sets.add("songs", true, String::from("1"));
    sets.add("songs", false, String::from("2"));
    sets.add("albums", false, String::from("1"));
    sets.add("songs", false, String::from("1"));
    let mut query = Vec::new();
    sets.drain("ids", "lazy", &mut query);
    assert_eq!(
        query,
        vec![pair("ids[songs]", "1,2"), pair("lazy[songs]", "1"), pair("ids[albums]", "1")]
    );
    sets.drain("ids", "lazy", &mut query);
    assert_eq!(query.len(), 3);
}

#[test]
fn the_default_field_sets_are_empty() {
    let mut sets = FieldSets::default();
    let mut query = vec![pair("kept", "value")];
    sets.drain("a", "b", &mut query);
    assert_eq!(query, vec![pair("kept", "value")]);
}

#[test]
fn properties_name_their_object() {
    assert_eq!(AlbumAttributesExtension::ArtistUrl.get_object(), "albums");
    assert_eq!(AlbumRelationshipType::RecordLabels.get_object(), "albums");
    assert_eq!(AlbumViewType::RelatedVideos.get_object(), "albums");
    assert_eq!(ArtistViewType::SimilarArtists.get_object(), "artists");
    assert_eq!(SongAttributesExtension::AudioVariants.get_object(), "songs");
}

#[test]
fn properties_are_named_as_the_server_names_them() {
    assert_eq!(AlbumAttributesExtension::ArtistUrl.to_string(), "artistUrl");
    assert_eq!(SongAttributesExtension::AudioVariants.to_string(), "audioVariants");
    assert_eq!(AlbumRelationshipType::Artists.to_string(), "artists");
    assert_eq!(AlbumRelationshipType::Genres.to_string(), "genres");
    assert_eq!(AlbumRelationshipType::Tracks.to_string(), "tracks");
    assert_eq!(AlbumRelationshipType::Library.to_string(), "library");
    assert_eq!(AlbumRelationshipType::RecordLabels.to_string(), "record-labels");
    assert_eq!(AlbumViewType::AppearsOn.to_string(), "appears-on");
    assert_eq!(AlbumViewType::OtherVersions.to_string(), "other-versions");
    assert_eq!(AlbumViewType::RelatedAlbums.to_string(), "related-albums");
    assert_eq!(AlbumViewType::RelatedVideos.to_string(), "related-videos");
    assert_eq!(ArtistViewType::AppearsOnAlbums.to_string(), "appears-on-albums");
    assert_eq!(ArtistViewType::FeaturedMusicVideos.to_string(), "featured-music-videos");
    assert_eq!(ArtistViewType::Singles.to_string(), "singles");
    assert_eq!(ArtistRelationshipType::MusicVideos.to_string(), "music-videos");
}
