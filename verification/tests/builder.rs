use am_api::request::builder::MusicRequestBuilder;
use am_api::resource::catalog::album::{
    Album, AlbumAttributesExtension, AlbumRelationshipType, AlbumRequestBuilder, AlbumViewType,
};
use am_api::resource::catalog::artist::{Artist, ArtistRelationshipType};
use am_api::{ApiClient, Country};

fn client() -> ApiClient {
    ApiClient::new("developer", "user", Country { alpha2: "US" }).unwrap()
}

fn pair(key: &str, value: &str) -> (String, String) {
    (key.to_string(), value.to_string())
}

#[test]
fn a_fresh_builder_drains_into_the_localization_alone() {
    let mut builder = Album::get();
    let context = builder.get_request_context_drain(&client());
    assert_eq!(context.query, vec![pair("l", "en-US")]);
    assert_eq!(context.storefront, Country { alpha2: "US" });
}

#[test]
fn an_extension_twice_and_a_relationship_once() {
    let mut builder = Album::get()
        .extend(AlbumAttributesExtension::ArtistUrl)
        .extend(AlbumAttributesExtension::ArtistUrl)
        .include_eager(AlbumRelationshipType::Tracks);
    let context = builder.get_request_context_drain(&client());
    assert_eq!(
        context.query,
        vec![
            pair("l", "en-US"),
            pair("extend[albums]", "artistUrl"),
            pair("include[albums]", "tracks"),
        ]
    );
}

#[test]
fn extensions_come_before_relationships_and_views_last() {
    let mut builder = Album::get()
        .view(AlbumViewType::AppearsOn)
        .include_lazy(AlbumRelationshipType::Artists)
        .include_eager(AlbumRelationshipType::Tracks)
        .extend(AlbumAttributesExtension::ArtistUrl)
        .view(AlbumViewType::RelatedAlbums);
    let context = builder.get_request_context_drain(&client());
    assert_eq!(
        context.query,
        vec![
            pair("l", "en-US"),
            pair("extend[albums]", "artistUrl"),
            pair("relate[albums]", "artists"),
            pair("include[albums]", "tracks"),
            pair("views[albums]", "appears-on,related-albums"),
        ]
    );
}

#[test]
fn an_override_wins_over_the_client() {
    let mut builder = Album::get()
        .override_storefront(Country { alpha2: "JP" })
        .override_localization("ja-JP");
    let context = builder.get_request_context_drain(&client());
    assert_eq!(context.storefront, Country { alpha2: "JP" });
    assert_eq!(context.query, vec![pair("l", "ja-JP")]);
}

#[test]
fn the_last_override_wins() {
    let mut builder = Album::get()
        .override_storefront(Country { alpha2: "JP" })
        .override_storefront(Country { alpha2: "FR" })
        .override_localization("ja-JP")
        .override_localization("fr-FR");
    let context = builder.get_request_context_drain(&client());
    assert_eq!(context.storefront, Country { alpha2: "FR" });
    assert_eq!(context.query, vec![pair("l", "fr-FR")]);
}

#[test]
fn the_localization_of_the_client_is_used_without_an_override() {
    let mut client = client();
    client.set_localization("de-DE");
    let mut builder = Artist::get().include_eager(ArtistRelationshipType::Albums);
    let context = builder.get_request_context_drain(&client);
    assert_eq!(context.query, vec![pair("l", "de-DE"), pair("include[artists]", "albums")]);
}

#[test]
fn a_drained_builder_asks_for_nothing_any_more() {
    let mut builder = Album::get()
        .override_localization("ja-JP")
        .extend(AlbumAttributesExtension::ArtistUrl)
        .include_eager(AlbumRelationshipType::Tracks)
        .view(AlbumViewType::AppearsOn);
    let first = builder.get_request_context_drain(&client());
    assert_eq!(first.query.len(), 4);
    let second = builder.get_request_context_drain(&client());
    assert_eq!(second.query, vec![pair("l", "ja-JP")]);
}

#[test]
fn the_default_builder_is_fresh() {
    let mut builder: MusicRequestBuilder<'_, AlbumRequestBuilder> = MusicRequestBuilder::default();
    let context = builder.get_request_context_drain(&client());
    assert_eq!(context.query, vec![pair("l", "en-US")]);
}

#[test]
fn data_is_carried_by_the_builder() {
    let builder: MusicRequestBuilder<'_, AlbumRequestBuilder, u32> =
        MusicRequestBuilder::with_data(7);
    let builder = builder.override_localization("fr-FR").view(AlbumViewType::AppearsOn);
    let (rest, data) = builder.split();
    assert_eq!(data, 7);
    let mut builder = rest.carrying(String::from("body"));
    let context = builder.get_request_context_drain(&client());
    assert_eq!(context.query, vec![pair("l", "fr-FR"), pair("views[albums]", "appears-on")]);
    let (_, data) = builder.split();
    assert_eq!(data, "body");
}
