use am_api::primitive::TrackType;
use am_api::request::builder::MusicRequestBuilder;
use am_api::request::{is_success, try_resource_response, Answer, DEFAULT_FETCH_LIMIT};
use am_api::resource::catalog::activity::Activity;
use am_api::resource::catalog::album::{
    Album, AlbumAttributesExtension, AlbumRelationshipType, AlbumRelationships,
};
use am_api::resource::catalog::artist::Artist;
use am_api::resource::catalog::curator::{AppleCurator, Curator};
use am_api::resource::catalog::music_video::MusicVideo;
use am_api::resource::catalog::playlist::Playlist;
use am_api::resource::catalog::record_label::RecordLabel;
use am_api::resource::catalog::search::{CatalogSearch, CatalogSearchType, SuggestionKind};
use am_api::resource::catalog::song::Song;
use am_api::resource::catalog::station::{Station, StationGenre};
use am_api::resource::genre::Genre;
use am_api::resource::history::History;
use am_api::resource::library::album::LibraryAlbumGetRequestBuilder;
use am_api::resource::library::artist::LibraryArtistGetRequestBuilder;
use am_api::resource::library::music_video::LibraryMusicVideoGetRequestBuilder;
use am_api::resource::library::playlist::{
    LibraryPlaylist, LibraryPlaylistFolderGetRequestBuilder,
};
use am_api::resource::library::search::{LibrarySearchRequestBuilder, LibrarySearchType};
use am_api::resource::library::song::LibrarySongGetRequestBuilder;
use am_api::resource::personal_recommendation::PersonalRecommendation;
use am_api::resource::rating::{Rating, RatingType};
use am_api::resource::relationship::Relationship;
use am_api::resource::storefront::Storefront;
use am_api::resource::{ErrorResponse, MusicError, ResourceHeader, ResourceResponse};
use am_api::text::Named;
use am_api::{ApiClient, Country, Method, Request};

const API: &str = "https://api.music.apple.com";

fn client() -> ApiClient {
    ApiClient::new("developer", "user", Country { alpha2: "US" }).unwrap()
}

fn pair(key: &str, value: &str) -> (String, String) {
    (key.to_string(), value.to_string())
}

fn expect(request: &Request, method: Method, path: &str, query: &[(&str, &str)]) {
    assert_eq!(request.method, method);
    assert_eq!(request.url, format!("{}{}", API, path));
    let mut expected = vec![pair("art[url]", "f"), pair("l", "en-US")];
    expected.extend(query.iter().map(|(key, value)| pair(key, value)));
    assert_eq!(request.query, expected);
}

#[test]
fn fetch_one_album() {
    let fetch = Album::get().one(&client(), "1676791755");
    expect(&fetch.request, Method::Get, "/v1/catalog/us/albums/1676791755", &[]);
    assert_eq!(fetch.context.query, vec![pair("l", "en-US")]);
    assert_eq!(fetch.context.storefront, Country { alpha2: "US" });
}

#[test]
fn fetch_one_album_with_what_was_asked_for() {
    let fetch = Album::get()
        .extend(AlbumAttributesExtension::ArtistUrl)
        .include_eager(AlbumRelationshipType::Tracks)
        .one(&client(), "1676791755");
    expect(
        &fetch.request,
        Method::Get,
        "/v1/catalog/us/albums/1676791755",
        &[("extend[albums]", "artistUrl"), ("include[albums]", "tracks")],
    );
    assert_eq!(
        fetch.context.query,
        vec![pair("l", "en-US"), pair("extend[albums]", "artistUrl"), pair("include[albums]", "tracks")]
    );
}

#[test]
fn fetch_many_albums_by_id_or_by_upc() {
    let by_id = Album::get().many(&client(), &["1", "2", "3"], false);
    expect(&by_id.request, Method::Get, "/v1/catalog/us/albums", &[("ids", "1,2,3")]);
    let by_upc = Album::get().many(&client(), &["00602445790128"], true);
    expect(&by_upc.request, Method::Get, "/v1/catalog/us/albums", &[("filter[upc]", "00602445790128")]);
    assert_eq!(by_upc.context.query, vec![pair("l", "en-US"), pair("filter[upc]", "00602445790128")]);
    let none = Album::get().many(&client(), &[], false);
    expect(&none.request, Method::Get, "/v1/catalog/us/albums", &[("ids", "")]);
}

#[test]
fn the_storefront_of_a_catalog_path_is_written_in_lowercase() {
    let fetch = Song::get().override_storefront(Country { alpha2: "JP" }).one(&client(), "5");
    assert_eq!(fetch.request.url, format!("{}/v1/catalog/jp/songs/5", API));
    assert_eq!(fetch.context.storefront, Country { alpha2: "JP" });
    let mixed = Artist::get().override_storefront(Country { alpha2: "dE" }).one(&client(), "5");
    assert_eq!(mixed.request.url, format!("{}/v1/catalog/de/artists/5", API));
}

#[test]
fn fetch_songs_and_music_videos_by_id_or_by_isrc() {
    expect(&Song::get().one(&client(), "7").request, Method::Get, "/v1/catalog/us/songs/7", &[]);
    expect(&Song::get().many(&client(), &["7", "8"], false).request, Method::Get, "/v1/catalog/us/songs", &[("ids", "7,8")]);
    expect(&Song::get().many(&client(), &["USUM71900001"], true).request, Method::Get, "/v1/catalog/us/songs", &[("filter[isrc]", "USUM71900001")]);
    expect(&MusicVideo::get().one(&client(), "7").request, Method::Get, "/v1/catalog/us/music-videos/7", &[]);
    expect(&MusicVideo::get().many(&client(), &["7"], false).request, Method::Get, "/v1/catalog/us/music-videos", &[("ids", "7")]);
    expect(&MusicVideo::get().many(&client(), &["X", "Y"], true).request, Method::Get, "/v1/catalog/us/music-videos", &[("filter[isrc]", "X,Y")]);
}

#[test]
fn fetch_the_other_catalog_resources() {
    expect(&Activity::get().one(&client(), "a").request, Method::Get, "/v1/catalog/us/activities/a", &[]);
    expect(&Activity::get().many(&client(), &["a", "b"]).request, Method::Get, "/v1/catalog/us/activities", &[("ids", "a,b")]);
    expect(&Artist::get().one(&client(), "a").request, Method::Get, "/v1/catalog/us/artists/a", &[]);
    expect(&Artist::get().many(&client(), &["a"]).request, Method::Get, "/v1/catalog/us/artists", &[("ids", "a")]);
    expect(&AppleCurator::get().one(&client(), "a").request, Method::Get, "/v1/catalog/us/apple-curators/a", &[]);
    expect(&AppleCurator::get().main(&client(), &["a", "b"]).request, Method::Get, "/v1/catalog/us/apple-curators", &[("ids", "a,b")]);
    expect(&Curator::get().one(&client(), "a").request, Method::Get, "/v1/catalog/us/curators/a", &[]);
    expect(&Curator::get().many(&client(), &["a"]).request, Method::Get, "/v1/catalog/us/curators", &[("ids", "a")]);
    expect(&RecordLabel::get().one(&client(), "a").request, Method::Get, "/v1/catalog/us/record-labels/a", &[]);
    expect(&RecordLabel::get().many(&client(), &["a"]).request, Method::Get, "/v1/catalog/us/record-labels", &[("ids", "a")]);
    expect(&Genre::get().one(&client(), "a").request, Method::Get, "/v1/catalog/us/genres/a", &[]);
    expect(&Genre::get().many(&client(), &["a"]).request, Method::Get, "/v1/catalog/us/genres", &[("ids", "a")]);
}

#[test]
fn fetch_playlists_and_charts() {
    expect(&Playlist::get().one(&client(), "pl.1").request, Method::Get, "/v1/catalog/us/playlists/pl.1", &[]);
    expect(&Playlist::get().many(&client(), &["pl.1", "pl.2"]).request, Method::Get, "/v1/catalog/us/playlists", &[("ids", "pl.1,pl.2")]);
    expect(&Playlist::get().chart(&client(), "jp").request, Method::Get, "/v1/catalog/us/playlists", &[("filter[storefront-chart]", "jp")]);
}

#[test]
fn fetch_stations() {
    expect(&Station::get().one(&client(), "ra.1").request, Method::Get, "/v1/catalog/us/stations/ra.1", &[]);
    expect(&Station::get().many(&client(), &["ra.1"]).request, Method::Get, "/v1/catalog/us/stations", &[("ids", "ra.1")]);
    expect(&Station::get().live(&client()).request, Method::Get, "/v1/catalog/us/stations", &[("filter[featured]", "apple-music-live-radio")]);
    expect(&Station::get().personal(&client()).request, Method::Get, "/v1/catalog/us/stations", &[("filter[identity]", "personal")]);
    expect(&StationGenre::get().one(&client(), "g").request, Method::Get, "/v1/catalog/us/station-genres/g", &[]);
    expect(&StationGenre::get().many(&client(), &["g", "h"]).request, Method::Get, "/v1/catalog/us/station-genres", &[("ids", "g,h")]);
}

#[test]
fn paginated_catalog_endpoints_start_at_the_offset_with_the_limit() {
    let pages = StationGenre::get().all(&client(), DEFAULT_FETCH_LIMIT, 0);
    let request = pages.next_request(&client()).unwrap();
    expect(&request, Method::Get, "/v1/catalog/us/station-genres", &[("limit", "21"), ("offset", "0")]);
    let pages = Genre::get().top_charts(&client(), 5, 10);
    let request = pages.next_request(&client()).unwrap();
    expect(&request, Method::Get, "/v1/catalog/us/genres", &[("limit", "5"), ("offset", "10")]);
    assert_eq!(pages.offset(), 10);
    assert!(!pages.is_finished());
}

#[test]
fn the_default_limit_is_21() {
    assert_eq!(DEFAULT_FETCH_LIMIT, 21);
}

#[test]
fn history_is_paginated() {
    let request = |pages: am_api::request::paginated::Paginator<am_api::resource::Resource>| {
        pages.next_request(&client()).unwrap()
    };
    expect(&request(History::get().heavy_rotation(&client(), 10, 0)), Method::Get, "/v1/me/history/heavy-rotation", &[("limit", "10"), ("offset", "0")]);
    expect(&request(History::get().recently_played(&client(), 10, 3)), Method::Get, "/v1/me/recent/played", &[("limit", "10"), ("offset", "3")]);
    expect(
        &request(History::get().recently_played_tracks(&client(), &[TrackType::Song, TrackType::MusicVideo], 30, 0)),
        Method::Get,
        "/v1/me/recent/played/tracks",
        &[("limit", "30"), ("types", "songs,music-videos"), ("offset", "0")],
    );
    expect(&request(History::get().recently_played_stations(&client(), 1, 2)), Method::Get, "/v1/me/recent/radio-stations", &[("limit", "1"), ("offset", "2")]);
    expect(&request(History::get().recently_added_to_library(&client(), 1, 2)), Method::Get, "/v1/me/library/recently-added", &[("limit", "1"), ("offset", "2")]);
}

#[test]
fn library_resources_have_no_storefront_in_their_path() {
    let c = client();
    expect(&LibraryAlbumGetRequestBuilder::default().one(&c, "l.1").request, Method::Get, "/v1/me/library/albums/l.1", &[]);
    expect(&LibraryAlbumGetRequestBuilder::default().many(&c, &["l.1", "l.2"]).request, Method::Get, "/v1/me/library/albums", &[("ids", "l.1,l.2")]);
    expect(&LibraryAlbumGetRequestBuilder::default().all(&c, 21, 0).next_request(&c).unwrap(), Method::Get, "/v1/me/library/albums", &[("limit", "21"), ("offset", "0")]);
    expect(&LibraryArtistGetRequestBuilder::default().one(&c, "r.1").request, Method::Get, "/v1/me/library/artists/r.1", &[]);
    expect(&LibraryArtistGetRequestBuilder::default().all(&c, 21, 7).next_request(&c).unwrap(), Method::Get, "/v1/me/library/artists", &[("limit", "21"), ("offset", "7")]);
    expect(&LibraryMusicVideoGetRequestBuilder::default().one(&c, "v.1").request, Method::Get, "/v1/me/library/music-videos/v.1", &[]);
    expect(&LibraryMusicVideoGetRequestBuilder::default().many(&c, &["v.1"]).request, Method::Get, "/v1/me/library/music-videos", &[("ids", "v.1")]);
    expect(&LibraryMusicVideoGetRequestBuilder::default().all(&c, 2, 0).next_request(&c).unwrap(), Method::Get, "/v1/me/library/music-videos", &[("limit", "2"), ("offset", "0")]);
    expect(&LibrarySongGetRequestBuilder::default().one(&c, "i.1").request, Method::Get, "/v1/me/library/songs/i.1", &[]);
    expect(&LibrarySongGetRequestBuilder::default().many(&c, &["i.1"]).request, Method::Get, "/v1/me/library/songs", &[("ids", "i.1")]);
    expect(&LibrarySongGetRequestBuilder::default().all(&c, 2, 0).next_request(&c).unwrap(), Method::Get, "/v1/me/library/songs", &[("limit", "2"), ("offset", "0")]);
    expect(&LibraryPlaylist::get().one(&c, "p.1").request, Method::Get, "/v1/me/library/playlists/p.1", &[]);
    expect(&LibraryPlaylist::get().many(&c, &["p.1"]).request, Method::Get, "/v1/me/library/playlists", &[("ids", "p.1")]);
    expect(&LibraryPlaylist::get().all(&c, 2, 0).next_request(&c).unwrap(), Method::Get, "/v1/me/library/playlists", &[("limit", "2"), ("offset", "0")]);
    expect(&LibraryPlaylistFolderGetRequestBuilder::default().one(&c, "f.1").request, Method::Get, "/v1/me/library/playlist-folders/f.1", &[]);
    expect(&LibraryPlaylistFolderGetRequestBuilder::default().many(&c, &["f.1"]).request, Method::Get, "/v1/me/library/playlist-folders/", &[("ids", "f.1")]);
}

#[test]
fn many_library_artists_are_asked_for_where_the_artists_are() {
    let fetch = LibraryArtistGetRequestBuilder::default().many(&client(), &["r.1", "r.2"]);
    expect(&fetch.request, Method::Get, "/v1/me/library/artists", &[("ids", "r.1,r.2")]);
}

#[test]
fn recommendations() {
    let c = client();
    expect(&PersonalRecommendation::get().one(&c, "6-27s5hU6azhJY").request, Method::Get, "/v1/me/recommendations/6-27s5hU6azhJY", &[]);
    expect(&PersonalRecommendation::get().many(&c, &["a", "b"]).request, Method::Get, "/v1/me/recommendations", &[("ids", "a,b")]);
    expect(&PersonalRecommendation::get().default_recommendations(&c, 3, 1).next_request(&c).unwrap(), Method::Get, "/v1/me/recommendations", &[("limit", "3"), ("offset", "1")]);
}

#[test]
fn ratings_are_kept_by_type() {
    let c = client();
    expect(&Rating::get().one(&c, RatingType::Song, "1").request, Method::Get, "/v1/me/ratings/songs/1", &[]);
    expect(&Rating::get().one(&c, RatingType::LibraryMusicVideo, "1").request, Method::Get, "/v1/me/ratings/library-music-videos/1", &[]);
    expect(&Rating::get().many(&c, RatingType::Album, &["1", "2"]).request, Method::Get, "/v1/me/ratings/albums", &[("ids", "1,2")]);
    let names: Vec<String> = [
        RatingType::Album,
        RatingType::MusicVideo,
        RatingType::Playlist,
        RatingType::Song,
        RatingType::Station,
        RatingType::LibraryAlbum,
        RatingType::LibraryMusicVideo,
        RatingType::LibraryPlaylist,
        RatingType::LibrarySong,
    ]
    .iter()
    .map(|kind| kind.to_string())
    .collect();
    assert_eq!(
        names,
        vec![
            "albums", "music-videos", "playlists", "songs", "stations", "library-albums",
            "library-music-videos", "library-playlists", "library-songs",
        ]
    );
}

#[test]
fn storefronts_are_asked_for_by_their_code_in_lowercase() {
    let c = client();
    expect(&Storefront::get().one(&c, Country { alpha2: "US" }).request, Method::Get, "/v1/storefronts/us", &[]);
    expect(
        &Storefront::get().many(&c, &[Country { alpha2: "US" }, Country { alpha2: "JP" }, Country { alpha2: "de" }]).request,
        Method::Get,
        "/v1/storefronts",
        &[("ids", "us,jp,de")],
    );
    expect(&Storefront::get().many(&c, &[]).request, Method::Get, "/v1/storefronts", &[("ids", "")]);
    expect(&Storefront::get().all(&c, 21, 0).next_request(&c).unwrap(), Method::Get, "/v1/storefronts", &[("limit", "21"), ("offset", "0")]);
}

#[test]
fn the_catalog_is_searched_in_the_storefront_as_it_is_written() {
    let c = client();
    let fetch = CatalogSearch::search().search(&c, &[CatalogSearchType::Albums, CatalogSearchType::MusicVideos], "unrequited love");
    expect(&fetch.request, Method::Get, "/v1/catalog/US/search", &[("types", "albums,music-videos"), ("term", "unrequited+love")]);
    assert_eq!(
        fetch.context.query,
        vec![pair("l", "en-US"), pair("types", "albums,music-videos"), pair("term", "unrequited+love")]
    );
    let hints = CatalogSearch::search().search_hints(&c, "love song", 5);
    expect(&hints, Method::Get, "/v1/catalog/US/search/hints", &[("limit", "5"), ("term", "love+song")]);
    let suggestions = CatalogSearch::search().suggestions(
        &c,
        &[SuggestionKind::Terms, SuggestionKind::TopResults],
        &[CatalogSearchType::Songs],
        "love",
        10,
    );
    expect(
        &suggestions,
        Method::Get,
        "/v1/catalog/US/search/suggestions",
        &[("types", "songs"), ("kinds", "terms,topResults"), ("term", "love"), ("limit", "10")],
    );
}

#[test]
fn search_types_are_named_as_the_server_names_them() {
    let names: Vec<String> = [
        CatalogSearchType::Activities,
        CatalogSearchType::Albums,
        CatalogSearchType::AppleCurators,
        CatalogSearchType::Curators,
        CatalogSearchType::Artists,
        CatalogSearchType::MusicVideos,
        CatalogSearchType::Playlists,
        CatalogSearchType::RecordLabels,
        CatalogSearchType::Songs,
        CatalogSearchType::Stations,
    ]
    .iter()
    .map(|kind| kind.to_string())
    .collect();
    assert_eq!(
        names,
        vec![
            "activities", "albums", "apple-curators", "curators", "artists", "music-videos",
            "playlists", "record-labels", "songs", "stations",
        ]
    );
    assert_eq!(SuggestionKind::Terms.to_string(), "terms");
    assert_eq!(SuggestionKind::TopResults.to_string(), "topResults");
    let library: Vec<String> = [
        LibrarySearchType::LibraryAlbums,
        LibrarySearchType::LibraryArtists,
        LibrarySearchType::LibraryMusicVideos,
        LibrarySearchType::LibraryPlaylists,
        LibrarySearchType::LibrarySongs,
    ]
    .iter()
    .map(|kind| kind.to_string())
    .collect();
    assert_eq!(
        library,
        vec!["library-albums", "library-artists", "library-music-videos", "library-playlists", "library-songs"]
    );
}

#[test]
fn the_library_is_searched() {
    let fetch = LibrarySearchRequestBuilder::default().search(&client(), &[LibrarySearchType::LibrarySongs, LibrarySearchType::LibraryAlbums], "a b c");
    expect(&fetch.request, Method::Get, "/v1/me/library/search", &[("types", "library-songs,library-albums"), ("term", "a+b+c")]);
}

#[test]
fn the_first_resource_of_a_response_is_the_one() {
    let fetch = Genre::get().one(&client(), "34");
    let genre = |id: &str| Genre { header: ResourceHeader { id: id.to_string(), href: String::new() }, attributes: None };
    let found = fetch.finish(ResourceResponse { data: vec![genre("34"), genre("35")] });
    assert_eq!(found.unwrap().header.id, "34");
    let fetch = Genre::get().one(&client(), "34");
    assert!(fetch.finish(ResourceResponse { data: Vec::new() }).is_none());
}

#[test]
fn the_resources_of_a_response_keep_their_order() {
    let fetch = Genre::get().many(&client(), &["1", "2", "3"]);
    let genre = |id: &str| Genre { header: ResourceHeader { id: id.to_string(), href: String::new() }, attributes: None };
    let found = fetch.finish(ResourceResponse { data: vec![genre("3"), genre("1"), genre("2")] });
    let ids: Vec<&str> = found.iter().map(|genre| genre.header.id.as_str()).collect();
    assert_eq!(ids, vec!["3", "1", "2"]);
}

#[test]
fn what_comes_back_gets_the_context_of_the_request() {
    let fetch = Album::get().include_eager(AlbumRelationshipType::Artists).one(&client(), "1");
    let context = fetch.context.clone();
    let album = Album {
        relationships: AlbumRelationships {
            artists: Some(Relationship::new(None, Some(String::from("/next")), vec![Artist::default()])),
            ..AlbumRelationships::default()
        },
        ..Album::default()
    };
    let found = fetch.finish(ResourceResponse { data: vec![album] }).unwrap();
    let artists = found.relationships.artists.unwrap();
    let held = artists.context.get().unwrap();
    assert!(std::sync::Arc::ptr_eq(&held, &context));
    assert_eq!(held.query, vec![pair("l", "en-US"), pair("include[albums]", "artists")]);
    let results = CatalogSearch::search().search(&client(), &[], "x");
    let context = results.context.clone();
    let found = results.finish(am_api::resource::catalog::search::CatalogSearchResults::default());
    assert!(std::sync::Arc::ptr_eq(&found.songs.context.get().unwrap(), &context));
}

#[test]
fn statuses_from_200_to_299_are_successes() {
    assert!(is_success(200));
    assert!(is_success(201));
    assert!(is_success(204));
    assert!(is_success(299));
    assert!(!is_success(199));
    assert!(!is_success(300));
    assert!(!is_success(404));
    assert!(!is_success(500));
    assert!(!is_success(0));
    assert!(!is_success(u16::MAX));
}

#[test]
fn a_failure_is_surfaced_as_the_error_of_the_server() {
    let described = ErrorResponse {
        code: Some(40400),
        message: Some(String::from("Resource Not Found")),
        errors: vec![MusicError { id: String::from("X"), title: String::from("Resource Not Found"), detail: String::from("Resource with requested id was not found"), status: String::from("404"), code: String::from("40400") }],
    };
    let answer: Answer<ResourceResponse<Genre>> = Answer::Failure(described.clone());
    match try_resource_response(answer) {
        Err(am_api::error::ApiError::MusicError(error)) => assert_eq!(error, described),
        _ => panic!("the error of the server was expected"),
    }
    let answer = Answer::Success(ResourceResponse { data: vec![Genre::default()] });
    assert_eq!(try_resource_response(answer).unwrap().data.len(), 1);
}

#[test]
fn the_builder_of_a_resource_is_fresh() {
    let c = client();
    let mut builder: MusicRequestBuilder<'_, _> = Album::get();
    assert_eq!(builder.get_request_context_drain(&c).query, vec![pair("l", "en-US")]);
    let mut builder = Rating::add_rating();
    assert_eq!(builder.get_request_context_drain(&c).query, vec![pair("l", "en-US")]);
    let mut builder = Rating::remove_rating();
    assert_eq!(builder.get_request_context_drain(&c).query, vec![pair("l", "en-US")]);
}
