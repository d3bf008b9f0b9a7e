use am_api::error::ApiError;
use am_api::resource::artwork::{Artwork, ArtworkImageFormat, HexColor};
use am_api::resource::catalog::album::{Album, AlbumRelationshipType};
use am_api::resource::catalog::artist::Artist;
use am_api::resource::catalog::music_video::MusicVideo;
use am_api::resource::catalog::song::Song;
use am_api::resource::catalog::station::Station;
use am_api::resource::genre::Genre;
use am_api::resource::library::playlist::{LibraryPlaylist, LibraryPlaylistCreateBuilder};
use am_api::resource::library::song::LibrarySong;
use am_api::resource::library::music_video::LibraryMusicVideo;
use am_api::resource::library::album::LibraryAlbum;
use am_api::resource::library::LibraryAddResourceBuilder;
use am_api::resource::rating::{Rating, RatingPostRequestBuilder};
use am_api::resource::{Resource, ResourceHeader};
use am_api::{ApiClient, Country, Method};

fn client() -> ApiClient {
    ApiClient::new("developer", "user", Country { alpha2: "US" }).unwrap()
}

fn pair(key: &str, value: &str) -> (String, String) {
    (key.to_string(), value.to_string())
}

fn header(id: &str) -> ResourceHeader {
    ResourceHeader { id: id.to_string(), href: String::new() }
}

fn song(id: &str) -> Resource {
    Resource::Song { data: Song { header: header(id), ..Song::default() } }
}

fn album(id: &str) -> Resource {
    Resource::Album { data: Album { header: header(id), ..Album::default() } }
}

fn video(id: &str) -> Resource {
    Resource::MusicVideo { data: MusicVideo { header: header(id), ..MusicVideo::default() } }
}

fn library_song(id: &str) -> Resource {
    Resource::LibrarySong { data: LibrarySong { header: header(id), ..LibrarySong::default() } }
}

fn library_video(id: &str) -> Resource {
    Resource::LibraryMusicVideo { data: LibraryMusicVideo { header: header(id), ..LibraryMusicVideo::default() } }
}

#[test]
fn songs_and_videos_are_added_to_a_playlist_as_references() {
    let playlist = LibraryPlaylist { header: header("p.abc"), ..LibraryPlaylist::default() };
    let tracks = [song("1"), video("2"), library_song("i.3"), library_video("v.4")];
    let references: Vec<&Resource> = tracks.iter().collect();
    let submission = playlist.add_tracks(&client(), &references).unwrap();
    assert_eq!(submission.request.method, Method::Post);
    assert_eq!(submission.request.url, "https://api.music.apple.com/v1/me/library/playlists/p.abc/tracks");
    assert_eq!(submission.request.query, vec![pair("art[url]", "f"), pair("l", "en-US")]);
    let sent: Vec<(&str, &str)> =
        submission.body.data.iter().map(|thin| (thin.id.as_str(), thin.ty.as_str())).collect();
    assert_eq!(
        sent,
        vec![("1", "songs"), ("2", "music-videos"), ("i.3", "library-songs"), ("v.4", "library-music-videos")]
    );
}

#[test]
fn an_album_is_no_track_of_a_playlist() {
    let playlist = LibraryPlaylist { header: header("p.abc"), ..LibraryPlaylist::default() };
    let tracks = [song("1"), album("2"), song("3")];
    let references: Vec<&Resource> = tracks.iter().collect();
    assert!(matches!(playlist.add_tracks(&client(), &references), Err(ApiError::InvalidResourceType)));
    let only = [Resource::Genre { data: Genre::default() }];
    let references: Vec<&Resource> = only.iter().collect();
    assert!(matches!(playlist.add_tracks(&client(), &references), Err(ApiError::InvalidResourceType)));
}

#[test]
fn tracks_are_added_in_the_localization_of_the_client() {
    let mut client = client();
    client.set_localization("ja-JP");
    let playlist = LibraryPlaylist { header: header("p.abc"), ..LibraryPlaylist::default() };
    let tracks = [song("1")];
    let references: Vec<&Resource> = tracks.iter().collect();
    let submission = playlist.add_tracks(&client, &references).unwrap();
    assert_eq!(submission.request.query, vec![pair("art[url]", "f"), pair("l", "ja-JP")]);
}

#[test]
fn no_tracks_can_be_added_to_a_playlist() {
    let playlist = LibraryPlaylist { header: header("p.abc"), ..LibraryPlaylist::default() };
    let submission = playlist.add_tracks(&client(), &[]).unwrap();
    assert!(submission.body.data.is_empty());
}

#[test]
fn a_new_playlist_is_private_and_has_a_name_only() {
    let builder = LibraryPlaylist::create("Road trip");
    let submission = builder.create(&client());
    assert_eq!(submission.body.attributes.name, "Road trip");
    assert_eq!(submission.body.attributes.description, None);
    assert!(!submission.body.attributes.public);
    assert!(submission.body.relationships.tracks.is_none());
    assert!(submission.body.relationships.parent.is_none());
    assert_eq!(submission.request.request.method, Method::Post);
    assert_eq!(submission.request.request.url, "https://api.music.apple.com/v1/me/library/playlists");
    assert_eq!(submission.request.request.query, vec![pair("art[url]", "f"), pair("l", "en-US")]);
    assert_eq!(submission.request.context.query, vec![pair("l", "en-US")]);
}

#[test]
fn a_playlist_is_created_with_what_was_set() {
    let first = [song("1"), library_video("v.2")];
    let second = [video("3")];
    let builder = LibraryPlaylistCreateBuilder::new("Mix")
        .description("for the road")
        .public(true)
        .tracks(&first.iter().collect::<Vec<_>>())
        .unwrap()
        .parent_folder("f.parent")
        .tracks(&second.iter().collect::<Vec<_>>())
        .unwrap()
        .override_localization("fr-FR")
        .include_eager(am_api::resource::library::playlist::LibraryPlaylistRelationshipType::Tracks);
    let submission = builder.create(&client());
    let body = submission.body;
    assert_eq!(body.attributes.name, "Mix");
    assert_eq!(body.attributes.description.as_deref(), Some("for the road"));
    assert!(body.attributes.public);
    let tracks: Vec<(String, String)> =
        body.relationships.tracks.unwrap().data.into_iter().map(|thin| (thin.id, thin.ty)).collect();
    assert_eq!(
        tracks,
        vec![pair("1", "songs"), pair("v.2", "library-music-videos"), pair("3", "music-videos")]
    );
    let parent = body.relationships.parent.unwrap();
    assert_eq!(parent.data[0].id, "f.parent");
    assert_eq!(parent.data[0].ty, "library-playlist-folders");
    assert_eq!(
        submission.request.request.query,
        vec![pair("art[url]", "f"), pair("l", "fr-FR"), pair("include[library-playlists]", "tracks")]
    );
}

#[test]
fn a_playlist_cannot_be_created_with_an_artist_as_a_track() {
    let resources = [song("1"), Resource::Artist { data: Artist::default() }];
    let builder = LibraryPlaylist::create("Mix").tracks(&resources.iter().collect::<Vec<_>>());
    assert!(matches!(builder, Err(ApiError::InvalidResourceType)));
}

#[test]
fn an_empty_list_of_tracks_is_sent_as_an_empty_list() {
    let builder = LibraryPlaylist::create("Mix").tracks(&[]).unwrap();
    let submission = builder.create(&client());
    assert_eq!(submission.body.relationships.tracks.unwrap().data.len(), 0);
}

#[test]
fn catalog_resources_are_added_to_the_library_by_type() {
    let builder = LibraryAddResourceBuilder::new()
        .add_resource(&song("1"))
        .unwrap()
        .add_resource(&album("2"))
        .unwrap()
        .add_resource(&song("3"))
        .unwrap()
        .add_resource(&song("1"))
        .unwrap()
        .add_resource(&video("4"))
        .unwrap();
    let fetch = builder.send(&client());
    assert_eq!(fetch.request.method, Method::Post);
    assert_eq!(fetch.request.url, "https://api.music.apple.com/v1/me/library");
    assert_eq!(
        fetch.request.query,
        vec![
            pair("art[url]", "f"),
            pair("l", "en-US"),
            pair("representation", "ids"),
            pair("ids[songs]", "1,3"),
            pair("ids[albums]", "2"),
            pair("ids[music-videos]", "4"),
        ]
    );
    assert_eq!(fetch.context.query, fetch.request.query[1..].to_vec());
}

#[test]
fn library_resources_cannot_be_added_to_the_library() {
    assert!(matches!(LibraryAddResourceBuilder::new().add_resource(&library_song("i.1")), Err(ApiError::InvalidResourceType)));
    let station = Resource::Station { data: Station::default() };
    assert!(matches!(LibraryAddResourceBuilder::new().add_resource(&station), Err(ApiError::InvalidResourceType)));
    let artist = Resource::Artist { data: Artist { header: header("9"), ..Artist::default() } };
    let fetch = LibraryAddResourceBuilder::new().add_resource(&artist).unwrap().send(&client());
    assert_eq!(fetch.request.query.last().unwrap(), &pair("ids[artists]", "9"));
}

#[test]
fn a_rating_is_put_under_the_type_and_the_id_of_the_resource() {
    let fetch = Rating::add_rating().add_rating(&client(), &song("1676791755")).unwrap();
    assert_eq!(fetch.request.method, Method::Put);
    assert_eq!(fetch.request.url, "https://api.music.apple.com/v1/me/ratings/songs/1676791755");
    assert_eq!(fetch.request.query, vec![pair("art[url]", "f"), pair("l", "en-US")]);
    let request = Rating::remove_rating().remove_rating(&client(), &library_song("i.7")).unwrap();
    assert_eq!(request.method, Method::Delete);
    assert_eq!(request.url, "https://api.music.apple.com/v1/me/ratings/library-songs/i.7");
    assert_eq!(request.query, vec![pair("art[url]", "f"), pair("l", "en-US")]);
}

#[test]
fn a_genre_cannot_be_rated() {
    let genre = Resource::Genre { data: Genre::default() };
    assert!(matches!(Rating::add_rating().add_rating(&client(), &genre), Err(ApiError::InvalidResourceType)));
    assert!(matches!(Rating::remove_rating().remove_rating(&client(), &genre), Err(ApiError::InvalidResourceType)));
    assert!(matches!(RatingPostRequestBuilder::check_supported(&genre), Err(ApiError::InvalidResourceType)));
    let artist = Resource::Artist { data: Artist::default() };
    assert!(RatingPostRequestBuilder::check_supported(&artist).is_err());
}

#[test]
fn what_can_be_rated() {
    let rated = [
        album("1"),
        video("1"),
        song("1"),
        Resource::Station { data: Station::default() },
        Resource::LibraryAlbum { data: LibraryAlbum::default() },
        library_video("1"),
        Resource::LibraryPlaylist { data: LibraryPlaylist::default() },
        library_song("1"),
    ];
    for resource in &rated {
        assert!(RatingPostRequestBuilder::check_supported(resource).is_ok());
    }
}

#[test]
fn an_asked_relationship_goes_out_with_a_rating() {
    let fetch = Rating::add_rating()
        .include_eager(AlbumRelationshipType::Tracks)
        .add_rating(&client(), &album("5"))
        .unwrap();
    assert_eq!(fetch.request.url, "https://api.music.apple.com/v1/me/ratings/albums/5");
    assert_eq!(fetch.request.query.last().unwrap(), &pair("include[albums]", "tracks"));
}

#[test]
fn the_url_of_an_image_is_rendered_from_the_template() {
    let artwork = Artwork {
        width: 3000,
        height: 3000,
        url: String::from("https://is1-ssl.mzstatic.com/image/thumb/x.jpg/{w}x{h}bb.{f}"),
        ..Artwork::default()
    };
    assert_eq!(
        artwork.get_image_url(100, 200, ArtworkImageFormat::Jpeg).unwrap(),
        "https://is1-ssl.mzstatic.com/image/thumb/x.jpg/100x200bb.jpg"
    );
    assert_eq!(
        artwork.get_image_url(1, 1, ArtworkImageFormat::Png).unwrap(),
        "https://is1-ssl.mzstatic.com/image/thumb/x.jpg/1x1bb.png"
    );
    assert_eq!(
        artwork.get_image_url(640, 480, ArtworkImageFormat::Webp).unwrap(),
        "https://is1-ssl.mzstatic.com/image/thumb/x.jpg/640x480bb.webp"
    );
}

#[test]
fn a_template_without_placeholders_is_the_url() {
    let artwork = Artwork { url: String::from("https://example.com/a.png"), ..Artwork::default() };
    assert_eq!(artwork.get_image_url(10, 10, ArtworkImageFormat::Png).unwrap(), "https://example.com/a.png");
}

#[test]
fn a_malformed_template_is_an_error() {
    let artwork = Artwork { url: String::from("https://example.com/{w"), ..Artwork::default() };
    assert!(matches!(artwork.get_image_url(10, 10, ArtworkImageFormat::Png), Err(ApiError::TinyTemplate(_))));
    let unknown = Artwork { url: String::from("https://example.com/{q}"), ..Artwork::default() };
    assert!(matches!(unknown.get_image_url(10, 10, ArtworkImageFormat::Png), Err(ApiError::TinyTemplate(_))));
}

#[test]
fn image_formats_have_their_file_endings() {
    assert_eq!(ArtworkImageFormat::Png.get_format_string(), "png");
    assert_eq!(ArtworkImageFormat::Webp.get_format_string(), "webp");
    assert_eq!(ArtworkImageFormat::Jpeg.get_format_string(), "jpg");
}

#[test]
fn a_rendered_url_is_handed_on() {
    assert_eq!(Artwork::image_url(Ok(String::from("https://x"))).unwrap(), "https://x");
}

#[test]
fn a_color_is_its_number() {
    let color = HexColor::from(0xff00aa);
    assert_eq!(u32::from(color), 0xff00aa);
    assert_eq!(*color.as_ref(), 0xff00aa);
    assert_eq!(color, HexColor(0xff00aa));
    assert!(HexColor(1) < HexColor(2));
}

#[test]
fn errors_are_made_from_the_errors_of_the_crates() {
    let json = serde_json::from_str::<serde_json::Value>("{").unwrap_err();
    assert!(matches!(ApiError::from(json), ApiError::Json(_)));
    let header = reqwest::header::HeaderValue::from_str("\n").unwrap_err();
    assert!(matches!(ApiError::from(header), ApiError::InvalidHeaderValue(_)));
    let mut templates = tinytemplate::TinyTemplate::new();
    let template = templates.add_template("t", "{").unwrap_err();
    assert!(matches!(ApiError::from(template), ApiError::TinyTemplate(_)));
    let request = reqwest::Client::new().get("no location").build().unwrap_err();
    assert!(matches!(ApiError::from(request), ApiError::Reqwest(_)));
}

#[test]
fn odd_templates_are_rendered_or_refused() {
    let templates = [
        "", "{", "}", "{{", "}}", "{}", "{ w }", "{w | unknown}", "{w | unescaped}", "{@index}",
        "{@root}", "{@last}", "{{ for x in w }}{x}{{ endfor }}", "{{ for x in w }}", "{{ endfor }}",
        "{{ endif }}", "{{ else }}", "{{ if w }}a", "{{ if w }}a{{ else }}b{{ endif }}",
        "{{ if not f }}a{{ endif }}", "{w.x}", "{w.x.y}", "\\{w}", "\\{", "{# comment #}", "{#",
        "{{ call t with w }}", "{{ call url with @root }}", "{{- if w -}} a {{- endif -}}",
        "\u{e9}{w}\u{4f7f}{h}", "{w}{h}{f}{w}{h}{f}", "{ w", "{{ if w", "{{ for }}", "{{ unknown }}",
        "{f | unescaped}x{h}", "{@index}{w}", "{{ if @last }}a{{ endif }}",
    ];
    let mut rendered = 0;
    let mut refused = 0;
    for template in templates {
        let artwork = Artwork { url: String::from(template), ..Artwork::default() };
        match artwork.get_image_url(3, 4, ArtworkImageFormat::Png) {
            Ok(_) => rendered += 1,
            Err(ApiError::TinyTemplate(_)) => refused += 1,
            Err(_) => panic!("another error than that of the template"),
        }
    }
    assert_eq!(rendered + refused, templates.len());
    assert!(rendered > 0);
    assert!(refused > 0);
}

#[test]
fn the_text_of_a_template_is_kept_as_it_is() {
    let artwork = Artwork { url: String::from("{f}&{w}"), ..Artwork::default() };
    assert_eq!(artwork.get_image_url(1, 2, ArtworkImageFormat::Jpeg).unwrap(), "jpg&1");
}

#[test]
fn a_template_that_ends_in_a_backslash_is_refused() {
    for template in ["a\\", "\\", "https://example.com/{w}\\", "a\\{w}", "\\{"] {
        let artwork = Artwork { url: String::from(template), ..Artwork::default() };
        assert!(!Artwork::is_plain_template(template));
        assert!(matches!(
            artwork.get_image_url(1, 2, ArtworkImageFormat::Png),
            Err(ApiError::TinyTemplate(_))
        ));
    }
}

#[test]
fn a_template_with_a_comment_is_refused() {
    for template in ["{#}", "{# c #}", "a{#}", "{#", "{w}{#}{h}"] {
        let artwork = Artwork { url: String::from(template), ..Artwork::default() };
        assert!(!Artwork::is_plain_template(template));
        assert!(matches!(
            artwork.get_image_url(1, 2, ArtworkImageFormat::Png),
            Err(ApiError::TinyTemplate(_))
        ));
    }
}

#[test]
fn a_template_with_a_block_is_refused() {
    let templates = [
        "{{if not}}", "{{if not\u{e9}}}", "{{ if w }}a{{ endif }}", "{{", "a{{b", "{{ endif }}",
        "{w}{{ else }}",
    ];
    for template in templates {
        let artwork = Artwork { url: String::from(template), ..Artwork::default() };
        assert!(!Artwork::is_plain_template(template));
        assert!(matches!(
            artwork.get_image_url(1, 2, ArtworkImageFormat::Png),
            Err(ApiError::TinyTemplate(_))
        ));
    }
}

#[test]
fn text_and_values_in_single_braces_make_a_plain_template() {
    let templates = [
        "", "a", "{w}", "{w}x{h}bb.{f}", "https://example.com/{w}x{h}bb.{f}", "{ w }", "}{", "}}",
        "#{w}", "{w}#", "{ {w} }", "{", "{w", "{@index}", "{w | unescaped}", "a{b}{c}{d", "{-w-}",
        "\u{e9}{w}\u{4f7f}", "{}", "{.}", "{w.0}", "{|}", "{w|}",
    ];
    for template in templates {
        assert!(Artwork::is_plain_template(template));
        let artwork = Artwork { url: String::from(template), ..Artwork::default() };
        match artwork.get_image_url(3, 4, ArtworkImageFormat::Webp) {
            Ok(_) => {}
            Err(ApiError::TinyTemplate(_)) => {}
            Err(_) => panic!("another error than that of the template"),
        }
    }
}

#[test]
fn the_width_stands_for_w_the_height_for_h_and_the_format_for_f() {
    let artwork = Artwork { url: String::from("{f}/{h}/{w}/{w}"), ..Artwork::default() };
    assert_eq!(artwork.get_image_url(10, 20, ArtworkImageFormat::Jpeg).unwrap(), "jpg/20/10/10");
}
