use am_api::request::context::{ContextContainer, RequestContext};
use am_api::resource::attributes::TitleOnlyAttribute;
use am_api::resource::catalog::album::Album;
use am_api::resource::catalog::song::{Song, SongRelationships};
use am_api::resource::relationship::Relationship;
use am_api::resource::view::View;
use am_api::resource::{Resource, ResourceHeader};
use am_api::{ApiClient, Country, Method};
use std::sync::Arc;

fn client() -> ApiClient {
    ApiClient::new("developer", "user", Country { alpha2: "US" }).unwrap()
}

fn pair(key: &str, value: &str) -> (String, String) {
    (key.to_string(), value.to_string())
}

fn context() -> Arc<RequestContext> {
    Arc::new(RequestContext {
        storefront: Country { alpha2: "US" },
        query: vec![pair("l", "en-US"), pair("include[albums]", "tracks")],
    })
}

fn song(id: &str) -> Song {
    Song {
        header: ResourceHeader { id: id.to_string(), href: format!("/v1/catalog/us/songs/{}", id) },
        relationships: SongRelationships {
            albums: Some(Relationship::new(None, None, vec![Album::default()])),
            ..SongRelationships::default()
        },
        ..Song::default()
    }
}

fn track(id: &str) -> Resource {
    Resource::Song { data: song(id) }
}

fn id_of(resource: &Resource) -> &str {
    match resource {
        Resource::Song { data } => &data.header.id,
        _ => panic!("a song was expected"),
    }
}

#[test]
fn a_decoded_relationship_has_no_context() {
    let relationship = Relationship::new(None, None, vec![track("1")]);
    assert!(!relationship.has_context());
    assert!(relationship.context.get().is_none());
    assert!(!Relationship::<Resource>::default().has_context());
    let view = View::new(None, None, TitleOnlyAttribute::default(), vec![song("1")]);
    assert!(!view.has_context());
}

#[test]
fn propagation_gives_a_relationship_its_context() {
    let mut relationship = Relationship::new(None, None, vec![track("1")]);
    let shared = context();
    relationship.set_context(shared.clone());
    assert!(relationship.has_context());
    assert!(Arc::ptr_eq(&relationship.context.get().unwrap(), &shared));
}

#[test]
fn three_fetched_items_then_the_cursor_then_the_end() {
    let shared = context();
    let cursor = "/catalog/us/albums/X/tracks?offset=10";
    let mut relationship = Relationship::new(
        Some(String::from("/catalog/us/albums/X/tracks")),
        Some(String::from(cursor)),
        vec![track("1"), track("2"), track("3")],
    );
    relationship.set_context(shared.clone());

    let mut walk = relationship.iter(&client());
    let mut seen = Vec::new();
    let mut requests = Vec::new();

    let page = walk.advance(&client());
    seen.extend(page.items);
    assert_eq!(seen.len(), 3);
    let request = page.next.unwrap();
    assert_eq!(request.method, Method::Get);
    assert_eq!(request.url, format!("https://api.music.apple.com{}", cursor));
    assert_eq!(
        request.query,
        vec![pair("art[url]", "f"), pair("l", "en-US"), pair("include[albums]", "tracks")]
    );
    requests.push(request);

    walk.receive(Relationship::new(None, None, vec![track("4"), track("5")]));
    let page = walk.advance(&client());
    seen.extend(page.items);
    assert!(page.next.is_none());

    let ids: Vec<&str> = seen.iter().map(id_of).collect();
    assert_eq!(ids, vec!["1", "2", "3", "4", "5"]);
    assert_eq!(requests.len(), 1);
    assert_eq!(relationship.data.len(), 3);
}

#[test]
fn the_cursor_is_followed_until_a_page_has_none() {
    let mut relationship =
        Relationship::new(None, Some(String::from("/next/1")), vec![track("a")]);
    relationship.set_context(context());
    let mut walk = relationship.iter(&client());
    let pages = vec![
        Relationship::new(None, Some(String::from("/next/2")), vec![track("b"), track("c")]),
        Relationship::new(None, Some(String::from("/next/3")), Vec::new()),
        Relationship::new(None, None, vec![track("d")]),
    ];
    let mut urls = Vec::new();
    let mut ids = Vec::new();
    let mut pages = pages.into_iter();
    loop {
        let page = walk.advance(&client());
        for item in &page.items {
            ids.push(id_of(item).to_string());
        }
        match page.next {
            Some(request) => {
                urls.push(request.url);
                walk.receive(pages.next().unwrap());
            }
            None => break,
        }
    }
    assert_eq!(ids, vec!["a", "b", "c", "d"]);
    assert_eq!(
        urls,
        vec![
            "https://api.music.apple.com/next/1",
            "https://api.music.apple.com/next/2",
            "https://api.music.apple.com/next/3",
        ]
    );
    assert!(pages.next().is_none());
}

#[test]
fn a_relationship_without_a_cursor_hands_out_its_items_and_ends() {
    let mut relationship = Relationship::new(None, None, vec![track("1"), track("2")]);
    relationship.set_context(context());
    let mut walk = relationship.iter(&client());
    let page = walk.advance(&client());
    assert_eq!(page.items.len(), 2);
    assert!(page.next.is_none());
    let again = walk.advance(&client());
    assert!(again.items.is_empty());
    assert!(again.next.is_none());
}

#[test]
fn an_empty_relationship_ends_at_once() {
    let mut relationship = Relationship::<Resource>::default();
    relationship.set_context(context());
    let mut walk = relationship.iter(&client());
    let page = walk.advance(&client());
    assert!(page.items.is_empty());
    assert!(page.next.is_none());
}

#[test]
fn every_item_is_handed_out_with_the_context_of_the_relationship() {
    let shared = context();
    let mut relationship = Relationship::new(None, Some(String::from("/next")), vec![track("1")]);
    relationship.set_context(shared.clone());
    let mut walk = relationship.iter(&client());
    let first = walk.advance(&client());
    walk.receive(Relationship::new(None, None, vec![track("2")]));
    let second = walk.advance(&client());
    for item in first.items.iter().chain(second.items.iter()) {
        match item {
            Resource::Song { data } => {
                let albums = data.relationships.albums.as_ref().unwrap();
                assert!(Arc::ptr_eq(&albums.context.get().unwrap(), &shared));
            }
            _ => panic!("a song was expected"),
        }
    }
}

#[test]
fn a_view_is_walked_like_a_relationship() {
    let shared = context();
    let title = TitleOnlyAttribute { title: String::from("Top Songs") };
    let mut view =
        View::new(None, Some(String::from("/v1/catalog/us/artists/1/view/top-songs?offset=2")), title.clone(), vec![song("1"), song("2")]);
    view.set_context(shared.clone());
    assert!(view.has_context());
    let mut walk = view.iter(&client());
    let page = walk.advance(&client());
    assert_eq!(page.items.len(), 2);
    let request = page.next.unwrap();
    assert_eq!(
        request.url,
        "https://api.music.apple.com/v1/catalog/us/artists/1/view/top-songs?offset=2"
    );
    assert_eq!(request.query.len(), 3);
    walk.receive(View::new(None, None, title, vec![song("3")]));
    let page = walk.advance(&client());
    assert_eq!(page.items.len(), 1);
    assert_eq!(page.items[0].header.id, "3");
    let albums = page.items[0].relationships.albums.as_ref().unwrap();
    assert!(Arc::ptr_eq(&albums.context.get().unwrap(), &shared));
    assert!(page.next.is_none());
    assert_eq!(view.attributes.title, "Top Songs");
}

#[test]
fn a_relationship_that_is_used_up_hands_out_its_own_items() {
    let shared = context();
    let mut relationship =
        Relationship::new(None, Some(String::from("/next")), vec![track("1"), track("2")]);
    relationship.set_context(shared.clone());
    let mut walk = relationship.into_walk(&client());
    let page = walk.advance(&client());
    let ids: Vec<&str> = page.items.iter().map(id_of).collect();
    assert_eq!(ids, vec!["1", "2"]);
    assert_eq!(page.next.unwrap().url, "https://api.music.apple.com/next");

    let mut view = View::new(None, None, TitleOnlyAttribute::default(), vec![song("3")]);
    view.set_context(shared);
    let mut walk = view.into_walk(&client());
    let page = walk.advance(&client());
    assert_eq!(page.items[0].header.id, "3");
    assert!(page.next.is_none());
}
