use am_api::request::context::{ContextContainer, RequestContext};
use am_api::request::paginated::{paginate, Paginator};
use am_api::resource::catalog::album::{Album, AlbumRelationships};
use am_api::resource::catalog::artist::Artist;
use am_api::resource::genre::Genre;
use am_api::resource::relationship::Relationship;
use am_api::resource::{ResourceHeader, ResourceResponse};
use am_api::{ApiClient, Country, Method};
use std::sync::Arc;

fn client() -> ApiClient {
    ApiClient::new("developer", "user", Country { alpha2: "US" }).unwrap()
}

fn pair(key: &str, value: &str) -> (String, String) {
    (key.to_string(), value.to_string())
}

fn base() -> RequestContext {
    RequestContext {
        storefront: Country { alpha2: "US" },
        query: vec![pair("l", "en-US"), pair("limit", "21")],
    }
}

fn genres(from: usize, count: usize) -> ResourceResponse<Genre> {
    let data = (from..from + count)
        .map(|n| Genre {
            header: ResourceHeader { id: n.to_string(), href: format!("/genres/{}", n) },
            attributes: None,
        })
        .collect();
    ResourceResponse { data }
}

fn offset_of(paginator: &Paginator<Genre>) -> Option<String> {
    let request = paginator.next_request(&client())?;
    let (key, value) = request.query.last().unwrap().clone();
    assert_eq!(key, "offset");
    Some(value)
}

#[test]
fn pages_of_21_21_5_and_0_items() {
    let mut paginator = paginate::<Genre>(String::from("/v1/catalog/us/genres"), base(), 0);
    let sizes = [21usize, 21, 5, 0];
    let mut offsets = Vec::new();
    let mut items = Vec::new();
    let mut calls = 0;
    let mut served = 0;
    while let Some(offset) = offset_of(&paginator) {
        offsets.push(offset);
        let page = genres(served, sizes[calls]);
        served += sizes[calls];
        calls += 1;
        assert!(paginator.can_receive(page.data.len()));
        items.extend(paginator.receive(page));
    }
    assert_eq!(calls, 4);
    assert_eq!(offsets, vec!["0", "21", "42", "47"]);
    assert_eq!(items.len(), 47);
    let ids: Vec<String> = items.iter().map(|genre| genre.header.id.clone()).collect();
    let expected: Vec<String> = (0..47).map(|n: usize| n.to_string()).collect();
    assert_eq!(ids, expected);
    assert!(paginator.is_finished());
    assert_eq!(paginator.offset(), 47);
    assert!(paginator.next_request(&client()).is_none());
}

#[test]
fn the_offset_moves_on_by_what_was_received_not_by_the_limit() {
    let mut paginator = paginate::<Genre>(String::from("/v1/catalog/us/genres"), base(), 100);
    assert_eq!(offset_of(&paginator).unwrap(), "100");
    paginator.receive(genres(0, 3));
    assert_eq!(offset_of(&paginator).unwrap(), "103");
    paginator.receive(genres(3, 1));
    assert_eq!(offset_of(&paginator).unwrap(), "104");
    paginator.receive(genres(4, 30));
    assert_eq!(offset_of(&paginator).unwrap(), "134");
    assert!(!paginator.is_finished());
}

#[test]
fn an_empty_first_page_ends_the_pagination_after_one_request() {
    let mut paginator = paginate::<Genre>(String::from("/v1/storefronts"), base(), 5);
    assert!(!paginator.is_finished());
    assert!(paginator.next_request(&client()).is_some());
    let items = paginator.receive(genres(0, 0));
    assert!(items.is_empty());
    assert!(paginator.is_finished());
    assert_eq!(paginator.offset(), 5);
    assert!(paginator.next_request(&client()).is_none());
}

#[test]
fn a_finished_pagination_stays_finished() {
    let mut paginator = paginate::<Genre>(String::from("/v1/storefronts"), base(), 0);
    paginator.receive(genres(0, 0));
    paginator.receive(genres(0, 2));
    assert!(paginator.is_finished());
    assert!(paginator.next_request(&client()).is_none());
}

#[test]
fn the_request_for_a_page_carries_the_context_and_the_offset_last() {
    let paginator = paginate::<Genre>(String::from("/v1/me/library/songs"), base(), 42);
    let request = paginator.next_request(&client()).unwrap();
    assert_eq!(request.method, Method::Get);
    assert_eq!(request.url, "https://api.music.apple.com/v1/me/library/songs");
    assert_eq!(
        request.query,
        vec![pair("art[url]", "f"), pair("l", "en-US"), pair("limit", "21"), pair("offset", "42")]
    );
}

#[test]
fn the_offset_goes_out_with_one_request_only() {
    let mut paginator = paginate::<Genre>(String::from("/v1/me/library/songs"), base(), 0);
    let first = paginator.next_request(&client()).unwrap();
    paginator.receive(genres(0, 2));
    let second = paginator.next_request(&client()).unwrap();
    assert_eq!(first.query.len(), 4);
    assert_eq!(second.query.len(), 4);
    assert_eq!(first.query[..3], second.query[..3]);
    assert_eq!(second.query[3], pair("offset", "2"));
    let again = paginator.next_request(&client()).unwrap();
    assert_eq!(again.query, second.query);
}

#[test]
fn a_page_that_would_overflow_the_offset_is_seen_before_it_is_received() {
    let paginator = paginate::<Genre>(String::from("/x"), base(), usize::MAX - 2);
    assert!(paginator.can_receive(0));
    assert!(paginator.can_receive(2));
    assert!(!paginator.can_receive(3));
    assert!(!paginator.can_receive(usize::MAX));
    let at_start = paginate::<Genre>(String::from("/x"), base(), 0);
    assert!(at_start.can_receive(usize::MAX));
}

#[test]
fn every_item_of_a_page_gets_the_context_of_the_pagination() {
    let mut paginator = paginate::<Album>(String::from("/v1/me/library/albums"), base(), 0);
    let album = |id: &str| Album {
        header: ResourceHeader { id: id.to_string(), href: String::new() },
        relationships: AlbumRelationships {
            artists: Some(Relationship::new(None, None, vec![Artist::default()])),
            ..AlbumRelationships::default()
        },
        ..Album::default()
    };
    let items = paginator.receive(ResourceResponse { data: vec![album("1"), album("2")] });
    assert_eq!(items.len(), 2);
    let mut handles = Vec::new();
    for item in &items {
        let artists = item.relationships.artists.as_ref().unwrap();
        assert!(artists.has_context());
        let context = artists.context.get().unwrap();
        assert_eq!(context.query, base().query);
        assert_eq!(context.storefront, Country { alpha2: "US" });
        handles.push(context);
    }
    assert!(Arc::ptr_eq(&handles[0], &handles[1]));
    assert_eq!(items[0].header.id, "1");
    assert_eq!(items[1].header.id, "2");
    let more = paginator.receive(ResourceResponse { data: vec![album("3")] });
    let later = more[0].relationships.artists.as_ref().unwrap().context.get().unwrap();
    assert!(Arc::ptr_eq(&handles[0], &later));
}

#[test]
fn plain_values_can_be_paginated() {
    let mut paginator = paginate::<String>(String::from("/x"), base(), 0);
    let items = paginator.receive(ResourceResponse { data: vec![String::from("a")] });
    assert_eq!(items, vec![String::from("a")]);
    let mut value = 5u32;
    value.set_context(Arc::new(base()));
    assert_eq!(value, 5);
}
