use am_api::{ApiClient, Country, Method};

#[test]
fn a_client_starts_with_the_american_english_localization() {
    let client = ApiClient::new("developer", "user", Country { alpha2: "US" }).unwrap();
    assert_eq!(client.get_localization(), "en-US");
    assert_eq!(client.get_storefront_country(), Country { alpha2: "US" });
}

#[test]
fn a_client_carries_the_developer_token_as_a_bearer() {
    let client = ApiClient::new("developer", "user", Country { alpha2: "US" }).unwrap();
    assert_eq!(client.get_authorization(), "Bearer developer");
    assert_eq!(client.get_media_user_token(), "user");
}

#[test]
fn the_localization_of_a_client_can_be_set() {
    let mut client = ApiClient::new("developer", "user", Country { alpha2: "DE" }).unwrap();
    client.set_localization("de-DE");
    assert_eq!(client.get_localization(), "de-DE");
    assert_eq!(client.get_authorization(), "Bearer developer");
    assert_eq!(client.get_media_user_token(), "user");
    assert_eq!(client.get_storefront_country(), Country { alpha2: "DE" });
}

#[test]
fn a_developer_token_with_a_line_break_is_no_header_value() {
    let client = ApiClient::new("deve\nloper", "user", Country { alpha2: "US" });
    assert!(matches!(client, Err(am_api::error::ApiError::InvalidHeaderValue(_))));
}

#[test]
fn a_user_token_with_a_control_character_is_no_header_value() {
    let client = ApiClient::new("developer", "us\u{1}er", Country { alpha2: "US" });
    assert!(matches!(client, Err(am_api::error::ApiError::InvalidHeaderValue(_))));
    let client = ApiClient::new("developer", "user\u{7f}", Country { alpha2: "US" });
    assert!(matches!(client, Err(am_api::error::ApiError::InvalidHeaderValue(_))));
    let client = ApiClient::new("developer", "\r", Country { alpha2: "US" });
    assert!(matches!(client, Err(am_api::error::ApiError::InvalidHeaderValue(_))));
}

#[test]
fn tabulators_and_text_beyond_ascii_are_header_values() {
    assert!(ApiClient::new("deve\tloper", "us er", Country { alpha2: "US" }).is_ok());
    assert!(ApiClient::new("d\u{e9}veloppeur", "\u{4f7f}\u{7528}\u{8005}", Country { alpha2: "US" }).is_ok());
    assert!(ApiClient::new("", "", Country { alpha2: "US" }).is_ok());
    assert!(ApiClient::new("~", " ", Country { alpha2: "US" }).is_ok());
}

#[test]
fn requests_go_to_the_api_and_ask_for_artwork_templates() {
    let client = ApiClient::new("developer", "user", Country { alpha2: "US" }).unwrap();
    let art = vec![(String::from("art[url]"), String::from("f"))];
    let get = client.get("/v1/me/library/albums");
    assert_eq!(get.method, Method::Get);
    assert_eq!(get.url, "https://api.music.apple.com/v1/me/library/albums");
    assert_eq!(get.query, art);
    let post = client.post("/v1/me/library");
    assert_eq!(post.method, Method::Post);
    assert_eq!(post.url, "https://api.music.apple.com/v1/me/library");
    assert_eq!(post.query, art);
    let put = client.put("/v1/me/ratings/songs/1");
    assert_eq!(put.method, Method::Put);
    assert_eq!(put.url, "https://api.music.apple.com/v1/me/ratings/songs/1");
    assert_eq!(put.query, art);
    let delete = client.delete("");
    assert_eq!(delete.method, Method::Delete);
    assert_eq!(delete.url, "https://api.music.apple.com");
    assert_eq!(delete.query, art);
}

#[test]
fn query_parameters_are_appended_in_their_order() {
    let client = ApiClient::new("developer", "user", Country { alpha2: "US" }).unwrap();
    let first = vec![(String::from("l"), String::from("en-US"))];
    let second = vec![
        (String::from("ids"), String::from("1,2")),
        (String::from("l"), String::from("again")),
    ];
    let request = client.get("/x").query(&first).query(&second).query(&Vec::new());
    assert_eq!(
        request.query,
        vec![
            (String::from("art[url]"), String::from("f")),
            (String::from("l"), String::from("en-US")),
            (String::from("ids"), String::from("1,2")),
            (String::from("l"), String::from("again")),
        ]
    );
    assert_eq!(request.url, "https://api.music.apple.com/x");
    assert_eq!(request.method, Method::Get);
}
