use elefren::Error;
use elefren::client::api_route;
use elefren::client::check_status;
use elefren::client::hashtag_timeline_path;
use elefren::client::normalize_base;
use elefren::client::relationships_url;
use elefren::client::ws_scheme;

#[test]
fn api_route_joins_base_and_path() {
    assert_eq!(api_route("https://m.example", "/api/v1/instance"), "https://m.example/api/v1/instance");
}

#[test]
fn normalize_base_prepends_scheme_when_missing() {
    assert_eq!(normalize_base("mastodon.example"), "https://mastodon.example");
    assert_eq!(normalize_base("https://mastodon.example"), "https://mastodon.example");
}

#[test]
fn ws_scheme_maps_http_schemes() {
    assert_eq!(ws_scheme("http").unwrap(), "ws");
    assert_eq!(ws_scheme("https").unwrap(), "wss");
}

#[test]
fn ws_scheme_refuses_anything_else() {
    match ws_scheme("ftp").unwrap_err() {
        Error::Other(m) => assert_eq!(m, "Bad URL scheme: ftp"),
        other => panic!("expected an Other error, got {:?}", other),
    }
}

#[test]
fn check_status_classifies_codes() {
    assert!(check_status(200).is_ok());
    assert!(check_status(302).is_ok());
    assert!(matches!(check_status(404), Err(Error::Client(404))));
    assert!(matches!(check_status(503), Err(Error::Server(503))));
}

#[test]
fn hashtag_timeline_path_builds_both_forms() {
    assert_eq!(hashtag_timeline_path("coffee", false), "/api/v1/timelines/tag/coffee");
    assert_eq!(hashtag_timeline_path("coffee", true), "/api/v1/timelines/tag/coffee?local=1");
}

#[test]
fn relationships_url_with_one_id_uses_plain_query() {
    let ids = vec!["42".to_string()];
    assert_eq!(
        relationships_url("https://m.example", &ids),
        "https://m.example/api/v1/accounts/relationships?id=42",
    );
}

#[test]
fn relationships_url_with_two_ids_uses_array_query() {
    let ids = vec!["1".to_string(), "2".to_string()];
    assert_eq!(
        relationships_url("https://m.example", &ids),
        "https://m.example/api/v1/accounts/relationships?id[]=1&id[]=2",
    );
}

#[test]
fn relationships_url_with_no_ids_drops_the_query_mark() {
    let ids: Vec<String> = Vec::new();
    assert_eq!(
        relationships_url("https://m.example", &ids),
        "https://m.example/api/v1/accounts/relationships",
    );
}
