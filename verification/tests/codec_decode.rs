use elefren::Error;
use elefren::codec::decode_items_or_api_error;
use elefren::codec::page_from_response;

#[test]
fn array_body_yields_entity_texts() {
    let items = decode_items_or_api_error("[{\"a\":1},2,\"x\"]").unwrap();
    assert_eq!(items, vec!["{\"a\":1}".to_string(), "2".to_string(), "\"x\"".to_string()]);
}

#[test]
fn empty_array_yields_no_items() {
    let items = decode_items_or_api_error("[]").unwrap();
    assert!(items.is_empty());
}

#[test]
fn error_payload_yields_api_error() {
    let err = decode_items_or_api_error(
        "{\"error\":\"invalid token\",\"error_description\":\"expired\"}",
    )
    .unwrap_err();
    match err {
        Error::Api(api) => {
            assert_eq!(api.error.as_deref(), Some("invalid token"));
            assert_eq!(api.error_description.as_deref(), Some("expired"));
        },
        other => panic!("expected an api error, got {:?}", other),
    }
}

#[test]
fn bare_error_object_still_reads_as_api_error() {
    let err = decode_items_or_api_error("{}").unwrap_err();
    assert!(matches!(err, Error::Api(_)));
}

#[test]
fn garbage_body_is_a_decode_error() {
    let err = decode_items_or_api_error("not json").unwrap_err();
    assert!(matches!(err, Error::Decode));
}

#[test]
fn page_from_response_reads_items_and_links() {
    let page = page_from_response(
        "[\"a\",\"b\"]",
        Some("<https://x/older>; rel=\"next\", <https://x/newer>; rel=\"prev\""),
    )
    .unwrap();
    let items: Vec<&str> = page.items().iter().map(|s| s.as_str()).collect();
    assert_eq!(items, vec!["\"a\"", "\"b\""]);
    assert_eq!(page.next_url().map(|s| s.as_str()), Some("https://x/older"));
    assert_eq!(page.prev_url().map(|s| s.as_str()), Some("https://x/newer"));
}

#[test]
fn page_from_response_without_header_is_terminal() {
    let page = page_from_response("[1]", None).unwrap();
    assert_eq!(page.next_url(), None);
    assert_eq!(page.prev_url(), None);
}

#[test]
fn page_from_error_body_propagates_api_error() {
    let err = page_from_response("{\"error\":\"gone\"}", None).unwrap_err();
    assert!(matches!(err, Error::Api(_)));
}
