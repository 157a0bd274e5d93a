use elefren::link::parse_link_header;

#[test]
fn round_trip_next_and_prev() {
    let rels = parse_link_header(
        "<https://example.com/api/v1/x?max_id=3>; rel=\"next\", <https://example.com/api/v1/x?since_id=1>; rel=\"prev\"",
    );
    assert_eq!(rels.next.as_deref(), Some("https://example.com/api/v1/x?max_id=3"));
    assert_eq!(rels.prev.as_deref(), Some("https://example.com/api/v1/x?since_id=1"));
}

#[test]
fn next_only_leaves_prev_none() {
    let rels = parse_link_header("<https://example.com/next>; rel=\"next\"");
    assert_eq!(rels.next.as_deref(), Some("https://example.com/next"));
    assert_eq!(rels.prev, None);
}

#[test]
fn prev_only_leaves_next_none() {
    let rels = parse_link_header("<https://example.com/prev>; rel=\"prev\"");
    assert_eq!(rels.next, None);
    assert_eq!(rels.prev.as_deref(), Some("https://example.com/prev"));
}

#[test]
fn unknown_relations_yield_nothing() {
    let rels = parse_link_header(
        "<https://example.com/a>; rel=\"first\", <https://example.com/b>; rel=\"last\"",
    );
    assert_eq!(rels.next, None);
    assert_eq!(rels.prev, None);
}

#[test]
fn malformed_segment_is_skipped_not_fatal() {
    let rels = parse_link_header(
        "no brackets here; rel=\"next\", <https://example.com/p>; rel=\"prev\"",
    );
    assert_eq!(rels.next, None);
    assert_eq!(rels.prev.as_deref(), Some("https://example.com/p"));
}

#[test]
fn segment_without_rel_is_skipped() {
    let rels = parse_link_header("<https://example.com/a>; title=\"x\"");
    assert_eq!(rels.next, None);
    assert_eq!(rels.prev, None);
}

#[test]
fn unquoted_rel_value_is_accepted() {
    let rels = parse_link_header("<https://example.com/n>; rel=next");
    assert_eq!(rels.next.as_deref(), Some("https://example.com/n"));
}

#[test]
fn first_occurrence_of_a_relation_wins() {
    let rels = parse_link_header(
        "<https://example.com/one>; rel=\"next\", <https://example.com/two>; rel=\"next\"",
    );
    assert_eq!(rels.next.as_deref(), Some("https://example.com/one"));
    assert_eq!(rels.prev, None);
}

#[test]
fn empty_header_yields_nothing() {
    let rels = parse_link_header("");
    assert_eq!(rels.next, None);
    assert_eq!(rels.prev, None);
}
