//! The JSON entity codec, consumed as an external collaborator.
//!
//! The library frames and classifies text itself; what counts as JSON,
//! and what a JSON object's fields hold, is `serde_json`'s business and
//! stands behind the trusted items below.  Each uninterpreted spec
//! function names the result of one such call; every one of those calls
//! computes from its argument text alone, so the name is well defined.

use vstd::prelude::*;

use crate::errors::ApiError;
use crate::errors::Error;
use crate::errors::ErrorV;
use crate::page::Page;
use crate::page::spec_page_new;

verus! {

/// Whether the entity codec accepts the text as one JSON value.
pub uninterp spec fn json_parses(s: Seq<char>) -> bool;

/// Relies on `serde_json::from_str::<Value>`: whether it returns `Ok`
/// depends on the text alone.
#[verifier::external_body]
pub(crate) fn json_text_valid(s: &str) -> (r: bool)
    ensures
        r == json_parses(s@),
{
    serde_json::from_str::<serde_json::Value>(s).is_ok()
}

/// The event name and optional payload read from a single-line JSON
/// envelope: an object with an `event` string field and, optionally, a
/// `payload` string field.
pub uninterp spec fn envelope_of(s: Seq<char>) -> Option<(Seq<char>, Option<Seq<char>>)>;

/// Relies on `serde_json::from_str::<Value>`, `Value::get` and
/// `Value::as_str` to read the `event` and `payload` string fields of a
/// JSON object; the result depends on the text alone.
#[verifier::external_body]
pub(crate) fn parse_envelope(line: &str) -> (r: Option<(String, Option<String>)>)
    ensures
        r.deep_view() == envelope_of(line@),
{
    let v: serde_json::Value = match serde_json::from_str(line) { Ok(v) => v, Err(_) => return None };
    let event = match v.get("event").and_then(|e| e.as_str()) { Some(e) => e.to_string(), None => return None };
    let payload = v.get("payload").and_then(|p| p.as_str()).map(|s| s.to_string());
    Some((event, payload))
}

/// The texts of the elements of a JSON array, when the text is one.
pub uninterp spec fn json_array_elements(s: Seq<char>) -> Option<Seq<Seq<char>>>;

/// Relies on `serde_json::from_str::<Value>`, `Value::as_array` and
/// `Value`'s `to_string`: the elements of a JSON array, each rendered
/// back to compact JSON text; the result depends on the text alone.
#[verifier::external_body]
pub(crate) fn parse_entity_array(body: &str) -> (r: Option<Vec<String>>)
    ensures
        r.deep_view() == json_array_elements(body@),
{
    let v: serde_json::Value = match serde_json::from_str(body) { Ok(v) => v, Err(_) => return None };
    let arr = match v.as_array() { Some(a) => a, None => return None };
    let mut out = Vec::with_capacity(arr.len());
    for e in arr {
        out.push(e.to_string());
    }
    Some(out)
}

/// The `error` and `error_description` fields of a JSON object, when
/// the text is an object and each of the two fields, where present, is
/// a string or null.
pub uninterp spec fn api_error_of(s: Seq<char>) -> Option<(Option<Seq<char>>, Option<Seq<char>>)>;

/// Relies on `serde_json::from_str::<Value>`, `Value::as_object`,
/// `Map::get` and the `Value` variants to read an error payload the way
/// the service sends one; the result depends on the text alone.
#[verifier::external_body]
pub(crate) fn parse_api_error(body: &str) -> (r: Option<ApiError>)
    ensures
        match (r, api_error_of(body@)) {
            (Some(e), Some(v)) => e@ == v,
            (None, None) => true,
            _ => false,
        },
{
    let v: serde_json::Value = match serde_json::from_str(body) { Ok(v) => v, Err(_) => return None };
    let obj = match v.as_object() { Some(o) => o, None => return None };
    let error = match obj.get("error") {
        None | Some(serde_json::Value::Null) => None,
        Some(serde_json::Value::String(s)) => Some(s.clone()),
        Some(_) => return None,
    };
    let error_description = match obj.get("error_description") {
        None | Some(serde_json::Value::Null) => None,
        Some(serde_json::Value::String(s)) => Some(s.clone()),
        Some(_) => return None,
    };
    Some(ApiError { error, error_description })
}

/// Decode a list-endpoint body the way every list route does: a JSON
/// array yields the texts of its entities; a body that is no array but
/// reads as a service error payload yields `Error::Api`; anything else
/// is a decode failure.  No other outcome exists.
pub fn decode_items_or_api_error(body: &str) -> (r: Result<Vec<String>, Error>)
    ensures
        json_array_elements(body@) matches Some(els) ==> (r matches Ok(v) && v.deep_view()
            == els),
        json_array_elements(body@) is None ==> (api_error_of(body@) matches Some(e) ==> (r
            matches Err(err) && err@ == ErrorV::Api(e.0, e.1))),
        json_array_elements(body@) is None && api_error_of(body@) is None ==> r == Err::<
            Vec<String>,
            Error,
        >(Error::Decode),
{
    match parse_entity_array(body) {
        Some(items) => Ok(items),
        None => match parse_api_error(body) {
            Some(e) => Err(Error::Api(e)),
            None => Err(Error::Decode),
        },
    }
}

/// Build a page of entity texts from one list response: the body is
/// decoded as `decode_items_or_api_error` has it, and the `Link` header,
/// when the response carried one, supplies the neighbouring URLs.
pub fn page_from_response(body: &str, link_header: Option<&str>) -> (r: Result<
    Page<String>,
    Error,
>)
    ensures
        json_array_elements(body@) matches Some(els) ==> (r matches Ok(p) && p@.items.map_values(
            |s: String| s@,
        ) == els && p@.next == spec_page_new(els, link_header.deep_view()).next && p@.prev
            == spec_page_new(els, link_header.deep_view()).prev),
        json_array_elements(body@) is None ==> (api_error_of(body@) matches Some(e) ==> (r
            matches Err(err) && err@ == ErrorV::Api(e.0, e.1))),
        json_array_elements(body@) is None && api_error_of(body@) is None ==> (r matches Err(err)
            && err@ == ErrorV::Decode),
{
    let items = match decode_items_or_api_error(body) {
        Ok(items) => items,
        Err(e) => {
            return Err(e);
        },
    };
    proof {
        if json_array_elements(body@) matches Some(els) {
            assert(items@.map_values(|s: String| s@) =~= items.deep_view());
        }
    }
    Ok(Page::new(items, link_header))
}

} // verus!
