//! The decisions and URL arithmetic of the HTTP client.
//!
//! The transport itself stays outside the library; what it should
//! request, and what a status code means, is computed and verified
//! here from plain values.

use vstd::prelude::*;
use vstd::string::StrSliceExecFns;
use vstd::string::StringExecFns;

use crate::errors::Error;
use crate::errors::ErrorV;
use crate::strutil::spec_starts_with;
use crate::strutil::starts_with_exec;
use crate::strutil::str_eq;

verus! {

/// Join the instance base URL and an API path.
pub fn api_route(base: &str, path: &str) -> (r: String)
    ensures
        r@ == base@ + path@,
{
    let mut url = String::from_str(base);
    url.append(path);
    url
}

/// An instance base as given by the user, with `https://` prepended
/// unless it is already there.
pub fn normalize_base(base: &str) -> (r: String)
    ensures
        spec_starts_with(base@, "https://"@) ==> r@ == base@,
        !spec_starts_with(base@, "https://"@) ==> r@ == "https://"@ + base@,
{
    if starts_with_exec(base, "https://") {
        String::from_str(base)
    } else {
        let mut url = String::from_str("https://");
        url.append(base);
        url
    }
}

/// The WebSocket scheme that replaces an HTTP scheme when a streaming
/// URL is opened: `http` becomes `ws`, `https` becomes `wss`, anything
/// else is refused.
pub fn ws_scheme(scheme: &str) -> (r: Result<String, Error>)
    ensures
        scheme@ == "http"@ ==> (r matches Ok(s) && s@ == "ws"@),
        scheme@ == "https"@ ==> (r matches Ok(s) && s@ == "wss"@),
        scheme@ != "http"@ && scheme@ != "https"@ ==> (r matches Err(e) && e@ == ErrorV::Other(
            "Bad URL scheme: "@ + scheme@,
        )),
{
    proof {
        reveal_strlit("http");
        reveal_strlit("https");
        assert("http"@.len() == 4);
        assert("https"@.len() == 5);
        assert("http"@ != "https"@);
    }
    if str_eq(scheme, "http") {
        Ok(String::from_str("ws"))
    } else if str_eq(scheme, "https") {
        Ok(String::from_str("wss"))
    } else {
        let mut message = String::from_str("Bad URL scheme: ");
        message.append(scheme);
        Err(Error::Other(message))
    }
}

/// What a response's status code means: client-error codes and
/// server-error codes are refused, everything else passes.
pub fn check_status(code: u16) -> (r: Result<(), Error>)
    ensures
        400 <= code < 500 ==> r == Err::<(), Error>(Error::Client(code)),
        500 <= code < 600 ==> r == Err::<(), Error>(Error::Server(code)),
        !(400 <= code < 600) ==> r is Ok,
{
    if 400 <= code && code < 500 {
        Err(Error::Client(code))
    } else if 500 <= code && code < 600 {
        Err(Error::Server(code))
    } else {
        Ok(())
    }
}

/// The timeline path for a hashtag, locally filtered or not.
pub fn hashtag_timeline_path(hashtag: &str, local: bool) -> (r: String)
    ensures
        local ==> r@ == "/api/v1/timelines/tag/"@ + hashtag@ + "?local=1"@,
        !local ==> r@ == "/api/v1/timelines/tag/"@ + hashtag@,
{
    let mut url = String::from_str("/api/v1/timelines/tag/");
    url.append(hashtag);
    if local {
        url.append("?local=1");
    }
    url
}

/// The query built over several account ids: each id as one `id[]=`
/// pair followed by `&`, appended to `acc` from position `i` on.
pub open spec fn spec_multi_ids_from(ids: Seq<Seq<char>>, i: int, acc: Seq<char>) -> Seq<char>
    decreases ids.len() - i,
{
    if !(0 <= i < ids.len()) {
        acc
    } else {
        spec_multi_ids_from(ids, i + 1, acc + "id[]="@ + ids[i] + "&"@)
    }
}

/// The relationships route for a list of account ids: one id queries
/// `id=` directly; any other number builds `id[]=` pairs, and the last
/// character — the trailing `&`, or the `?` when there are no ids at
/// all — is dropped.
pub open spec fn spec_relationships_url(base: Seq<char>, ids: Seq<Seq<char>>) -> Seq<char> {
    let root = base + "/api/v1/accounts/relationships?"@;
    if ids.len() == 1 {
        root + "id="@ + ids[0]
    } else {
        let full = spec_multi_ids_from(ids, 0, root);
        full.take(full.len() - 1)
    }
}

/// Build the relationships route for a list of account ids.
pub fn relationships_url(base: &str, ids: &Vec<String>) -> (r: String)
    ensures
        r@ == spec_relationships_url(base@, ids.deep_view()),
{
    let ghost idsv = ids.deep_view();
    let mut url = String::from_str(base);
    url.append("/api/v1/accounts/relationships?");
    let ghost root = url@;
    proof {
        reveal_strlit("/api/v1/accounts/relationships?");
    }
    if ids.len() == 1 {
        url.append("id=");
        url.append(ids[0].as_str());
        proof {
            assert(idsv[0] == ids[0]@);
        }
        url
    } else {
        let mut i: usize = 0;
        while i < ids.len()
            invariant
                i <= ids.len(),
                idsv == ids.deep_view(),
                idsv.len() == ids.len(),
                url@.len() >= 1,
                spec_multi_ids_from(idsv, 0, root) == spec_multi_ids_from(idsv, i as int, url@),
            decreases ids.len() - i,
        {
            url.append("id[]=");
            url.append(ids[i].as_str());
            url.append("&");
            proof {
                assert(idsv[i as int] == ids[i as int]@);
            }
            i = i + 1;
        }
        let n = url.as_str().unicode_len();
        let trimmed = String::from_str(url.as_str().substring_char(0, n - 1));
        proof {
            assert(trimmed@ =~= url@.take(url@.len() - 1));
        }
        trimmed
    }
}

} // verus!
