//! Parsing of the RFC-5988-style `Link` response header.
//!
//! A header is split on `,` into segments.  Each segment carries a URL
//! between `<` and `>` followed by `;`-separated parameters; a parameter
//! `rel` whose value (quotes stripped) is `next` or `prev` names the
//! relation.  Malformed segments and unknown relations are skipped, never
//! an error.

use vstd::prelude::*;
use vstd::string::StrSliceExecFns;

use crate::strutil::find_char;
use crate::strutil::find_char_exec;
use crate::strutil::lemma_find_char_at;
use crate::strutil::lemma_find_char_none;
use crate::strutil::lemma_find_char_some;
use crate::strutil::lemma_split_none;
use crate::strutil::lemma_split_two;
use crate::strutil::lemma_trim_end_at;
use crate::strutil::lemma_trim_start_at;
use crate::strutil::spec_split;
use crate::strutil::spec_trim_end;
use crate::strutil::spec_trim_start;
use crate::strutil::spec_strip_quotes;
use crate::strutil::spec_trim;
use crate::strutil::split_exec;
use crate::strutil::str_eq;
use crate::strutil::strip_quotes_exec;
use crate::strutil::trim_exec;

verus! {

/// The pagination URLs of one `Link` header, at the spec level.
pub struct LinkRelsV {
    pub next: Option<Seq<char>>,
    pub prev: Option<Seq<char>>,
}

/// The pagination URLs carried by one `Link` header.
#[derive(Debug, Clone, PartialEq)]
pub struct LinkRels {
    /// URL of the following batch, when the header named one.
    pub next: Option<String>,
    /// URL of the preceding batch, when the header named one.
    pub prev: Option<String>,
}

impl View for LinkRels {
    type V = LinkRelsV;

    open spec fn view(&self) -> LinkRelsV {
        LinkRelsV { next: self.next.deep_view(), prev: self.prev.deep_view() }
    }
}

/// A header with no relations at all.
pub open spec fn spec_empty_rels() -> LinkRelsV {
    LinkRelsV { next: None, prev: None }
}

/// The `rel` value of one `name=value` parameter, if it is a `rel`
/// parameter: the name is trimmed, the value trimmed and unquoted.
pub open spec fn spec_param_rel(p: Seq<char>) -> Option<Seq<char>> {
    match find_char(p, '=') {
        None => None,
        Some(e) => if 0 <= e < p.len() {
            if spec_trim(p.subrange(0, e)) == "rel"@ {
                Some(spec_strip_quotes(spec_trim(p.subrange(e + 1, p.len() as int))))
            } else {
                None
            }
        } else {
            None
        },
    }
}

/// The value of the first `rel` parameter at or after position `i`.
pub open spec fn spec_params_rel(params: Seq<Seq<char>>, i: int) -> Option<Seq<char>>
    decreases params.len() - i,
{
    if !(0 <= i < params.len()) {
        None
    } else {
        match spec_param_rel(params[i]) {
            Some(v) => Some(v),
            None => spec_params_rel(params, i + 1),
        }
    }
}

/// The relation name and URL of one header segment, when the segment is
/// well formed: a URL between `<` and `>`, and a `rel` parameter after it.
pub open spec fn spec_segment_rel(seg: Seq<char>) -> Option<(Seq<char>, Seq<char>)> {
    match find_char(seg, '<') {
        None => None,
        Some(lt) => if 0 <= lt < seg.len() {
            let after = seg.subrange(lt + 1, seg.len() as int);
            match find_char(after, '>') {
                None => None,
                Some(gt) => if 0 <= gt < after.len() {
                    let url = after.subrange(0, gt);
                    let params = spec_split(after.subrange(gt + 1, after.len() as int), ';');
                    match spec_params_rel(params, 0) {
                        None => None,
                        Some(rel) => Some((rel, url)),
                    }
                } else {
                    None
                },
            }
        } else {
            None
        },
    }
}

/// Merge one segment into the relations collected so far; the first
/// occurrence of each relation wins, unknown relations change nothing.
pub open spec fn spec_add_segment(acc: LinkRelsV, seg: Seq<char>) -> LinkRelsV {
    match spec_segment_rel(seg) {
        None => acc,
        Some(rel_url) => LinkRelsV {
            next: if rel_url.0 == "next"@ && acc.next is None {
                Some(rel_url.1)
            } else {
                acc.next
            },
            prev: if rel_url.0 == "prev"@ && acc.prev is None {
                Some(rel_url.1)
            } else {
                acc.prev
            },
        },
    }
}

/// Fold the segments at or after position `i` into `acc`.
pub open spec fn spec_collect_rels(segs: Seq<Seq<char>>, i: int, acc: LinkRelsV) -> LinkRelsV
    decreases segs.len() - i,
{
    if !(0 <= i < segs.len()) {
        acc
    } else {
        spec_collect_rels(segs, i + 1, spec_add_segment(acc, segs[i]))
    }
}

/// What parsing a whole `Link` header yields.
pub open spec fn spec_parse_link(h: Seq<char>) -> LinkRelsV {
    spec_collect_rels(spec_split(h, ','), 0, spec_empty_rels())
}

/// One well-formed header segment, as text: an optional junk prefix,
/// the URL in angle brackets, and one quoted `rel` parameter.
pub open spec fn spec_segment_text(pre: Seq<char>, url: Seq<char>, rel: Seq<char>) -> Seq<char> {
    pre + seq!['<'] + url + seq!['>', ';', ' ', 'r', 'e', 'l', '=', '"'] + rel + seq!['"']
}

/// A segment of the shape `<url>; rel="REL"` — with anything free of
/// `<` allowed before the URL — parses to exactly that relation name
/// and URL, whatever they are.
pub proof fn lemma_segment_shape(pre: Seq<char>, url: Seq<char>, rel: Seq<char>)
    requires
        forall|i: int| 0 <= i < pre.len() ==> pre[i] != '<',
        forall|i: int| 0 <= i < url.len() ==> url[i] != '>',
        forall|i: int| 0 <= i < rel.len() ==> rel[i] != ';',
    ensures
        spec_segment_rel(spec_segment_text(pre, url, rel)) == Some((rel, url)),
{
    let mid = seq!['>', ';', ' ', 'r', 'e', 'l', '=', '"'];
    let seg = spec_segment_text(pre, url, rel);
    let lt = pre.len() as int;
    assert(seg[lt] == '<');
    assert(forall|j: int| 0 <= j < lt ==> seg[j] == pre[j]);
    lemma_find_char_at(seg, '<', lt);
    let after = seg.subrange(lt + 1, seg.len() as int);
    assert(after =~= url + mid + rel + seq!['"']);
    let gt = url.len() as int;
    assert(after[gt] == '>');
    assert(forall|j: int| 0 <= j < gt ==> after[j] == url[j]);
    lemma_find_char_at(after, '>', gt);
    assert(after.subrange(0, gt) =~= url);
    let ptxt = after.subrange(gt + 1, after.len() as int);
    let rest2 = seq![' ', 'r', 'e', 'l', '=', '"'] + rel + seq!['"'];
    assert(ptxt =~= seq![';'] + rest2);
    assert(ptxt[0] == ';');
    lemma_find_char_at(ptxt, ';', 0);
    assert(spec_split(ptxt, ';') == seq![ptxt.subrange(0, 0)] + spec_split(
        ptxt.subrange(1, ptxt.len() as int),
        ';',
    ));
    assert(ptxt.subrange(0, 0) =~= Seq::<char>::empty());
    assert(ptxt.subrange(1, ptxt.len() as int) =~= rest2);
    assert(forall|i: int| 0 <= i < rest2.len() ==> rest2[i] != ';') by {
        assert(forall|i: int| 6 <= i < 6 + rel.len() ==> rest2[i] == rel[i - 6]);
    }
    lemma_split_none(rest2, ';');
    let params = spec_split(ptxt, ';');
    assert(params =~= seq![Seq::<char>::empty(), rest2]);
    lemma_find_char_none(Seq::<char>::empty(), '=');
    assert(spec_param_rel(Seq::<char>::empty()) is None);
    assert(rest2[4] == '=');
    lemma_find_char_at(rest2, '=', 4);
    let namepart = rest2.subrange(0, 4);
    assert(namepart =~= seq![' ', 'r', 'e', 'l']);
    lemma_trim_start_at(namepart, 1);
    let nm = namepart.subrange(1, 4);
    assert(nm =~= seq!['r', 'e', 'l']);
    lemma_trim_end_at(nm, 3);
    assert(nm.subrange(0, 3) =~= nm);
    assert(spec_trim(namepart) == nm);
    reveal_strlit("rel");
    assert(nm =~= "rel"@);
    let valpart = rest2.subrange(5, rest2.len() as int);
    assert(valpart =~= seq!['"'] + rel + seq!['"']);
    assert(valpart[0] == '"');
    assert(valpart[valpart.len() - 1] == '"');
    assert(spec_trim_start(valpart) == valpart);
    assert(spec_trim_end(valpart) == valpart);
    assert(spec_strip_quotes(valpart) =~= rel);
    assert(spec_param_rel(rest2) == Some(rel));
    assert(spec_params_rel(params, 0) == spec_params_rel(params, 1));
    assert(spec_params_rel(params, 1) == Some(rel));
    assert(spec_segment_rel(seg) == Some((rel, url)));
}

/// A header holding a single `<url>; rel="REL"` segment yields exactly
/// the relation it names: the named field carries the URL, the other
/// field is empty, and a name that is neither `next` nor `prev` yields
/// nothing at all.
pub proof fn lemma_link_single(url: Seq<char>, rel: Seq<char>)
    requires
        forall|i: int| 0 <= i < url.len() ==> url[i] != '>' && url[i] != ',',
        forall|i: int| 0 <= i < rel.len() ==> rel[i] != ';' && rel[i] != ',',
    ensures
        spec_parse_link(spec_segment_text(Seq::empty(), url, rel)).next == (if rel == "next"@ {
            Some(url)
        } else {
            None::<Seq<char>>
        }),
        spec_parse_link(spec_segment_text(Seq::empty(), url, rel)).prev == (if rel == "prev"@ {
            Some(url)
        } else {
            None::<Seq<char>>
        }),
{
    let seg = spec_segment_text(Seq::empty(), url, rel);
    assert(forall|i: int| 0 <= i < seg.len() ==> seg[i] != ',') by {
        assert(forall|i: int| 1 <= i < 1 + url.len() ==> seg[i] == url[i - 1]);
        assert(forall|i: int| 9 + url.len() <= i < 9 + url.len() + rel.len() ==> seg[i] == rel[i
            - 9 - url.len()]);
    }
    lemma_split_none(seg, ',');
    lemma_segment_shape(Seq::empty(), url, rel);
    let segs = seq![seg];
    let acc1 = spec_add_segment(spec_empty_rels(), seg);
    assert(spec_collect_rels(segs, 0, spec_empty_rels()) == spec_collect_rels(segs, 1, acc1));
    assert(spec_collect_rels(segs, 1, acc1) == acc1);
}

/// For any two URLs, a header naming them as the `next` and `prev`
/// relations parses back to exactly those two URLs.
pub proof fn lemma_link_round_trip(a: Seq<char>, b: Seq<char>)
    requires
        forall|i: int| 0 <= i < a.len() ==> a[i] != '>' && a[i] != ',',
        forall|i: int| 0 <= i < b.len() ==> b[i] != '>' && b[i] != ',',
    ensures
        ({
            let hdr = spec_segment_text(Seq::empty(), a, "next"@) + seq![',']
                + spec_segment_text(seq![' '], b, "prev"@);
            spec_parse_link(hdr).next == Some(a) && spec_parse_link(hdr).prev == Some(b)
        }),
{
    reveal_strlit("next");
    reveal_strlit("prev");
    assert("next"@.len() == 4);
    assert("prev"@.len() == 4);
    assert("next"@[0] == 'n' && "prev"@[0] == 'p');
    assert("next"@ != "prev"@);
    let x = spec_segment_text(Seq::empty(), a, "next"@);
    let y = spec_segment_text(seq![' '], b, "prev"@);
    let hdr = x + seq![','] + y;
    assert(forall|i: int| 0 <= i < x.len() ==> x[i] != ',') by {
        assert(forall|i: int| 1 <= i < 1 + a.len() ==> x[i] == a[i - 1]);
        assert(forall|i: int| 9 + a.len() <= i < 13 + a.len() ==> x[i] == "next"@[i - 9
            - a.len()]);
        assert(forall|i: int| 0 <= i < 4 ==> "next"@[i] != ',');
    }
    assert(forall|i: int| 0 <= i < y.len() ==> y[i] != ',') by {
        assert(forall|i: int| 2 <= i < 2 + b.len() ==> y[i] == b[i - 2]);
        assert(forall|i: int| 10 + b.len() <= i < 14 + b.len() ==> y[i] == "prev"@[i - 10
            - b.len()]);
        assert(forall|i: int| 0 <= i < 4 ==> "prev"@[i] != ',');
    }
    lemma_split_two(x, y, ',');
    lemma_segment_shape(Seq::empty(), a, "next"@);
    assert(forall|i: int| 0 <= i < 4 ==> "next"@[i] != ';');
    assert(forall|i: int| 0 <= i < 4 ==> "prev"@[i] != ';');
    lemma_segment_shape(seq![' '], b, "prev"@);
    let segs = seq![x, y];
    let acc1 = spec_add_segment(spec_empty_rels(), x);
    assert(acc1.next == Some(a) && acc1.prev is None);
    let acc2 = spec_add_segment(acc1, y);
    assert(acc2.next == Some(a) && acc2.prev == Some(b));
    assert(spec_collect_rels(segs, 0, spec_empty_rels()) == spec_collect_rels(segs, 1, acc1));
    assert(spec_collect_rels(segs, 1, acc1) == spec_collect_rels(segs, 2, acc2));
    assert(spec_collect_rels(segs, 2, acc2) == acc2);
}

/// The `rel` value of one parameter, when it is one.
fn param_rel(p: &str) -> (r: Option<String>)
    ensures
        r.deep_view() == spec_param_rel(p@),
{
    match find_char_exec(p, '=') {
        None => None,
        Some(e) => {
            proof {
                lemma_find_char_some(p@, '=');
            }
            let n = p.unicode_len();
            let name = trim_exec(p.substring_char(0, e));
            if str_eq(name.as_str(), "rel") {
                let value = trim_exec(p.substring_char(e + 1, n));
                Some(strip_quotes_exec(value.as_str()))
            } else {
                None
            }
        },
    }
}

/// The relation name and URL of one segment, when it is well formed.
fn segment_rel(seg: &str) -> (r: Option<(String, String)>)
    ensures
        r.deep_view() == spec_segment_rel(seg@),
{
    let lt = match find_char_exec(seg, '<') {
        None => {
            return None;
        },
        Some(lt) => lt,
    };
    proof {
        lemma_find_char_some(seg@, '<');
    }
    let n = seg.unicode_len();
    let after = seg.substring_char(lt + 1, n);
    let gt = match find_char_exec(after, '>') {
        None => {
            return None;
        },
        Some(gt) => gt,
    };
    proof {
        lemma_find_char_some(after@, '>');
    }
    let an = after.unicode_len();
    let url = after.substring_char(0, gt);
    let params = split_exec(after.substring_char(gt + 1, an), ';');
    let ghost params_v = params.deep_view();
    let mut i: usize = 0;
    while i < params.len()
        invariant
            i <= params.len(),
            params.deep_view() == params_v,
            spec_params_rel(params_v, 0) == spec_params_rel(params_v, i as int),
            lt < seg@.len(),
            after@ == seg@.subrange(lt + 1, seg@.len() as int),
            url@ == after@.subrange(0, gt as int),
            params_v == spec_split(
                after@.subrange(gt as int + 1, after@.len() as int),
                ';',
            ),
            find_char(seg@, '<') == Some(lt as int),
            find_char(after@, '>') == Some(gt as int),
            gt < after@.len(),
        decreases params.len() - i,
    {
        proof {
            assert(params_v[i as int] == params[i as int].deep_view());
        }
        match param_rel(params[i].as_str()) {
            Some(rel) => {
                let u = String::from_str(url);
                proof {
                    assert(spec_params_rel(params_v, i as int) == Some(rel@));
                    assert(spec_segment_rel(seg@) == Some((rel@, u@)));
                }
                return Some((rel, u));
            },
            None => {
                i = i + 1;
            },
        }
    }
    None
}

/// Parse a whole `Link` header into its pagination relations.
pub fn parse_link_header(h: &str) -> (r: LinkRels)
    ensures
        r@ == spec_parse_link(h@),
{
    let segs = split_exec(h, ',');
    let ghost segs_v = segs.deep_view();
    let mut next: Option<String> = None;
    let mut prev: Option<String> = None;
    let mut i: usize = 0;
    while i < segs.len()
        invariant
            i <= segs.len(),
            segs.deep_view() == segs_v,
            segs_v == spec_split(h@, ','),
            spec_parse_link(h@) == spec_collect_rels(
                segs_v,
                i as int,
                LinkRelsV { next: next.deep_view(), prev: prev.deep_view() },
            ),
        decreases segs.len() - i,
    {
        proof {
            assert(segs_v[i as int] == segs[i as int].deep_view());
        }
        let ghost acc = LinkRelsV { next: next.deep_view(), prev: prev.deep_view() };
        match segment_rel(segs[i].as_str()) {
            Some(rel_url) => {
                let (rel, url) = rel_url;
                let is_next = str_eq(rel.as_str(), "next");
                let is_prev = str_eq(rel.as_str(), "prev");
                if is_next && next.is_none() {
                    next = Some(url.clone());
                }
                if is_prev && prev.is_none() {
                    prev = Some(url);
                }
            },
            None => {},
        }
        proof {
            assert(LinkRelsV { next: next.deep_view(), prev: prev.deep_view() }
                == spec_add_segment(acc, segs_v[i as int]));
        }
        i = i + 1;
    }
    LinkRels { next, prev }
}

} // verus!
