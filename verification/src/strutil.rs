//! Verified helpers over strings, modelled as sequences of characters.
//!
//! Every exec function here carries an exact contract over a spec-level
//! mirror, so the parsers built on top can state their results directly
//! in terms of `Seq<char>`.

use vstd::prelude::*;
use vstd::string::StrSliceExecFns;
use vstd::string::StringExecFns;

verus! {

/// The whitespace characters that trimming removes.
pub open spec fn is_space_char(c: char) -> bool {
    c == ' ' || c == '\t' || c == '\r' || c == '\n'
}

/// Exec mirror of `is_space_char`.
pub fn space_char(c: char) -> (r: bool)
    ensures
        r == is_space_char(c),
{
    c == ' ' || c == '\t' || c == '\r' || c == '\n'
}

/// Index of the first occurrence of `c` in `s`, if any.
pub open spec fn find_char(s: Seq<char>, c: char) -> Option<int>
    decreases s.len(),
{
    if s.len() == 0 {
        None
    } else if s[0] == c {
        Some(0)
    } else {
        match find_char(s.drop_first(), c) {
            None => None,
            Some(i) => Some(i + 1),
        }
    }
}

/// `find_char` returns `None` exactly when `c` does not occur in `s`.
pub proof fn lemma_find_char_none(s: Seq<char>, c: char)
    ensures
        find_char(s, c) is None <==> (forall|i: int| 0 <= i < s.len() ==> s[i] != c),
    decreases s.len(),
{
    if s.len() > 0 {
        lemma_find_char_none(s.drop_first(), c);
        assert(forall|i: int| 0 <= i < s.drop_first().len() ==> s.drop_first()[i] == s[i + 1]);
        if s[0] != c && (forall|i: int| 0 <= i < s.drop_first().len() ==> s.drop_first()[i] != c) {
            assert(forall|i: int| 0 <= i < s.len() ==> s[i] != c) by {
                assert(forall|i: int| 1 <= i < s.len() ==> s[i] == s.drop_first()[i - 1]);
            }
        }
    }
}

/// If `c` first occurs at `i`, then `find_char` returns `i`.
pub proof fn lemma_find_char_at(s: Seq<char>, c: char, i: int)
    requires
        0 <= i < s.len(),
        s[i] == c,
        forall|j: int| 0 <= j < i ==> s[j] != c,
    ensures
        find_char(s, c) == Some(i),
    decreases i,
{
    if i == 0 {
    } else {
        assert(s.drop_first()[i - 1] == s[i]);
        assert(forall|j: int| 0 <= j < i - 1 ==> s.drop_first()[j] == s[j + 1]);
        lemma_find_char_at(s.drop_first(), c, i - 1);
    }
}

/// A found index is in range, holds `c`, and nothing before it does.
pub proof fn lemma_find_char_some(s: Seq<char>, c: char)
    requires
        find_char(s, c) is Some,
    ensures
        0 <= find_char(s, c)->Some_0 < s.len(),
        s[find_char(s, c)->Some_0] == c,
        forall|j: int| 0 <= j < find_char(s, c)->Some_0 ==> s[j] != c,
    decreases s.len(),
{
    if s.len() > 0 && s[0] != c {
        lemma_find_char_some(s.drop_first(), c);
        let i = find_char(s, c)->Some_0;
        assert(forall|j: int| 1 <= j < i ==> s[j] == s.drop_first()[j - 1]);
    }
}

/// Find the first occurrence of `c` in `s`.
pub fn find_char_exec(s: &str, c: char) -> (r: Option<usize>)
    ensures
        match r {
            Some(i) => find_char(s@, c) == Some(i as int),
            None => find_char(s@, c) is None,
        },
{
    let n = s.unicode_len();
    let mut i: usize = 0;
    while i < n
        invariant
            i <= n,
            n as nat == s@.len(),
            forall|j: int| 0 <= j < i ==> s@[j] != c,
        decreases n - i,
    {
        if s.get_char(i) == c {
            proof {
                lemma_find_char_at(s@, c, i as int);
            }
            return Some(i);
        }
        i = i + 1;
    }
    proof {
        lemma_find_char_none(s@, c);
    }
    None
}

/// The pieces of `s` between occurrences of `sep`, in order.
pub open spec fn spec_split(s: Seq<char>, sep: char) -> Seq<Seq<char>>
    decreases s.len(),
{
    match find_char(s, sep) {
        None => seq![s],
        Some(i) => if 0 <= i < s.len() {
            seq![s.subrange(0, i)] + spec_split(s.subrange(i + 1, s.len() as int), sep)
        } else {
            seq![s]
        },
    }
}

/// Split `s` at every occurrence of `sep`.
pub fn split_exec(s: &str, sep: char) -> (r: Vec<String>)
    ensures
        r.deep_view() == spec_split(s@, sep),
{
    let mut rest: &str = s;
    let mut parts: Vec<String> = Vec::new();
    loop
        invariant
            spec_split(s@, sep) =~= parts.deep_view() + spec_split(rest@, sep),
        decreases rest@.len(),
    {
        let ghost prev_parts = parts.deep_view();
        match find_char_exec(rest, sep) {
            Some(i) => {
                proof {
                    lemma_find_char_some(rest@, sep);
                }
                let n = rest.unicode_len();
                let piece = rest.substring_char(0, i);
                parts.push(String::from_str(piece));
                let old_rest: &str = rest;
                rest = rest.substring_char(i + 1, n);
                proof {
                    assert(parts.deep_view() =~= prev_parts + seq![piece@]);
                    assert(spec_split(old_rest@, sep) =~= seq![piece@] + spec_split(rest@, sep));
                    assert(spec_split(s@, sep) =~= parts.deep_view() + spec_split(rest@, sep));
                }
            },
            None => {
                parts.push(String::from_str(rest));
                proof {
                    assert(spec_split(rest@, sep) =~= seq![rest@]);
                    assert(parts.deep_view() =~= prev_parts + seq![rest@]);
                    assert(parts.deep_view() =~= spec_split(s@, sep));
                }
                return parts;
            },
        }
    }
}

/// A string without the separator splits to itself alone.
pub proof fn lemma_split_none(s: Seq<char>, sep: char)
    requires
        forall|i: int| 0 <= i < s.len() ==> s[i] != sep,
    ensures
        spec_split(s, sep) == seq![s],
{
    lemma_find_char_none(s, sep);
}

/// One separator splits a string into the parts before and after it,
/// when neither part holds the separator itself.
pub proof fn lemma_split_two(x: Seq<char>, y: Seq<char>, sep: char)
    requires
        forall|i: int| 0 <= i < x.len() ==> x[i] != sep,
        forall|i: int| 0 <= i < y.len() ==> y[i] != sep,
    ensures
        spec_split(x + seq![sep] + y, sep) == seq![x, y],
{
    let s = x + seq![sep] + y;
    assert(s[x.len() as int] == sep);
    assert(forall|j: int| 0 <= j < x.len() ==> s[j] == x[j]);
    lemma_find_char_at(s, sep, x.len() as int);
    assert(spec_split(s, sep) == seq![s.subrange(0, x.len() as int)] + spec_split(
        s.subrange(x.len() as int + 1, s.len() as int),
        sep,
    ));
    assert(s.subrange(0, x.len() as int) =~= x);
    assert(s.subrange(x.len() as int + 1, s.len() as int) =~= y);
    lemma_split_none(y, sep);
    assert(spec_split(s, sep) =~= seq![x, y]);
}

/// `s` with leading whitespace removed.
pub open spec fn spec_trim_start(s: Seq<char>) -> Seq<char>
    decreases s.len(),
{
    if s.len() > 0 && is_space_char(s[0]) {
        spec_trim_start(s.drop_first())
    } else {
        s
    }
}

/// `s` with trailing whitespace removed.
pub open spec fn spec_trim_end(s: Seq<char>) -> Seq<char>
    decreases s.len(),
{
    if s.len() > 0 && is_space_char(s[s.len() - 1]) {
        spec_trim_end(s.drop_last())
    } else {
        s
    }
}

/// `s` with leading and trailing whitespace removed.
pub open spec fn spec_trim(s: Seq<char>) -> Seq<char> {
    spec_trim_end(spec_trim_start(s))
}

/// If the first `i` characters are spaces and the one at `i` is not,
/// trimming from the start drops exactly `i` characters.
pub proof fn lemma_trim_start_at(s: Seq<char>, i: int)
    requires
        0 <= i <= s.len(),
        forall|j: int| 0 <= j < i ==> is_space_char(s[j]),
        i < s.len() ==> !is_space_char(s[i]),
    ensures
        spec_trim_start(s) =~= s.subrange(i, s.len() as int),
    decreases i,
{
    if i == 0 {
    } else {
        assert(is_space_char(s[0]));
        assert(forall|j: int| 0 <= j < i - 1 ==> s.drop_first()[j] == s[j + 1]);
        assert(i - 1 < s.drop_first().len() ==> s.drop_first()[i - 1] == s[i]);
        lemma_trim_start_at(s.drop_first(), i - 1);
        assert(s.drop_first().subrange(i - 1, s.drop_first().len() as int) =~= s.subrange(
            i,
            s.len() as int,
        ));
    }
}

/// If every character from `j` on is a space and the one before `j` is
/// not, trimming from the end keeps exactly the first `j` characters.
pub proof fn lemma_trim_end_at(s: Seq<char>, j: int)
    requires
        0 <= j <= s.len(),
        forall|k: int| j <= k < s.len() ==> is_space_char(s[k]),
        j > 0 ==> !is_space_char(s[j - 1]),
    ensures
        spec_trim_end(s) =~= s.subrange(0, j),
    decreases s.len() - j,
{
    if j == s.len() {
        if s.len() > 0 {
            assert(!is_space_char(s[s.len() - 1]));
        }
    } else {
        assert(is_space_char(s[s.len() - 1]));
        assert(forall|k: int| j <= k < s.drop_last().len() ==> s.drop_last()[k] == s[k]);
        assert(j > 0 ==> s.drop_last()[j - 1] == s[j - 1]);
        lemma_trim_end_at(s.drop_last(), j);
        assert(s.drop_last().subrange(0, j) =~= s.subrange(0, j));
    }
}

/// Remove leading and trailing whitespace.
pub fn trim_exec(s: &str) -> (r: String)
    ensures
        r@ == spec_trim(s@),
{
    let n = s.unicode_len();
    let mut i: usize = 0;
    while i < n && space_char(s.get_char(i))
        invariant
            i <= n,
            n as nat == s@.len(),
            forall|j: int| 0 <= j < i ==> is_space_char(s@[j]),
        decreases n - i,
    {
        i = i + 1;
    }
    let mut j: usize = n;
    while j > i && space_char(s.get_char(j - 1))
        invariant
            i <= j <= n,
            n as nat == s@.len(),
            forall|k: int| j <= k < n ==> is_space_char(s@[k]),
        decreases j,
    {
        j = j - 1;
    }
    let sub = s.substring_char(i, j);
    proof {
        lemma_trim_start_at(s@, i as int);
        let mid = s@.subrange(i as int, s@.len() as int);
        assert(forall|k: int| (j - i) <= k < mid.len() ==> mid[k] == s@[k + i]);
        assert(j - i > 0 ==> mid[j - i - 1] == s@[(j - 1) as int]);
        lemma_trim_end_at(mid, j - i);
        assert(mid.subrange(0, j - i) =~= s@.subrange(i as int, j as int));
        assert(spec_trim(s@) == s@.subrange(i as int, j as int));
    }
    String::from_str(sub)
}

/// Whether `p` is a prefix of `s`.
pub open spec fn spec_starts_with(s: Seq<char>, p: Seq<char>) -> bool {
    p.len() <= s.len() && s.subrange(0, p.len() as int) == p
}

/// Whether `s` starts with `p`.
pub fn starts_with_exec(s: &str, p: &str) -> (r: bool)
    ensures
        r == spec_starts_with(s@, p@),
{
    let sn = s.unicode_len();
    let pn = p.unicode_len();
    if pn > sn {
        return false;
    }
    let mut i: usize = 0;
    while i < pn
        invariant
            i <= pn <= sn,
            sn as nat == s@.len(),
            pn as nat == p@.len(),
            forall|j: int| 0 <= j < i ==> s@[j] == p@[j],
        decreases pn - i,
    {
        if s.get_char(i) != p.get_char(i) {
            proof {
                assert(!spec_starts_with(s@, p@)) by {
                    if s@.subrange(0, p@.len() as int) == p@ {
                        assert(s@.subrange(0, p@.len() as int)[i as int] == s@[i as int]);
                    }
                }
            }
            return false;
        }
        i = i + 1;
    }
    proof {
        assert(s@.subrange(0, p@.len() as int) =~= p@);
    }
    true
}

/// Whether two strings hold the same characters.
pub fn str_eq(a: &str, b: &str) -> (r: bool)
    ensures
        r == (a@ == b@),
{
    let an = a.unicode_len();
    let bn = b.unicode_len();
    if an != bn {
        proof {
            assert(a@ != b@) by {
                if a@ == b@ {
                    assert(a@.len() == b@.len());
                }
            }
        }
        return false;
    }
    let mut i: usize = 0;
    while i < an
        invariant
            i <= an,
            an as nat == a@.len(),
            an as nat == b@.len(),
            forall|j: int| 0 <= j < i ==> a@[j] == b@[j],
        decreases an - i,
    {
        if a.get_char(i) != b.get_char(i) {
            proof {
                assert(a@ != b@) by {
                    if a@ == b@ {
                        assert(a@[i as int] == b@[i as int]);
                    }
                }
            }
            return false;
        }
        i = i + 1;
    }
    proof {
        assert(a@ =~= b@);
    }
    true
}

/// `s` without surrounding double quotes, when it has them.
pub open spec fn spec_strip_quotes(s: Seq<char>) -> Seq<char> {
    if s.len() >= 2 && s[0] == '"' && s[s.len() - 1] == '"' {
        s.subrange(1, s.len() - 1)
    } else {
        s
    }
}

/// Remove one pair of surrounding double quotes, when present.
pub fn strip_quotes_exec(s: &str) -> (r: String)
    ensures
        r@ == spec_strip_quotes(s@),
{
    let n = s.unicode_len();
    if n >= 2 && s.get_char(0) == '"' && s.get_char(n - 1) == '"' {
        String::from_str(s.substring_char(1, n - 1))
    } else {
        String::from_str(s)
    }
}

} // verus!
