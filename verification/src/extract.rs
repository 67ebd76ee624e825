//! Pattern extraction over fetched documents.
//!
//! The service's landing page references its script bundle as
//! `/main<c><token>"` and the bundle embeds its version as `v1<c><token>"`,
//! where `<c>` is a single arbitrary character (other than a newline) and
//! `<token>` runs to the next double quote. Both references are located by
//! the same leftmost-match rule, and the whole match (prefix included) is
//! the extracted value.
use vstd::prelude::*;
use vstd::string::*;

verus! {

use crate::TranslateError;

/// The pattern can match at position `i`: the fixed prefix occurs there,
/// followed by one character other than a newline (the wildcard), followed
/// by at least one character other than a double quote.
pub open spec fn match_at(h: Seq<char>, pre: Seq<char>, i: int) -> bool {
    &&& 0 <= i
    &&& i + pre.len() + 2 <= h.len()
    &&& h.subrange(i, i + pre.len()) == pre
    &&& h[i + pre.len()] != '\n'
    &&& h[i + pre.len() + 1] != '"'
}

/// The first index at or after `from` that stops a run of non-quote
/// characters: the end of the text, or the next double quote.
pub open spec fn run_end(h: Seq<char>, from: int) -> int
    decreases h.len() - from,
{
    if from >= h.len() || h[from] == '"' {
        from
    } else {
        run_end(h, from + 1)
    }
}

/// `i` is the leftmost position at which the pattern matches.
pub open spec fn is_first_match(h: Seq<char>, pre: Seq<char>, i: int) -> bool {
    &&& match_at(h, pre, i)
    &&& forall|j: int| 0 <= j < i ==> !match_at(h, pre, j)
}

/// The whole substring matched at position `i`: the prefix, the wildcard,
/// and the maximal run of non-quote characters after it.
pub open spec fn token_at(h: Seq<char>, pre: Seq<char>, i: int) -> Seq<char> {
    h.subrange(i, run_end(h, i + pre.len() + 1))
}

/// Does the fixed prefix occur in `h` at position `i`?
fn prefix_matches(h: &str, pre: &str, i: usize) -> (r: bool)
    requires
        i + pre@.len() <= h@.len(),
        h@.len() <= usize::MAX,
    ensures
        r <==> h@.subrange(i as int, i + pre@.len()) == pre@,
{
    let pn = pre.unicode_len();
    let mut k: usize = 0;
    while k < pn
        invariant
            pn == pre@.len(),
            i + pn <= h@.len(),
            h@.len() <= usize::MAX,
            0 <= k <= pn,
            forall|l: int| 0 <= l < k ==> h@[i + l] == pre@[l],
        decreases pn - k,
    {
        if h.get_char(i + k) != pre.get_char(k) {
            assert(h@.subrange(i as int, i + pre@.len()) != pre@) by {
                assert(h@.subrange(i as int, i + pre@.len())[k as int] == h@[i + k]);
            }
            return false;
        }
        k += 1;
    }
    assert(h@.subrange(i as int, i + pre@.len()) =~= pre@);
    true
}

/// Finds the leftmost match of the pattern built from `pre` in `h` and
/// returns the whole matched substring, or `None` when the pattern is
/// absent.
pub fn find_match(h: &str, pre: &str) -> (r: Option<String>)
    ensures
        (r is Some <==> exists|i: int| match_at(h@, pre@, i)),
        (r matches Some(m) ==> exists|i: int|
            is_first_match(h@, pre@, i) && m@ == token_at(h@, pre@, i)),
{
    let hn = h.unicode_len();
    let pn = pre.unicode_len();
    if hn < 2 || pn > hn - 2 {
        assert(forall|i: int| !match_at(h@, pre@, i));
        return None;
    }
    let last = hn - pn - 2;
    let mut i: usize = 0;
    while i <= last
        invariant
            hn == h@.len(),
            pn == pre@.len(),
            pn + 2 <= hn,
            last == hn - pn - 2,
            0 <= i <= last + 1,
            forall|j: int| 0 <= j < i ==> !match_at(h@, pre@, j),
        decreases last + 1 - i,
    {
        if prefix_matches(h, pre, i) {
            let wild = h.get_char(i + pn);
            let nxt = h.get_char(i + pn + 1);
            if wild != '\n' && nxt != '"' {
                assert(match_at(h@, pre@, i as int));
                let start = i + pn + 1;
                let mut j: usize = start;
                while j < hn && h.get_char(j) != '"'
                    invariant
                        hn == h@.len(),
                        start <= j <= hn,
                        run_end(h@, start as int) == run_end(h@, j as int),
                    decreases hn - j,
                {
                    assert(run_end(h@, j as int) == run_end(h@, j + 1 as int));
                    j += 1;
                }
                assert(run_end(h@, j as int) == j);
                let m = h.substring_char(i, j);
                assert(m@ == token_at(h@, pre@, i as int));
                return Some(String::from_str(m));
            }
        }
        assert(!match_at(h@, pre@, i as int));
        i += 1;
    }
    assert(forall|ii: int| match_at(h@, pre@, ii) ==> 0 <= ii && ii <= last as int);
    None
}

/// The landing page references the script bundle after this prefix.
pub open spec fn script_ref_prefix() -> Seq<char> {
    "/main"@
}

/// The script bundle embeds the service version after this prefix.
pub open spec fn version_prefix() -> Seq<char> {
    "v1"@
}

/// Locates the first script-bundle reference in the landing page and
/// returns its whole match as the bundle's site-relative path; fails with
/// `ExtractionError` exactly when the reference pattern is absent.
pub fn extract_script_path(html: &str) -> (r: Result<String, TranslateError>)
    ensures
        (r is Ok <==> exists|i: int| match_at(html@, script_ref_prefix(), i)),
        (r matches Ok(p) ==> exists|i: int|
            is_first_match(html@, script_ref_prefix(), i)
                && p@ == token_at(html@, script_ref_prefix(), i)),
        (r matches Err(e) ==> e == TranslateError::ExtractionError),
{
    match find_match(html, "/main") {
        Some(p) => {
            proof {
                let wi = choose|i: int|
                    is_first_match(html@, script_ref_prefix(), i)
                        && p@ == token_at(html@, script_ref_prefix(), i);
                assert(match_at(html@, script_ref_prefix(), wi));
            }
            Ok(p)
        },
        None => Err(TranslateError::ExtractionError),
    }
}

/// Locates the first embedded version reference in the script bundle and
/// returns its whole match (the `v1` prefix included) as the service
/// version; fails with `ExtractionError` exactly when the version pattern
/// is absent.
pub fn extract_version(script: &str) -> (r: Result<String, TranslateError>)
    ensures
        (r is Ok <==> exists|i: int| match_at(script@, version_prefix(), i)),
        (r matches Ok(v) ==> exists|i: int|
            is_first_match(script@, version_prefix(), i)
                && v@ == token_at(script@, version_prefix(), i)),
        (r matches Err(e) ==> e == TranslateError::ExtractionError),
{
    match find_match(script, "v1") {
        Some(v) => {
            proof {
                let wi = choose|i: int|
                    is_first_match(script@, version_prefix(), i)
                        && v@ == token_at(script@, version_prefix(), i);
                assert(match_at(script@, version_prefix(), wi));
            }
            Ok(v)
        },
        None => Err(TranslateError::ExtractionError),
    }
}

} // verus!
