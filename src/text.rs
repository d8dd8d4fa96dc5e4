//! Searching text, and the two case and white-space transformations of std
//! that the library relies on.
use vstd::prelude::*;
use vstd::string::StrSliceExecFns;

verus! {

/// `s` begins with `pat`.
pub open spec fn has_prefix(s: Seq<char>, pat: Seq<char>) -> bool {
    pat.len() <= s.len() && s.subrange(0, pat.len() as int) == pat
}

/// `s` ends with `pat`.
pub open spec fn has_suffix(s: Seq<char>, pat: Seq<char>) -> bool {
    pat.len() <= s.len() && s.subrange(s.len() - pat.len(), s.len() as int) == pat
}

/// `pat` occurs somewhere in `s`.
pub open spec fn has_infix(s: Seq<char>, pat: Seq<char>) -> bool {
    exists|i: int| 0 <= i && i + pat.len() <= s.len() && #[trigger] s.subrange(i, i + pat.len()) == pat
}

/// What `str::to_lowercase` returns for `s`.
pub uninterp spec fn lower_of(s: Seq<char>) -> Seq<char>;

/// What `str::trim` leaves of `s`.
pub uninterp spec fn trim_of(s: Seq<char>) -> Seq<char>;

/// Relies on `str::to_lowercase`: the lowercase form, a function of the
/// characters alone.
#[verifier::external_body]
pub(crate) fn lowercase(s: &str) -> (r: String)
    ensures
        r@ == lower_of(s@),
{
    s.to_lowercase()
}

/// `pat` occurs in `s` starting at index `at`.
pub fn matches_at(s: &str, pat: &str, at: usize) -> (r: bool)
    ensures
        r == (at + pat@.len() <= s@.len() && s@.subrange(at as int, at + pat@.len()) == pat@),
{
    let n = s.unicode_len();
    let m = pat.unicode_len();
    if at > n || m > n - at {
        return false;
    }
    let mut j: usize = 0;
    while j < m
        invariant
            n == s@.len(),
            m == pat@.len(),
            at + m <= n,
            j <= m,
            forall|k: int| 0 <= k < j ==> s@[at + k] == pat@[k],
        decreases m - j,
    {
        if s.get_char(at + j) != pat.get_char(j) {
            assert(s@.subrange(at as int, at + m)[j as int] != pat@[j as int]);
            return false;
        }
        j = j + 1;
    }
    assert(s@.subrange(at as int, at + m) =~= pat@);
    true
}

/// `s` begins with `pat`.
pub fn starts_with(s: &str, pat: &str) -> (r: bool)
    ensures
        r == has_prefix(s@, pat@),
{
    matches_at(s, pat, 0)
}

/// `s` ends with `pat`.
pub fn ends_with(s: &str, pat: &str) -> (r: bool)
    ensures
        r == has_suffix(s@, pat@),
{
    let n = s.unicode_len();
    let m = pat.unicode_len();
    if m > n {
        false
    } else {
        matches_at(s, pat, n - m)
    }
}

/// `pat` occurs somewhere in `s`.
pub fn contains(s: &str, pat: &str) -> (r: bool)
    ensures
        r == has_infix(s@, pat@),
{
    let n = s.unicode_len();
    let m = pat.unicode_len();
    if m > n {
        return false;
    }
    let mut i: usize = 0;
    while i < n - m
        invariant
            n == s@.len(),
            m == pat@.len(),
            m <= n,
            i <= n - m,
            forall|k: int| 0 <= k < i ==> #[trigger] s@.subrange(k, k + m) != pat@,
        decreases n - m - i,
    {
        if matches_at(s, pat, i) {
            return true;
        }
        i = i + 1;
    }
    matches_at(s, pat, i)
}

/// Relies on `str::trim`: the text without leading and trailing white space.
#[verifier::external_body]
pub(crate) fn trim(s: &str) -> (r: String)
    ensures
        r@ == trim_of(s@),
{
    s.trim().to_string()
}

} // verus!
