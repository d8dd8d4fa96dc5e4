//! Deciding whether a file-creation event names a finished screenshot, and
//! where that screenshot will live once the system has finished writing it.
//!
//! The screenshot tool first writes the image under a name that carries one
//! extra leading marker character; the finished file has the same name without
//! it. An event is a candidate when its file name, marker removed, looks like
//! a screenshot.
use vstd::prelude::*;
use vstd::string::StrSliceExecFns;
use crate::text::{contains, ends_with, has_infix, has_prefix, has_suffix, lower_of,
    lowercase, starts_with};
use crate::paths::{dir_prefix, file_name, file_name_of, lemma_name_start_bounds,
    lemma_name_start_of_concat, name_start, strip_marker};

verus! {

/// The extension of the file name `name` is `png`: it ends in `.png` and has
/// something before that dot.
pub open spec fn has_png_extension(name: Seq<char>) -> bool {
    has_suffix(name, ".png"@) && name.len() > 4
}

/// The candidate rule, given the file name as it appears in the event
/// (`marked`, marker included) and the lowercase form of that name with the
/// marker removed (`lowered`).
pub open spec fn candidate_name(lowered: Seq<char>, marked: Seq<char>) -> bool {
    &&& marked.len() > 0
    &&& has_prefix(lowered, "screenshot"@) || has_infix(lowered, "screen shot"@)
    &&& !has_suffix(marked.drop_first(), "-ss"@)
    &&& has_png_extension(marked)
}

/// The candidate rule applied to a path as it arrives in an event.
pub open spec fn is_candidate_path(p: Seq<char>) -> bool {
    let marked = file_name(p);
    marked.len() > 0 && candidate_name(lower_of(marked.drop_first()), marked)
}

/// The candidate rule, from the event's file name (`marked`) and the lowercase
/// form of that name without its marker (`lowered`).
pub fn is_candidate_folded(lowered: &str, marked: &str) -> (r: bool)
    ensures
        r == candidate_name(lowered@, marked@),
{
    let n = marked.unicode_len();
    if n == 0 {
        return false;
    }
    let name = marked.substring_char(1, n);
    assert(name@ =~= marked@.drop_first());
    (starts_with(lowered, "screenshot") || contains(lowered, "screen shot"))
        && !ends_with(name, "-ss")
        && ends_with(marked, ".png") && n > 4
}

/// Whether the path of a creation event names a screenshot worth renaming.
pub fn is_candidate(path: &str) -> (r: bool)
    ensures
        r == is_candidate_path(path@),
{
    let marked = file_name_of(path);
    let n = marked.unicode_len();
    if n == 0 {
        return false;
    }
    let name = marked.as_str().substring_char(1, n);
    assert(name@ =~= marked@.drop_first());
    let lowered = lowercase(name);
    is_candidate_folded(lowered.as_str(), marked.as_str())
}

/// A path is a candidate exactly when its file name is non-empty and, with
/// the first character removed and read without regard to case, starts with
/// `screenshot` or contains `screen shot`, does not end in `-ss`, and the
/// whole file name has the extension `png`.
pub proof fn lemma_candidate_clauses(p: Seq<char>)
    ensures
        is_candidate_path(p) <==> {
            let marked = file_name(p);
            let lowered = lower_of(marked.drop_first());
            &&& marked.len() > 0
            &&& has_prefix(lowered, "screenshot"@) || has_infix(lowered, "screen shot"@)
            &&& !has_suffix(marked.drop_first(), "-ss"@)
            &&& has_suffix(marked, ".png"@)
            &&& marked.len() > 4
        },
{
}

/// Removing the marker is done once and only to the file name: the directory
/// part is kept, the file name loses exactly its first character, and two
/// event paths whose file names start with the same marker character give
/// the same result only if they are the same path.
pub proof fn lemma_real_path_strips_once(p: Seq<char>, q: Seq<char>)
    requires
        file_name(p).len() > 0,
        file_name(q).len() > 0,
        file_name(p)[0] == file_name(q)[0],
    ensures
        dir_prefix(strip_marker(p)) == dir_prefix(p),
        file_name(strip_marker(p)) == file_name(p).drop_first(),
        strip_marker(p).len() + 1 == p.len(),
        strip_marker(p) == strip_marker(q) ==> p == q,
{
    lemma_stripped_parts(p);
    lemma_stripped_parts(q);
    if strip_marker(p) == strip_marker(q) {
        let dp = dir_prefix(p);
        let dq = dir_prefix(q);
        let fp = file_name(p);
        let fq = file_name(q);
        assert(dp == dq);
        assert(fp =~= seq![fp[0]] + fp.drop_first());
        assert(fq =~= seq![fq[0]] + fq.drop_first());
        assert(fp == fq);
        lemma_name_start_bounds(p);
        lemma_name_start_bounds(q);
        assert(p =~= dp + fp);
        assert(q =~= dq + fq);
    }
}

proof fn lemma_stripped_parts(p: Seq<char>)
    requires
        file_name(p).len() > 0,
    ensures
        dir_prefix(strip_marker(p)) == dir_prefix(p),
        file_name(strip_marker(p)) == file_name(p).drop_first(),
        strip_marker(p).len() + 1 == p.len(),
{
    lemma_name_start_bounds(p);
    let d = dir_prefix(p);
    let t = file_name(p).drop_first();
    assert forall|i: int| 0 <= i < t.len() implies t[i] != '/' by {
        assert(t[i] == p[name_start(p) + 1 + i]);
    }
    if d.len() > 0 {
        assert(d.last() == p[name_start(p) - 1]);
    }
    lemma_name_start_of_concat(d, t);
    let s = strip_marker(p);
    assert(s == d + t);
    assert(s.subrange(0, d.len() as int) =~= d);
    assert(s.subrange(d.len() as int, s.len() as int) =~= t);
}

} // verus!
