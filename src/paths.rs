//! A path is a string whose components are separated by `/`. Its file name is
//! what follows the last `/`; its directory part is everything up to and
//! including that `/`.
use vstd::prelude::*;
use vstd::string::StrSliceExecFns;
use vstd::string::StringExecFns;

verus! {

/// Index at which the file name of `p` begins: just past its last `/`, or 0.
pub open spec fn name_start(p: Seq<char>) -> int
    decreases p.len(),
{
    if p.len() == 0 {
        0
    } else if p.last() == '/' {
        p.len() as int
    } else {
        name_start(p.drop_last())
    }
}

/// The file name of `p`: the text after its last `/`.
pub open spec fn file_name(p: Seq<char>) -> Seq<char> {
    p.subrange(name_start(p), p.len() as int)
}

/// The directory part of `p`: the text up to and including its last `/`.
pub open spec fn dir_prefix(p: Seq<char>) -> Seq<char> {
    p.subrange(0, name_start(p))
}

/// `p` with the first character of its file name removed; `p` itself when the
/// file name is empty.
pub open spec fn strip_marker(p: Seq<char>) -> Seq<char> {
    if file_name(p).len() == 0 {
        p
    } else {
        dir_prefix(p) + file_name(p).drop_first()
    }
}

/// `rel` placed under `base`: an absolute `rel` stands alone; otherwise a `/`
/// is put between them unless `base` is empty or already ends with one.
pub open spec fn join(base: Seq<char>, rel: Seq<char>) -> Seq<char> {
    if rel.len() > 0 && rel[0] == '/' {
        rel
    } else if base.len() == 0 || base.last() == '/' {
        base + rel
    } else {
        base + seq!['/'] + rel
    }
}

pub proof fn lemma_name_start_bounds(p: Seq<char>)
    ensures
        0 <= name_start(p) <= p.len(),
        name_start(p) == 0 || p[name_start(p) - 1] == '/',
        forall|i: int| name_start(p) <= i < p.len() ==> p[i] != '/',
    decreases p.len(),
{
    if p.len() > 0 && p.last() != '/' {
        let q = p.drop_last();
        lemma_name_start_bounds(q);
        assert forall|i: int| name_start(p) <= i < p.len() implies p[i] != '/' by {
            if i < q.len() {
                assert(p[i] == q[i]);
            }
        }
    }
}

/// The file name begins right after the directory part, whatever follows it,
/// provided what follows holds no `/`.
pub proof fn lemma_name_start_of_concat(dir: Seq<char>, name: Seq<char>)
    requires
        dir.len() == 0 || dir.last() == '/',
        forall|i: int| 0 <= i < name.len() ==> name[i] != '/',
    ensures
        name_start(dir + name) == dir.len(),
    decreases name.len(),
{
    if name.len() == 0 {
        assert(dir + name =~= dir);
    } else {
        assert((dir + name).drop_last() =~= dir + name.drop_last());
        lemma_name_start_of_concat(dir, name.drop_last());
    }
}

/// Index at which the file name of `p` begins.
pub fn name_start_index(p: &str) -> (r: usize)
    ensures
        r == name_start(p@),
{
    let n = p.unicode_len();
    let mut i: usize = n;
    assert(p@.subrange(0, n as int) =~= p@);
    while i > 0 && p.get_char(i - 1) != '/'
        invariant
            n == p@.len(),
            i <= n,
            name_start(p@) == name_start(p@.subrange(0, i as int)),
        decreases i,
    {
        assert(p@.subrange(0, i as int).drop_last() =~= p@.subrange(0, i - 1));
        i = i - 1;
    }
    i
}

/// The file name of `p`.
pub fn file_name_of(p: &str) -> (r: String)
    ensures
        r@ == file_name(p@),
{
    let s = name_start_index(p);
    proof {
        lemma_name_start_bounds(p@);
    }
    let n = p.unicode_len();
    String::from_str(p.substring_char(s, n))
}

/// `p` with the first character of its file name removed.
pub fn real_path(p: &str) -> (r: String)
    ensures
        r@ == strip_marker(p@),
{
    let s = name_start_index(p);
    proof {
        lemma_name_start_bounds(p@);
    }
    let n = p.unicode_len();
    if s == n {
        String::from_str(p)
    } else {
        let dir = String::from_str(p.substring_char(0, s));
        let r = dir.concat(p.substring_char(s + 1, n));
        assert(r@ =~= strip_marker(p@));
        r
    }
}

/// `rel` placed under `base`.
pub fn join_path(base: &str, rel: &str) -> (r: String)
    ensures
        r@ == join(base@, rel@),
{
    let nb = base.unicode_len();
    let nr = rel.unicode_len();
    if nr > 0 && rel.get_char(0) == '/' {
        String::from_str(rel)
    } else if nb == 0 || base.get_char(nb - 1) == '/' {
        String::from_str(base).concat(rel)
    } else {
        let r = String::from_str(base).concat("/").concat(rel);
        proof {
            reveal_strlit("/");
        }
        assert(r@ =~= join(base@, rel@));
        r
    }
}

} // verus!
