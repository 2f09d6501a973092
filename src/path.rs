//! Paths as text, separated by `/`.
use vstd::prelude::*;

use crate::text::ends_with_char;

verus! {

/// `name` taken relative to `base`: an absolute name stands alone, an
/// empty base leaves the name as it is, otherwise one separator joins them.
pub open spec fn joined(base: Seq<char>, name: Seq<char>) -> Seq<char> {
    if name.len() > 0 && name[0] == '/' {
        name
    } else if base.len() == 0 {
        name
    } else if base.last() == '/' {
        base + name
    } else {
        base + seq!['/'] + name
    }
}

/// The path without its trailing separators, a lone root kept.
pub open spec fn trim_end_sep(p: Seq<char>) -> Seq<char>
    decreases p.len(),
{
    if p.len() > 1 && p.last() == '/' {
        trim_end_sep(p.drop_last())
    } else {
        p
    }
}

/// Position of the last separator in `p`, or -1 when it has none.
pub open spec fn last_sep(p: Seq<char>) -> int
    decreases p.len(),
{
    if p.len() == 0 {
        -1
    } else if p.last() == '/' {
        p.len() - 1
    } else {
        last_sep(p.drop_last())
    }
}

/// The path one segment up: the root stays the root, and a single relative
/// segment becomes the empty path.
pub open spec fn parent(p: Seq<char>) -> Seq<char> {
    let q = trim_end_sep(p);
    let k = last_sep(q);
    if k < 0 {
        Seq::empty()
    } else if k == 0 {
        seq!['/']
    } else {
        q.subrange(0, k)
    }
}

proof fn lemma_last_sep(p: Seq<char>)
    ensures
        -1 <= last_sep(p) < p.len(),
        last_sep(p) >= 0 ==> p[last_sep(p)] == '/',
    decreases p.len(),
{
    if p.len() > 0 && p.last() != '/' {
        lemma_last_sep(p.drop_last());
    }
}

/// Joins `name` onto `base`.
pub fn join_path(base: &str, name: &str) -> (r: String)
    ensures
        r@ == joined(base@, name@),
{
    proof {
        reveal_strlit("/");
    }
    let absolute = name.unicode_len() > 0 && name.get_char(0) == '/';
    if absolute || base.unicode_len() == 0 {
        String::from_str(name)
    } else if ends_with_char(base, '/') {
        let mut r = String::from_str(base);
        r.append(name);
        r
    } else {
        let mut r = String::from_str(base);
        r.append("/");
        r.append(name);
        proof {
            assert(r@ =~= base@ + seq!['/'] + name@);
        }
        r
    }
}

/// The parent of a path, as going back one directory reaches it.
pub fn parent_path(p: &str) -> (r: String)
    ensures
        r@ == parent(p@),
{
    proof {
        reveal_strlit("/");
        reveal_strlit("");
    }
    let mut end: usize = p.unicode_len();
    assert(p@.subrange(0, end as int) =~= p@);
    while end > 1 && p.get_char(end - 1) == '/'
        invariant
            end <= p@.len(),
            trim_end_sep(p@.subrange(0, end as int)) == trim_end_sep(p@),
        decreases end,
    {
        assert(p@.subrange(0, end - 1) =~= p@.subrange(0, end as int).drop_last());
        end = end - 1;
    }
    let ghost q = p@.subrange(0, end as int);
    assert(trim_end_sep(q) == q);
    let mut k: usize = end;
    while k > 0 && p.get_char(k - 1) != '/'
        invariant
            k <= end,
            end <= p@.len(),
            q == p@.subrange(0, end as int),
            last_sep(q) == last_sep(p@.subrange(0, k as int)),
        decreases k,
    {
        assert(p@.subrange(0, k - 1) =~= p@.subrange(0, k as int).drop_last());
        k = k - 1;
    }
    proof {
        lemma_last_sep(q);
    }
    if k == 0 {
        String::new()
    } else if k == 1 {
        String::from_str("/")
    } else {
        String::from_str(p.substring_char(0, k - 1))
    }
}

} // verus!
