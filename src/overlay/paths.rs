//! Path text: joining, and the ancestor relation between absolute paths.
use vstd::prelude::*;

use crate::text::chars_of;

verus! {

/// Whether the absolute path `a` is `p` itself or one of its ancestors,
/// comparing whole components.
pub open spec fn is_ancestor_or_self(a: Seq<char>, p: Seq<char>) -> bool {
    ||| p == a
    ||| (a.len() < p.len() && p.subrange(0, a.len() as int) == a && (p[a.len() as int] == '/' || (
    a.len() > 0 && a.last() == '/')))
}

/// `rel` placed under the directory `root`.
pub open spec fn child_path(root: Seq<char>, rel: Seq<char>) -> Seq<char> {
    if root.len() > 0 && root.last() == '/' {
        root + rel
    } else {
        root + seq!['/'] + rel
    }
}

/// `p` resolved against the directory `root`: an absolute `p` stands as it is.
pub open spec fn resolve_path(root: Seq<char>, p: Seq<char>) -> Seq<char> {
    if p.len() > 0 && p[0] == '/' {
        p
    } else {
        child_path(root, p)
    }
}

/// Whether `a` is `p` or an ancestor of it.
pub fn ancestor_or_self(a: &str, p: &str) -> (r: bool)
    ensures
        r == is_ancestor_or_self(a@, p@),
{
    let ac = chars_of(a);
    let pc = chars_of(p);
    let n = ac.len();
    if n > pc.len() {
        return false;
    }
    let mut i: usize = 0;
    while i < n
        invariant
            ac@ == a@,
            pc@ == p@,
            n == ac@.len(),
            n <= pc@.len(),
            i <= n,
            forall|j: int| 0 <= j < i ==> ac@[j] == pc@[j],
        decreases n - i,
    {
        if ac[i] != pc[i] {
            proof {
                if pc@ == ac@ {
                    assert(pc@[i as int] == ac@[i as int]);
                }
                if pc@.subrange(0, n as int) == ac@ {
                    assert(pc@.subrange(0, n as int)[i as int] == pc@[i as int]);
                }
            }
            assert(!is_ancestor_or_self(a@, p@));
            return false;
        }
        i = i + 1;
    }
    assert(pc@.subrange(0, n as int) =~= ac@);
    if n == pc.len() {
        assert(pc@ =~= ac@);
        return true;
    }
    pc[n] == '/' || (n > 0 && ac[n - 1] == '/')
}

/// `rel` placed under the directory `root`.
pub fn child_of(root: &str, rel: &str) -> (r: String)
    ensures
        r@ == child_path(root@, rel@),
{
    let rc = chars_of(root);
    let mut r = String::from_str(root);
    proof {
        reveal_strlit("/");
    }
    if !(rc.len() > 0 && rc[rc.len() - 1] == '/') {
        r.append("/");
    }
    r.append(rel);
    r
}

/// `p` resolved against the directory `root`.
pub fn resolve(root: &str, p: &str) -> (r: String)
    ensures
        r@ == resolve_path(root@, p@),
{
    let pc = chars_of(p);
    if pc.len() > 0 && pc[0] == '/' {
        String::from_str(p)
    } else {
        child_of(root, p)
    }
}

} // verus!
