//! Facts about the tree operations, stated over the outcomes their contracts describe.
use vstd::prelude::*;

use crate::constants::{IterEventType, NodeType, STATUS_OK};
use crate::errors::{DoogieError, DoogieResult};
use crate::forest::{decode, ForestView, NodeView};
use crate::iter::successor;
use vstd::std_specs::cmp::PartialEqSpec;
use crate::node::{info_set, literal_set, new_root, steps_to, text_read, wraps, Node};

verus! {

/// Whether a node is freed or inside a freed tree depends only on the parent links and
/// the freed flags.
proof fn lemma_freed_above_same(f: ForestView, g: ForestView, n: usize, fuel: nat)
    requires
        f.wf(),
        f.allocated(n),
        f.nodes.len() == g.nodes.len(),
        forall|x: usize|
            f.allocated(x) ==> g.nodes[x as int].parent == f.nodes[x as int].parent
                && g.nodes[x as int].freed == f.nodes[x as int].freed,
    ensures
        g.freed_above(n, fuel) == f.freed_above(n, fuel),
    decreases fuel,
{
    if fuel > 0 {
        if let Some(q) = f.nodes[n as int].parent {
            lemma_freed_above_same(f, g, q, (fuel - 1) as nat);
        }
    }
}

/// A node wrapped from a handle is that handle's node: asking a node for itself gives a
/// node equal to it, of the same kind.
pub proof fn lemma_itself_is_same(f: ForestView, n: Node, r: Node)
    requires
        wraps(f, n.handle(), n.owner(), Ok::<Node, DoogieError>(r)),
        decode(f.nodes[n.handle() as int].code) == Some(n.kind()),
    ensures
        r.handle() == n.handle(),
        r.eq_spec(&n),
        r.kind() == n.kind(),
        r.owner() == n.owner(),
{
}

/// Stepping twice from the same node in the same forest reaches equal nodes.
pub proof fn lemma_navigation_repeatable(
    f: ForestView,
    target: Option<usize>,
    m: usize,
    a: DoogieResult<Option<Node>>,
    b: DoogieResult<Option<Node>>,
)
    requires
        steps_to(f, target, m, a),
        steps_to(f, target, m, b),
    ensures
        a is Ok <==> b is Ok,
        a matches Ok(Some(x)) ==> (b matches Ok(Some(y)) && x.eq_spec(&y) && x.kind() == y.kind()),
        a matches Ok(None) ==> b matches Ok(None),
{
}

/// A node and its first child are never equal.
pub proof fn lemma_first_child_differs(f: ForestView, n: Node, r: DoogieResult<Option<Node>>)
    requires
        f.wf(),
        f.usable(n.handle()),
        steps_to(f, f.first_of(n.handle()), n.owner(), r),
    ensures
        r matches Ok(Some(c)) ==> !c.eq_spec(&n),
{
    if let Ok(Some(c)) = r {
        let h = n.handle();
        assert(f.nodes[h as int].children[0] == c.handle());
        assert(f.nodes[c.handle() as int].parent == Some(h));
    }
}

/// A newly made node is tracked as a root by its owner.
pub proof fn lemma_new_root_tracked(f: ForestView, g: ForestView, h: usize, m: usize, kind: NodeType)
    requires
        new_root(f, g, h, m, kind),
    ensures
        g.managers[m as int].contains(h),
        g.usable(h),
        g.nodes[h as int].parent is None,
{
    assert(g.nodes[h as int] == crate::forest::fresh_node(kind));
    assert(!g.freed_above(h, g.nodes.len()));
}

/// A tree root adopted by a fresh owner is tracked by it.
pub proof fn lemma_adopted_root_tracked(f: ForestView, g: ForestView, h: usize)
    requires
        g.managers == f.managers.push(Set::<usize>::empty().insert(h)),
    ensures
        g.managers[f.managers.len() as int].contains(h),
{
}

/// After a node is unlinked it has no parent, no node lists it as a child, and its owner
/// tracks it as a root.
pub proof fn lemma_unlink_tracks(f: ForestView, h: usize, m: usize)
    requires
        f.wf(),
        f.usable(h),
        m < f.managers.len(),
    ensures
        f.unlinked(h).tracking(m, h).managers[m as int].contains(h),
        f.unlinked(h).nodes[h as int].parent is None,
        forall|x: usize, i: int|
            f.allocated(x) && 0 <= i < f.unlinked(h).nodes[x as int].children.len()
                ==> f.unlinked(h).nodes[x as int].children[i] != h,
{
    crate::forest::lemma_unlinked_wf(f, h);
    let u = f.unlinked(h);
    assert forall|x: usize, i: int|
        f.allocated(x) && 0 <= i < u.nodes[x as int].children.len() implies u.nodes[x as int].children[i] != h by {
        let c = u.nodes[x as int].children[i];
        assert(u.nodes[c as int].parent == Some(x));
    }
}

/// After a successful append, the child is no longer tracked by its owner: the tree it
/// joined owns it.
pub proof fn lemma_append_untracks(u: ForestView, p: usize, c: usize, m: usize)
    requires
        m < u.managers.len(),
        u.allocated(p),
        u.allocated(c),
    ensures
        !u.attached(p, c).untracking(m, c).managers[m as int].contains(c),
        u.attached(p, c).untracking(m, c).nodes[c as int].parent == Some(p),
{
}

/// The kind table decides appends: for a parent without a parent of its own and any other
/// usable child, the append that follows the child's unlinking succeeds exactly when
/// `can_append_child` answers `true` for the pair's kinds.
pub proof fn lemma_validity_decides_append(f: ForestView, parent: Node, child: Node)
    requires
        f.wf(),
        f.usable(parent.handle()),
        f.usable(child.handle()),
        parent.handle() != child.handle(),
        child.owner() < f.managers.len(),
        f.nodes[parent.handle() as int].parent is None,
        decode(f.nodes[parent.handle() as int].code) == Some(parent.kind()),
        decode(f.nodes[child.handle() as int].code) is Some,
    ensures
        ({
            let c = child.handle();
            let u = f.unlinked(c).tracking(child.owner(), c);
            u.can_contain(parent.handle(), c) == parent.kind().valid_child(
                decode(f.nodes[c as int].code)->0,
            )
        }),
{
    let p = parent.handle();
    let c = child.handle();
    let u = f.unlinked(c).tracking(child.owner(), c);
    if let Some(q) = f.nodes[c as int].parent {
        assert(q != c);
    }
    assert(u.nodes[p as int].parent is None);
    assert(u.nodes[p as int].code == f.nodes[p as int].code);
    assert(u.nodes[c as int].code == f.nodes[c as int].code);
    assert(!u.reaches(p, c, u.nodes.len()));
}

/// Storing text without NUL characters as a text node's content, then reading it back,
/// gives the same text.
pub proof fn lemma_content_round_trip(
    f: ForestView,
    g: ForestView,
    h: usize,
    s: Seq<char>,
    r: DoogieResult<u32>,
    back: DoogieResult<String>,
)
    requires
        f.wf(),
        f.usable(h),
        decode(f.nodes[h as int].code) == Some(NodeType::CMarkNodeText),
        !s.contains('\0'),
        literal_set(f, g, h, s, r),
        text_read(g, h, g.nodes[h as int].literal, back),
    ensures
        r == Ok::<u32, DoogieError>(STATUS_OK),
        back matches Ok(t) && t@ == s,
{
    let n = NodeView { literal: s, ..f.nodes[h as int] };
    assert(g == f.with_node(h, n));
    lemma_freed_above_same(f, g, h, f.nodes.len());
}

/// Storing text without NUL characters as a code block's info string, then reading it
/// back, gives the same text.
pub proof fn lemma_fence_info_round_trip(
    f: ForestView,
    g: ForestView,
    h: usize,
    s: Seq<char>,
    r: DoogieResult<u32>,
    back: DoogieResult<String>,
)
    requires
        f.wf(),
        f.usable(h),
        decode(f.nodes[h as int].code) == Some(NodeType::CMarkNodeCodeBlock),
        !s.contains('\0'),
        info_set(f, g, h, s, r),
        text_read(g, h, g.nodes[h as int].info, back),
    ensures
        r == Ok::<u32, DoogieError>(STATUS_OK),
        back matches Ok(t) && t@ == s,
{
    let n = NodeView { info: s, ..f.nodes[h as int] };
    assert(g == f.with_node(h, n));
    lemma_freed_above_same(f, g, h, f.nodes.len());
}

/// `x` lies in the subtree of `h`: following parent links from `x` leads to `h`.
pub open spec fn in_subtree(f: ForestView, x: usize, h: usize) -> bool {
    exists|k: nat| f.reaches(x, h, k)
}

/// Once `h` is unlinked, a traversal never steps from a node outside the subtree of `h`
/// into it. So a walk of the tree `h` left, from any root outside that subtree (such as
/// the root of that tree), no longer meets `h` or anything below it.
pub proof fn lemma_walk_avoids_unlinked(f: ForestView, h: usize, root: usize, x: usize, ev: IterEventType)
    requires
        f.wf(),
        f.allocated(h),
        f.allocated(x),
        !in_subtree(f.unlinked(h), x, h),
    ensures
        ({
            let u = f.unlinked(h);
            let (e, y) = successor(u, root, x, ev);
            e != IterEventType::Done ==> !in_subtree(u, y, h)
        }),
{
    crate::forest::lemma_unlinked_wf(f, h);
    let u = f.unlinked(h);
    let (e, y) = successor(u, root, x, ev);
    assert(u.nodes[h as int].parent is None);
    assert(u.reaches(x, h, 0) ==> in_subtree(u, x, h));
    assert(x != h);
    if e != IterEventType::Done && in_subtree(u, y, h) {
        let k = choose|k: nat| u.reaches(y, h, k);
        if ev == IterEventType::Enter && !crate::iter::leaf_code(u.nodes[x as int].code) {
            if u.nodes[x as int].children.len() > 0 {
                let c = u.nodes[x as int].children[0];
                assert(y == c);
                assert(u.nodes[c as int].parent == Some(x));
                assert(c != h);
                assert(u.reaches(x, h, (k - 1) as nat));
                assert(in_subtree(u, x, h));
            } else {
                assert(y == x);
            }
        } else if x == root {
        } else if let Some(q) = u.nodes[x as int].parent {
            if u.position(x) + 1 < u.nodes[q as int].children.len() {
                let i = u.position(x) + 1;
                assert(u.nodes[q as int].children.contains(x));
                let s = u.nodes[q as int].children[i];
                assert(y == s);
                assert(u.nodes[s as int].parent == Some(q));
                assert(s != h);
                assert(u.reaches(q, h, (k - 1) as nat));
                assert(u.reaches(x, h, k));
                assert(in_subtree(u, x, h));
            } else {
                assert(y == q);
                assert(u.reaches(x, h, k + 1));
                assert(in_subtree(u, x, h));
            }
        }
    }
}

/// Once `h` is unlinked, a node without a parent other than `h`, such as the root of the
/// tree `h` left, lies outside the subtree of `h`; and `h` itself is still usable.
pub proof fn lemma_unlinked_apart(f: ForestView, h: usize, root: usize)
    requires
        f.wf(),
        f.usable(h),
        f.allocated(root),
        root != h,
        f.unlinked(h).nodes[root as int].parent is None,
    ensures
        !in_subtree(f.unlinked(h), root, h),
        f.unlinked(h).usable(h),
{
    let u = f.unlinked(h);
    assert forall|k: nat| !u.reaches(root, h, k) by {
    }
    assert(u.nodes[h as int].freed == f.nodes[h as int].freed);
    assert(u.nodes[h as int].parent is None);
}

} // verus!
