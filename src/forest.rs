//! The node store: an arena of nodes linked into trees, with the owners that
//! track which of them are independent roots.
use vstd::prelude::*;
use vstd::string::StringExecFns;

use crate::constants::{NodeType, STATUS_OK, STATUS_REFUSED};
use crate::manager::ResourceManager;

verus! {

/// An opaque handle to a node of a `Forest`; two handles are equal iff they name the same node.
#[derive(Debug, Clone, Copy, PartialEq, Eq, Structural, Hash)]
pub struct CMarkNodePtr {
    /// Position of the node in its forest.
    pub id: usize,
}

} // verus!

verus! {

/// What one node holds, as contracts see it.
pub struct NodeView {
    /// The code of the node's kind.
    pub code: u32,
    /// Literal text content (text, code, code blocks and raw HTML).
    pub literal: Seq<char>,
    /// Info string of a fenced code block.
    pub info: Seq<char>,
    /// Destination of a link or image.
    pub url: Seq<char>,
    /// Title of a link or image.
    pub title: Seq<char>,
    /// Level of a heading.
    pub level: u32,
    /// Code of a list's kind.
    pub list_type: u32,
    /// Code of an ordered list's delimiter.
    pub delim: u32,
    /// Line in the source document where the node starts.
    pub start_line: u32,
    /// Column in the source document where the node starts.
    pub start_column: u32,
    /// The node this one is a child of.
    pub parent: Option<usize>,
    /// The children, in document order.
    pub children: Seq<usize>,
    /// Whether the node was freed.
    pub freed: bool,
}

/// A forest as contracts see it: its nodes by handle, and the roots each owner tracks.
pub struct ForestView {
    pub nodes: Seq<NodeView>,
    pub managers: Seq<Set<usize>>,
}

/// The code under which text nodes are stored.
pub const TEXT_CODE: u32 = 11;

/// Decodes a stored kind code; `None` for a code that names no kind.
pub open spec fn decode(code: u32) -> Option<NodeType> {
    match code {
        0 => Some(NodeType::CMarkNodeNone),
        1 => Some(NodeType::CMarkNodeDocument),
        2 => Some(NodeType::CMarkNodeBlockQuote),
        3 => Some(NodeType::CMarkNodeList),
        4 => Some(NodeType::CMarkNodeItem),
        5 => Some(NodeType::CMarkNodeCodeBlock),
        6 => Some(NodeType::CMarkNodeHtmlBlock),
        7 => Some(NodeType::CMarkNodeCustomBlock),
        8 => Some(NodeType::CMarkNodeParagraph),
        9 => Some(NodeType::CMarkNodeHeading),
        10 => Some(NodeType::CMarkNodeThematicBreak),
        11 => Some(NodeType::CMarkNodeText),
        12 => Some(NodeType::CMarkNodeSoftbreak),
        13 => Some(NodeType::CMarkNodeLinebreak),
        14 => Some(NodeType::CMarkNodeCode),
        15 => Some(NodeType::CMarkNodeHtmlInline),
        16 => Some(NodeType::CMarkNodeCustomInline),
        17 => Some(NodeType::CMarkNodeEmph),
        18 => Some(NodeType::CMarkNodeStrong),
        19 => Some(NodeType::CMarkNodeLink),
        20 => Some(NodeType::CMarkNodeImage),
        _ => None,
    }
}

/// A node as it is first allocated: empty content, no links.
pub open spec fn fresh_node(kind: NodeType) -> NodeView {
    NodeView {
        code: kind.spec_code(),
        literal: Seq::empty(),
        info: Seq::empty(),
        url: Seq::empty(),
        title: Seq::empty(),
        level: if kind == NodeType::CMarkNodeHeading { 1 } else { 0 },
        list_type: if kind == NodeType::CMarkNodeList { 1 } else { 0 },
        delim: 0,
        start_line: 0,
        start_column: 0,
        parent: None,
        children: Seq::empty(),
        freed: false,
    }
}

impl ForestView {
    /// The handle names an allocated node.
    pub open spec fn allocated(self, h: usize) -> bool {
        h < self.nodes.len()
    }

    /// The links between nodes agree: a node is among the children of its parent exactly
    /// when it names that parent, no node is its own parent, and no child is listed twice.
    pub open spec fn wf(self) -> bool {
        &&& forall|h: usize|
            #![trigger self.nodes[h as int].parent]
            self.allocated(h) ==> match self.nodes[h as int].parent {
                Some(q) => q != h && self.allocated(q) && self.nodes[q as int].children.contains(h),
                None => true,
            }
        &&& forall|h: usize, i: int|
            #![trigger self.nodes[h as int].children[i]]
            self.allocated(h) && 0 <= i < self.nodes[h as int].children.len() ==> {
                let c = self.nodes[h as int].children[i];
                self.allocated(c) && self.nodes[c as int].parent == Some(h)
            }
        &&& forall|h: usize|
            #![trigger self.nodes[h as int].children]
            self.allocated(h) ==> self.nodes[h as int].children.no_duplicates()
    }

    /// `a` is `n` or one of the first `fuel` ancestors of `n`.
    pub open spec fn reaches(self, n: usize, a: usize, fuel: nat) -> bool
        decreases fuel,
    {
        n == a || (fuel > 0 && match self.nodes[n as int].parent {
            Some(q) => self.reaches(q, a, (fuel - 1) as nat),
            None => false,
        })
    }

    /// `n` or one of its first `fuel` ancestors was freed.
    pub open spec fn freed_above(self, n: usize, fuel: nat) -> bool
        decreases fuel,
    {
        self.nodes[n as int].freed || (fuel > 0 && match self.nodes[n as int].parent {
            Some(q) => self.freed_above(q, (fuel - 1) as nat),
            None => false,
        })
    }

    /// The node is allocated and neither it nor the root of its tree was freed.
    pub open spec fn usable(self, h: usize) -> bool {
        self.allocated(h) && !self.freed_above(h, self.nodes.len())
    }

    /// The kind of an allocated node, when its code names one.
    pub open spec fn kind(self, h: usize) -> Option<NodeType> {
        decode(self.nodes[h as int].code)
    }

    /// A node of `c` may be appended as the last child of `p`: the two differ, `c` is not
    /// an ancestor of `p`, and the kinds allow it.
    pub open spec fn can_contain(self, p: usize, c: usize) -> bool {
        &&& p != c
        &&& !self.reaches(p, c, self.nodes.len())
        &&& self.kind(p) is Some
        &&& self.kind(c) is Some
        &&& self.kind(p)->0.valid_child(self.kind(c)->0)
    }

    /// Position of `h` among the children of its parent.
    pub open spec fn position(self, h: usize) -> int {
        self.nodes[self.nodes[h as int].parent->0 as int].children.index_of(h)
    }

    /// The sibling right after `h`.
    pub open spec fn next_of(self, h: usize) -> Option<usize> {
        match self.nodes[h as int].parent {
            Some(q) => if self.position(h) + 1 < self.nodes[q as int].children.len() {
                Some(self.nodes[q as int].children[self.position(h) + 1])
            } else {
                None
            },
            None => None,
        }
    }

    /// The sibling right before `h`.
    pub open spec fn prev_of(self, h: usize) -> Option<usize> {
        match self.nodes[h as int].parent {
            Some(q) => if self.position(h) > 0 {
                Some(self.nodes[q as int].children[self.position(h) - 1])
            } else {
                None
            },
            None => None,
        }
    }

    /// The first child of `h`.
    pub open spec fn first_of(self, h: usize) -> Option<usize> {
        let cs = self.nodes[h as int].children;
        if cs.len() > 0 { Some(cs[0]) } else { None }
    }

    /// The last child of `h`.
    pub open spec fn last_of(self, h: usize) -> Option<usize> {
        let cs = self.nodes[h as int].children;
        if cs.len() > 0 { Some(cs.last()) } else { None }
    }

    /// The forest after `h` is detached from its parent; its own children stay.
    pub open spec fn unlinked(self, h: usize) -> ForestView {
        match self.nodes[h as int].parent {
            Some(q) => ForestView {
                nodes: self.nodes.update(
                    q as int,
                    NodeView {
                        children: self.nodes[q as int].children.remove(self.position(h)),
                        ..self.nodes[q as int]
                    },
                ).update(h as int, NodeView { parent: None, ..self.nodes[h as int] }),
                managers: self.managers,
            },
            None => self,
        }
    }

    /// The forest after the detached node `c` becomes the last child of `p`.
    pub open spec fn attached(self, p: usize, c: usize) -> ForestView {
        ForestView {
            nodes: self.nodes.update(
                p as int,
                NodeView { children: self.nodes[p as int].children.push(c), ..self.nodes[p as int] },
            ).update(c as int, NodeView { parent: Some(p), ..self.nodes[c as int] }),
            managers: self.managers,
        }
    }

    /// The forest after owner `m` starts tracking `h`.
    pub open spec fn tracking(self, m: usize, h: usize) -> ForestView {
        ForestView { managers: self.managers.update(m as int, self.managers[m as int].insert(h)), ..self }
    }

    /// The forest after owner `m` stops tracking `h`.
    pub open spec fn untracking(self, m: usize, h: usize) -> ForestView {
        ForestView { managers: self.managers.update(m as int, self.managers[m as int].remove(h)), ..self }
    }

    /// The forest after `h`'s node takes a new value, with everything else unchanged.
    pub open spec fn with_node(self, h: usize, v: NodeView) -> ForestView {
        ForestView { nodes: self.nodes.update(h as int, v), managers: self.managers }
    }
}

/// One node of the store.
struct NodeRecord {
    code: u32,
    literal: String,
    info: String,
    url: String,
    title: String,
    level: u32,
    list_type: u32,
    delim: u32,
    start_line: u32,
    start_column: u32,
    parent: Option<usize>,
    children: Vec<usize>,
    freed: bool,
}

impl View for NodeRecord {
    type V = NodeView;

    closed spec fn view(&self) -> NodeView {
        NodeView {
            code: self.code,
            literal: self.literal@,
            info: self.info@,
            url: self.url@,
            title: self.title@,
            level: self.level,
            list_type: self.list_type,
            delim: self.delim,
            start_line: self.start_line,
            start_column: self.start_column,
            parent: self.parent,
            children: self.children@,
            freed: self.freed,
        }
    }
}

/// An arena of CommonMark nodes, linked into trees, and the owners that track which
/// nodes are independent roots. Handles index the arena and stay valid for its lifetime;
/// a freed node keeps its slot so that a stale handle is detected rather than reused.
pub struct Forest {
    nodes: Vec<NodeRecord>,
    managers: Vec<ResourceManager>,
}

impl View for Forest {
    type V = ForestView;

    closed spec fn view(&self) -> ForestView {
        ForestView {
            nodes: self.nodes@.map_values(|r: NodeRecord| r@),
            managers: self.managers@.map_values(|m: ResourceManager| m@),
        }
    }
}

impl Forest {
    /// Constructs an empty forest.
    pub fn new() -> (r: Forest)
        ensures
            r@.nodes.len() == 0,
            r@.managers.len() == 0,
            r@.wf(),
    {
        let r = Forest { nodes: Vec::new(), managers: Vec::new() };
        assert(r@.nodes =~= Seq::<NodeView>::empty());
        r
    }

    /// Allocates a detached node of the given kind and returns its handle.
    pub fn node_new(&mut self, kind: NodeType) -> (r: CMarkNodePtr)
        requires
            old(self)@.wf(),
        ensures
            r.id == old(self)@.nodes.len(),
            final(self)@.nodes == old(self)@.nodes.push(fresh_node(kind)),
            final(self)@.managers == old(self)@.managers,
            final(self)@.wf(),
    {
        let id = self.nodes.len();
        let level: u32 = if kind == NodeType::CMarkNodeHeading { 1 } else { 0 };
        let list_type: u32 = if kind == NodeType::CMarkNodeList { 1 } else { 0 };
        let rec = NodeRecord {
            code: kind.code(),
            literal: String::new(),
            info: String::new(),
            url: String::new(),
            title: String::new(),
            level,
            list_type,
            delim: 0,
            start_line: 0,
            start_column: 0,
            parent: None,
            children: Vec::new(),
            freed: false,
        };
        proof {
            assert(rec.children@ =~= Seq::<usize>::empty());
        }
        self.nodes.push(rec);
        proof {
            assert(self@.nodes =~= old(self)@.nodes.push(fresh_node(kind)));
            assert(self@.managers =~= old(self)@.managers);
        }
        CMarkNodePtr { id }
    }
}


impl Forest {
    /// The number of allocated nodes, freed ones included.
    pub fn len(&self) -> (r: usize)
        ensures
            r == self@.nodes.len(),
    {
        self.nodes.len()
    }

    /// Returns the stored kind code of a node.
    pub fn kind_code(&self, p: CMarkNodePtr) -> (r: u32)
        requires
            self@.allocated(p.id),
        ensures
            r == self@.nodes[p.id as int].code,
    {
        self.nodes[p.id].code
    }

    /// Returns the parent of a node, if it has one.
    pub fn parent(&self, p: CMarkNodePtr) -> (r: Option<CMarkNodePtr>)
        requires
            self@.allocated(p.id),
        ensures
            r matches Some(q) ==> self@.nodes[p.id as int].parent == Some(q.id),
            r is None ==> self@.nodes[p.id as int].parent is None,
    {
        match self.nodes[p.id].parent {
            Some(q) => Some(CMarkNodePtr { id: q }),
            None => None,
        }
    }

    /// Returns the first child of a node, if it has one.
    pub fn first_child(&self, p: CMarkNodePtr) -> (r: Option<CMarkNodePtr>)
        requires
            self@.allocated(p.id),
        ensures
            r matches Some(q) ==> self@.first_of(p.id) == Some(q.id),
            r is None ==> self@.first_of(p.id) is None,
    {
        let cs = &self.nodes[p.id].children;
        if cs.len() > 0 {
            Some(CMarkNodePtr { id: cs[0] })
        } else {
            None
        }
    }

    /// Returns the last child of a node, if it has one.
    pub fn last_child(&self, p: CMarkNodePtr) -> (r: Option<CMarkNodePtr>)
        requires
            self@.allocated(p.id),
        ensures
            r matches Some(q) ==> self@.last_of(p.id) == Some(q.id),
            r is None ==> self@.last_of(p.id) is None,
    {
        let cs = &self.nodes[p.id].children;
        if cs.len() > 0 {
            Some(CMarkNodePtr { id: cs[cs.len() - 1] })
        } else {
            None
        }
    }

    /// Returns where `p` stands among the children of its parent `q`.
    fn position_in(&self, q: usize, p: usize) -> (r: usize)
        requires
            self@.wf(),
            self@.allocated(p),
            self@.nodes[p as int].parent == Some(q),
        ensures
            r == self@.position(p),
            r < self@.nodes[q as int].children.len(),
            self@.nodes[q as int].children[r as int] == p,
    {
        let ghost v = self@;
        assert(v.nodes[p as int].parent == Some(q));
        assert(v.allocated(q));
        let cs = &self.nodes[q].children;
        assert(cs@ == v.nodes[q as int].children);
        assert(cs@.no_duplicates());
        let mut i: usize = 0;
        while i < cs.len()
            invariant
                0 <= i <= cs@.len(),
                cs@ == v.nodes[q as int].children,
                v == self@,
                v.nodes[p as int].parent == Some(q),
                v.allocated(q),
                cs@.contains(p),
                cs@.no_duplicates(),
                forall|k: int| 0 <= k < i ==> cs@[k] != p,
            decreases cs@.len() - i,
        {
            if cs[i] == p {
                proof {
                    let j = cs@.index_of(p);
                    assert(0 <= j < cs@.len() && cs@[j] == p);
                    assert(j == i);
                }
                return i;
            }
            i = i + 1;
        }
        i
    }

    /// Returns the sibling right after a node, if there is one.
    pub fn next(&self, p: CMarkNodePtr) -> (r: Option<CMarkNodePtr>)
        requires
            self@.wf(),
            self@.allocated(p.id),
        ensures
            r matches Some(q) ==> self@.next_of(p.id) == Some(q.id),
            r is None ==> self@.next_of(p.id) is None,
    {
        match self.nodes[p.id].parent {
            Some(q) => {
                let i = self.position_in(q, p.id);
                let cs = &self.nodes[q].children;
                assert(cs@ == self@.nodes[q as int].children);
                if cs.len() - i > 1 {
                    Some(CMarkNodePtr { id: cs[i + 1] })
                } else {
                    None
                }
            },
            None => None,
        }
    }

    /// Returns the sibling right before a node, if there is one.
    pub fn previous(&self, p: CMarkNodePtr) -> (r: Option<CMarkNodePtr>)
        requires
            self@.wf(),
            self@.allocated(p.id),
        ensures
            r matches Some(q) ==> self@.prev_of(p.id) == Some(q.id),
            r is None ==> self@.prev_of(p.id) is None,
    {
        match self.nodes[p.id].parent {
            Some(q) => {
                let i = self.position_in(q, p.id);
                assert(self.nodes[q as int].children@ == self@.nodes[q as int].children);
                if i > 0 {
                    Some(CMarkNodePtr { id: self.nodes[q].children[i - 1] })
                } else {
                    None
                }
            },
            None => None,
        }
    }

    /// Detaches a node from its parent and siblings; it keeps its own children.
    pub fn unlink(&mut self, p: CMarkNodePtr)
        requires
            old(self)@.wf(),
            old(self)@.allocated(p.id),
        ensures
            final(self)@ == old(self)@.unlinked(p.id),
            final(self)@.wf(),
    {
        let ghost v = self@;
        match self.nodes[p.id].parent {
            Some(q) => {
                let i = self.position_in(q, p.id);
                self.nodes[q].children.remove(i);
                self.nodes[p.id].parent = None;
                proof {
                    assert(self@.nodes =~= v.unlinked(p.id).nodes);
                    assert(self@.managers =~= v.managers);
                    lemma_unlinked_wf(v, p.id);
                }
            },
            None => {},
        }
    }
}

/// Detaching a node keeps the links consistent.
pub proof fn lemma_unlinked_wf(v: ForestView, h: usize)
    requires
        v.wf(),
        v.allocated(h),
    ensures
        v.unlinked(h).wf(),
{
    if let Some(q) = v.nodes[h as int].parent {
        let u = v.unlinked(h);
        let cs = v.nodes[q as int].children;
        let j = v.position(h);
        assert(cs.contains(h));
        assert(0 <= j < cs.len() && cs[j] == h);
        let ncs = cs.remove(j);
        assert(u.nodes[q as int].children == ncs);
        assert forall|k: int| 0 <= k < ncs.len() implies ncs[k] != h by {
            if k < j {
                assert(ncs[k] == cs[k]);
            } else {
                assert(ncs[k] == cs[k + 1]);
            }
        }
        assert forall|x: usize|
            #![trigger u.nodes[x as int].parent]
            u.allocated(x) implies match u.nodes[x as int].parent {
                Some(r) => r != x && u.allocated(r) && u.nodes[r as int].children.contains(x),
                None => true,
            } by {
            if x != h {
                if let Some(r) = v.nodes[x as int].parent {
                    if r == q {
                        let k = choose|k: int| 0 <= k < cs.len() && cs[k] == x;
                        if k < j {
                            assert(ncs[k] == x);
                        } else {
                            assert(k != j);
                            assert(ncs[k - 1] == x);
                        }
                    }
                }
            }
        }
        assert forall|x: usize, i: int|
            #![trigger u.nodes[x as int].children[i]]
            u.allocated(x) && 0 <= i < u.nodes[x as int].children.len() implies {
                let c = u.nodes[x as int].children[i];
                u.allocated(c) && u.nodes[c as int].parent == Some(x)
            } by {
            if x == q {
                if i < j {
                    assert(ncs[i] == cs[i]);
                } else {
                    assert(ncs[i] == cs[i + 1]);
                }
            } else {
                let c = v.nodes[x as int].children[i];
                if c == h {
                    assert(v.nodes[h as int].parent == Some(x));
                }
            }
        }
        assert forall|x: usize|
            #![trigger u.nodes[x as int].children]
            u.allocated(x) implies u.nodes[x as int].children.no_duplicates() by {
            if x == q {
                assert forall|a: int, b: int| 0 <= a < b < ncs.len() implies ncs[a] != ncs[b] by {
                    let a2 = if a < j { a } else { a + 1 };
                    let b2 = if b < j { b } else { b + 1 };
                    assert(ncs[a] == cs[a2]);
                    assert(ncs[b] == cs[b2]);
                }
            }
        }
    }
}


/// Every stored kind decodes back to itself.
pub proof fn lemma_decode_code(t: NodeType)
    ensures
        decode(t.spec_code()) == Some(t),
{
}

/// Changing what a node holds, but not its links, keeps the links consistent.
proof fn lemma_same_links_wf(v: ForestView, h: usize, n: NodeView)
    requires
        v.wf(),
        v.allocated(h),
        n.parent == v.nodes[h as int].parent,
        n.children == v.nodes[h as int].children,
    ensures
        v.with_node(h, n).wf(),
{
    let u = v.with_node(h, n);
    assert forall|x: usize|
        #![trigger u.nodes[x as int].parent]
        u.allocated(x) implies match u.nodes[x as int].parent {
            Some(r) => r != x && u.allocated(r) && u.nodes[r as int].children.contains(x),
            None => true,
        } by {
        assert(v.nodes[x as int].parent == u.nodes[x as int].parent);
        if let Some(r) = v.nodes[x as int].parent {
            assert(v.nodes[r as int].children == u.nodes[r as int].children);
        }
    }
    assert forall|x: usize, i: int|
        #![trigger u.nodes[x as int].children[i]]
        u.allocated(x) && 0 <= i < u.nodes[x as int].children.len() implies {
            let c = u.nodes[x as int].children[i];
            u.allocated(c) && u.nodes[c as int].parent == Some(x)
        } by {
        assert(v.nodes[x as int].children == u.nodes[x as int].children);
        let c = v.nodes[x as int].children[i];
        assert(v.nodes[c as int].parent == u.nodes[c as int].parent);
    }
    assert forall|x: usize|
        #![trigger u.nodes[x as int].children]
        u.allocated(x) implies u.nodes[x as int].children.no_duplicates() by {
        assert(v.nodes[x as int].children == u.nodes[x as int].children);
    }
}

/// Attaching a detached node under another keeps the links consistent.
proof fn lemma_attached_wf(v: ForestView, p: usize, c: usize)
    requires
        v.wf(),
        v.allocated(p),
        v.allocated(c),
        p != c,
        v.nodes[c as int].parent is None,
    ensures
        v.attached(p, c).wf(),
{
    let u = v.attached(p, c);
    let cs = v.nodes[p as int].children;
    let ncs = cs.push(c);
    assert(u.nodes[p as int].children == ncs);
    assert forall|k: int| 0 <= k < cs.len() implies cs[k] != c by {
        assert(v.nodes[cs[k] as int].parent == Some(p));
    }
    assert forall|x: usize|
        #![trigger u.nodes[x as int].parent]
        u.allocated(x) implies match u.nodes[x as int].parent {
            Some(r) => r != x && u.allocated(r) && u.nodes[r as int].children.contains(x),
            None => true,
        } by {
        if x == c {
            assert(ncs[cs.len() as int] == c);
        } else if let Some(r) = v.nodes[x as int].parent {
            if r == p {
                let k = choose|k: int| 0 <= k < cs.len() && cs[k] == x;
                assert(ncs[k] == x);
            }
        }
    }
    assert forall|x: usize, i: int|
        #![trigger u.nodes[x as int].children[i]]
        u.allocated(x) && 0 <= i < u.nodes[x as int].children.len() implies {
            let d = u.nodes[x as int].children[i];
            u.allocated(d) && u.nodes[d as int].parent == Some(x)
        } by {
        if x == p {
            if i < cs.len() {
                assert(ncs[i] == cs[i]);
                assert(v.nodes[cs[i] as int].parent == Some(p));
            }
        } else {
            let d = v.nodes[x as int].children[i];
            if d == c {
                assert(v.nodes[c as int].parent == Some(x));
            }
        }
    }
    assert forall|x: usize|
        #![trigger u.nodes[x as int].children]
        u.allocated(x) implies u.nodes[x as int].children.no_duplicates() by {
        if x == p {
            assert forall|a: int, b: int| 0 <= a < b < ncs.len() implies ncs[a] != ncs[b] by {
                if b == cs.len() {
                    assert(ncs[a] == cs[a]);
                }
            }
        }
    }
}

impl Forest {
    /// Returns whether `a` is `n` or one of its ancestors, following at most as many
    /// parent links as there are nodes.
    fn reaches(&self, n: usize, a: usize) -> (r: bool)
        requires
            self@.wf(),
            self@.allocated(n),
        ensures
            r == self@.reaches(n, a, self@.nodes.len()),
    {
        let len = self.nodes.len();
        let mut cur = n;
        let mut steps: usize = 0;
        while steps < len
            invariant
                self@.wf(),
                len == self@.nodes.len(),
                self@.allocated(cur),
                steps <= len,
                self@.reaches(n, a, len as nat) == self@.reaches(cur, a, (len - steps) as nat),
            decreases len - steps,
        {
            if cur == a {
                return true;
            }
            match self.nodes[cur].parent {
                None => {
                    return false;
                },
                Some(q) => {
                    assert(self@.nodes[cur as int].parent == Some(q));
                    cur = q;
                },
            }
            steps = steps + 1;
        }
        cur == a
    }

    /// Returns whether `n` or one of its ancestors was freed, following at most as many
    /// parent links as there are nodes.
    fn freed_above(&self, n: usize) -> (r: bool)
        requires
            self@.wf(),
            self@.allocated(n),
        ensures
            r == self@.freed_above(n, self@.nodes.len()),
    {
        let len = self.nodes.len();
        let mut cur = n;
        let mut steps: usize = 0;
        while steps < len
            invariant
                self@.wf(),
                len == self@.nodes.len(),
                self@.allocated(cur),
                steps <= len,
                self@.freed_above(n, len as nat) == self@.freed_above(cur, (len - steps) as nat),
            decreases len - steps,
        {
            if self.nodes[cur].freed {
                return true;
            }
            match self.nodes[cur].parent {
                None => {
                    return false;
                },
                Some(q) => {
                    assert(self@.nodes[cur as int].parent == Some(q));
                    cur = q;
                },
            }
            steps = steps + 1;
        }
        self.nodes[cur].freed
    }

    /// Returns whether the handle names a node that is allocated and not freed, nor inside
    /// a freed tree.
    pub fn usable(&self, p: CMarkNodePtr) -> (r: bool)
        requires
            self@.wf(),
        ensures
            r == self@.usable(p.id),
    {
        p.id < self.nodes.len() && !self.freed_above(p.id)
    }

    /// Returns whether `c` may be appended as the last child of `p`.
    pub fn can_contain(&self, p: CMarkNodePtr, c: CMarkNodePtr) -> (r: bool)
        requires
            self@.wf(),
            self@.allocated(p.id),
            self@.allocated(c.id),
        ensures
            r == self@.can_contain(p.id, c.id),
    {
        if p.id == c.id || self.reaches(p.id, c.id) {
            return false;
        }
        let pk = NodeType::try_from(self.nodes[p.id].code);
        let ck = NodeType::try_from(self.nodes[c.id].code);
        match (pk, ck) {
            (Ok(a), Ok(b)) => {
                proof {
                    lemma_decode_code(a);
                    lemma_decode_code(b);
                }
                a.can_contain(b)
            },
            _ => false,
        }
    }

    /// Appends `c` as the last child of `p`, detaching it from where it stood, when
    /// `can_contain` allows it; reports the status of the attempt.
    pub fn append_child(&mut self, p: CMarkNodePtr, c: CMarkNodePtr) -> (r: u32)
        requires
            old(self)@.wf(),
            old(self)@.allocated(p.id),
            old(self)@.allocated(c.id),
        ensures
            final(self)@.wf(),
            old(self)@.can_contain(p.id, c.id) ==> r == STATUS_OK && final(self)@ == old(
                self,
            )@.unlinked(c.id).attached(p.id, c.id),
            !old(self)@.can_contain(p.id, c.id) ==> r == STATUS_REFUSED && final(self)@ == old(
                self,
            )@,
    {
        if !self.can_contain(p, c) {
            return STATUS_REFUSED;
        }
        self.unlink(c);
        let ghost u = self@;
        assert(u.nodes.len() == old(self)@.nodes.len());
        assert(self.nodes@.len() == u.nodes.len());
        self.nodes[p.id].children.push(c.id);
        self.nodes[c.id].parent = Some(p.id);
        proof {
            assert(self@.nodes =~= u.attached(p.id, c.id).nodes);
            assert(self@.managers =~= u.managers);
            lemma_attached_wf(u, p.id, c.id);
        }
        STATUS_OK
    }
}
impl Forest {
    /// Returns the literal text of a node; empty for kinds that hold none.
    pub fn literal(&self, p: CMarkNodePtr) -> (r: &String)
        requires
            self@.allocated(p.id),
        ensures
            r@ == self@.nodes[p.id as int].literal,
    {
        &self.nodes[p.id].literal
    }

    /// Sets the literal text of a node of a kind that holds literal text.
    pub fn set_literal(&mut self, p: CMarkNodePtr, s: &String) -> (r: u32)
        requires
            old(self)@.wf(),
            old(self)@.allocated(p.id),
        ensures
            final(self)@.wf(),
            decode(old(self)@.nodes[p.id as int].code) matches Some(t) && t.has_literal() ==> r == STATUS_OK && final(self)@ == old(self)@.with_node(
                p.id,
                NodeView { literal: s@, ..old(self)@.nodes[p.id as int] },
            ),
            !(decode(old(self)@.nodes[p.id as int].code) matches Some(t) && t.has_literal()) ==> r == STATUS_REFUSED && final(self)@ == old(self)@,
    {
        let code = self.nodes[p.id].code;
        if !(code == 5 || code == 6 || code == TEXT_CODE || code == 14 || code == 15) {
            return STATUS_REFUSED;
        }
        let ghost v = self@;
        self.nodes[p.id].literal = s.clone();
        proof {
            let n = NodeView { literal: s@, ..v.nodes[p.id as int] };
            assert(self@.nodes =~= v.with_node(p.id, n).nodes);
            assert(self@.managers =~= v.managers);
            lemma_same_links_wf(v, p.id, n);
        }
        STATUS_OK
    }

    /// Returns the info string of a code block.
    pub fn fence_info(&self, p: CMarkNodePtr) -> (r: &String)
        requires
            self@.allocated(p.id),
        ensures
            r@ == self@.nodes[p.id as int].info,
    {
        &self.nodes[p.id].info
    }

    /// Sets the info string of a code block.
    pub fn set_fence_info(&mut self, p: CMarkNodePtr, s: &String) -> (r: u32)
        requires
            old(self)@.wf(),
            old(self)@.allocated(p.id),
        ensures
            final(self)@.wf(),
            old(self)@.nodes[p.id as int].code == 5 ==> r == STATUS_OK && final(self)@ == old(self)@.with_node(
                p.id,
                NodeView { info: s@, ..old(self)@.nodes[p.id as int] },
            ),
            !(old(self)@.nodes[p.id as int].code == 5) ==> r == STATUS_REFUSED && final(self)@ == old(self)@,
    {
        let code = self.nodes[p.id].code;
        if !(code == 5) {
            return STATUS_REFUSED;
        }
        let ghost v = self@;
        self.nodes[p.id].info = s.clone();
        proof {
            let n = NodeView { info: s@, ..v.nodes[p.id as int] };
            assert(self@.nodes =~= v.with_node(p.id, n).nodes);
            assert(self@.managers =~= v.managers);
            lemma_same_links_wf(v, p.id, n);
        }
        STATUS_OK
    }

    /// Returns the destination of a link or image.
    pub fn url(&self, p: CMarkNodePtr) -> (r: &String)
        requires
            self@.allocated(p.id),
        ensures
            r@ == self@.nodes[p.id as int].url,
    {
        &self.nodes[p.id].url
    }

    /// Sets the destination of a link or image.
    pub fn set_url(&mut self, p: CMarkNodePtr, s: &String) -> (r: u32)
        requires
            old(self)@.wf(),
            old(self)@.allocated(p.id),
        ensures
            final(self)@.wf(),
            (old(self)@.nodes[p.id as int].code == 19 || old(self)@.nodes[p.id as int].code == 20) ==> r == STATUS_OK && final(self)@ == old(self)@.with_node(
                p.id,
                NodeView { url: s@, ..old(self)@.nodes[p.id as int] },
            ),
            !((old(self)@.nodes[p.id as int].code == 19 || old(self)@.nodes[p.id as int].code == 20)) ==> r == STATUS_REFUSED && final(self)@ == old(self)@,
    {
        let code = self.nodes[p.id].code;
        if !(code == 19 || code == 20) {
            return STATUS_REFUSED;
        }
        let ghost v = self@;
        self.nodes[p.id].url = s.clone();
        proof {
            let n = NodeView { url: s@, ..v.nodes[p.id as int] };
            assert(self@.nodes =~= v.with_node(p.id, n).nodes);
            assert(self@.managers =~= v.managers);
            lemma_same_links_wf(v, p.id, n);
        }
        STATUS_OK
    }

    /// Returns the title of a link or image.
    pub fn title(&self, p: CMarkNodePtr) -> (r: &String)
        requires
            self@.allocated(p.id),
        ensures
            r@ == self@.nodes[p.id as int].title,
    {
        &self.nodes[p.id].title
    }

    /// Sets the title of a link or image.
    pub fn set_title(&mut self, p: CMarkNodePtr, s: &String) -> (r: u32)
        requires
            old(self)@.wf(),
            old(self)@.allocated(p.id),
        ensures
            final(self)@.wf(),
            (old(self)@.nodes[p.id as int].code == 19 || old(self)@.nodes[p.id as int].code == 20) ==> r == STATUS_OK && final(self)@ == old(self)@.with_node(
                p.id,
                NodeView { title: s@, ..old(self)@.nodes[p.id as int] },
            ),
            !((old(self)@.nodes[p.id as int].code == 19 || old(self)@.nodes[p.id as int].code == 20)) ==> r == STATUS_REFUSED && final(self)@ == old(self)@,
    {
        let code = self.nodes[p.id].code;
        if !(code == 19 || code == 20) {
            return STATUS_REFUSED;
        }
        let ghost v = self@;
        self.nodes[p.id].title = s.clone();
        proof {
            let n = NodeView { title: s@, ..v.nodes[p.id as int] };
            assert(self@.nodes =~= v.with_node(p.id, n).nodes);
            assert(self@.managers =~= v.managers);
            lemma_same_links_wf(v, p.id, n);
        }
        STATUS_OK
    }

    /// Returns the level of a heading; zero for other kinds.
    pub fn heading_level(&self, p: CMarkNodePtr) -> (r: u32)
        requires
            self@.allocated(p.id),
        ensures
            r == self@.nodes[p.id as int].level,
    {
        self.nodes[p.id].level
    }

    /// Sets the level of a heading to a value from one to six.
    pub fn set_heading_level(&mut self, p: CMarkNodePtr, s: u32) -> (r: u32)
        requires
            old(self)@.wf(),
            old(self)@.allocated(p.id),
        ensures
            final(self)@.wf(),
            (old(self)@.nodes[p.id as int].code == 9 && 1 <= s <= 6) ==> r == STATUS_OK && final(self)@ == old(self)@.with_node(
                p.id,
                NodeView { level: s, ..old(self)@.nodes[p.id as int] },
            ),
            !((old(self)@.nodes[p.id as int].code == 9 && 1 <= s <= 6)) ==> r == STATUS_REFUSED && final(self)@ == old(self)@,
    {
        let code = self.nodes[p.id].code;
        if !(code == 9 && 1 <= s && s <= 6) {
            return STATUS_REFUSED;
        }
        let ghost v = self@;
        self.nodes[p.id].level = s;
        proof {
            let n = NodeView { level: s, ..v.nodes[p.id as int] };
            assert(self@.nodes =~= v.with_node(p.id, n).nodes);
            assert(self@.managers =~= v.managers);
            lemma_same_links_wf(v, p.id, n);
        }
        STATUS_OK
    }

    /// Returns the code of a list's kind; zero for other kinds.
    pub fn list_type(&self, p: CMarkNodePtr) -> (r: u32)
        requires
            self@.allocated(p.id),
        ensures
            r == self@.nodes[p.id as int].list_type,
    {
        self.nodes[p.id].list_type
    }

    /// Sets the code of a list's kind.
    pub fn set_list_type(&mut self, p: CMarkNodePtr, s: u32) -> (r: u32)
        requires
            old(self)@.wf(),
            old(self)@.allocated(p.id),
        ensures
            final(self)@.wf(),
            (old(self)@.nodes[p.id as int].code == 3 && s <= 2) ==> r == STATUS_OK && final(self)@ == old(self)@.with_node(
                p.id,
                NodeView { list_type: s, ..old(self)@.nodes[p.id as int] },
            ),
            !((old(self)@.nodes[p.id as int].code == 3 && s <= 2)) ==> r == STATUS_REFUSED && final(self)@ == old(self)@,
    {
        let code = self.nodes[p.id].code;
        if !(code == 3 && s <= 2) {
            return STATUS_REFUSED;
        }
        let ghost v = self@;
        self.nodes[p.id].list_type = s;
        proof {
            let n = NodeView { list_type: s, ..v.nodes[p.id as int] };
            assert(self@.nodes =~= v.with_node(p.id, n).nodes);
            assert(self@.managers =~= v.managers);
            lemma_same_links_wf(v, p.id, n);
        }
        STATUS_OK
    }

    /// Returns the code of a list's delimiter; zero for other kinds.
    pub fn list_delim(&self, p: CMarkNodePtr) -> (r: u32)
        requires
            self@.allocated(p.id),
        ensures
            r == self@.nodes[p.id as int].delim,
    {
        self.nodes[p.id].delim
    }

    /// Sets the code of a list's delimiter.
    pub fn set_list_delim(&mut self, p: CMarkNodePtr, s: u32) -> (r: u32)
        requires
            old(self)@.wf(),
            old(self)@.allocated(p.id),
        ensures
            final(self)@.wf(),
            (old(self)@.nodes[p.id as int].code == 3 && s <= 2) ==> r == STATUS_OK && final(self)@ == old(self)@.with_node(
                p.id,
                NodeView { delim: s, ..old(self)@.nodes[p.id as int] },
            ),
            !((old(self)@.nodes[p.id as int].code == 3 && s <= 2)) ==> r == STATUS_REFUSED && final(self)@ == old(self)@,
    {
        let code = self.nodes[p.id].code;
        if !(code == 3 && s <= 2) {
            return STATUS_REFUSED;
        }
        let ghost v = self@;
        self.nodes[p.id].delim = s;
        proof {
            let n = NodeView { delim: s, ..v.nodes[p.id as int] };
            assert(self@.nodes =~= v.with_node(p.id, n).nodes);
            assert(self@.managers =~= v.managers);
            lemma_same_links_wf(v, p.id, n);
        }
        STATUS_OK
    }

    /// Returns the line of the source document where a node starts.
    pub fn start_line(&self, p: CMarkNodePtr) -> (r: u32)
        requires
            self@.allocated(p.id),
        ensures
            r == self@.nodes[p.id as int].start_line,
    {
        self.nodes[p.id].start_line
    }

    /// Records the line of the source document where a node starts.
    pub fn set_start_line(&mut self, p: CMarkNodePtr, s: u32)
        requires
            old(self)@.wf(),
            old(self)@.allocated(p.id),
        ensures
            final(self)@.wf(),
            final(self)@ == old(self)@.with_node(p.id, NodeView { start_line: s, ..old(self)@.nodes[p.id as int] }),
    {
        let ghost v = self@;
        self.nodes[p.id].start_line = s;
        proof {
            let n = NodeView { start_line: s, ..v.nodes[p.id as int] };
            assert(self@.nodes =~= v.with_node(p.id, n).nodes);
            assert(self@.managers =~= v.managers);
            lemma_same_links_wf(v, p.id, n);
        }
    }

    /// Returns the column of the source document where a node starts.
    pub fn start_column(&self, p: CMarkNodePtr) -> (r: u32)
        requires
            self@.allocated(p.id),
        ensures
            r == self@.nodes[p.id as int].start_column,
    {
        self.nodes[p.id].start_column
    }

    /// Records the column of the source document where a node starts.
    pub fn set_start_column(&mut self, p: CMarkNodePtr, s: u32)
        requires
            old(self)@.wf(),
            old(self)@.allocated(p.id),
        ensures
            final(self)@.wf(),
            final(self)@ == old(self)@.with_node(p.id, NodeView { start_column: s, ..old(self)@.nodes[p.id as int] }),
    {
        let ghost v = self@;
        self.nodes[p.id].start_column = s;
        proof {
            let n = NodeView { start_column: s, ..v.nodes[p.id as int] };
            assert(self@.nodes =~= v.with_node(p.id, n).nodes);
            assert(self@.managers =~= v.managers);
            lemma_same_links_wf(v, p.id, n);
        }
    }

}
impl Forest {
    /// Creates an owner that tracks no roots and returns its index.
    pub fn new_manager(&mut self) -> (r: usize)
        ensures
            r == old(self)@.managers.len(),
            final(self)@.managers == old(self)@.managers.push(Set::<usize>::empty()),
            final(self)@.nodes == old(self)@.nodes,
    {
        let r = self.managers.len();
        self.managers.push(ResourceManager::new());
        assert(self@.managers =~= old(self)@.managers.push(Set::<usize>::empty()));
        assert(self@.nodes =~= old(self)@.nodes);
        r
    }

    /// The number of owners.
    pub fn manager_count(&self) -> (r: usize)
        ensures
            r == self@.managers.len(),
    {
        self.managers.len()
    }

    /// Makes owner `m` track `p` as a root.
    pub fn track_root(&mut self, m: usize, p: CMarkNodePtr)
        requires
            m < old(self)@.managers.len(),
        ensures
            final(self)@ == old(self)@.tracking(m, p.id),
    {
        self.managers[m].track_root(&p);
        assert(self@.managers =~= old(self)@.managers.update(
            m as int,
            old(self)@.managers[m as int].insert(p.id),
        ));
        assert(self@.nodes =~= old(self)@.nodes);
    }

    /// Makes owner `m` stop tracking `p`.
    pub fn untrack_root(&mut self, m: usize, p: CMarkNodePtr)
        requires
            m < old(self)@.managers.len(),
        ensures
            final(self)@ == old(self)@.untracking(m, p.id),
    {
        self.managers[m].untrack_root(&p);
        assert(self@.managers =~= old(self)@.managers.update(
            m as int,
            old(self)@.managers[m as int].remove(p.id),
        ));
        assert(self@.nodes =~= old(self)@.nodes);
    }

    /// Returns whether owner `m` tracks `p` as a root.
    pub fn is_tracking(&self, m: usize, p: CMarkNodePtr) -> (r: bool)
        requires
            m < self@.managers.len(),
        ensures
            r == self@.managers[m as int].contains(p.id),
    {
        self.managers[m].is_tracking(&p)
    }

    /// Frees a node together with its subtree: the node is detached and marked freed, and
    /// its descendants are unusable from then on.
    pub fn free(&mut self, p: CMarkNodePtr)
        requires
            old(self)@.wf(),
            old(self)@.allocated(p.id),
        ensures
            final(self)@.wf(),
            final(self)@ == old(self)@.unlinked(p.id).with_node(
                p.id,
                NodeView { freed: true, ..old(self)@.unlinked(p.id).nodes[p.id as int] },
            ),
    {
        self.unlink(p);
        let ghost u = self@;
        assert(self.nodes@.len() == u.nodes.len());
        self.nodes[p.id].freed = true;
        proof {
            let n = NodeView { freed: true, ..u.nodes[p.id as int] };
            assert(self@.nodes =~= u.with_node(p.id, n).nodes);
            assert(self@.managers =~= u.managers);
            lemma_same_links_wf(u, p.id, n);
        }
    }

    /// Tears down owner `m`: every root it tracks that is not freed yet is freed, once,
    /// and the owner is left tracking nothing.
    pub fn release(&mut self, m: usize)
        requires
            old(self)@.wf(),
            m < old(self)@.managers.len(),
        ensures
            final(self)@.wf(),
            final(self)@.managers == old(self)@.managers.update(m as int, Set::<usize>::empty()),
            final(self)@.nodes.len() == old(self)@.nodes.len(),
            forall|h: usize|
                old(self)@.allocated(h) && old(self)@.managers[m as int].contains(h) ==> {
                    &&& final(self)@.nodes[h as int].freed
                    &&& !old(self)@.nodes[h as int].freed ==> final(self)@.nodes[h as int].parent is None
                },
            forall|h: usize|
                old(self)@.allocated(h) && !old(self)@.managers[m as int].contains(h) ==> {
                    final(self)@.nodes[h as int].freed == old(self)@.nodes[h as int].freed
                },
            forall|h: usize|
                old(self)@.allocated(h) ==> final(self)@.nodes[h as int].code == old(
                    self,
                )@.nodes[h as int].code,
    {
        let ghost v = self@;
        let roots = self.managers[m].take_roots();
        proof {
            assert(self@.managers =~= v.managers.update(m as int, Set::<usize>::empty()));
            assert(self@.nodes =~= v.nodes);
        }
        let mut i: usize = 0;
        while i < roots.len()
            invariant
                0 <= i <= roots@.len(),
                self@.wf(),
                self@.managers == v.managers.update(m as int, Set::<usize>::empty()),
                self@.nodes.len() == v.nodes.len(),
                forall|h: usize| roots@.contains(h) <==> v.managers[m as int].contains(h),
                forall|k: int|
                    0 <= k < i && v.allocated(roots@[k]) ==> self@.nodes[roots@[k] as int].freed,
                forall|h: usize|
                    v.allocated(h) && !(exists|k: int| 0 <= k < i && roots@[k] == h) ==> {
                        self@.nodes[h as int].freed == v.nodes[h as int].freed
                    },
                forall|h: usize|
                    v.allocated(h) && v.nodes[h as int].freed ==> self@.nodes[h as int].freed,
                forall|h: usize|
                    v.allocated(h) && self@.nodes[h as int].freed && !v.nodes[h as int].freed
                        ==> self@.nodes[h as int].parent is None,
                forall|h: usize|
                    v.allocated(h) ==> self@.nodes[h as int].code == v.nodes[h as int].code,
            decreases roots@.len() - i,
        {
            let h = roots[i];
            let ghost before = self@;
            if h < self.nodes.len() && !self.nodes[h].freed {
                assert(self.nodes@[h as int]@.freed == self@.nodes[h as int].freed);
                self.free(CMarkNodePtr { id: h });
                proof {
                    assert forall|x: usize| before.allocated(x) && x != h implies {
                        &&& self@.nodes[x as int].freed == before.nodes[x as int].freed
                        &&& self@.nodes[x as int].parent == before.nodes[x as int].parent
                        &&& self@.nodes[x as int].code == before.nodes[x as int].code
                    } by {
                        lemma_free_keeps_others(before, h, x);
                    }
                }
            }
            proof {
                assert(roots@[i as int] == h);
            }
            i = i + 1;
        }
        proof {
            assert forall|h: usize|
                v.allocated(h) && v.managers[m as int].contains(h) implies self@.nodes[h as int].freed by {
                assert(roots@.contains(h));
                let k = choose|k: int| 0 <= k < roots@.len() && roots@[k] == h;
            }
            assert forall|h: usize|
                v.allocated(h) && !v.managers[m as int].contains(h) implies {
                    self@.nodes[h as int].freed == v.nodes[h as int].freed
                } by {
                if exists|k: int| 0 <= k < roots@.len() && roots@[k] == h {
                    assert(roots@.contains(h));
                }
            }
        }
    }
}

/// Freeing one node leaves the flags, parent and kind of every other node as they were.
proof fn lemma_free_keeps_others(v: ForestView, h: usize, x: usize)
    requires
        v.wf(),
        v.allocated(h),
        v.allocated(x),
        x != h,
    ensures
        ({
            let u = v.unlinked(h).with_node(h, NodeView { freed: true, ..v.unlinked(h).nodes[h as int] });
            &&& u.nodes[x as int].freed == v.nodes[x as int].freed
            &&& u.nodes[x as int].parent == v.nodes[x as int].parent
            &&& u.nodes[x as int].code == v.nodes[x as int].code
        }),
{
}

/// No two adjacent children of `p` are text nodes.
pub open spec fn no_adjacent_text(v: ForestView, p: usize) -> bool {
    let cs = v.nodes[p as int].children;
    forall|k: int| 0 <= k < cs.len() - 1 ==> !(v.nodes[#[trigger] cs[k] as int].code == TEXT_CODE && v.nodes[cs[k + 1] as int].code == TEXT_CODE)
}

/// The forest after the text of node `b` is added at the end of node `a`'s text and `b`
/// is freed.
pub open spec fn text_merged(v: ForestView, a: usize, b: usize) -> ForestView {
    let v1 = v.with_node(a, NodeView { literal: v.nodes[a as int].literal + v.nodes[b as int].literal, ..v.nodes[a as int] });
    v1.unlinked(b).with_node(b, NodeView { freed: true, ..v1.unlinked(b).nodes[b as int] })
}

impl Forest {
    /// Merges the text child at position `i` of `p` with the text child right after it:
    /// the first takes the text of both, the second is freed.
    pub fn merge_text_pair(&mut self, p: CMarkNodePtr, i: usize)
        requires
            old(self)@.wf(),
            old(self)@.allocated(p.id),
            i + 1 < old(self)@.nodes[p.id as int].children.len(),
            old(self)@.nodes[old(self)@.nodes[p.id as int].children[i as int] as int].code == TEXT_CODE,
            old(self)@.nodes[old(self)@.nodes[p.id as int].children[i + 1] as int].code == TEXT_CODE,
        ensures
            final(self)@.wf(),
            final(self)@ == text_merged(
                old(self)@,
                old(self)@.nodes[p.id as int].children[i as int],
                old(self)@.nodes[p.id as int].children[i + 1],
            ),
    {
        let ghost v = self@;
        assert(self.nodes[p.id as int].children@ == v.nodes[p.id as int].children);
        let n = self.nodes[p.id].children.len();
        let a = self.nodes[p.id].children[i];
        let b = self.nodes[p.id].children[i + 1];
        assert(v.nodes[p.id as int].children.no_duplicates());
        assert(a != b);
        assert(v.allocated(a) && v.allocated(b));
        let tail = self.nodes[b].literal.clone();
        self.nodes[a].literal.append(tail.as_str());
        proof {
            let n = NodeView { literal: v.nodes[a as int].literal + v.nodes[b as int].literal, ..v.nodes[a as int] };
            assert(self@.nodes =~= v.with_node(a, n).nodes);
            assert(self@.managers =~= v.managers);
            lemma_same_links_wf(v, a, n);
        }
        self.free(CMarkNodePtr { id: b });
    }

    /// Returns the number of children of a node.
    pub fn child_count(&self, p: CMarkNodePtr) -> (r: usize)
        requires
            self@.allocated(p.id),
        ensures
            r == self@.nodes[p.id as int].children.len(),
    {
        self.nodes[p.id].children.len()
    }

    /// Merges every run of adjacent text children of `p` into the first text node of the
    /// run, freeing the others.
    pub fn merge_text_children(&mut self, p: CMarkNodePtr)
        requires
            old(self)@.wf(),
            old(self)@.allocated(p.id),
        ensures
            final(self)@.wf(),
            merge_frame(old(self)@, final(self)@, p.id),
            no_adjacent_text(final(self)@, p.id),
    {
        proof {
            assert(merge_frame(self@, self@, p.id));
        }
        let mut j: usize = 0;
        while j < self.child_count(p) && self.child_count(p) - j > 1
            invariant
                self@.wf(),
                self@.allocated(p.id),
                merge_frame(old(self)@, self@, p.id),
                no_adjacent_text_before(self@, p.id, j as int),
            decreases self@.nodes[p.id as int].children.len() - j,
        {
            assert(self.nodes[p.id as int].children@ == self@.nodes[p.id as int].children);
            let a = self.nodes[p.id].children[j];
            let b = self.nodes[p.id].children[j + 1];
            assert(self@.allocated(a) && self@.allocated(b));
            if self.nodes[a].code == TEXT_CODE && self.nodes[b].code == TEXT_CODE {
                let ghost v = self@;
                self.merge_text_pair(p, j);
                proof {
                    lemma_merge_keeps_prefix(v, p.id, j as int);
                    lemma_text_merged_frame(v, p.id, j as int);
                    lemma_merge_frame_trans(old(self)@, v, self@, p.id);
                }
            } else {
                j = j + 1;
            }
        }
    }
}

impl Forest {
    /// Merges the runs of adjacent text children of every usable node in the subtree of
    /// `root`, as `merge_text_children` does for one node.
    pub fn consolidate_text_nodes(&mut self, root: CMarkNodePtr)
        requires
            old(self)@.wf(),
            old(self)@.allocated(root.id),
        ensures
            final(self)@.wf(),
            shrink_frame(old(self)@, final(self)@),
            forall|x: usize|
                final(self)@.usable(x) && final(self)@.reaches(x, root.id, final(self)@.nodes.len())
                    ==> no_adjacent_text(final(self)@, x),
    {
        let len = self.nodes.len();
        let mut h: usize = 0;
        proof {
            assert(shrink_frame(self@, self@));
        }
        while h < len
            invariant
                self@.wf(),
                len == self@.nodes.len(),
                shrink_frame(old(self)@, self@),
                forall|x: usize|
                    x < h && self@.usable(x) && self@.reaches(x, root.id, len as nat)
                        ==> no_adjacent_text(self@, x),
            decreases len - h,
        {
            let p = CMarkNodePtr { id: h };
            let ghost v = self@;
            if self.usable(p) && self.reaches(h, root.id) {
                self.merge_text_children(p);
                proof {
                    let g = self@;
                    lemma_shrink_frame_trans(old(self)@, v, g);
                    assert forall|x: usize|
                        x < h + 1 && g.usable(x) && g.reaches(x, root.id, len as nat) implies no_adjacent_text(g, x) by {
                        if x != h {
                            lemma_shrink_keeps_chains(v, g, x, root.id, len as nat);
                            assert(g.nodes[x as int].children == v.nodes[x as int].children);
                            lemma_no_adjacent_kept(v, g, x);
                        }
                    }
                }
            } else {
                proof {
                    assert forall|x: usize|
                        x < h + 1 && v.usable(x) && v.reaches(x, root.id, len as nat) implies no_adjacent_text(v, x) by {
                    }
                }
            }
            h = h + 1;
        }
    }
}

/// `g` differs from `f` at most as freeing and merging nodes does: the same nodes and
/// owners, kinds unchanged, a node's parent changed only when that node is freed, and
/// freed nodes still freed.
pub open spec fn shrink_frame(f: ForestView, g: ForestView) -> bool {
    &&& g.nodes.len() == f.nodes.len()
    &&& g.managers == f.managers
    &&& forall|x: usize|
        #![trigger g.nodes[x as int]]
        f.allocated(x) ==> {
            &&& g.nodes[x as int].code == f.nodes[x as int].code
            &&& (g.nodes[x as int].parent != f.nodes[x as int].parent ==> g.nodes[x as int].freed)
            &&& (f.nodes[x as int].freed ==> g.nodes[x as int].freed)
        }
}

/// `shrink_frame`, with the children of every node but `p` unchanged.
pub open spec fn merge_frame(f: ForestView, g: ForestView, p: usize) -> bool {
    &&& shrink_frame(f, g)
    &&& forall|x: usize|
        #![trigger g.nodes[x as int].children]
        f.allocated(x) && x != p ==> g.nodes[x as int].children == f.nodes[x as int].children
}

proof fn lemma_merge_frame_trans(f: ForestView, g: ForestView, h: ForestView, p: usize)
    requires
        merge_frame(f, g, p),
        merge_frame(g, h, p),
    ensures
        merge_frame(f, h, p),
{
    assert forall|x: usize| #![trigger h.nodes[x as int]] f.allocated(x) implies {
        &&& h.nodes[x as int].code == f.nodes[x as int].code
        &&& (h.nodes[x as int].parent != f.nodes[x as int].parent ==> h.nodes[x as int].freed)
        &&& (f.nodes[x as int].freed ==> h.nodes[x as int].freed)
    } by {
        assert(g.nodes[x as int].code == f.nodes[x as int].code);
        assert(g.allocated(x));
        assert(h.nodes[x as int].code == g.nodes[x as int].code);
    }
    assert forall|x: usize| #![trigger h.nodes[x as int].children] f.allocated(x) && x != p implies h.nodes[x as int].children == f.nodes[x as int].children by {
        assert(g.nodes[x as int].children == f.nodes[x as int].children);
        assert(g.allocated(x));
    }
}

proof fn lemma_shrink_frame_trans(f: ForestView, g: ForestView, h: ForestView)
    requires
        shrink_frame(f, g),
        shrink_frame(g, h),
    ensures
        shrink_frame(f, h),
{
    assert forall|x: usize| #![trigger h.nodes[x as int]] f.allocated(x) implies {
        &&& h.nodes[x as int].code == f.nodes[x as int].code
        &&& (h.nodes[x as int].parent != f.nodes[x as int].parent ==> h.nodes[x as int].freed)
        &&& (f.nodes[x as int].freed ==> h.nodes[x as int].freed)
    } by {
        assert(g.nodes[x as int].code == f.nodes[x as int].code);
        assert(g.allocated(x));
        assert(h.nodes[x as int].code == g.nodes[x as int].code);
    }
}

/// Merging the text children at `j` and `j + 1` of `p` changes the forest only as
/// `merge_frame` allows.
proof fn lemma_text_merged_frame(v: ForestView, p: usize, j: int)
    requires
        v.wf(),
        v.allocated(p),
        0 <= j,
        j + 1 < v.nodes[p as int].children.len(),
    ensures
        merge_frame(v, text_merged(v, v.nodes[p as int].children[j], v.nodes[p as int].children[j + 1]), p),
{
    let cs = v.nodes[p as int].children;
    let a = cs[j];
    let b = cs[j + 1];
    assert(v.nodes[b as int].parent == Some(p));
    assert(v.nodes[a as int].parent == Some(p));
    assert(cs.no_duplicates());
    assert(a != b);
    let v1 = v.with_node(a, NodeView { literal: v.nodes[a as int].literal + v.nodes[b as int].literal, ..v.nodes[a as int] });
    assert(v1.nodes[b as int].parent == Some(p));
    let u = text_merged(v, a, b);
    assert forall|x: usize| #![trigger u.nodes[x as int]] v.allocated(x) implies {
        &&& u.nodes[x as int].code == v.nodes[x as int].code
        &&& (u.nodes[x as int].parent != v.nodes[x as int].parent ==> u.nodes[x as int].freed)
        &&& (v.nodes[x as int].freed ==> u.nodes[x as int].freed)
    } by {
    }
    assert forall|x: usize| #![trigger u.nodes[x as int].children] v.allocated(x) && x != p implies u.nodes[x as int].children == v.nodes[x as int].children by {
    }
}

/// Under `shrink_frame`, a node usable in the later forest and below `root` there was
/// usable and below `root` in the earlier one: freeing and merging never reconnect nodes.
proof fn lemma_shrink_keeps_chains(f: ForestView, g: ForestView, x: usize, root: usize, fuel: nat)
    requires
        f.wf(),
        shrink_frame(f, g),
        f.allocated(x),
        !g.freed_above(x, fuel),
    ensures
        !f.freed_above(x, fuel),
        g.reaches(x, root, fuel) ==> f.reaches(x, root, fuel),
    decreases fuel,
{
    assert(g.nodes[x as int].code == f.nodes[x as int].code);
    if fuel > 0 {
        if let Some(q) = f.nodes[x as int].parent {
            assert(f.allocated(q));
            lemma_shrink_keeps_chains(f, g, q, root, (fuel - 1) as nat);
        }
    }
}

/// When the children of `x` and their kinds are unchanged, so is the absence of adjacent
/// text children.
proof fn lemma_no_adjacent_kept(f: ForestView, g: ForestView, x: usize)
    requires
        f.wf(),
        f.allocated(x),
        shrink_frame(f, g),
        g.nodes[x as int].children == f.nodes[x as int].children,
        no_adjacent_text(f, x),
    ensures
        no_adjacent_text(g, x),
{
    let cs = f.nodes[x as int].children;
    assert forall|k: int| 0 <= k < cs.len() - 1 implies !(g.nodes[#[trigger] cs[k] as int].code == TEXT_CODE && g.nodes[cs[k + 1] as int].code == TEXT_CODE) by {
        assert(f.nodes[cs[k] as int].parent == Some(x));
        assert(f.nodes[cs[k + 1] as int].parent == Some(x));
        assert(g.nodes[cs[k] as int].code == f.nodes[cs[k] as int].code);
        assert(g.nodes[cs[k + 1] as int].code == f.nodes[cs[k + 1] as int].code);
    }
}

/// No two adjacent children of `p` before position `j` are text nodes.
pub open spec fn no_adjacent_text_before(v: ForestView, p: usize, j: int) -> bool {
    let cs = v.nodes[p as int].children;
    forall|k: int|
        0 <= k < j && k + 1 < cs.len() ==> !(v.nodes[#[trigger] cs[k] as int].code == TEXT_CODE && v.nodes[cs[k + 1] as int].code == TEXT_CODE)
}

/// Merging the text children at `j` and `j + 1` leaves the children before `j` as they were.
proof fn lemma_merge_keeps_prefix(v: ForestView, p: usize, j: int)
    requires
        v.wf(),
        v.allocated(p),
        0 <= j,
        j + 1 < v.nodes[p as int].children.len(),
        no_adjacent_text_before(v, p, j),
    ensures
        ({
            let cs = v.nodes[p as int].children;
            let u = text_merged(v, cs[j], cs[j + 1]);
            &&& u.nodes[p as int].children == cs.remove(j + 1)
            &&& no_adjacent_text_before(u, p, j)
            &&& u.nodes[p as int].children.len() == cs.len() - 1
        }),
{
    let cs = v.nodes[p as int].children;
    let a = cs[j];
    let b = cs[j + 1];
    assert(v.nodes[b as int].parent == Some(p));
    assert(v.nodes[a as int].parent == Some(p));
    assert(cs.no_duplicates());
    assert(a != b);
    let v1 = v.with_node(a, NodeView { literal: v.nodes[a as int].literal + v.nodes[b as int].literal, ..v.nodes[a as int] });
    assert(v1.nodes[b as int].parent == Some(p));
    assert(v1.nodes[p as int].children == cs);
    assert(cs.index_of(b) == j + 1);
    let u = text_merged(v, a, b);
    let ncs = u.nodes[p as int].children;
    assert(ncs == cs.remove(j + 1));
    assert forall|k: int|
        0 <= k < j && k + 1 < ncs.len() implies !(u.nodes[#[trigger] ncs[k] as int].code == TEXT_CODE
            && u.nodes[ncs[k + 1] as int].code == TEXT_CODE) by {
        assert(ncs[k] == cs[k]);
        assert(ncs[k + 1] == cs[k + 1]);
        assert(u.nodes[cs[k] as int].code == v.nodes[cs[k] as int].code);
        assert(u.nodes[cs[k + 1] as int].code == v.nodes[cs[k + 1] as int].code);
    }
}

} // verus!
