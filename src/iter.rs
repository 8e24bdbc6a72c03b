//! Depth-first traversal of a subtree that reports entering and leaving each node.
use vstd::prelude::*;

use crate::constants::{IterEventType, NodeType};
use crate::errors::DoogieResult;
use crate::forest::{decode, lemma_decode_code, CMarkNodePtr, Forest, ForestView};
use crate::node::{wraps, Node};

verus! {

/// The node's kind never has children, so a traversal enters it and does not exit it.
pub open spec fn leaf_code(code: u32) -> bool {
    decode(code) matches Some(t) && t.is_leaf()
}

/// The handle can be wrapped as a node: it is usable and its kind is a real one.
pub open spec fn wrappable(f: ForestView, h: usize) -> bool {
    f.usable(h) && (decode(f.nodes[h as int].code) matches Some(t) && t != NodeType::CMarkNodeNone)
}

/// The step of a traversal of the subtree at `root` that follows event `ev` on node `h`:
/// enter the first child of a container that was just entered, or exit it when it has
/// none; after the root is done, stop; otherwise enter the next sibling, or else exit
/// the parent.
pub open spec fn successor(f: ForestView, root: usize, h: usize, ev: IterEventType) -> (IterEventType, usize) {
    if ev == IterEventType::Enter && !leaf_code(f.nodes[h as int].code) {
        match f.first_of(h) {
            Some(c) => (IterEventType::Enter, c),
            None => (IterEventType::Exit, h),
        }
    } else if h == root {
        (IterEventType::Done, h)
    } else {
        match f.next_of(h) {
            Some(n) => (IterEventType::Enter, n),
            None => match f.nodes[h as int].parent {
                Some(p) => (IterEventType::Exit, p),
                None => (IterEventType::Done, h),
            },
        }
    }
}

/// A cursor over the subtree rooted at one node. It yields each node with `Enter` before
/// its children and, for nodes that may have children, with `Exit` after them. Once it
/// has ended it stays ended.
#[derive(Debug)]
pub struct NodeIterator {
    root: CMarkNodePtr,
    manager: usize,
    next_node: CMarkNodePtr,
    next_event: IterEventType,
}

impl NodeIterator {
    /// The root of the subtree walked.
    pub closed spec fn root(&self) -> usize {
        self.root.id
    }

    /// The owner given to the nodes yielded.
    pub closed spec fn owner(&self) -> usize {
        self.manager
    }

    /// The node the next step stands on.
    pub closed spec fn current(&self) -> usize {
        self.next_node.id
    }

    /// The event the next step reports; `Done` once the traversal has ended.
    pub closed spec fn event(&self) -> IterEventType {
        self.next_event
    }

    /// Starts a traversal of the subtree rooted at `root`, yielding nodes owned by `manager`.
    pub fn new(root: CMarkNodePtr, manager: usize) -> (r: NodeIterator)
        ensures
            r.root() == root.id,
            r.owner() == manager,
            r.current() == root.id,
            r.event() == IterEventType::Enter,
    {
        NodeIterator { root, manager, next_node: root, next_event: IterEventType::Enter }
    }

    /// Advances the traversal: returns the node it stood on with the event for it, and
    /// moves to the following step. Ends, for good, after the root is left, or when the
    /// node it stands on cannot be wrapped.
    pub fn next(&mut self, forest: &Forest) -> (r: Option<(Node, IterEventType)>)
        requires
            forest@.wf(),
        ensures
            final(self).root() == old(self).root(),
            final(self).owner() == old(self).owner(),
            old(self).event() == IterEventType::Done ==> r is None && *final(self) == *old(self),
            old(self).event() != IterEventType::Done ==> (r is Some <==> wrappable(
                forest@,
                old(self).current(),
            )),
            r is None ==> final(self).event() == IterEventType::Done,
            r matches Some((n, e)) ==> {
                &&& e == old(self).event()
                &&& wraps(forest@, old(self).current(), old(self).owner(), Ok::<Node, crate::errors::DoogieError>(n))
                &&& (final(self).event(), final(self).current()) == successor(
                    forest@,
                    old(self).root(),
                    old(self).current(),
                    old(self).event(),
                )
            },
    {
        let ev = self.next_event;
        if ev == IterEventType::Done {
            return None;
        }
        let h = self.next_node;
        let wrapped: DoogieResult<Node> = Node::from_raw(forest, h, self.manager);
        let n = match wrapped {
            Ok(n) => n,
            Err(_) => {
                self.next_event = IterEventType::Done;
                return None;
            },
        };
        let code = forest.kind_code(h);
        let leaf = match NodeType::try_from(code) {
            Ok(t) => {
                proof {
                    lemma_decode_code(t);
                }
                t.leaf()
            },
            Err(_) => false,
        };
        if ev == IterEventType::Enter && !leaf {
            match forest.first_child(h) {
                Some(c) => {
                    self.next_node = c;
                },
                None => {
                    self.next_event = IterEventType::Exit;
                },
            }
        } else if h.id == self.root.id {
            self.next_event = IterEventType::Done;
        } else {
            match forest.next(h) {
                Some(s) => {
                    self.next_node = s;
                    self.next_event = IterEventType::Enter;
                },
                None => match forest.parent(h) {
                    Some(p) => {
                        self.next_node = p;
                        self.next_event = IterEventType::Exit;
                    },
                    None => {
                        self.next_event = IterEventType::Done;
                    },
                },
            }
        }
        Some((n, ev))
    }
}

impl Node {
    /// Returns a traversal of the subtree rooted at the node, yielding nodes that share
    /// its owner.
    pub fn iter(&self) -> (r: NodeIterator)
        ensures
            r.root() == self.handle(),
            r.owner() == self.owner(),
            r.current() == self.handle(),
            r.event() == IterEventType::Enter,
    {
        NodeIterator::new(self.pointer(), self.manager())
    }
}

} // verus!
