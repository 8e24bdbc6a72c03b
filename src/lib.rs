//! A mutable, navigable CommonMark syntax tree whose nodes live in an arena
//! and are owned through resource managers that track independent roots.
//!
//! A [`Forest`] holds every node and every owner ([`ResourceManager`]). A [`Node`] is a
//! typed handle: the index of a node in the forest and the index of the owner it was
//! reached through. Nodes are equal when their handles are.
//!
//! Ownership: a node made on its own (`Node::from_type`, `Text::new`, ...) or a tree
//! adopted with `Node::adopt` gets a fresh owner that tracks it as a root. A node reached
//! from another one (by navigation, `itself` or iteration) shares that node's owner, so
//! all handles into one tree answer to the same owner. `unlink` makes the owner track the
//! detached node as a root; a successful `append_child` stops the child's owner tracking
//! it, as the tree it joined now owns it. `Forest::release` tears an owner down, freeing
//! each root it tracks once; handles into a freed tree then report `ResourceUnavailable`.
use vstd::prelude::*;

pub mod constants;
pub mod errors;
pub mod forest;
pub mod iter;
pub mod lemmas;
pub mod manager;
pub mod node;

pub use constants::{DelimType, IterEventType, ListType, NodeType, STATUS_OK, STATUS_REFUSED};
pub use errors::{DoogieError, DoogieResult};
pub use forest::{CMarkNodePtr, Forest};
pub use iter::NodeIterator;
pub use manager::ResourceManager;
pub use node::{
    BlockQuote, Code, CodeBlock, CustomBlock, CustomInline, Document, Emph, Heading, HtmlBlock,
    HtmlInline, Image, Item, LineBreak, Link, List, Node, Paragraph, SoftBreak, Strong, Text,
    ThematicBreak,
};

verus! {

} // verus!
