//! Typed handles to the nodes of a forest: navigation, structural edits that keep
//! the ownership bookkeeping right, and per-kind field access.
use vstd::prelude::*;

use crate::constants::{DelimType, ListType, NodeType, STATUS_OK, STATUS_REFUSED};
use crate::errors::{DoogieError, DoogieResult};
use crate::forest::{decode, fresh_node, lemma_decode_code, CMarkNodePtr, Forest, ForestView, NodeView};

verus! {

/// A node handle together with the owner it was reached through.
#[derive(Debug, Clone, Copy)]
struct Resource {
    pointer: CMarkNodePtr,
    manager: usize,
}

/// The forest right after a node of `kind` was allocated as handle `h` and given a
/// fresh owner `m` that tracks it as its only root.
pub open spec fn new_root(f: ForestView, g: ForestView, h: usize, m: usize, kind: NodeType) -> bool {
    &&& h == f.nodes.len()
    &&& m == f.managers.len()
    &&& g.nodes == f.nodes.push(fresh_node(kind))
    &&& g.managers == f.managers.push(Set::<usize>::empty().insert(h))
    &&& g.wf()
}

/// `i` is the position of the first NUL character of `s`.
pub open spec fn first_nul(s: Seq<char>, i: usize) -> bool {
    &&& i < s.len()
    &&& s[i as int] == '\0'
    &&& forall|j: int| 0 <= j < i ==> s[j] != '\0'
}

/// What storing `s` as the literal text of node `h` does: forest `f` becomes `g`, and
/// `r` is reported.
pub open spec fn literal_set(f: ForestView, g: ForestView, h: usize, s: Seq<char>, r: DoogieResult<u32>) -> bool {
    if !f.usable(h) {
        r == Err::<u32, DoogieError>(DoogieError::ResourceUnavailable) && g == f
    } else if s.contains('\0') {
        (r matches Err(DoogieError::NulError(i)) && first_nul(s, i)) && g == f
    } else if decode(f.nodes[h as int].code) matches Some(t) && t.has_literal() {
        r == Ok::<u32, DoogieError>(STATUS_OK) && g == f.with_node(h, NodeView { literal: s, ..f.nodes[h as int] })
    } else {
        r == Err::<u32, DoogieError>(DoogieError::ReturnCode(STATUS_REFUSED)) && g == f
    }
}

/// What storing `s` as the info string of node `h` does: forest `f` becomes `g`, and
/// `r` is reported.
pub open spec fn info_set(f: ForestView, g: ForestView, h: usize, s: Seq<char>, r: DoogieResult<u32>) -> bool {
    if !f.usable(h) {
        r == Err::<u32, DoogieError>(DoogieError::ResourceUnavailable) && g == f
    } else if s.contains('\0') {
        (r matches Err(DoogieError::NulError(i)) && first_nul(s, i)) && g == f
    } else if f.nodes[h as int].code == NodeType::CMarkNodeCodeBlock.spec_code() {
        r == Ok::<u32, DoogieError>(STATUS_OK) && g == f.with_node(h, NodeView { info: s, ..f.nodes[h as int] })
    } else {
        r == Err::<u32, DoogieError>(DoogieError::ReturnCode(STATUS_REFUSED)) && g == f
    }
}

/// `r` is what reading text `t` of node `h` gives.
pub open spec fn text_read(f: ForestView, h: usize, t: Seq<char>, r: DoogieResult<String>) -> bool {
    if !f.usable(h) {
        r == Err::<String, DoogieError>(DoogieError::ResourceUnavailable)
    } else {
        r matches Ok(s) && s@ == t
    }
}

/// Returns the position of the first NUL character of `s`, if it holds one.
fn nul_position(s: &String) -> (r: Option<usize>)
    ensures
        r matches Some(i) ==> first_nul(s@, i),
        r is None ==> !s@.contains('\0'),
{
    let t = s.as_str();
    let n = t.unicode_len();
    let mut i: usize = 0;
    while i < n
        invariant
            t@ == s@,
            n == s@.len(),
            0 <= i <= n,
            forall|j: int| 0 <= j < i ==> s@[j] != '\0',
        decreases n - i,
    {
        if t.get_char(i) == '\0' {
            return Some(i);
        }
        i = i + 1;
    }
    None
}

impl Resource {
    /// Allocates a node of `kind` owned by a fresh manager that tracks it as a root.
    fn allocate(forest: &mut Forest, kind: NodeType) -> (r: Resource)
        requires
            old(forest)@.wf(),
        ensures
            new_root(old(forest)@, final(forest)@, r.pointer.id, r.manager, kind),
    {
        let pointer = forest.node_new(kind);
        let manager = forest.new_manager();
        forest.track_root(manager, pointer);
        proof {
            assert(forest@.managers =~= old(forest)@.managers.push(Set::<usize>::empty().insert(pointer.id)));
        }
        Resource { pointer, manager }
    }

    /// Returns the literal text of the node.
    fn get_literal(&self, forest: &Forest) -> (r: DoogieResult<String>)
        requires
            forest@.wf(),
        ensures
            text_read(forest@, self.pointer.id, forest@.nodes[self.pointer.id as int].literal, r),
    {
        if !forest.usable(self.pointer) {
            return Err(DoogieError::ResourceUnavailable);
        }
        Ok(forest.literal(self.pointer).clone())
    }

    /// Stores `content` as the literal text of the node.
    fn set_literal(&self, forest: &mut Forest, content: &String) -> (r: DoogieResult<u32>)
        requires
            old(forest)@.wf(),
        ensures
            final(forest)@.wf(),
            literal_set(old(forest)@, final(forest)@, self.pointer.id, content@, r),
    {
        if !forest.usable(self.pointer) {
            return Err(DoogieError::ResourceUnavailable);
        }
        if let Some(i) = nul_position(content) {
            return Err(DoogieError::NulError(i));
        }
        let status = forest.set_literal(self.pointer, content);
        if status == STATUS_OK {
            Ok(STATUS_OK)
        } else {
            Err(DoogieError::ReturnCode(status))
        }
    }
}

/// Represents the root of a document in the tree.
#[derive(Debug)]
pub struct Document {
    resource: Resource,
}

impl Document {
    /// The handle of the node.
    pub closed spec fn handle(&self) -> usize {
        self.resource.pointer.id
    }

    /// The owner the node was reached through.
    pub closed spec fn owner(&self) -> usize {
        self.resource.manager
    }

    /// Constructs a new, detached `Document` owned by a fresh manager that tracks it as a root.
    pub fn new(forest: &mut Forest) -> (r: Self)
        requires
            old(forest)@.wf(),
        ensures
            new_root(old(forest)@, final(forest)@, r.handle(), r.owner(), NodeType::CMarkNodeDocument),
    {
        Document { resource: Resource::allocate(forest, NodeType::CMarkNodeDocument) }
    }
}

/// Represents a block quote in the tree.
#[derive(Debug)]
pub struct BlockQuote {
    resource: Resource,
}

impl BlockQuote {
    /// The handle of the node.
    pub closed spec fn handle(&self) -> usize {
        self.resource.pointer.id
    }

    /// The owner the node was reached through.
    pub closed spec fn owner(&self) -> usize {
        self.resource.manager
    }

    /// Constructs a new, detached `BlockQuote` owned by a fresh manager that tracks it as a root.
    pub fn new(forest: &mut Forest) -> (r: Self)
        requires
            old(forest)@.wf(),
        ensures
            new_root(old(forest)@, final(forest)@, r.handle(), r.owner(), NodeType::CMarkNodeBlockQuote),
    {
        BlockQuote { resource: Resource::allocate(forest, NodeType::CMarkNodeBlockQuote) }
    }
}

/// Represents a list; lists hold only items in the tree.
#[derive(Debug)]
pub struct List {
    resource: Resource,
}

impl List {
    /// The handle of the node.
    pub closed spec fn handle(&self) -> usize {
        self.resource.pointer.id
    }

    /// The owner the node was reached through.
    pub closed spec fn owner(&self) -> usize {
        self.resource.manager
    }

    /// Constructs a new, detached `List` owned by a fresh manager that tracks it as a root.
    pub fn new(forest: &mut Forest) -> (r: Self)
        requires
            old(forest)@.wf(),
        ensures
            new_root(old(forest)@, final(forest)@, r.handle(), r.owner(), NodeType::CMarkNodeList),
    {
        List { resource: Resource::allocate(forest, NodeType::CMarkNodeList) }
    }
}

/// Represents an item of a list in the tree.
#[derive(Debug)]
pub struct Item {
    resource: Resource,
}

impl Item {
    /// The handle of the node.
    pub closed spec fn handle(&self) -> usize {
        self.resource.pointer.id
    }

    /// The owner the node was reached through.
    pub closed spec fn owner(&self) -> usize {
        self.resource.manager
    }

    /// Constructs a new, detached `Item` owned by a fresh manager that tracks it as a root.
    pub fn new(forest: &mut Forest) -> (r: Self)
        requires
            old(forest)@.wf(),
        ensures
            new_root(old(forest)@, final(forest)@, r.handle(), r.owner(), NodeType::CMarkNodeItem),
    {
        Item { resource: Resource::allocate(forest, NodeType::CMarkNodeItem) }
    }
}

/// Represents a block of code, indented or fenced in the tree.
#[derive(Debug)]
pub struct CodeBlock {
    resource: Resource,
}

impl CodeBlock {
    /// The handle of the node.
    pub closed spec fn handle(&self) -> usize {
        self.resource.pointer.id
    }

    /// The owner the node was reached through.
    pub closed spec fn owner(&self) -> usize {
        self.resource.manager
    }

    /// Constructs a new, detached `CodeBlock` owned by a fresh manager that tracks it as a root.
    pub fn new(forest: &mut Forest) -> (r: Self)
        requires
            old(forest)@.wf(),
        ensures
            new_root(old(forest)@, final(forest)@, r.handle(), r.owner(), NodeType::CMarkNodeCodeBlock),
    {
        CodeBlock { resource: Resource::allocate(forest, NodeType::CMarkNodeCodeBlock) }
    }
}

/// Represents a block of raw HTML in the tree.
#[derive(Debug)]
pub struct HtmlBlock {
    resource: Resource,
}

impl HtmlBlock {
    /// The handle of the node.
    pub closed spec fn handle(&self) -> usize {
        self.resource.pointer.id
    }

    /// The owner the node was reached through.
    pub closed spec fn owner(&self) -> usize {
        self.resource.manager
    }

    /// Constructs a new, detached `HtmlBlock` owned by a fresh manager that tracks it as a root.
    pub fn new(forest: &mut Forest) -> (r: Self)
        requires
            old(forest)@.wf(),
        ensures
            new_root(old(forest)@, final(forest)@, r.handle(), r.owner(), NodeType::CMarkNodeHtmlBlock),
    {
        HtmlBlock { resource: Resource::allocate(forest, NodeType::CMarkNodeHtmlBlock) }
    }
}

/// Represents a block of custom content in the tree.
#[derive(Debug)]
pub struct CustomBlock {
    resource: Resource,
}

impl CustomBlock {
    /// The handle of the node.
    pub closed spec fn handle(&self) -> usize {
        self.resource.pointer.id
    }

    /// The owner the node was reached through.
    pub closed spec fn owner(&self) -> usize {
        self.resource.manager
    }

    /// Constructs a new, detached `CustomBlock` owned by a fresh manager that tracks it as a root.
    pub fn new(forest: &mut Forest) -> (r: Self)
        requires
            old(forest)@.wf(),
        ensures
            new_root(old(forest)@, final(forest)@, r.handle(), r.owner(), NodeType::CMarkNodeCustomBlock),
    {
        CustomBlock { resource: Resource::allocate(forest, NodeType::CMarkNodeCustomBlock) }
    }
}

/// Represents a paragraph in the tree.
#[derive(Debug)]
pub struct Paragraph {
    resource: Resource,
}

impl Paragraph {
    /// The handle of the node.
    pub closed spec fn handle(&self) -> usize {
        self.resource.pointer.id
    }

    /// The owner the node was reached through.
    pub closed spec fn owner(&self) -> usize {
        self.resource.manager
    }

    /// Constructs a new, detached `Paragraph` owned by a fresh manager that tracks it as a root.
    pub fn new(forest: &mut Forest) -> (r: Self)
        requires
            old(forest)@.wf(),
        ensures
            new_root(old(forest)@, final(forest)@, r.handle(), r.owner(), NodeType::CMarkNodeParagraph),
    {
        Paragraph { resource: Resource::allocate(forest, NodeType::CMarkNodeParagraph) }
    }
}

/// Represents a heading in the tree.
#[derive(Debug)]
pub struct Heading {
    resource: Resource,
}

impl Heading {
    /// The handle of the node.
    pub closed spec fn handle(&self) -> usize {
        self.resource.pointer.id
    }

    /// The owner the node was reached through.
    pub closed spec fn owner(&self) -> usize {
        self.resource.manager
    }

    /// Constructs a new, detached `Heading` owned by a fresh manager that tracks it as a root.
    pub fn new(forest: &mut Forest) -> (r: Self)
        requires
            old(forest)@.wf(),
        ensures
            new_root(old(forest)@, final(forest)@, r.handle(), r.owner(), NodeType::CMarkNodeHeading),
    {
        Heading { resource: Resource::allocate(forest, NodeType::CMarkNodeHeading) }
    }
}

/// Represents a thematic break in the tree.
#[derive(Debug)]
pub struct ThematicBreak {
    resource: Resource,
}

impl ThematicBreak {
    /// The handle of the node.
    pub closed spec fn handle(&self) -> usize {
        self.resource.pointer.id
    }

    /// The owner the node was reached through.
    pub closed spec fn owner(&self) -> usize {
        self.resource.manager
    }

    /// Constructs a new, detached `ThematicBreak` owned by a fresh manager that tracks it as a root.
    pub fn new(forest: &mut Forest) -> (r: Self)
        requires
            old(forest)@.wf(),
        ensures
            new_root(old(forest)@, final(forest)@, r.handle(), r.owner(), NodeType::CMarkNodeThematicBreak),
    {
        ThematicBreak { resource: Resource::allocate(forest, NodeType::CMarkNodeThematicBreak) }
    }
}

/// Represents a run of text in the tree.
#[derive(Debug)]
pub struct Text {
    resource: Resource,
}

impl Text {
    /// The handle of the node.
    pub closed spec fn handle(&self) -> usize {
        self.resource.pointer.id
    }

    /// The owner the node was reached through.
    pub closed spec fn owner(&self) -> usize {
        self.resource.manager
    }

    /// Constructs a new, detached `Text` owned by a fresh manager that tracks it as a root.
    pub fn new(forest: &mut Forest) -> (r: Self)
        requires
            old(forest)@.wf(),
        ensures
            new_root(old(forest)@, final(forest)@, r.handle(), r.owner(), NodeType::CMarkNodeText),
    {
        Text { resource: Resource::allocate(forest, NodeType::CMarkNodeText) }
    }
}

/// Represents a soft line break in the tree.
#[derive(Debug)]
pub struct SoftBreak {
    resource: Resource,
}

impl SoftBreak {
    /// The handle of the node.
    pub closed spec fn handle(&self) -> usize {
        self.resource.pointer.id
    }

    /// The owner the node was reached through.
    pub closed spec fn owner(&self) -> usize {
        self.resource.manager
    }

    /// Constructs a new, detached `SoftBreak` owned by a fresh manager that tracks it as a root.
    pub fn new(forest: &mut Forest) -> (r: Self)
        requires
            old(forest)@.wf(),
        ensures
            new_root(old(forest)@, final(forest)@, r.handle(), r.owner(), NodeType::CMarkNodeSoftbreak),
    {
        SoftBreak { resource: Resource::allocate(forest, NodeType::CMarkNodeSoftbreak) }
    }
}

/// Represents a hard line break in the tree.
#[derive(Debug)]
pub struct LineBreak {
    resource: Resource,
}

impl LineBreak {
    /// The handle of the node.
    pub closed spec fn handle(&self) -> usize {
        self.resource.pointer.id
    }

    /// The owner the node was reached through.
    pub closed spec fn owner(&self) -> usize {
        self.resource.manager
    }

    /// Constructs a new, detached `LineBreak` owned by a fresh manager that tracks it as a root.
    pub fn new(forest: &mut Forest) -> (r: Self)
        requires
            old(forest)@.wf(),
        ensures
            new_root(old(forest)@, final(forest)@, r.handle(), r.owner(), NodeType::CMarkNodeLinebreak),
    {
        LineBreak { resource: Resource::allocate(forest, NodeType::CMarkNodeLinebreak) }
    }
}

/// Represents a code span in the tree.
#[derive(Debug)]
pub struct Code {
    resource: Resource,
}

impl Code {
    /// The handle of the node.
    pub closed spec fn handle(&self) -> usize {
        self.resource.pointer.id
    }

    /// The owner the node was reached through.
    pub closed spec fn owner(&self) -> usize {
        self.resource.manager
    }

    /// Constructs a new, detached `Code` owned by a fresh manager that tracks it as a root.
    pub fn new(forest: &mut Forest) -> (r: Self)
        requires
            old(forest)@.wf(),
        ensures
            new_root(old(forest)@, final(forest)@, r.handle(), r.owner(), NodeType::CMarkNodeCode),
    {
        Code { resource: Resource::allocate(forest, NodeType::CMarkNodeCode) }
    }
}

/// Represents inline raw HTML in the tree.
#[derive(Debug)]
pub struct HtmlInline {
    resource: Resource,
}

impl HtmlInline {
    /// The handle of the node.
    pub closed spec fn handle(&self) -> usize {
        self.resource.pointer.id
    }

    /// The owner the node was reached through.
    pub closed spec fn owner(&self) -> usize {
        self.resource.manager
    }

    /// Constructs a new, detached `HtmlInline` owned by a fresh manager that tracks it as a root.
    pub fn new(forest: &mut Forest) -> (r: Self)
        requires
            old(forest)@.wf(),
        ensures
            new_root(old(forest)@, final(forest)@, r.handle(), r.owner(), NodeType::CMarkNodeHtmlInline),
    {
        HtmlInline { resource: Resource::allocate(forest, NodeType::CMarkNodeHtmlInline) }
    }
}

/// Represents inline custom content in the tree.
#[derive(Debug)]
pub struct CustomInline {
    resource: Resource,
}

impl CustomInline {
    /// The handle of the node.
    pub closed spec fn handle(&self) -> usize {
        self.resource.pointer.id
    }

    /// The owner the node was reached through.
    pub closed spec fn owner(&self) -> usize {
        self.resource.manager
    }

    /// Constructs a new, detached `CustomInline` owned by a fresh manager that tracks it as a root.
    pub fn new(forest: &mut Forest) -> (r: Self)
        requires
            old(forest)@.wf(),
        ensures
            new_root(old(forest)@, final(forest)@, r.handle(), r.owner(), NodeType::CMarkNodeCustomInline),
    {
        CustomInline { resource: Resource::allocate(forest, NodeType::CMarkNodeCustomInline) }
    }
}

/// Represents emphasis in the tree.
#[derive(Debug)]
pub struct Emph {
    resource: Resource,
}

impl Emph {
    /// The handle of the node.
    pub closed spec fn handle(&self) -> usize {
        self.resource.pointer.id
    }

    /// The owner the node was reached through.
    pub closed spec fn owner(&self) -> usize {
        self.resource.manager
    }

    /// Constructs a new, detached `Emph` owned by a fresh manager that tracks it as a root.
    pub fn new(forest: &mut Forest) -> (r: Self)
        requires
            old(forest)@.wf(),
        ensures
            new_root(old(forest)@, final(forest)@, r.handle(), r.owner(), NodeType::CMarkNodeEmph),
    {
        Emph { resource: Resource::allocate(forest, NodeType::CMarkNodeEmph) }
    }
}

/// Represents strong emphasis in the tree.
#[derive(Debug)]
pub struct Strong {
    resource: Resource,
}

impl Strong {
    /// The handle of the node.
    pub closed spec fn handle(&self) -> usize {
        self.resource.pointer.id
    }

    /// The owner the node was reached through.
    pub closed spec fn owner(&self) -> usize {
        self.resource.manager
    }

    /// Constructs a new, detached `Strong` owned by a fresh manager that tracks it as a root.
    pub fn new(forest: &mut Forest) -> (r: Self)
        requires
            old(forest)@.wf(),
        ensures
            new_root(old(forest)@, final(forest)@, r.handle(), r.owner(), NodeType::CMarkNodeStrong),
    {
        Strong { resource: Resource::allocate(forest, NodeType::CMarkNodeStrong) }
    }
}

/// Represents a link in the tree.
#[derive(Debug)]
pub struct Link {
    resource: Resource,
}

impl Link {
    /// The handle of the node.
    pub closed spec fn handle(&self) -> usize {
        self.resource.pointer.id
    }

    /// The owner the node was reached through.
    pub closed spec fn owner(&self) -> usize {
        self.resource.manager
    }

    /// Constructs a new, detached `Link` owned by a fresh manager that tracks it as a root.
    pub fn new(forest: &mut Forest) -> (r: Self)
        requires
            old(forest)@.wf(),
        ensures
            new_root(old(forest)@, final(forest)@, r.handle(), r.owner(), NodeType::CMarkNodeLink),
    {
        Link { resource: Resource::allocate(forest, NodeType::CMarkNodeLink) }
    }
}

/// Represents an image in the tree.
#[derive(Debug)]
pub struct Image {
    resource: Resource,
}

impl Image {
    /// The handle of the node.
    pub closed spec fn handle(&self) -> usize {
        self.resource.pointer.id
    }

    /// The owner the node was reached through.
    pub closed spec fn owner(&self) -> usize {
        self.resource.manager
    }

    /// Constructs a new, detached `Image` owned by a fresh manager that tracks it as a root.
    pub fn new(forest: &mut Forest) -> (r: Self)
        requires
            old(forest)@.wf(),
        ensures
            new_root(old(forest)@, final(forest)@, r.handle(), r.owner(), NodeType::CMarkNodeImage),
    {
        Image { resource: Resource::allocate(forest, NodeType::CMarkNodeImage) }
    }
}

impl List {
    /// Returns the kind of the list, bullet or ordered.
    pub fn get_list_type(&self, forest: &Forest) -> (r: DoogieResult<ListType>)
        requires
            forest@.wf(),
        ensures
            !forest@.usable(self.handle()) ==> r == Err::<ListType, DoogieError>(DoogieError::ResourceUnavailable),
            forest@.usable(self.handle()) ==> {
                let c = forest@.nodes[self.handle() as int].list_type;
                &&& (c <= 2 <==> r is Ok)
                &&& (r matches Ok(t) ==> t.spec_code() == c)
                &&& (c > 2 ==> r == Err::<ListType, DoogieError>(DoogieError::BadEnum(c)))
            },
    {
        let p = self.resource.pointer;
        if !forest.usable(p) {
            return Err(DoogieError::ResourceUnavailable);
        }
        ListType::try_from(forest.list_type(p))
    }

    /// Returns the delimiter of an ordered list.
    pub fn get_delim_type(&self, forest: &Forest) -> (r: DoogieResult<DelimType>)
        requires
            forest@.wf(),
        ensures
            !forest@.usable(self.handle()) ==> r == Err::<DelimType, DoogieError>(DoogieError::ResourceUnavailable),
            forest@.usable(self.handle()) ==> {
                let c = forest@.nodes[self.handle() as int].delim;
                &&& (c <= 2 <==> r is Ok)
                &&& (r matches Ok(t) ==> t.spec_code() == c)
                &&& (c > 2 ==> r == Err::<DelimType, DoogieError>(DoogieError::BadEnum(c)))
            },
    {
        let p = self.resource.pointer;
        if !forest.usable(p) {
            return Err(DoogieError::ResourceUnavailable);
        }
        DelimType::try_from(forest.list_delim(p))
    }
}

impl Text {
    /// Returns the literal text content of the node.
    pub fn get_content(&self, forest: &Forest) -> (r: DoogieResult<String>)
        requires
            forest@.wf(),
        ensures
            text_read(forest@, self.handle(), forest@.nodes[self.handle() as int].literal, r),
    {
        self.resource.get_literal(forest)
    }

    /// Sets the literal text content of the node.
    pub fn set_content(&mut self, forest: &mut Forest, content: &String) -> (r: DoogieResult<u32>)
        requires
            old(forest)@.wf(),
        ensures
            *final(self) == *old(self),
            final(forest)@.wf(),
            literal_set(old(forest)@, final(forest)@, old(self).handle(), content@, r),
    {
        self.resource.set_literal(forest, content)
    }
}

impl Code {
    /// Returns the literal text content of the node.
    pub fn get_content(&self, forest: &Forest) -> (r: DoogieResult<String>)
        requires
            forest@.wf(),
        ensures
            text_read(forest@, self.handle(), forest@.nodes[self.handle() as int].literal, r),
    {
        self.resource.get_literal(forest)
    }

    /// Sets the literal text content of the node.
    pub fn set_content(&mut self, forest: &mut Forest, content: &String) -> (r: DoogieResult<u32>)
        requires
            old(forest)@.wf(),
        ensures
            *final(self) == *old(self),
            final(forest)@.wf(),
            literal_set(old(forest)@, final(forest)@, old(self).handle(), content@, r),
    {
        self.resource.set_literal(forest, content)
    }
}

impl CodeBlock {
    /// Returns the literal text content of the node.
    pub fn get_content(&self, forest: &Forest) -> (r: DoogieResult<String>)
        requires
            forest@.wf(),
        ensures
            text_read(forest@, self.handle(), forest@.nodes[self.handle() as int].literal, r),
    {
        self.resource.get_literal(forest)
    }

    /// Sets the literal text content of the node.
    pub fn set_content(&mut self, forest: &mut Forest, content: &String) -> (r: DoogieResult<u32>)
        requires
            old(forest)@.wf(),
        ensures
            *final(self) == *old(self),
            final(forest)@.wf(),
            literal_set(old(forest)@, final(forest)@, old(self).handle(), content@, r),
    {
        self.resource.set_literal(forest, content)
    }
}

impl CodeBlock {
    /// Returns the info string of a fenced code block.
    pub fn get_fence_info(&self, forest: &Forest) -> (r: DoogieResult<String>)
        requires
            forest@.wf(),
        ensures
            text_read(forest@, self.handle(), forest@.nodes[self.handle() as int].info, r),
    {
        let p = self.resource.pointer;
        if !forest.usable(p) {
            return Err(DoogieError::ResourceUnavailable);
        }
        Ok(forest.fence_info(p).clone())
    }

    /// Sets the info string of the code block.
    pub fn set_fence_info(&mut self, forest: &mut Forest, info: &String) -> (r: DoogieResult<u32>)
        requires
            old(forest)@.wf(),
        ensures
            *final(self) == *old(self),
            final(forest)@.wf(),
            info_set(old(forest)@, final(forest)@, old(self).handle(), info@, r),
    {
        let p = self.resource.pointer;
        if !forest.usable(p) {
            return Err(DoogieError::ResourceUnavailable);
        }
        if let Some(i) = nul_position(info) {
            return Err(DoogieError::NulError(i));
        }
        let status = forest.set_fence_info(p, info);
        if status == STATUS_OK {
            Ok(STATUS_OK)
        } else {
            Err(DoogieError::ReturnCode(status))
        }
    }
}

impl Link {
    /// Returns the destination of the link.
    pub fn get_url(&self, forest: &Forest) -> (r: DoogieResult<String>)
        requires
            forest@.wf(),
        ensures
            text_read(forest@, self.handle(), forest@.nodes[self.handle() as int].url, r),
    {
        let p = self.resource.pointer;
        if !forest.usable(p) {
            return Err(DoogieError::ResourceUnavailable);
        }
        Ok(forest.url(p).clone())
    }

    /// Returns the title of the link.
    pub fn get_title(&self, forest: &Forest) -> (r: DoogieResult<String>)
        requires
            forest@.wf(),
        ensures
            text_read(forest@, self.handle(), forest@.nodes[self.handle() as int].title, r),
    {
        let p = self.resource.pointer;
        if !forest.usable(p) {
            return Err(DoogieError::ResourceUnavailable);
        }
        Ok(forest.title(p).clone())
    }
}

impl Document {
    /// Merges every run of adjacent text nodes in the document into one text node.
    pub fn consolidate_text_nodes(&mut self, forest: &mut Forest) -> (r: DoogieResult<()>)
        requires
            old(forest)@.wf(),
        ensures
            *final(self) == *old(self),
            final(forest)@.wf(),
            r is Ok ==> crate::forest::shrink_frame(old(forest)@, final(forest)@),
            r is Ok ==> forall|x: usize|
                final(forest)@.usable(x) && final(forest)@.reaches(x, old(self).handle(), final(forest)@.nodes.len())
                    ==> crate::forest::no_adjacent_text(final(forest)@, x),
            r is Err <==> !old(forest)@.usable(old(self).handle()),
            r is Err ==> r == Err::<(), DoogieError>(DoogieError::ResourceUnavailable) && final(forest)@ == old(forest)@,
    {
        let p = self.resource.pointer;
        if !forest.usable(p) {
            return Err(DoogieError::ResourceUnavailable);
        }
        forest.consolidate_text_nodes(p);
        Ok(())
    }
}

impl Heading {
    /// Returns the level of the heading, from one to six.
    pub fn get_level(&self, forest: &Forest) -> (r: DoogieResult<usize>)
        requires
            forest@.wf(),
        ensures
            !forest@.usable(self.handle()) ==> r == Err::<usize, DoogieError>(DoogieError::ResourceUnavailable),
            forest@.usable(self.handle()) ==> r == Ok::<usize, DoogieError>(forest@.nodes[self.handle() as int].level as usize),
    {
        let p = self.resource.pointer;
        if !forest.usable(p) {
            return Err(DoogieError::ResourceUnavailable);
        }
        Ok(forest.heading_level(p) as usize)
    }
}

/// A node of the tree, by kind.
#[derive(Debug)]
pub enum Node {
    Document(Document),
    BlockQuote(BlockQuote),
    List(List),
    Item(Item),
    CodeBlock(CodeBlock),
    HtmlBlock(HtmlBlock),
    CustomBlock(CustomBlock),
    Paragraph(Paragraph),
    Heading(Heading),
    ThematicBreak(ThematicBreak),
    Text(Text),
    SoftBreak(SoftBreak),
    LineBreak(LineBreak),
    Code(Code),
    HtmlInline(HtmlInline),
    CustomInline(CustomInline),
    Emph(Emph),
    Strong(Strong),
    Link(Link),
    Image(Image),
}

/// What wrapping handle `h`, reached through owner `m`, gives: the node of the kind the
/// forest records for it, or the reason there is none.
pub open spec fn wraps(f: ForestView, h: usize, m: usize, r: DoogieResult<Node>) -> bool {
    if !f.usable(h) {
        r == Err::<Node, DoogieError>(DoogieError::ResourceUnavailable)
    } else {
        match decode(f.nodes[h as int].code) {
            None => r == Err::<Node, DoogieError>(DoogieError::BadEnum(f.nodes[h as int].code)),
            Some(NodeType::CMarkNodeNone) => r == Err::<Node, DoogieError>(DoogieError::NodeNone),
            Some(t) => r matches Ok(n) && n.kind() == t && n.handle() == h && n.owner() == m,
        }
    }
}

/// What a step from a node reached through owner `m` to `target` gives.
pub open spec fn steps_to(f: ForestView, target: Option<usize>, m: usize, r: DoogieResult<Option<Node>>) -> bool {
    match target {
        None => r == Ok::<Option<Node>, DoogieError>(None),
        Some(t) => match r {
            Ok(Some(n)) => wraps(f, t, m, Ok(n)),
            Ok(None) => false,
            Err(e) => wraps(f, t, m, Err(e)),
        },
    }
}

impl Node {
    /// The handle of the node.
    pub closed spec fn handle(&self) -> usize {
        match self {
            Node::Document(d) => d.resource.pointer.id,
            Node::BlockQuote(d) => d.resource.pointer.id,
            Node::List(d) => d.resource.pointer.id,
            Node::Item(d) => d.resource.pointer.id,
            Node::CodeBlock(d) => d.resource.pointer.id,
            Node::HtmlBlock(d) => d.resource.pointer.id,
            Node::CustomBlock(d) => d.resource.pointer.id,
            Node::Paragraph(d) => d.resource.pointer.id,
            Node::Heading(d) => d.resource.pointer.id,
            Node::ThematicBreak(d) => d.resource.pointer.id,
            Node::Text(d) => d.resource.pointer.id,
            Node::SoftBreak(d) => d.resource.pointer.id,
            Node::LineBreak(d) => d.resource.pointer.id,
            Node::Code(d) => d.resource.pointer.id,
            Node::HtmlInline(d) => d.resource.pointer.id,
            Node::CustomInline(d) => d.resource.pointer.id,
            Node::Emph(d) => d.resource.pointer.id,
            Node::Strong(d) => d.resource.pointer.id,
            Node::Link(d) => d.resource.pointer.id,
            Node::Image(d) => d.resource.pointer.id,
        }
    }

    /// The owner the node was reached through.
    pub closed spec fn owner(&self) -> usize {
        match self {
            Node::Document(d) => d.resource.manager,
            Node::BlockQuote(d) => d.resource.manager,
            Node::List(d) => d.resource.manager,
            Node::Item(d) => d.resource.manager,
            Node::CodeBlock(d) => d.resource.manager,
            Node::HtmlBlock(d) => d.resource.manager,
            Node::CustomBlock(d) => d.resource.manager,
            Node::Paragraph(d) => d.resource.manager,
            Node::Heading(d) => d.resource.manager,
            Node::ThematicBreak(d) => d.resource.manager,
            Node::Text(d) => d.resource.manager,
            Node::SoftBreak(d) => d.resource.manager,
            Node::LineBreak(d) => d.resource.manager,
            Node::Code(d) => d.resource.manager,
            Node::HtmlInline(d) => d.resource.manager,
            Node::CustomInline(d) => d.resource.manager,
            Node::Emph(d) => d.resource.manager,
            Node::Strong(d) => d.resource.manager,
            Node::Link(d) => d.resource.manager,
            Node::Image(d) => d.resource.manager,
        }
    }

    /// The kind of the node.
    pub open spec fn kind(&self) -> NodeType {
        match self {
            Node::Document(_) => NodeType::CMarkNodeDocument,
            Node::BlockQuote(_) => NodeType::CMarkNodeBlockQuote,
            Node::List(_) => NodeType::CMarkNodeList,
            Node::Item(_) => NodeType::CMarkNodeItem,
            Node::CodeBlock(_) => NodeType::CMarkNodeCodeBlock,
            Node::HtmlBlock(_) => NodeType::CMarkNodeHtmlBlock,
            Node::CustomBlock(_) => NodeType::CMarkNodeCustomBlock,
            Node::Paragraph(_) => NodeType::CMarkNodeParagraph,
            Node::Heading(_) => NodeType::CMarkNodeHeading,
            Node::ThematicBreak(_) => NodeType::CMarkNodeThematicBreak,
            Node::Text(_) => NodeType::CMarkNodeText,
            Node::SoftBreak(_) => NodeType::CMarkNodeSoftbreak,
            Node::LineBreak(_) => NodeType::CMarkNodeLinebreak,
            Node::Code(_) => NodeType::CMarkNodeCode,
            Node::HtmlInline(_) => NodeType::CMarkNodeHtmlInline,
            Node::CustomInline(_) => NodeType::CMarkNodeCustomInline,
            Node::Emph(_) => NodeType::CMarkNodeEmph,
            Node::Strong(_) => NodeType::CMarkNodeStrong,
            Node::Link(_) => NodeType::CMarkNodeLink,
            Node::Image(_) => NodeType::CMarkNodeImage,
        }
    }

    /// Returns the handle and owner of the node.
    fn resource(&self) -> (r: Resource)
        ensures
            r.pointer.id == self.handle(),
            r.manager == self.owner(),
    {
        match self {
            Node::Document(d) => d.resource,
            Node::BlockQuote(d) => d.resource,
            Node::List(d) => d.resource,
            Node::Item(d) => d.resource,
            Node::CodeBlock(d) => d.resource,
            Node::HtmlBlock(d) => d.resource,
            Node::CustomBlock(d) => d.resource,
            Node::Paragraph(d) => d.resource,
            Node::Heading(d) => d.resource,
            Node::ThematicBreak(d) => d.resource,
            Node::Text(d) => d.resource,
            Node::SoftBreak(d) => d.resource,
            Node::LineBreak(d) => d.resource,
            Node::Code(d) => d.resource,
            Node::HtmlInline(d) => d.resource,
            Node::CustomInline(d) => d.resource,
            Node::Emph(d) => d.resource,
            Node::Strong(d) => d.resource,
            Node::Link(d) => d.resource,
            Node::Image(d) => d.resource,
        }
    }

    /// Returns the handle of the node.
    pub fn pointer(&self) -> (r: CMarkNodePtr)
        ensures
            r.id == self.handle(),
    {
        self.resource().pointer
    }

    /// Returns the owner the node was reached through.
    pub fn manager(&self) -> (r: usize)
        ensures
            r == self.owner(),
    {
        self.resource().manager
    }

    /// Returns the kind of the node, as its variant says.
    pub fn node_type(&self) -> (r: NodeType)
        ensures
            r == self.kind(),
    {
        match self {
            Node::Document(_) => NodeType::CMarkNodeDocument,
            Node::BlockQuote(_) => NodeType::CMarkNodeBlockQuote,
            Node::List(_) => NodeType::CMarkNodeList,
            Node::Item(_) => NodeType::CMarkNodeItem,
            Node::CodeBlock(_) => NodeType::CMarkNodeCodeBlock,
            Node::HtmlBlock(_) => NodeType::CMarkNodeHtmlBlock,
            Node::CustomBlock(_) => NodeType::CMarkNodeCustomBlock,
            Node::Paragraph(_) => NodeType::CMarkNodeParagraph,
            Node::Heading(_) => NodeType::CMarkNodeHeading,
            Node::ThematicBreak(_) => NodeType::CMarkNodeThematicBreak,
            Node::Text(_) => NodeType::CMarkNodeText,
            Node::SoftBreak(_) => NodeType::CMarkNodeSoftbreak,
            Node::LineBreak(_) => NodeType::CMarkNodeLinebreak,
            Node::Code(_) => NodeType::CMarkNodeCode,
            Node::HtmlInline(_) => NodeType::CMarkNodeHtmlInline,
            Node::CustomInline(_) => NodeType::CMarkNodeCustomInline,
            Node::Emph(_) => NodeType::CMarkNodeEmph,
            Node::Strong(_) => NodeType::CMarkNodeStrong,
            Node::Link(_) => NodeType::CMarkNodeLink,
            Node::Image(_) => NodeType::CMarkNodeImage,
        }
    }

    /// Wraps `resource` as a node of `kind`.
    fn wrap(resource: Resource, kind: NodeType) -> (r: Node)
        requires
            kind != NodeType::CMarkNodeNone,
        ensures
            r.kind() == kind,
            r.handle() == resource.pointer.id,
            r.owner() == resource.manager,
    {
        match kind {
            NodeType::CMarkNodeNone => Node::Document(Document { resource }),
            NodeType::CMarkNodeDocument => Node::Document(Document { resource }),
            NodeType::CMarkNodeBlockQuote => Node::BlockQuote(BlockQuote { resource }),
            NodeType::CMarkNodeList => Node::List(List { resource }),
            NodeType::CMarkNodeItem => Node::Item(Item { resource }),
            NodeType::CMarkNodeCodeBlock => Node::CodeBlock(CodeBlock { resource }),
            NodeType::CMarkNodeHtmlBlock => Node::HtmlBlock(HtmlBlock { resource }),
            NodeType::CMarkNodeCustomBlock => Node::CustomBlock(CustomBlock { resource }),
            NodeType::CMarkNodeParagraph => Node::Paragraph(Paragraph { resource }),
            NodeType::CMarkNodeHeading => Node::Heading(Heading { resource }),
            NodeType::CMarkNodeThematicBreak => Node::ThematicBreak(ThematicBreak { resource }),
            NodeType::CMarkNodeText => Node::Text(Text { resource }),
            NodeType::CMarkNodeSoftbreak => Node::SoftBreak(SoftBreak { resource }),
            NodeType::CMarkNodeLinebreak => Node::LineBreak(LineBreak { resource }),
            NodeType::CMarkNodeCode => Node::Code(Code { resource }),
            NodeType::CMarkNodeHtmlInline => Node::HtmlInline(HtmlInline { resource }),
            NodeType::CMarkNodeCustomInline => Node::CustomInline(CustomInline { resource }),
            NodeType::CMarkNodeEmph => Node::Emph(Emph { resource }),
            NodeType::CMarkNodeStrong => Node::Strong(Strong { resource }),
            NodeType::CMarkNodeLink => Node::Link(Link { resource }),
            NodeType::CMarkNodeImage => Node::Image(Image { resource }),
        }
    }

    /// Wraps a handle reached through owner `manager` as a node of the kind the forest
    /// records for it.
    pub fn from_raw(forest: &Forest, pointer: CMarkNodePtr, manager: usize) -> (r: DoogieResult<Node>)
        requires
            forest@.wf(),
        ensures
            wraps(forest@, pointer.id, manager, r),
    {
        if !forest.usable(pointer) {
            return Err(DoogieError::ResourceUnavailable);
        }
        let code = forest.kind_code(pointer);
        let kind = NodeType::try_from(code);
        match kind {
            Err(e) => Err(e),
            Ok(t) => {
                proof {
                    lemma_decode_code(t);
                }
                if t == NodeType::CMarkNodeNone {
                    Err(DoogieError::NodeNone)
                } else {
                    Ok(Node::wrap(Resource { pointer, manager }, t))
                }
            },
        }
    }

    /// Makes a fresh owner track `pointer` as the root of its own tree and wraps it; this
    /// is how a tree built in the forest, such as a parsed document, gets its owner.
    pub fn adopt(forest: &mut Forest, pointer: CMarkNodePtr) -> (r: DoogieResult<Node>)
        requires
            old(forest)@.wf(),
        ensures
            final(forest)@.wf(),
            wraps(old(forest)@, pointer.id, old(forest)@.managers.len() as usize, r),
            r is Ok ==> final(forest)@.nodes == old(forest)@.nodes && final(forest)@.managers
                == old(forest)@.managers.push(Set::<usize>::empty().insert(pointer.id)),
            r is Err ==> final(forest)@ == old(forest)@,
    {
        let m = forest.manager_count();
        let r = Node::from_raw(forest, pointer, m);
        if r.is_ok() {
            let m2 = forest.new_manager();
            forest.track_root(m2, pointer);
            proof {
                assert(forest@.managers =~= old(forest)@.managers.push(Set::<usize>::empty().insert(pointer.id)));
            }
        }
        r
    }

    /// Constructs a new, detached node of the given kind, owned by a fresh manager that
    /// tracks it as a root; there is no node of the placeholder kind.
    pub fn from_type(forest: &mut Forest, node_type: NodeType) -> (r: DoogieResult<Node>)
        requires
            old(forest)@.wf(),
        ensures
            node_type == NodeType::CMarkNodeNone ==> r == Err::<Node, DoogieError>(DoogieError::NodeNone)
                && final(forest)@ == old(forest)@,
            node_type != NodeType::CMarkNodeNone ==> (r matches Ok(n) && n.kind() == node_type
                && new_root(old(forest)@, final(forest)@, n.handle(), n.owner(), node_type)),
    {
        if node_type == NodeType::CMarkNodeNone {
            return Err(DoogieError::NodeNone);
        }
        let resource = Resource::allocate(forest, node_type);
        Ok(Node::wrap(resource, node_type))
    }

    /// Returns the kind the forest records for the node.
    pub fn get_cmark_type(&self, forest: &Forest) -> (r: DoogieResult<NodeType>)
        requires
            forest@.wf(),
        ensures
            !forest@.usable(self.handle()) ==> r == Err::<NodeType, DoogieError>(DoogieError::ResourceUnavailable),
            forest@.usable(self.handle()) ==> match decode(forest@.nodes[self.handle() as int].code) {
                Some(t) => r == Ok::<NodeType, DoogieError>(t),
                None => r == Err::<NodeType, DoogieError>(DoogieError::BadEnum(forest@.nodes[self.handle() as int].code)),
            },
    {
        let p = self.pointer();
        if !forest.usable(p) {
            return Err(DoogieError::ResourceUnavailable);
        }
        let r = NodeType::try_from(forest.kind_code(p));
        proof {
            if let Ok(t) = r {
                lemma_decode_code(t);
            }
        }
        r
    }

    /// Returns a numerical identity of the node: equal for handle-equal nodes.
    pub fn get_id(&self) -> (r: u32)
        ensures
            r == self.handle() as u32,
    {
        self.pointer().id as u32
    }

    /// Returns the name of the kind the forest records for the node; `<unknown>` for a
    /// code that names no kind.
    pub fn get_cmark_type_string(&self, forest: &Forest) -> (r: DoogieResult<String>)
        requires
            forest@.wf(),
        ensures
            !forest@.usable(self.handle()) ==> r == Err::<String, DoogieError>(DoogieError::ResourceUnavailable),
            forest@.usable(self.handle()) ==> (r matches Ok(s) && s@ == match decode(forest@.nodes[self.handle() as int].code) {
                Some(t) => t.spec_name(),
                None => "<unknown>"@,
            }),
    {
        match self.get_cmark_type(forest) {
            Err(DoogieError::BadEnum(_)) => {
                proof {
                    reveal_strlit("<unknown>");
                }
                Ok("<unknown>".to_owned())
            },
            Err(e) => Err(e),
            Ok(t) => Ok(t.name().to_owned()),
        }
    }

    /// Returns the sibling right after the node, if there is one.
    ///
    /// The node reached shares the owner of this one.
    pub fn next_sibling(&self, forest: &Forest) -> (r: DoogieResult<Option<Node>>)
        requires
            forest@.wf(),
        ensures
            !forest@.usable(self.handle()) ==> r == Err::<Option<Node>, DoogieError>(DoogieError::ResourceUnavailable),
            forest@.usable(self.handle()) ==> steps_to(forest@, forest@.next_of(self.handle()), self.owner(), r),
    {
        let res = self.resource();
        if !forest.usable(res.pointer) {
            return Err(DoogieError::ResourceUnavailable);
        }
        match forest.next(res.pointer) {
            None => Ok(None),
            Some(q) => match Node::from_raw(forest, q, res.manager) {
                Ok(n) => Ok(Some(n)),
                Err(e) => Err(e),
            },
        }
    }

    /// Returns the sibling right before the node, if there is one.
    ///
    /// The node reached shares the owner of this one.
    pub fn prev_sibling(&self, forest: &Forest) -> (r: DoogieResult<Option<Node>>)
        requires
            forest@.wf(),
        ensures
            !forest@.usable(self.handle()) ==> r == Err::<Option<Node>, DoogieError>(DoogieError::ResourceUnavailable),
            forest@.usable(self.handle()) ==> steps_to(forest@, forest@.prev_of(self.handle()), self.owner(), r),
    {
        let res = self.resource();
        if !forest.usable(res.pointer) {
            return Err(DoogieError::ResourceUnavailable);
        }
        match forest.previous(res.pointer) {
            None => Ok(None),
            Some(q) => match Node::from_raw(forest, q, res.manager) {
                Ok(n) => Ok(Some(n)),
                Err(e) => Err(e),
            },
        }
    }

    /// Returns the parent of the node, if it has one.
    ///
    /// The node reached shares the owner of this one.
    pub fn parent(&self, forest: &Forest) -> (r: DoogieResult<Option<Node>>)
        requires
            forest@.wf(),
        ensures
            !forest@.usable(self.handle()) ==> r == Err::<Option<Node>, DoogieError>(DoogieError::ResourceUnavailable),
            forest@.usable(self.handle()) ==> steps_to(forest@, forest@.nodes[self.handle() as int].parent, self.owner(), r),
    {
        let res = self.resource();
        if !forest.usable(res.pointer) {
            return Err(DoogieError::ResourceUnavailable);
        }
        match forest.parent(res.pointer) {
            None => Ok(None),
            Some(q) => match Node::from_raw(forest, q, res.manager) {
                Ok(n) => Ok(Some(n)),
                Err(e) => Err(e),
            },
        }
    }

    /// Returns the first child of the node, if it has one.
    ///
    /// The node reached shares the owner of this one.
    pub fn first_child(&self, forest: &Forest) -> (r: DoogieResult<Option<Node>>)
        requires
            forest@.wf(),
        ensures
            !forest@.usable(self.handle()) ==> r == Err::<Option<Node>, DoogieError>(DoogieError::ResourceUnavailable),
            forest@.usable(self.handle()) ==> steps_to(forest@, forest@.first_of(self.handle()), self.owner(), r),
    {
        let res = self.resource();
        if !forest.usable(res.pointer) {
            return Err(DoogieError::ResourceUnavailable);
        }
        match forest.first_child(res.pointer) {
            None => Ok(None),
            Some(q) => match Node::from_raw(forest, q, res.manager) {
                Ok(n) => Ok(Some(n)),
                Err(e) => Err(e),
            },
        }
    }

    /// Returns the last child of the node, if it has one.
    ///
    /// The node reached shares the owner of this one.
    pub fn last_child(&self, forest: &Forest) -> (r: DoogieResult<Option<Node>>)
        requires
            forest@.wf(),
        ensures
            !forest@.usable(self.handle()) ==> r == Err::<Option<Node>, DoogieError>(DoogieError::ResourceUnavailable),
            forest@.usable(self.handle()) ==> steps_to(forest@, forest@.last_of(self.handle()), self.owner(), r),
    {
        let res = self.resource();
        if !forest.usable(res.pointer) {
            return Err(DoogieError::ResourceUnavailable);
        }
        match forest.last_child(res.pointer) {
            None => Ok(None),
            Some(q) => match Node::from_raw(forest, q, res.manager) {
                Ok(n) => Ok(Some(n)),
                Err(e) => Err(e),
            },
        }
    }

    /// Returns a second node for the same handle, sharing this one's owner.
    pub fn itself(&self, forest: &Forest) -> (r: DoogieResult<Node>)
        requires
            forest@.wf(),
        ensures
            wraps(forest@, self.handle(), self.owner(), r),
    {
        let res = self.resource();
        Node::from_raw(forest, res.pointer, res.manager)
    }

    /// Detaches the node from its parent and siblings, keeping its children, and makes
    /// its owner track it as a root.
    pub fn unlink(&mut self, forest: &mut Forest) -> (r: DoogieResult<()>)
        requires
            old(forest)@.wf(),
        ensures
            *final(self) == *old(self),
            final(forest)@.wf(),
            r is Ok <==> old(forest)@.usable(old(self).handle()) && old(self).owner() < old(forest)@.managers.len(),
            r is Ok ==> final(forest)@ == old(forest)@.unlinked(old(self).handle()).tracking(
                old(self).owner(),
                old(self).handle(),
            ),
            r is Err ==> r == Err::<(), DoogieError>(DoogieError::ResourceUnavailable) && final(forest)@ == old(forest)@,
    {
        let res = self.resource();
        if !forest.usable(res.pointer) || res.manager >= forest.manager_count() {
            return Err(DoogieError::ResourceUnavailable);
        }
        forest.unlink(res.pointer);
        forest.track_root(res.manager, res.pointer);
        Ok(())
    }

    /// Appends `child` as the last child of the node.
    ///
    /// The child is first unlinked, so that it is tracked by its owner; when the forest
    /// accepts it, ownership passes to the tree it joins and its owner stops tracking it.
    /// When the kinds or the positions do not allow it, the refusal status is reported and
    /// the child stays detached and tracked.
    pub fn append_child(&mut self, forest: &mut Forest, child: &mut Node) -> (r: DoogieResult<()>)
        requires
            old(forest)@.wf(),
        ensures
            *final(self) == *old(self),
            *final(child) == *old(child),
            final(forest)@.wf(),
            ({
                let f = old(forest)@;
                let p = old(self).handle();
                let c = old(child).handle();
                let m = old(child).owner();
                let u = f.unlinked(c).tracking(m, c);
                if !(f.usable(p) && f.usable(c) && m < f.managers.len()) {
                    r == Err::<(), DoogieError>(DoogieError::ResourceUnavailable) && final(forest)@ == f
                } else if u.can_contain(p, c) {
                    r == Ok::<(), DoogieError>(()) && final(forest)@ == u.attached(p, c).untracking(m, c)
                } else {
                    r == Err::<(), DoogieError>(DoogieError::ReturnCode(STATUS_REFUSED)) && final(forest)@ == u
                }
            }),
    {
        let parent = self.pointer();
        let res = child.resource();
        if !forest.usable(parent) || !forest.usable(res.pointer) || res.manager >= forest.manager_count() {
            return Err(DoogieError::ResourceUnavailable);
        }
        match child.unlink(forest) {
            Ok(()) => {},
            Err(e) => {
                return Err(e);
            },
        }
        let status = forest.append_child(parent, res.pointer);
        if status == STATUS_OK {
            forest.untrack_root(res.manager, res.pointer);
            Ok(())
        } else {
            Err(DoogieError::ReturnCode(status))
        }
    }

    /// Returns whether the kind of `child` may stand as an immediate child of a node of
    /// this node's kind.
    pub fn can_append_child(&self, forest: &Forest, child: &Node) -> (r: DoogieResult<bool>)
        requires
            forest@.wf(),
        ensures
            !forest@.usable(child.handle()) ==> r == Err::<bool, DoogieError>(DoogieError::ResourceUnavailable),
            forest@.usable(child.handle()) ==> match decode(forest@.nodes[child.handle() as int].code) {
                Some(t) => r == Ok::<bool, DoogieError>(self.kind().valid_child(t)),
                None => r == Err::<bool, DoogieError>(DoogieError::BadEnum(forest@.nodes[child.handle() as int].code)),
            },
    {
        match child.get_cmark_type(forest) {
            Ok(t) => Ok(self.node_type().can_contain(t)),
            Err(e) => Err(e),
        }
    }

    /// Returns the line of the source document where the node starts.
    pub fn get_start_line(&self, forest: &Forest) -> (r: DoogieResult<u32>)
        requires
            forest@.wf(),
        ensures
            !forest@.usable(self.handle()) ==> r == Err::<u32, DoogieError>(DoogieError::ResourceUnavailable),
            forest@.usable(self.handle()) ==> r == Ok::<u32, DoogieError>(forest@.nodes[self.handle() as int].start_line),
    {
        let p = self.pointer();
        if !forest.usable(p) {
            return Err(DoogieError::ResourceUnavailable);
        }
        Ok(forest.start_line(p))
    }

    /// Returns the column of the source document where the node starts.
    pub fn get_start_column(&self, forest: &Forest) -> (r: DoogieResult<u32>)
        requires
            forest@.wf(),
        ensures
            !forest@.usable(self.handle()) ==> r == Err::<u32, DoogieError>(DoogieError::ResourceUnavailable),
            forest@.usable(self.handle()) ==> r == Ok::<u32, DoogieError>(forest@.nodes[self.handle() as int].start_column),
    {
        let p = self.pointer();
        if !forest.usable(p) {
            return Err(DoogieError::ResourceUnavailable);
        }
        Ok(forest.start_column(p))
    }
}

impl PartialEq for Node {
    /// Two nodes are equal when they have the same handle, whatever owner they were
    /// reached through.
    fn eq(&self, other: &Node) -> (r: bool) {
        self.pointer() == other.pointer()
    }
}

impl vstd::std_specs::cmp::PartialEqSpecImpl for Node {
    open spec fn obeys_eq_spec() -> bool {
        true
    }

    open spec fn eq_spec(&self, other: &Node) -> bool {
        self.handle() == other.handle()
    }
}

} // verus!
