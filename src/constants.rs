//! Node kinds, list attributes and traversal events, with their numeric codes
//! and the rules on which kinds of node may contain which.
use vstd::prelude::*;

use crate::errors::{DoogieError, DoogieResult};

verus! {

/// The kind of a node, with the numeric code under which the tree stores it.
#[derive(Debug, Clone, Copy, PartialEq, Eq, Structural)]
pub enum NodeType {
    CMarkNodeNone,
    CMarkNodeDocument,
    CMarkNodeBlockQuote,
    CMarkNodeList,
    CMarkNodeItem,
    CMarkNodeCodeBlock,
    CMarkNodeHtmlBlock,
    CMarkNodeCustomBlock,
    CMarkNodeParagraph,
    CMarkNodeHeading,
    CMarkNodeThematicBreak,
    CMarkNodeText,
    CMarkNodeSoftbreak,
    CMarkNodeLinebreak,
    CMarkNodeCode,
    CMarkNodeHtmlInline,
    CMarkNodeCustomInline,
    CMarkNodeEmph,
    CMarkNodeStrong,
    CMarkNodeLink,
    CMarkNodeImage,
}

/// The largest code that names a node kind.
pub const LAST_NODE_CODE: u32 = 20;

/// The status a successful tree mutation reports.
pub const STATUS_OK: u32 = 1;

/// The status a refused tree mutation reports.
pub const STATUS_REFUSED: u32 = 0;

impl NodeType {
    /// The numeric code of each kind: its position in the declaration.
    pub open spec fn spec_code(self) -> u32 {
        match self {
            NodeType::CMarkNodeNone => 0,
            NodeType::CMarkNodeDocument => 1,
            NodeType::CMarkNodeBlockQuote => 2,
            NodeType::CMarkNodeList => 3,
            NodeType::CMarkNodeItem => 4,
            NodeType::CMarkNodeCodeBlock => 5,
            NodeType::CMarkNodeHtmlBlock => 6,
            NodeType::CMarkNodeCustomBlock => 7,
            NodeType::CMarkNodeParagraph => 8,
            NodeType::CMarkNodeHeading => 9,
            NodeType::CMarkNodeThematicBreak => 10,
            NodeType::CMarkNodeText => 11,
            NodeType::CMarkNodeSoftbreak => 12,
            NodeType::CMarkNodeLinebreak => 13,
            NodeType::CMarkNodeCode => 14,
            NodeType::CMarkNodeHtmlInline => 15,
            NodeType::CMarkNodeCustomInline => 16,
            NodeType::CMarkNodeEmph => 17,
            NodeType::CMarkNodeStrong => 18,
            NodeType::CMarkNodeLink => 19,
            NodeType::CMarkNodeImage => 20,
        }
    }

    /// Block kinds: the document and everything that structures it into blocks.
    pub open spec fn is_block(self) -> bool {
        1 <= self.spec_code() <= 10
    }

    /// Inline kinds: the content of paragraphs and headings.
    pub open spec fn is_inline(self) -> bool {
        11 <= self.spec_code() <= 20
    }

    /// Kinds that never have children, so a traversal only enters them.
    pub open spec fn is_leaf(self) -> bool {
        match self {
            NodeType::CMarkNodeHtmlBlock | NodeType::CMarkNodeThematicBreak
            | NodeType::CMarkNodeCodeBlock | NodeType::CMarkNodeText
            | NodeType::CMarkNodeSoftbreak | NodeType::CMarkNodeLinebreak
            | NodeType::CMarkNodeCode | NodeType::CMarkNodeHtmlInline => true,
            _ => false,
        }
    }

    /// Kinds that hold literal text content.
    pub open spec fn has_literal(self) -> bool {
        match self {
            NodeType::CMarkNodeHtmlBlock | NodeType::CMarkNodeHtmlInline
            | NodeType::CMarkNodeText | NodeType::CMarkNodeCode
            | NodeType::CMarkNodeCodeBlock => true,
            _ => false,
        }
    }

    /// Whether a node of kind `self` may hold a node of kind `child` as an immediate child.
    pub open spec fn valid_child(self, child: NodeType) -> bool {
        if child == NodeType::CMarkNodeDocument || child == NodeType::CMarkNodeNone {
            false
        } else {
            match self {
                NodeType::CMarkNodeDocument | NodeType::CMarkNodeBlockQuote
                | NodeType::CMarkNodeItem => child.is_block() && child != NodeType::CMarkNodeItem,
                NodeType::CMarkNodeList => child == NodeType::CMarkNodeItem,
                NodeType::CMarkNodeCustomBlock => true,
                NodeType::CMarkNodeParagraph | NodeType::CMarkNodeHeading
                | NodeType::CMarkNodeEmph | NodeType::CMarkNodeStrong | NodeType::CMarkNodeLink
                | NodeType::CMarkNodeImage | NodeType::CMarkNodeCustomInline => child.is_inline(),
                _ => false,
            }
        }
    }

    /// The name of each kind, in the tree's own vocabulary.
    pub open spec fn spec_name(self) -> Seq<char> {
        match self {
            NodeType::CMarkNodeNone => "none"@,
            NodeType::CMarkNodeDocument => "document"@,
            NodeType::CMarkNodeBlockQuote => "block_quote"@,
            NodeType::CMarkNodeList => "list"@,
            NodeType::CMarkNodeItem => "item"@,
            NodeType::CMarkNodeCodeBlock => "code_block"@,
            NodeType::CMarkNodeHtmlBlock => "html_block"@,
            NodeType::CMarkNodeCustomBlock => "custom_block"@,
            NodeType::CMarkNodeParagraph => "paragraph"@,
            NodeType::CMarkNodeHeading => "heading"@,
            NodeType::CMarkNodeThematicBreak => "thematic_break"@,
            NodeType::CMarkNodeText => "text"@,
            NodeType::CMarkNodeSoftbreak => "softbreak"@,
            NodeType::CMarkNodeLinebreak => "linebreak"@,
            NodeType::CMarkNodeCode => "code"@,
            NodeType::CMarkNodeHtmlInline => "html_inline"@,
            NodeType::CMarkNodeCustomInline => "custom_inline"@,
            NodeType::CMarkNodeEmph => "emph"@,
            NodeType::CMarkNodeStrong => "strong"@,
            NodeType::CMarkNodeLink => "link"@,
            NodeType::CMarkNodeImage => "image"@,
        }
    }

    /// Returns the name of the kind.
    pub fn name(&self) -> (r: &'static str)
        ensures
            r@ == self.spec_name(),
    {
        proof {
            reveal_strlit("none");
            reveal_strlit("document");
            reveal_strlit("block_quote");
            reveal_strlit("list");
            reveal_strlit("item");
            reveal_strlit("code_block");
            reveal_strlit("html_block");
            reveal_strlit("custom_block");
            reveal_strlit("paragraph");
            reveal_strlit("heading");
            reveal_strlit("thematic_break");
            reveal_strlit("text");
            reveal_strlit("softbreak");
            reveal_strlit("linebreak");
            reveal_strlit("code");
            reveal_strlit("html_inline");
            reveal_strlit("custom_inline");
            reveal_strlit("emph");
            reveal_strlit("strong");
            reveal_strlit("link");
            reveal_strlit("image");
        }
        match self {
            NodeType::CMarkNodeNone => "none",
            NodeType::CMarkNodeDocument => "document",
            NodeType::CMarkNodeBlockQuote => "block_quote",
            NodeType::CMarkNodeList => "list",
            NodeType::CMarkNodeItem => "item",
            NodeType::CMarkNodeCodeBlock => "code_block",
            NodeType::CMarkNodeHtmlBlock => "html_block",
            NodeType::CMarkNodeCustomBlock => "custom_block",
            NodeType::CMarkNodeParagraph => "paragraph",
            NodeType::CMarkNodeHeading => "heading",
            NodeType::CMarkNodeThematicBreak => "thematic_break",
            NodeType::CMarkNodeText => "text",
            NodeType::CMarkNodeSoftbreak => "softbreak",
            NodeType::CMarkNodeLinebreak => "linebreak",
            NodeType::CMarkNodeCode => "code",
            NodeType::CMarkNodeHtmlInline => "html_inline",
            NodeType::CMarkNodeCustomInline => "custom_inline",
            NodeType::CMarkNodeEmph => "emph",
            NodeType::CMarkNodeStrong => "strong",
            NodeType::CMarkNodeLink => "link",
            NodeType::CMarkNodeImage => "image",
        }
    }

    /// Returns the numeric code of the kind.
    pub fn code(&self) -> (r: u32)
        ensures
            r == self.spec_code(),
    {
        match self {
            NodeType::CMarkNodeNone => 0,
            NodeType::CMarkNodeDocument => 1,
            NodeType::CMarkNodeBlockQuote => 2,
            NodeType::CMarkNodeList => 3,
            NodeType::CMarkNodeItem => 4,
            NodeType::CMarkNodeCodeBlock => 5,
            NodeType::CMarkNodeHtmlBlock => 6,
            NodeType::CMarkNodeCustomBlock => 7,
            NodeType::CMarkNodeParagraph => 8,
            NodeType::CMarkNodeHeading => 9,
            NodeType::CMarkNodeThematicBreak => 10,
            NodeType::CMarkNodeText => 11,
            NodeType::CMarkNodeSoftbreak => 12,
            NodeType::CMarkNodeLinebreak => 13,
            NodeType::CMarkNodeCode => 14,
            NodeType::CMarkNodeHtmlInline => 15,
            NodeType::CMarkNodeCustomInline => 16,
            NodeType::CMarkNodeEmph => 17,
            NodeType::CMarkNodeStrong => 18,
            NodeType::CMarkNodeLink => 19,
            NodeType::CMarkNodeImage => 20,
        }
    }

    /// Returns the kind whose code is `code`, or `BadEnum` when no kind has that code.
    pub fn try_from(code: u32) -> (r: DoogieResult<NodeType>)
        ensures
            code <= LAST_NODE_CODE <==> r is Ok,
            r matches Ok(t) ==> t.spec_code() == code,
            code > LAST_NODE_CODE ==> r == Err::<NodeType, DoogieError>(DoogieError::BadEnum(code)),
    {
        match code {
            0 => Ok(NodeType::CMarkNodeNone),
            1 => Ok(NodeType::CMarkNodeDocument),
            2 => Ok(NodeType::CMarkNodeBlockQuote),
            3 => Ok(NodeType::CMarkNodeList),
            4 => Ok(NodeType::CMarkNodeItem),
            5 => Ok(NodeType::CMarkNodeCodeBlock),
            6 => Ok(NodeType::CMarkNodeHtmlBlock),
            7 => Ok(NodeType::CMarkNodeCustomBlock),
            8 => Ok(NodeType::CMarkNodeParagraph),
            9 => Ok(NodeType::CMarkNodeHeading),
            10 => Ok(NodeType::CMarkNodeThematicBreak),
            11 => Ok(NodeType::CMarkNodeText),
            12 => Ok(NodeType::CMarkNodeSoftbreak),
            13 => Ok(NodeType::CMarkNodeLinebreak),
            14 => Ok(NodeType::CMarkNodeCode),
            15 => Ok(NodeType::CMarkNodeHtmlInline),
            16 => Ok(NodeType::CMarkNodeCustomInline),
            17 => Ok(NodeType::CMarkNodeEmph),
            18 => Ok(NodeType::CMarkNodeStrong),
            19 => Ok(NodeType::CMarkNodeLink),
            20 => Ok(NodeType::CMarkNodeImage),
            _ => Err(DoogieError::BadEnum(code)),
        }
    }

    /// Returns whether nodes of this kind never have children.
    pub fn leaf(&self) -> (r: bool)
        ensures
            r == self.is_leaf(),
    {
        match self {
            NodeType::CMarkNodeHtmlBlock | NodeType::CMarkNodeThematicBreak
            | NodeType::CMarkNodeCodeBlock | NodeType::CMarkNodeText
            | NodeType::CMarkNodeSoftbreak | NodeType::CMarkNodeLinebreak
            | NodeType::CMarkNodeCode | NodeType::CMarkNodeHtmlInline => true,
            _ => false,
        }
    }

    /// Returns whether nodes of this kind hold literal text content.
    pub fn holds_literal(&self) -> (r: bool)
        ensures
            r == self.has_literal(),
    {
        match self {
            NodeType::CMarkNodeHtmlBlock | NodeType::CMarkNodeHtmlInline
            | NodeType::CMarkNodeText | NodeType::CMarkNodeCode
            | NodeType::CMarkNodeCodeBlock => true,
            _ => false,
        }
    }

    /// Returns whether a node of this kind may hold a node of kind `child` as an immediate child.
    pub fn can_contain(&self, child: NodeType) -> (r: bool)
        ensures
            r == self.valid_child(child),
    {
        let c = child.code();
        if c == 0 || c == 1 {
            return false;
        }
        match self {
            NodeType::CMarkNodeDocument | NodeType::CMarkNodeBlockQuote
            | NodeType::CMarkNodeItem => c <= 10 && c != 4,
            NodeType::CMarkNodeList => c == 4,
            NodeType::CMarkNodeCustomBlock => true,
            NodeType::CMarkNodeParagraph | NodeType::CMarkNodeHeading
            | NodeType::CMarkNodeEmph | NodeType::CMarkNodeStrong | NodeType::CMarkNodeLink
            | NodeType::CMarkNodeImage | NodeType::CMarkNodeCustomInline => c >= 11,
            _ => false,
        }
    }
}

/// The kind of a list.
#[derive(Debug, Clone, Copy, PartialEq, Eq, Structural)]
pub enum ListType {
    CMarkNoList,
    CMarkBulletList,
    CMarkOrderedList,
}

impl ListType {
    /// The numeric code of each list kind.
    pub open spec fn spec_code(self) -> u32 {
        match self {
            ListType::CMarkNoList => 0,
            ListType::CMarkBulletList => 1,
            ListType::CMarkOrderedList => 2,
        }
    }

    /// Returns the numeric code of the list kind.
    pub fn code(&self) -> (r: u32)
        ensures
            r == self.spec_code(),
    {
        match self {
            ListType::CMarkNoList => 0,
            ListType::CMarkBulletList => 1,
            ListType::CMarkOrderedList => 2,
        }
    }

    /// Returns the list kind whose code is `code`, or `BadEnum` when none has it.
    pub fn try_from(code: u32) -> (r: DoogieResult<ListType>)
        ensures
            code <= 2 <==> r is Ok,
            r matches Ok(t) ==> t.spec_code() == code,
            code > 2 ==> r == Err::<ListType, DoogieError>(DoogieError::BadEnum(code)),
    {
        match code {
            0 => Ok(ListType::CMarkNoList),
            1 => Ok(ListType::CMarkBulletList),
            2 => Ok(ListType::CMarkOrderedList),
            _ => Err(DoogieError::BadEnum(code)),
        }
    }
}

/// The delimiter that follows the number of an ordered list item.
#[derive(Debug, Clone, Copy, PartialEq, Eq, Structural)]
pub enum DelimType {
    CMarkNoDelim,
    CMarkPeriodDelim,
    CMarkParenDelim,
}

impl DelimType {
    /// The numeric code of each delimiter.
    pub open spec fn spec_code(self) -> u32 {
        match self {
            DelimType::CMarkNoDelim => 0,
            DelimType::CMarkPeriodDelim => 1,
            DelimType::CMarkParenDelim => 2,
        }
    }

    /// Returns the numeric code of the delimiter.
    pub fn code(&self) -> (r: u32)
        ensures
            r == self.spec_code(),
    {
        match self {
            DelimType::CMarkNoDelim => 0,
            DelimType::CMarkPeriodDelim => 1,
            DelimType::CMarkParenDelim => 2,
        }
    }

    /// Returns the delimiter whose code is `code`, or `BadEnum` when none has it.
    pub fn try_from(code: u32) -> (r: DoogieResult<DelimType>)
        ensures
            code <= 2 <==> r is Ok,
            r matches Ok(t) ==> t.spec_code() == code,
            code > 2 ==> r == Err::<DelimType, DoogieError>(DoogieError::BadEnum(code)),
    {
        match code {
            0 => Ok(DelimType::CMarkNoDelim),
            1 => Ok(DelimType::CMarkPeriodDelim),
            2 => Ok(DelimType::CMarkParenDelim),
            _ => Err(DoogieError::BadEnum(code)),
        }
    }
}

/// What a traversal step reports about the node it stands on.
#[derive(Debug, Clone, Copy, PartialEq, Eq, Structural)]
pub enum IterEventType {
    /// No traversal is under way.
    Idle,
    /// The traversal has ended.
    Done,
    /// First visit of a node, before its children.
    Enter,
    /// Visit of a container node after its children.
    Exit,
}

impl IterEventType {
    /// The numeric code of each event.
    pub open spec fn spec_code(self) -> u32 {
        match self {
            IterEventType::Idle => 0,
            IterEventType::Done => 1,
            IterEventType::Enter => 2,
            IterEventType::Exit => 3,
        }
    }

    /// Returns the numeric code of the event.
    pub fn code(&self) -> (r: u32)
        ensures
            r == self.spec_code(),
    {
        match self {
            IterEventType::Idle => 0,
            IterEventType::Done => 1,
            IterEventType::Enter => 2,
            IterEventType::Exit => 3,
        }
    }

    /// Returns the event whose code is `code`, or `BadEnum` when none has it.
    pub fn try_from(code: u32) -> (r: DoogieResult<IterEventType>)
        ensures
            code <= 3 <==> r is Ok,
            r matches Ok(t) ==> t.spec_code() == code,
            code > 3 ==> r == Err::<IterEventType, DoogieError>(DoogieError::BadEnum(code)),
    {
        match code {
            0 => Ok(IterEventType::Idle),
            1 => Ok(IterEventType::Done),
            2 => Ok(IterEventType::Enter),
            3 => Ok(IterEventType::Exit),
            _ => Err(DoogieError::BadEnum(code)),
        }
    }
}

} // verus!
