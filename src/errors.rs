//! Error values reported by tree operations.
use vstd::prelude::*;

verus! {

/// What went wrong in an operation on the tree.
#[derive(Debug, Clone, Copy, PartialEq, Eq, Structural)]
pub enum DoogieError {
    /// Text handed to the tree held a NUL character at the given character position.
    NulError(usize),
    /// Text taken from outside was not valid UTF-8; the payload is the length of its valid prefix.
    Utf8Error(usize),
    /// A tree mutation was refused; the payload is the status it returned.
    ReturnCode(u32),
    /// A stored code matched no variant of the enumeration it belongs to.
    BadEnum(u32),
    /// Reading or writing a document failed.
    IOError,
    /// The node handle no longer refers to an allocated node.
    ResourceUnavailable,
    /// The node handle refers to a node of the placeholder kind, which stands for no node.
    NodeNone,
}

/// Result type for tree operations.
pub type DoogieResult<T> = Result<T, DoogieError>;

/// The short description of each kind of error.
pub open spec fn description_of(e: DoogieError) -> Seq<char> {
    match e {
        DoogieError::NulError(_) => "text contained an interior NUL character"@,
        DoogieError::Utf8Error(_) => "text was not valid UTF-8"@,
        DoogieError::ReturnCode(_) => "the tree returned a bad status code."@,
        DoogieError::BadEnum(_) => "the tree returned a non-matching enum value."@,
        DoogieError::IOError => "an I/O operation failed"@,
        DoogieError::ResourceUnavailable => "The resource is no longer available."@,
        DoogieError::NodeNone => "the handle refers to no node"@,
    }
}

impl DoogieError {
    /// Returns a short description of the error.
    pub fn description(&self) -> (r: &'static str)
        ensures
            r@ == description_of(*self),
    {
        proof {
            reveal_strlit("text contained an interior NUL character");
            reveal_strlit("text was not valid UTF-8");
            reveal_strlit("the tree returned a bad status code.");
            reveal_strlit("the tree returned a non-matching enum value.");
            reveal_strlit("an I/O operation failed");
            reveal_strlit("The resource is no longer available.");
            reveal_strlit("the handle refers to no node");
        }
        match self {
            DoogieError::NulError(_) => "text contained an interior NUL character",
            DoogieError::Utf8Error(_) => "text was not valid UTF-8",
            DoogieError::ReturnCode(_) => "the tree returned a bad status code.",
            DoogieError::BadEnum(_) => "the tree returned a non-matching enum value.",
            DoogieError::IOError => "an I/O operation failed",
            DoogieError::ResourceUnavailable => "The resource is no longer available.",
            DoogieError::NodeNone => "the handle refers to no node",
        }
    }
}

} // verus!
