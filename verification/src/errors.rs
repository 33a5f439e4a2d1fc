//! The failures of reading a document.

use crate::entities::ParseDateError;
use crate::text::ParseIntError;
use vstd::prelude::*;

verus! {

/// Why a path expression gave no value.
#[derive(Clone, Copy, Debug, PartialEq, Eq, Structural)]
pub enum XpathFailure {
    /// The expression names a prefix other than `mb`, the one prefix that is
    /// bound to a namespace.
    UnboundPrefix,
    /// The expression is not a well-formed XPath expression.
    Syntax,
    /// The expression compiled to nothing.
    Empty,
    /// The expression compiled, but its evaluation failed.
    Execution,
}

/// What a piece of text was expected to be.
#[derive(Clone, Copy, Debug, PartialEq, Eq, Structural)]
pub enum DataProblem {
    /// The text is no identifier of an entity.
    Mbid,
    /// The text is no number.
    Number(ParseIntError),
    /// The text is no date.
    Date(ParseDateError),
    /// The text is no type of an area.
    AreaType,
    /// The text is no type of an artist.
    ArtistType,
    /// The text is no type of a label.
    LabelType,
    /// The text is no status of a release.
    ReleaseStatus,
    /// The text is no primary type of a release group.
    ReleaseGroupPrimaryType,
    /// The text is no secondary type of a release group.
    ReleaseGroupSecondaryType,
    /// The expression in the text selected no node where one is required.
    MissingNode,
    /// The expression in the text did not select nodes at all.
    NotANodeset,
}

/// A failure to read a document or a part of it.
#[derive(Clone, Debug, PartialEq, Eq)]
pub enum ReadError {
    /// The text is not a well-formed XML document. `location` is the offset at
    /// which the XML parser gave up.
    XmlParserError { location: usize },
    /// The path expression `expr` gave no value: it was turned away, it did
    /// not compile, or its evaluation failed.
    XmlXpathError { failure: XpathFailure, expr: String },
    /// The text in the document does not have the shape that the field asks for.
    InvalidData { problem: DataProblem, text: String },
}

/// A `ReadError` with its texts as sequences of characters.
pub enum ReadErrorView {
    XmlParserError { location: usize },
    XmlXpathError { failure: XpathFailure, expr: Seq<char> },
    InvalidData { problem: DataProblem, text: Seq<char> },
}

impl View for ReadError {
    type V = ReadErrorView;

    open spec fn view(&self) -> ReadErrorView {
        match *self {
            ReadError::XmlParserError { location } => ReadErrorView::XmlParserError { location },
            ReadError::XmlXpathError { failure, expr } => ReadErrorView::XmlXpathError {
                failure,
                expr: expr@,
            },
            ReadError::InvalidData { problem, text } => ReadErrorView::InvalidData {
                problem,
                text: text@,
            },
        }
    }
}

impl ReadError {
    /// The failure of the expression `expr`.
    pub fn xpath(failure: XpathFailure, expr: &str) -> (e: ReadError)
        ensures
            e@ == (ReadErrorView::XmlXpathError { failure, expr: expr@ }),
    {
        ReadError::XmlXpathError { failure, expr: expr.to_owned() }
    }

    /// The failure of `text` to be what `problem` names.
    pub fn invalid(problem: DataProblem, text: &str) -> (e: ReadError)
        ensures
            e@ == (ReadErrorView::InvalidData { problem, text: text@ }),
    {
        ReadError::InvalidData { problem, text: text.to_owned() }
    }
}

/// The view of what a read returned.
pub open spec fn result_view<T: View>(r: Result<T, ReadError>) -> Result<T::V, ReadErrorView> {
    match r {
        Ok(v) => Ok(v@),
        Err(e) => Err(e@),
    }
}

} // verus!
