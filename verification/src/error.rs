//! The ways in which loading a YANG module fails.

use vstd::prelude::*;
use vstd::string::StringExecFns;

verus! {

/// A failed load. A failure at any step ends the whole load.
#[derive(Debug, PartialEq, Eq)]
pub enum ParserError {
    /// The file to start from holds a submodule.
    InvalidParserEntrypoint,
    /// The grammar does not accept a file; the string says where.
    ParseError(String),
    /// A file could not be read; the string is its path, and may say why.
    InvalidFile(String),
    /// A file that was to be merged as a submodule holds a module; the string
    /// is its path.
    InvalidInclude(String),
    /// A file that was imported as a module holds a submodule; the string is
    /// its path.
    InvalidImport(String),
}

/// What a [`ParserError`] holds, as a mathematical value.
pub ghost enum ParserErrorView {
    InvalidParserEntrypoint,
    ParseError(Seq<char>),
    InvalidFile(Seq<char>),
    InvalidInclude(Seq<char>),
    InvalidImport(Seq<char>),
}

impl View for ParserError {
    type V = ParserErrorView;

    open spec fn view(&self) -> ParserErrorView {
        match self {
            ParserError::InvalidParserEntrypoint => ParserErrorView::InvalidParserEntrypoint,
            ParserError::ParseError(s) => ParserErrorView::ParseError(s@),
            ParserError::InvalidFile(s) => ParserErrorView::InvalidFile(s@),
            ParserError::InvalidInclude(s) => ParserErrorView::InvalidInclude(s@),
            ParserError::InvalidImport(s) => ParserErrorView::InvalidImport(s@),
        }
    }
}

impl ParserErrorView {
    /// The one-line message of the error. It ends with the path of the file
    /// that the error blames or, where the grammar does not accept a file,
    /// with the place in it.
    pub open spec fn message(self) -> Seq<char> {
        match self {
            ParserErrorView::InvalidParserEntrypoint =>
                "entrypoint must be a YANG module, not submodule"@,
            ParserErrorView::ParseError(location) => "invalid YANG file: "@ + location,
            ParserErrorView::InvalidFile(path) => "invalid input file: "@ + path,
            ParserErrorView::InvalidInclude(path) =>
                "included file has to be a submodule, not module: "@ + path,
            ParserErrorView::InvalidImport(path) =>
                "imported file has to be a module, not submodule: "@ + path,
        }
    }
}

impl ParserError {
    /// The one-line message of the error.
    pub fn message(&self) -> (res: String)
        ensures
            res@ == self@.message(),
    {
        match self {
            ParserError::InvalidParserEntrypoint => String::from_str(
                "entrypoint must be a YANG module, not submodule",
            ),
            ParserError::ParseError(location) => {
                let mut res = String::from_str("invalid YANG file: ");
                res.append(location.as_str());
                res
            },
            ParserError::InvalidFile(path) => {
                let mut res = String::from_str("invalid input file: ");
                res.append(path.as_str());
                res
            },
            ParserError::InvalidInclude(path) => {
                let mut res = String::from_str("included file has to be a submodule, not module: ");
                res.append(path.as_str());
                res
            },
            ParserError::InvalidImport(path) => {
                let mut res = String::from_str("imported file has to be a module, not submodule: ");
                res.append(path.as_str());
                res
            },
        }
    }
}

} // verus!
