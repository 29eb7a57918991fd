//! The parsing session: wraps the grammar-backed parser behind a type
//! whose results are the plain syntax trees the rest of the library works
//! on.

use vstd::prelude::*;
use vstd::string::StringExecFns;
use crate::syntree::{SynNode, parse_of, parse_source};

verus! {

/// Why parsing could not be done.
#[derive(Debug)]
pub enum ParserError {
    InitializationFailed,
    ParseFailed(String),
    Io(String),
    QueryError(String),
}

/// A parsing session for one indexing or traversal pass.
pub struct PythonParser {
}

impl PythonParser {
    pub fn new() -> (r: Result<Self, ParserError>)
        ensures
            r is Ok,
    {
        Ok(PythonParser {  })
    }

    /// Parses one source text; the reported failure names the file it
    /// came from.
    pub fn parse_str(&mut self, content: &str, path: &str) -> (r: Result<SynNode, ParserError>)
        ensures
            match r {
                Ok(tree) => parse_of(content@) == Some(tree),
                Err(e) => parse_of(content@) is None && (e matches ParserError::ParseFailed(p)
                    && p@ == path@),
            },
    {
        match parse_source(content) {
            Some(tree) => Ok(tree),
            None => Err(ParserError::ParseFailed(path.to_owned())),
        }
    }
}

} // verus!
