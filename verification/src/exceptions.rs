//! Exception extraction at the analysis layer: thin entries over the
//! syntax-pattern extractor.

use vstd::prelude::*;
use crate::extract::{raise_recs, spec_raises};
use crate::syntree::SynNode;
use crate::types::{CodeLocation, RaiseStatement};

verus! {

/// Why exception extraction failed.
#[derive(Debug)]
pub enum ExceptionError {
    ExtractionFailed(String),
    Extractor(String),
}

/// Every raise site inside the inclusive line range of one parsed file.
pub fn extract_exceptions(
    tree: &SynNode,
    file_path: &str,
    line_start: u32,
    line_end: u32,
) -> (r: Result<Vec<RaiseStatement>, ExceptionError>)
    ensures
        match r {
            Ok(v) => raise_recs(v@) == spec_raises(
                *tree,
                file_path@,
                Some((line_start, line_end)),
                None,
            ),
            Err(_) => false,
        },
{
    Ok(crate::extract::extract_raises_in_range(tree, file_path, line_start, line_end))
}

/// Every raise site of one parsed file.
pub fn extract_all_exceptions(tree: &SynNode, file_path: &str) -> (r: Result<
    Vec<RaiseStatement>,
    ExceptionError,
>)
    ensures
        match r {
            Ok(v) => raise_recs(v@) == spec_raises(*tree, file_path@, None, None),
            Err(_) => false,
        },
{
    Ok(crate::extract::extract_raises(tree, file_path))
}

/// Where an exception type is defined; nothing is known without a symbol
/// index, so nothing is returned.
pub fn find_exception_definition(_exc_type: &str, _qualified_type: &str) -> (r: Option<
    CodeLocation,
>)
    ensures
        r is None,
{
    crate::extract::find_exception_definition(_exc_type)
}

} // verus!
