//! `None`-source extraction at the analysis layer: thin entries over the
//! syntax-pattern extractor.

use vstd::prelude::*;
use crate::extract::{none_recs, spec_nones};
use crate::syntree::SynNode;
use crate::types::NoneSource;

verus! {

/// Why `None`-source extraction failed.
#[derive(Debug)]
pub enum NoneSourceError {
    ExtractionFailed(String),
    Extractor(String),
}

/// Every `None` source inside the inclusive line range of one parsed
/// file.
pub fn extract_none_sources(
    tree: &SynNode,
    file_path: &str,
    line_start: u32,
    line_end: u32,
) -> (r: Result<Vec<NoneSource>, NoneSourceError>)
    ensures
        match r {
            Ok(v) => none_recs(v@) == spec_nones(
                *tree,
                file_path@,
                Some((line_start, line_end)),
                None,
            ),
            Err(_) => false,
        },
{
    Ok(crate::extract::extract_none_sources_in_range(tree, file_path, line_start, line_end))
}

/// Every `None` source of one parsed file.
pub fn extract_all_none_sources(tree: &SynNode, file_path: &str) -> (r: Result<
    Vec<NoneSource>,
    NoneSourceError,
>)
    ensures
        match r {
            Ok(v) => none_recs(v@) == spec_nones(*tree, file_path@, None, None),
            Err(_) => false,
        },
{
    Ok(crate::extract::extract_none_sources(tree, file_path))
}

} // verus!
