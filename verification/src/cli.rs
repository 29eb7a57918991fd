//! The values the command surface hands the library: analysis requests
//! and database-maintenance options, as plain data.

use vstd::prelude::*;

verus! {

/// How results are rendered.
#[derive(Clone, Copy, PartialEq, Eq, Structural, Debug)]
pub enum OutputFormat {
    Markdown,
    Json,
}

/// One analysis request: the functions to analyze, the depth ceiling, and
/// the rendering choice.
pub struct AnalyzeArgs {
    pub functions: Vec<String>,
    pub depth: usize,
    pub output_format: OutputFormat,
    pub venv_path: Option<String>,
}

/// Why an analysis request failed.
#[derive(Debug)]
pub enum AnalyzeError {
    Traversal(String),
    Database(String),
    Io(String),
}

/// Options for creating the on-disk state.
pub struct InitOptions {
    pub force: bool,
    pub skip_site_packages: bool,
}

impl Default for InitOptions {
    fn default() -> (r: Self)
        ensures
            r.force == false,
            r.skip_site_packages == false,
    {
        InitOptions { force: false, skip_site_packages: false }
    }
}

/// Options for exporting the database.
pub struct ExportOptions {
    pub output: Option<String>,
    pub format: OutputFormat,
}

/// Why a database command failed.
#[derive(Debug)]
pub enum DbCommandError {
    Database(String),
    Io(String),
    NotInitialized,
}

} // verus!
