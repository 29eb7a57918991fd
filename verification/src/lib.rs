//! Static analysis of Python codebases: discovers the exception types a
//! function can raise and the syntactic origins of `None` values it can
//! return, by combining a project-wide symbol index, an import-aware name
//! resolver, and a bounded breadth-first traversal of the call graph.

pub mod cli;
pub mod config;
pub mod database;
pub mod exceptions;
pub mod extract;
pub mod grouping;
pub mod indexer;
pub mod markdown;
pub mod none_sources;
pub mod parser;
pub mod paths;
pub mod query;
pub mod resolver;
pub mod strmap;
pub mod strutil;
pub mod syntree;
pub mod traversal;
pub mod types;
