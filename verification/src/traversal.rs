//! The call-graph traversal engine: bounded breadth-first exploration from
//! a root qualified name, resolving each function, harvesting its raise
//! sites, `None` sources and calls, and aggregating everything into one
//! analysis record. A first-in-first-out frontier plus a visited set keep
//! recursive and mutually recursive call graphs finite, and the loops
//! carry termination measures, so a traversal always ends.

use vstd::prelude::*;
use vstd::string::StrSliceExecFns;
use vstd::string::StringExecFns;
use crate::extract;
use crate::extract::CallContext;
use crate::indexer::SymbolIndex;
use crate::resolver::{
    PythonResolver, ResolveError, lemma_last_occurrence, lemma_parent_shorter, spec_is_file,
    spec_join_path, spec_parent_path, spec_resolve,
};
use crate::strmap::StrMap;
use crate::strutil::{
    join_str, last_index_of, spec_dec, split_char, str_eq, u32_to_string, vec_contains_str,
};
use crate::syntree::{parse_of, parse_source};
use crate::types::{
    CodeLocation, FunctionAnalysis, NoneSource, RaiseStatement, SingleFunctionAnalysis,
    clone_string_vec,
};

verus! {

/// What can go wrong while traversing a call graph.
#[derive(Debug)]
pub enum TraversalError {
    FunctionNotFound(String),
    MaxDepthExceeded(usize),
    ParseError(String),
    ResolutionError(String),
    Io(String),
    Extractor(String),
}

/// Python's built-in exception names, whose definitions are never looked
/// up in the project.
pub open spec fn spec_is_builtin_exception(t: Seq<char>) -> bool {
    ||| t == "Exception"@
    ||| t == "BaseException"@
    ||| t == "ValueError"@
    ||| t == "TypeError"@
    ||| t == "KeyError"@
    ||| t == "IndexError"@
    ||| t == "AttributeError"@
    ||| t == "RuntimeError"@
    ||| t == "StopIteration"@
    ||| t == "GeneratorExit"@
    ||| t == "AssertionError"@
    ||| t == "ImportError"@
    ||| t == "ModuleNotFoundError"@
    ||| t == "OSError"@
    ||| t == "IOError"@
    ||| t == "FileNotFoundError"@
    ||| t == "PermissionError"@
    ||| t == "ConnectionError"@
    ||| t == "TimeoutError"@
    ||| t == "NameError"@
    ||| t == "UnboundLocalError"@
    ||| t == "LookupError"@
    ||| t == "ArithmeticError"@
    ||| t == "ZeroDivisionError"@
    ||| t == "OverflowError"@
    ||| t == "FloatingPointError"@
    ||| t == "SystemError"@
    ||| t == "SystemExit"@
    ||| t == "KeyboardInterrupt"@
    ||| t == "MemoryError"@
    ||| t == "RecursionError"@
    ||| t == "NotImplementedError"@
    ||| t == "SyntaxError"@
    ||| t == "IndentationError"@
    ||| t == "TabError"@
    ||| t == "UnicodeError"@
    ||| t == "UnicodeDecodeError"@
    ||| t == "UnicodeEncodeError"@
    ||| t == "UnicodeTranslateError"@
    ||| t == "Warning"@
    ||| t == "UserWarning"@
    ||| t == "DeprecationWarning"@
    ||| t == "PendingDeprecationWarning"@
    ||| t == "RuntimeWarning"@
    ||| t == "SyntaxWarning"@
    ||| t == "ResourceWarning"@
    ||| t == "FutureWarning"@
    ||| t == "ImportWarning"@
    ||| t == "BytesWarning"@
    ||| t == "EncodingWarning"@
}

/// Whether an exception-type name is a Python built-in.
pub fn is_builtin_exception(exc_type: &str) -> (r: bool)
    ensures
        r == spec_is_builtin_exception(exc_type@),
{
    str_eq(exc_type, "Exception") || str_eq(exc_type, "BaseException") || str_eq(
        exc_type,
        "ValueError",
    ) || str_eq(exc_type, "TypeError") || str_eq(exc_type, "KeyError") || str_eq(
        exc_type,
        "IndexError",
    ) || str_eq(exc_type, "AttributeError") || str_eq(exc_type, "RuntimeError") || str_eq(
        exc_type,
        "StopIteration",
    ) || str_eq(exc_type, "GeneratorExit") || str_eq(exc_type, "AssertionError") || str_eq(
        exc_type,
        "ImportError",
    ) || str_eq(exc_type, "ModuleNotFoundError") || str_eq(exc_type, "OSError") || str_eq(
        exc_type,
        "IOError",
    ) || str_eq(exc_type, "FileNotFoundError") || str_eq(exc_type, "PermissionError") || str_eq(
        exc_type,
        "ConnectionError",
    ) || str_eq(exc_type, "TimeoutError") || str_eq(exc_type, "NameError") || str_eq(
        exc_type,
        "UnboundLocalError",
    ) || str_eq(exc_type, "LookupError") || str_eq(exc_type, "ArithmeticError") || str_eq(
        exc_type,
        "ZeroDivisionError",
    ) || str_eq(exc_type, "OverflowError") || str_eq(exc_type, "FloatingPointError") || str_eq(
        exc_type,
        "SystemError",
    ) || str_eq(exc_type, "SystemExit") || str_eq(exc_type, "KeyboardInterrupt") || str_eq(
        exc_type,
        "MemoryError",
    ) || str_eq(exc_type, "RecursionError") || str_eq(exc_type, "NotImplementedError") || str_eq(
        exc_type,
        "SyntaxError",
    ) || str_eq(exc_type, "IndentationError") || str_eq(exc_type, "TabError") || str_eq(
        exc_type,
        "UnicodeError",
    ) || str_eq(exc_type, "UnicodeDecodeError") || str_eq(exc_type, "UnicodeEncodeError")
        || str_eq(exc_type, "UnicodeTranslateError") || str_eq(exc_type, "Warning") || str_eq(
        exc_type,
        "UserWarning",
    ) || str_eq(exc_type, "DeprecationWarning") || str_eq(exc_type, "PendingDeprecationWarning")
        || str_eq(exc_type, "RuntimeWarning") || str_eq(exc_type, "SyntaxWarning") || str_eq(
        exc_type,
        "ResourceWarning",
    ) || str_eq(exc_type, "FutureWarning") || str_eq(exc_type, "ImportWarning") || str_eq(
        exc_type,
        "BytesWarning",
    ) || str_eq(exc_type, "EncodingWarning")
}

/// The class a qualified function id names: its next-to-last dotted
/// segment, when that segment begins with an upper-case letter.
pub open spec fn spec_class_of_id(id: Seq<char>) -> Option<Seq<char>> {
    let parts = crate::strutil::spec_split(id, '.');
    if parts.len() >= 2 && parts[parts.len() - 2].len() > 0 && 'A' <= parts[parts.len() - 2][0]
        && parts[parts.len() - 2][0] <= 'Z' {
        Some(parts[parts.len() - 2])
    } else {
        None
    }
}

/// The class a qualified function id names, as `spec_class_of_id` says.
pub fn extract_class_from_function_id(function_id: &str) -> (r: Option<String>)
    ensures
        r.deep_view() == spec_class_of_id(function_id@),
{
    let parts = split_char(function_id, '.');
    if parts.len() >= 2 {
        let potential = &parts[parts.len() - 2];
        if !potential.as_str().is_empty() {
            let first = potential.as_str().get_char(0);
            if first >= 'A' && first <= 'Z' {
                return Some(potential.clone());
            }
        }
    }
    None
}

/// The last separator-delimited component of a path.
pub open spec fn spec_last_component(p: Seq<char>) -> Seq<char> {
    if exists|j: int| 0 <= j < p.len() && p[j] == '/' {
        let j = choose|j: int|
            0 <= j < p.len() && p[j] == '/' && forall|k: int| j < k < p.len() ==> p[k] != '/';
        p.skip(j + 1)
    } else {
        p
    }
}

/// The file stem: what stands before the last dot, unless that dot leads
/// the name.
pub open spec fn spec_stem(name: Seq<char>) -> Seq<char> {
    if exists|j: int| 0 <= j < name.len() && name[j] == '.' {
        let j = choose|j: int|
            0 <= j < name.len() && name[j] == '.' && forall|k: int|
                j < k < name.len() ==> name[k] != '.';
        if j > 0 {
            name.take(j)
        } else {
            name
        }
    } else {
        name
    }
}

/// The module name a single file suggests: its stem, or for a package
/// initializer the name of the directory it initialises.
pub open spec fn spec_module_from_path(p: Seq<char>) -> Option<Seq<char>> {
    let stem = spec_stem(spec_last_component(p));
    if stem == "__init__"@ {
        match spec_parent_path(p) {
            Some(parent) => Some(spec_last_component(parent)),
            None => None,
        }
    } else {
        Some(stem)
    }
}

/// The enclosing directory names collected walking up from `current`, for
/// as long as each directory is a package (holds an initializer in the
/// snapshot) or is the conventional source root, innermost first.
pub open spec fn spec_pkg_walk(fs: Map<Seq<char>, String>, current: Seq<char>) -> Seq<Seq<char>>
    decreases current.len(),
    via spec_pkg_walk_dec
{
    if current.len() == 0 {
        Seq::<Seq<char>>::empty()
    } else {
        let dir_name = spec_last_component(current);
        if !(spec_is_file(fs, spec_join_path(current, "__init__.py"@)) || dir_name == "src"@) {
            Seq::<Seq<char>>::empty()
        } else {
            seq![dir_name] + match spec_parent_path(current) {
                Some(p) => spec_pkg_walk(fs, p),
                None => Seq::<Seq<char>>::empty(),
            }
        }
    }
}

#[via_fn]
proof fn spec_pkg_walk_dec(fs: Map<Seq<char>, String>, current: Seq<char>) {
    lemma_parent_shorter(current);
}

/// The dotted module path of a file, read off the package structure: the
/// stem (dropped for an initializer), then each enclosing package or
/// source-root directory, outermost first.
pub open spec fn spec_full_module(fs: Map<Seq<char>, String>, path: Seq<char>) -> Seq<char> {
    let stem = spec_stem(spec_last_component(path));
    let head: Seq<Seq<char>> = if stem == "__init__"@ {
        Seq::<Seq<char>>::empty()
    } else {
        seq![stem]
    };
    let walked = match spec_parent_path(path) {
        Some(p) => spec_pkg_walk(fs, p),
        None => Seq::<Seq<char>>::empty(),
    };
    crate::strutil::spec_join((head + walked).reverse(), seq!['.'])
}

/// The last dotted segment of a qualified name.
pub open spec fn spec_base_name(id: Seq<char>) -> Seq<char> {
    crate::strutil::spec_split(id, '.').last()
}

/// Where a function id was located: the defining file, the short name
/// used for it, and the definition's line span.
pub struct LocatedRec {
    pub file: Seq<char>,
    pub name: Seq<char>,
    pub line_start: u32,
    pub line_end: u32,
}

/// Where resolution places a function id: the symbol index is consulted
/// first, under the name's last segment; the live resolver second.
pub open spec fn spec_locate(t: Traverser, id: Seq<char>) -> Option<LocatedRec> {
    match t.symbol_index {
        Some(idx) => if idx.symbols@.dom().contains(id) {
            Some(
                LocatedRec {
                    file: idx.symbols@[id].file_path@,
                    name: spec_base_name(id),
                    line_start: idx.symbols@[id].line_start,
                    line_end: idx.symbols@[id].line_end,
                },
            )
        } else {
            spec_locate_by_resolver(t, id)
        },
        None => spec_locate_by_resolver(t, id),
    }
}

pub open spec fn spec_locate_by_resolver(t: Traverser, id: Seq<char>) -> Option<LocatedRec> {
    match spec_resolve(t.resolver.files@, t.resolver.roots(), id) {
        Ok(r) => Some(
            LocatedRec { file: r.file, name: r.name, line_start: r.line_start, line_end: r.line_end },
        ),
        Err(_) => None,
    }
}

/// Looking a name up in the symbol index yields its file and start line.
pub open spec fn spec_idx_lookup(t: Traverser, name: Seq<char>) -> Option<(Seq<char>, u32)> {
    match t.symbol_index {
        Some(idx) => if idx.symbols@.dom().contains(name) {
            Some((idx.symbols@[name].file_path@, idx.symbols@[name].line_start))
        } else {
            None
        },
        None => None,
    }
}

/// Where a raised exception type is defined: built-ins are skipped, then
/// the bare name, the import-qualified name, and the name under the
/// current module are tried in the index, in that order.
pub open spec fn spec_exc_def(
    t: Traverser,
    imports: Map<Seq<char>, Seq<char>>,
    file: Seq<char>,
    exc: Seq<char>,
) -> Option<(Seq<char>, u32)> {
    if spec_is_builtin_exception(exc) {
        None
    } else {
        match spec_idx_lookup(t, exc) {
            Some(l) => Some(l),
            None => {
                let via_import: Option<(Seq<char>, u32)> = if imports.dom().contains(exc) {
                    spec_idx_lookup(t, imports[exc])
                } else {
                    None
                };
                match via_import {
                    Some(l) => Some(l),
                    None => match spec_module_from_path(file) {
                        Some(m) => spec_idx_lookup(t, m + seq!['.'] + exc),
                        None => None,
                    },
                }
            },
        }
    }
}

/// One raise site as the traversal records it, definition resolution
/// applied: the extracted fields, the possibly re-qualified type, and the
/// definition place when one was found.
pub struct RaiseOut {
    pub exception_type: Seq<char>,
    pub qualified_type: Seq<char>,
    pub file: Seq<char>,
    pub line: u32,
    pub col: Option<u32>,
    pub containing: Option<Seq<char>>,
    pub condition: Option<Seq<char>>,
    pub message: Option<Seq<char>>,
    pub definition: Option<(Seq<char>, u32)>,
}

pub open spec fn raise_out(r: RaiseStatement) -> RaiseOut {
    RaiseOut {
        exception_type: r.exception_type@,
        qualified_type: r.qualified_type@,
        file: r.raise_location.file@,
        line: r.raise_location.line,
        col: r.raise_location.column,
        containing: r.raise_location.containing_function.deep_view(),
        condition: r.condition.deep_view(),
        message: r.message.deep_view(),
        definition: match r.definition_location {
            Some(l) => Some((l.file@, l.line)),
            None => None,
        },
    }
}

pub open spec fn raise_outs(v: Seq<RaiseStatement>) -> Seq<RaiseOut> {
    v.map_values(|r: RaiseStatement| raise_out(r))
}

/// The definition-resolution step applied to one extracted raise: the
/// definition place is attached when found, and a type equal to its own
/// qualification is re-qualified through the imports.
pub open spec fn spec_refine_raise(
    t: Traverser,
    imports: Map<Seq<char>, Seq<char>>,
    file: Seq<char>,
    rr: crate::extract::RaiseRec,
) -> RaiseOut {
    let d = spec_exc_def(t, imports, file, rr.exception_type);
    RaiseOut {
        exception_type: rr.exception_type,
        qualified_type: match d {
            Some(_) => if rr.qualified_type == rr.exception_type && imports.dom().contains(
                rr.exception_type,
            ) {
                imports[rr.exception_type]
            } else {
                rr.qualified_type
            },
            None => rr.qualified_type,
        },
        file: rr.file,
        line: rr.line,
        col: rr.col,
        containing: None,
        condition: rr.condition,
        message: rr.message,
        definition: d,
    }
}

/// Everything one visited function contributes: where it was located, its
/// refined raise sites, its `None` sources, and its qualified calls.
pub struct VisitRec {
    pub located: LocatedRec,
    pub raises: Seq<RaiseOut>,
    pub nones: Seq<crate::extract::NoneRec>,
    pub calls: Seq<Seq<char>>,
}

/// What reading and harvesting one located function yields: nothing when
/// its file is absent from the snapshot or does not parse; otherwise the
/// extraction of its line range, the raises refined through the index, and
/// the calls qualified under the file's module, the id's class, and the
/// file's imports.
pub open spec fn spec_harvest(t: Traverser, loc: LocatedRec, id: Seq<char>) -> Option<VisitRec> {
    let fs = t.resolver.files@;
    if !spec_is_file(fs, loc.file) {
        None
    } else {
        match crate::syntree::parse_of(fs[loc.file]@) {
            None => None,
            Some(tree) => {
                let rng = Some((loc.line_start, loc.line_end));
                let imports = crate::extract::spec_imports(
                    tree,
                    Map::<Seq<char>, Seq<char>>::empty(),
                );
                Some(
                    VisitRec {
                        located: loc,
                        raises: crate::extract::spec_raises(tree, loc.file, rng, None).map_values(
                            |rr: crate::extract::RaiseRec| spec_refine_raise(t, imports, loc.file, rr),
                        ),
                        nones: crate::extract::spec_nones(tree, loc.file, rng, None),
                        calls: crate::extract::spec_calls(
                            tree,
                            rng,
                            Some(
                                crate::extract::CtxRec {
                                    module: spec_full_module(fs, loc.file),
                                    class: spec_class_of_id(id),
                                    imports,
                                },
                            ),
                            Seq::<Seq<char>>::empty(),
                        ),
                    },
                )
            },
        }
    }
}

/// What visiting one function id yields: its location found and its file
/// harvested, or nothing when either step fails.
pub open spec fn spec_visit(t: Traverser, id: Seq<char>) -> Option<VisitRec> {
    match spec_locate(t, id) {
        Some(loc) => spec_harvest(t, loc, id),
        None => None,
    }
}

/// One work item of the frontier: the function to visit, its discovery
/// depth, and the chain of calls that led to it.
struct QueueItem {
    function_id: String,
    depth: usize,
    call_chain: Vec<String>,
}

/// Where resolution placed a function.
struct ResolvedLocation {
    file_path: String,
    function_name: String,
    line_start: u32,
    line_end: u32,
}

impl ResolvedLocation {
    /// The located place as plain values.
    spec fn rec(self) -> LocatedRec {
        LocatedRec {
            file: self.file_path@,
            name: self.function_name@,
            line_start: self.line_start,
            line_end: self.line_end,
        }
    }
}

/// The traversal engine: a resolver over the source snapshot, an optional
/// symbol index consulted first, and the depth ceiling.
pub struct Traverser {
    pub resolver: PythonResolver,
    pub symbol_index: Option<SymbolIndex>,
    pub max_depth: usize,
}

impl Traverser {
    pub fn new(resolver: PythonResolver, max_depth: usize) -> (r: Result<Self, TraversalError>)
        ensures
            match r {
                Ok(t) => t.resolver == resolver && t.symbol_index is None && t.max_depth
                    == max_depth,
                Err(_) => false,
            },
    {
        Ok(Traverser { resolver, symbol_index: None, max_depth })
    }

    pub fn with_symbol_index(self, index: SymbolIndex) -> (r: Self)
        ensures
            r.symbol_index == Some(index),
            r.resolver == self.resolver,
            r.max_depth == self.max_depth,
    {
        Traverser { symbol_index: Some(index), ..self }
    }

    /// Locates one function id, as `spec_locate` says: the symbol index
    /// is the fast path, the live resolver the fallback.
    fn resolve_function(&self, function_id: &str) -> (r: Result<ResolvedLocation, TraversalError>)
        ensures
            match r {
                Ok(loc) => spec_locate(*self, function_id@) == Some(
                    LocatedRec {
                        file: loc.file_path@,
                        name: loc.function_name@,
                        line_start: loc.line_start,
                        line_end: loc.line_end,
                    },
                ),
                Err(_) => spec_locate(*self, function_id@) is None,
            },
    {
        if let Some(index) = &self.symbol_index {
            if let Some(loc) = index.get(function_id) {
                proof {
                    reveal_strlit(".");
                    crate::strutil::lemma_split_len(function_id@, '.');
                }
                let parts = split_char(function_id, '.');
                let short = parts[parts.len() - 1].clone();
                return Ok(
                    ResolvedLocation {
                        file_path: loc.file_path.clone(),
                        function_name: short,
                        line_start: loc.line_start,
                        line_end: loc.line_end,
                    },
                );
            }
        }
        match self.resolver.resolve(function_id) {
            Ok(resolved) => Ok(
                ResolvedLocation {
                    file_path: resolved.file_path,
                    function_name: resolved.function_name,
                    line_start: resolved.line_start,
                    line_end: resolved.line_end,
                },
            ),
            Err(e) => Err(TraversalError::ResolutionError(resolve_error_text(&e))),
        }
    }

    /// Looks an exception name up in the symbol index, as
    /// `spec_idx_lookup` says.
    fn lookup_in_index(&self, name: &str) -> (r: Option<CodeLocation>)
        ensures
            match r {
                Some(l) => spec_idx_lookup(*self, name@) == Some((l.file@, l.line)) && l.column
                    is None && l.containing_function is None,
                None => spec_idx_lookup(*self, name@) is None,
            },
    {
        if let Some(index) = &self.symbol_index {
            if let Some(loc) = index.get(name) {
                return Some(CodeLocation::new(loc.file_path.clone(), loc.line_start));
            }
        }
        None
    }

    /// Where a raised exception type is defined, as `spec_exc_def` says:
    /// built-ins are skipped, then the bare name, the import-qualified
    /// name, and the name under the current module are tried in order.
    fn resolve_exception_definition(
        &self,
        exc_type: &str,
        imports: &StrMap<String>,
        current_file: &str,
    ) -> (r: Option<CodeLocation>)
        ensures
            match r {
                Some(l) => spec_exc_def(
                    *self,
                    crate::extract::smap_deep(*imports),
                    current_file@,
                    exc_type@,
                ) == Some((l.file@, l.line)) && l.column is None && l.containing_function
                    is None,
                None => spec_exc_def(
                    *self,
                    crate::extract::smap_deep(*imports),
                    current_file@,
                    exc_type@,
                ) is None,
            },
    {
        if is_builtin_exception(exc_type) {
            return None;
        }
        if let Some(loc) = self.lookup_in_index(exc_type) {
            return Some(loc);
        }
        if let Some(qualified) = imports.get(exc_type) {
            if let Some(loc) = self.lookup_in_index(qualified.as_str()) {
                return Some(loc);
            }
        }
        if let Some(module) = module_from_path(current_file) {
            proof {
                reveal_strlit(".");
            }
            let mut qualified = module;
            qualified.append(".");
            qualified.append(exc_type);
            proof {
                assert(qualified@ =~= spec_module_from_path(current_file@)->Some_0 + seq!['.']
                    + exc_type@);
            }
            if let Some(loc) = self.lookup_in_index(qualified.as_str()) {
                return Some(loc);
            }
        }
        None
    }

    /// Reads one resolved function's file from the snapshot and harvests
    /// its raise sites, `None` sources and qualified calls, restricted to
    /// the definition's line range.
    fn analyze_single_function(
        &self,
        resolved: &ResolvedLocation,
        function_id: &str,
    ) -> (r: Result<SingleFunctionAnalysis, TraversalError>)
        ensures
            r is Ok <==> spec_harvest(*self, resolved.rec(), function_id@) is Some,
            match r {
                Ok(a) => {
                    let v = spec_harvest(*self, resolved.rec(), function_id@)->Some_0;
                    &&& raise_outs(a.raises@) == v.raises
                    &&& crate::extract::none_recs(a.none_sources@) == v.nones
                    &&& a.calls.deep_view() == v.calls
                    &&& forall|k: int|
                        0 <= k < a.raises@.len() ==> ((#[trigger] a.raises@[
                        k]).definition_location matches Some(l) ==> l.column is None
                            && l.containing_function is None)
                    &&& forall|k: int|
                        0 <= k < a.none_sources@.len() ==> #[trigger] crate::extract::fresh_none(
                            a.none_sources@[k],
                        )
                },
                Err(e) => {
                    &&& (e matches TraversalError::Io(p) ==> p@ == resolved.file_path@
                        && !spec_is_file(self.resolver.files@, resolved.file_path@))
                    &&& (e matches TraversalError::ParseError(p) ==> p@ == resolved.file_path@
                        && spec_is_file(self.resolver.files@, resolved.file_path@)
                        && crate::syntree::parse_of(
                        self.resolver.files@[resolved.file_path@]@,
                    ) is None)
                    &&& (e matches TraversalError::Io(_) || e
                        matches TraversalError::ParseError(_))
                },
            },
    {
        let content: String = match self.resolver.files.get(resolved.file_path.as_str()) {
            Some(c) => c.clone(),
            None => {
                return Err(TraversalError::Io(resolved.file_path.clone()));
            },
        };
        let tree = match parse_source(content.as_str()) {
            Some(t) => t,
            None => {
                return Err(TraversalError::ParseError(resolved.file_path.clone()));
            },
        };
        let ghost treev = tree;
        let ghost fs = self.resolver.files@;
        let ghost file = resolved.file_path@;
        let ghost rng: Option<(u32, u32)> = Some((resolved.line_start, resolved.line_end));
        let mut raises = extract::extract_raises_in_range(
            &tree,
            resolved.file_path.as_str(),
            resolved.line_start,
            resolved.line_end,
        );
        let ghost base0 = raises@;
        let imports = extract::extract_imports(&tree);
        let ghost importsd = crate::extract::smap_deep(imports);
        let n = raises.len();
        let mut i: usize = 0;
        while i < n
            invariant
                n == raises@.len(),
                n == base0.len(),
                i <= n,
                file == resolved.file_path@,
                crate::extract::smap_deep(imports) == importsd,
                forall|k: int| i <= k < n ==> raises@[k] == base0[k],
                forall|k: int| 0 <= k < n ==> #[trigger] crate::extract::fresh_raise(base0[k]),
                forall|k: int|
                    0 <= k < i ==> raise_out(#[trigger] raises@[k]) == spec_refine_raise(
                        *self,
                        importsd,
                        file,
                        crate::extract::raise_rec(base0[k]),
                    ),
                forall|k: int|
                    0 <= k < i ==> ((#[trigger] raises@[k]).definition_location matches Some(l)
                        ==> l.column is None && l.containing_function is None),
            decreases n - i,
        {
            let exc_type = raises[i].exception_type.clone();
            let ghost rr = crate::extract::raise_rec(base0[i as int]);
            let def = self.resolve_exception_definition(
                exc_type.as_str(),
                &imports,
                resolved.file_path.as_str(),
            );
            if let Some(def_location) = def {
                raises[i].definition_location = Some(def_location);
                if str_eq(raises[i].qualified_type.as_str(), exc_type.as_str()) {
                    if let Some(qualified) = imports.get(exc_type.as_str()) {
                        raises[i].qualified_type = qualified.clone();
                    }
                }
            }
            proof {
                assert(crate::extract::fresh_raise(base0[i as int]));
                assert(raise_out(raises@[i as int]) == spec_refine_raise(
                    *self,
                    importsd,
                    file,
                    rr,
                ));
            }
            i = i + 1;
        }
        let none_sources = extract::extract_none_sources_in_range(
            &tree,
            resolved.file_path.as_str(),
            resolved.line_start,
            resolved.line_end,
        );
        let call_context = CallContext {
            current_module: full_module_path(&self.resolver.files, resolved.file_path.as_str()),
            current_class: extract_class_from_function_id(function_id),
            imports,
        };
        proof {
            assert(crate::extract::ctx_rec(call_context) == (crate::extract::CtxRec {
                module: spec_full_module(fs, file),
                class: spec_class_of_id(function_id@),
                imports: importsd,
            }));
        }
        let calls = extract::extract_calls_in_range_with_context(
            &tree,
            resolved.line_start,
            resolved.line_end,
            &call_context,
        );
        proof {
            let v = spec_harvest(*self, resolved.rec(), function_id@)->Some_0;
            assert(raise_outs(raises@) =~= v.raises);
        }
        Ok(SingleFunctionAnalysis { raises, none_sources, calls })
    }

    /// Analyzes one root function: breadth-first over the call graph from
    /// it, visiting each distinct function id at most once, never beyond
    /// the depth ceiling. Traversal always yields an analysis: resolution
    /// failures drop single items, and an unresolved root keeps a
    /// placeholder location. With a ceiling of zero only the root itself
    /// is visited.
    pub fn analyze_function(&self, function_id: &str) -> (r: Result<
        FunctionAnalysis,
        TraversalError,
    >)
        ensures
            match r {
                Ok(a) => {
                    &&& a.function_id@ == function_id@
                    &&& 1 <= a.functions_traced
                    &&& a.call_depth <= self.max_depth
                    &&& (self.max_depth == 0 ==> a.functions_traced == 1 && a.call_depth == 0)
                    &&& forall|key: Seq<char>|
                        a.call_chains@.dom().contains(key) ==> (#[trigger] a.call_chains@[
                        key])@.len() >= 1 && a.call_chains@[key]@[0]@ == function_id@
                    &&& (spec_locate(*self, function_id@) is None ==> a.raises@.len() == 0
                        && a.none_sources@.len() == 0 && a.functions_traced == 1 && a.call_depth
                        == 0 && a.call_chains@ == Map::<Seq<char>, Vec<String>>::empty()
                        && a.location.file@ == "unknown"@ && a.location.line == 0
                        && a.location.column is None && a.location.containing_function is None
                        && a.signature@.len() == 0)
                    &&& (spec_locate(*self, function_id@) matches Some(loc) ==> a.location.file@
                        == loc.file && a.location.line == loc.line_start && a.location.column
                        is None && a.location.containing_function is None && a.signature@
                        == "def "@ + loc.name + "(...)"@)
                    &&& ((spec_locate(*self, function_id@) is Some && spec_visit(
                        *self,
                        function_id@,
                    ) is None) ==> a.raises@.len() == 0 && a.none_sources@.len() == 0
                        && a.functions_traced == 1 && a.call_depth == 0 && a.call_chains@
                        == Map::<Seq<char>, Vec<String>>::empty())
                    &&& (spec_visit(*self, function_id@) matches Some(v) ==> v.raises.len()
                        <= a.raises@.len() && raise_outs(a.raises@).take(v.raises.len() as int)
                        == v.raises && v.nones.len() <= a.none_sources@.len()
                        && crate::extract::none_recs(a.none_sources@).take(v.nones.len() as int)
                        == v.nones)
                    &&& (self.max_depth == 0 ==> (spec_visit(*self, function_id@)
                        matches Some(v) ==> raise_outs(a.raises@) == v.raises
                        && crate::extract::none_recs(a.none_sources@) == v.nones && forall|
                        key: Seq<char>,
                    |
                        a.call_chains@.dom().contains(key) ==> (#[trigger] a.call_chains@[
                        key]).deep_view() == seq![function_id@]))
                },
                Err(_) => false,
            },
    {
        let ghost rootloc = spec_locate(*self, function_id@);
        let ghost rootv = spec_visit(*self, function_id@);
        let mut visited: Vec<String> = Vec::new();
        let mut all_raises: Vec<RaiseStatement> = Vec::new();
        let mut all_none_sources: Vec<NoneSource> = Vec::new();
        let mut call_chains: StrMap<Vec<String>> = StrMap::new();
        let mut functions_traced: usize = 0;
        let mut max_call_depth: usize = 0;
        let mut root_location: Option<CodeLocation> = None;
        let mut root_signature = String::new();

        let mut root_chain: Vec<String> = Vec::new();
        root_chain.push(function_id.to_owned());
        let mut frontier: Vec<QueueItem> = Vec::new();
        frontier.push(
            QueueItem { function_id: function_id.to_owned(), depth: 0, call_chain: root_chain },
        );
        let mut depth: usize = 0;
        proof {
            assert(frontier@[0].call_chain.deep_view() =~= seq![function_id@]);
        }

        while depth <= self.max_depth && depth < usize::MAX && frontier.len() > 0
            invariant
                rootloc == spec_locate(*self, function_id@),
                rootv == spec_visit(*self, function_id@),
                depth <= self.max_depth + 1,
                forall|k: int| 0 <= k < frontier@.len() ==> (#[trigger] frontier@[k].depth) == depth,
                forall|k: int|
                    0 <= k < frontier@.len() ==> (#[trigger] frontier@[k]).call_chain@.len() >= 1
                        && frontier@[k].call_chain@[0]@ == function_id@,
                forall|key: Seq<char>|
                    call_chains@.dom().contains(key) ==> (#[trigger] call_chains@[key])@.len()
                        >= 1 && call_chains@[key]@[0]@ == function_id@,
                functions_traced == visited@.len(),
                depth == 0 ==> functions_traced == 0 && frontier@.len() == 1
                    && frontier@[0].function_id@ == function_id@
                    && frontier@[0].call_chain.deep_view() == seq![function_id@]
                    && all_raises@.len() == 0 && all_none_sources@.len() == 0 && call_chains@
                    == Map::<Seq<char>, Vec<String>>::empty() && root_location is None
                    && root_signature@.len() == 0,
                depth >= 1 ==> functions_traced >= 1,
                max_call_depth <= depth,
                max_call_depth <= self.max_depth,
                self.max_depth == 0 && depth >= 1 ==> functions_traced == 1 && max_call_depth
                    == 0,
                depth >= 1 && rootloc is None ==> root_location is None && root_signature@.len()
                    == 0 && all_raises@.len() == 0 && all_none_sources@.len() == 0
                    && call_chains@ == Map::<Seq<char>, Vec<String>>::empty() && frontier@.len()
                    == 0 && functions_traced == 1 && max_call_depth == 0,
                depth >= 1 ==> (rootloc matches Some(loc) ==> (root_location matches Some(l)
                    && l.file@ == loc.file && l.line == loc.line_start && l.column is None
                    && l.containing_function is None) && root_signature@ == "def "@ + loc.name
                    + "(...)"@),
                depth >= 1 && rootloc is Some && rootv is None ==> all_raises@.len() == 0
                    && all_none_sources@.len() == 0 && call_chains@ == Map::<
                    Seq<char>,
                    Vec<String>,
                >::empty() && frontier@.len() == 0 && functions_traced == 1 && max_call_depth
                    == 0,
                depth >= 1 ==> (rootv matches Some(v) ==> v.raises.len() <= all_raises@.len()
                    && raise_outs(all_raises@).take(v.raises.len() as int) == v.raises
                    && v.nones.len() <= all_none_sources@.len() && crate::extract::none_recs(
                    all_none_sources@,
                ).take(v.nones.len() as int) == v.nones),
                self.max_depth == 0 && depth >= 1 ==> (rootv matches Some(v) ==> raise_outs(
                    all_raises@,
                ) == v.raises && crate::extract::none_recs(all_none_sources@) == v.nones && (
                forall|key: Seq<char>|
                    call_chains@.dom().contains(key) ==> (#[trigger] call_chains@[
                    key]).deep_view() == seq![function_id@])),
            decreases self.max_depth + 1 - depth,
        {
            let mut next_frontier: Vec<QueueItem> = Vec::new();
            let level_size = frontier.len();
            let mut idx: usize = 0;
            let ghost traced0 = functions_traced;
            while idx < level_size
                invariant
                    rootloc == spec_locate(*self, function_id@),
                    rootv == spec_visit(*self, function_id@),
                    level_size == frontier@.len(),
                    idx <= level_size,
                    depth <= self.max_depth,
                    depth < usize::MAX,
                    forall|k: int| 0 <= k < frontier@.len() ==> (#[trigger] frontier@[k].depth)
                        == depth,
                    forall|k: int|
                        0 <= k < frontier@.len() ==> (#[trigger] frontier@[k]).call_chain@.len()
                            >= 1 && frontier@[k].call_chain@[0]@ == function_id@,
                    forall|k: int|
                        0 <= k < next_frontier@.len() ==> (#[trigger] next_frontier@[k].depth)
                            as int == depth + 1,
                    forall|k: int|
                        0 <= k < next_frontier@.len() ==> (#[trigger] next_frontier@[
                        k]).call_chain@.len() >= 1 && next_frontier@[k].call_chain@[0]@
                            == function_id@,
                    forall|key: Seq<char>|
                        call_chains@.dom().contains(key) ==> (#[trigger] call_chains@[
                        key])@.len() >= 1 && call_chains@[key]@[0]@ == function_id@,
                    functions_traced == visited@.len(),
                    traced0 <= functions_traced <= traced0 + idx,
                    depth == 0 ==> traced0 == 0 && level_size == 1
                        && frontier@[0].function_id@ == function_id@
                        && frontier@[0].call_chain.deep_view() == seq![function_id@],
                    depth == 0 && idx == 0 ==> all_raises@.len() == 0
                        && all_none_sources@.len() == 0 && call_chains@ == Map::<
                        Seq<char>,
                        Vec<String>,
                    >::empty() && root_location is None && root_signature@.len() == 0
                        && next_frontier@.len() == 0,
                    depth == 0 && idx >= 1 ==> functions_traced == 1,
                    depth == 0 && idx >= 1 && rootloc is None ==> root_location is None
                        && root_signature@.len() == 0 && all_raises@.len() == 0
                        && all_none_sources@.len() == 0 && call_chains@ == Map::<
                        Seq<char>,
                        Vec<String>,
                    >::empty() && next_frontier@.len() == 0,
                    depth == 0 && idx >= 1 ==> (rootloc matches Some(loc) ==> (root_location
                        matches Some(l) && l.file@ == loc.file && l.line == loc.line_start
                        && l.column is None && l.containing_function is None)
                        && root_signature@ == "def "@ + loc.name + "(...)"@),
                    depth == 0 && idx >= 1 && rootloc is Some && rootv is None ==> all_raises@.len()
                        == 0 && all_none_sources@.len() == 0 && call_chains@ == Map::<
                        Seq<char>,
                        Vec<String>,
                    >::empty() && next_frontier@.len() == 0,
                    depth == 0 && idx >= 1 ==> (rootv matches Some(v) ==> raise_outs(
                        all_raises@,
                    ) == v.raises && crate::extract::none_recs(all_none_sources@) == v.nones
                        && (forall|key: Seq<char>|
                        call_chains@.dom().contains(key) ==> (#[trigger] call_chains@[
                        key]).deep_view() == seq![function_id@])),
                    depth >= 1 && level_size > 0 ==> rootloc is Some && rootv is Some,
                    depth >= 1 ==> (rootloc matches Some(loc) ==> (root_location
                        matches Some(l) && l.file@ == loc.file && l.line == loc.line_start
                        && l.column is None && l.containing_function is None)
                        && root_signature@ == "def "@ + loc.name + "(...)"@),
                    depth >= 1 ==> (rootv matches Some(v) ==> v.raises.len()
                        <= all_raises@.len() && raise_outs(all_raises@).take(
                        v.raises.len() as int,
                    ) == v.raises && v.nones.len() <= all_none_sources@.len()
                        && crate::extract::none_recs(all_none_sources@).take(
                        v.nones.len() as int,
                    ) == v.nones),
                    depth >= 1 ==> functions_traced >= 1,
                    max_call_depth <= depth,
                    max_call_depth <= self.max_depth,
                decreases level_size - idx,
            {
                let item_id = frontier[idx].function_id.clone();
                let item_depth = frontier[idx].depth;
                proof {
                    assert(frontier@[idx as int].depth == depth);
                    assert(frontier@[idx as int].call_chain@.len() >= 1);
                }
                if vec_contains_str(&visited, item_id.as_str()) {
                    proof {
                        assert(visited@.len() > 0);
                    }
                    idx = idx + 1;
                    continue ;
                }
                visited.push(item_id.clone());
                functions_traced = visited.len();
                if item_depth > max_call_depth {
                    max_call_depth = item_depth;
                }
                let resolved = match self.resolve_function(item_id.as_str()) {
                    Ok(rv) => rv,
                    Err(_) => {
                        proof {
                            if depth == 0 {
                                assert(item_id@ == function_id@);
                                assert(rootloc is None);
                            }
                        }
                        idx = idx + 1;
                        continue ;
                    },
                };
                proof {
                    if depth == 0 {
                        assert(item_id@ == function_id@);
                        assert(rootloc == Some(resolved.rec()));
                    }
                }
                if item_depth == 0 {
                    root_location = Some(
                        CodeLocation::new(resolved.file_path.clone(), resolved.line_start),
                    );
                    proof {
                        reveal_strlit("def ");
                        reveal_strlit("(...)");
                    }
                    let mut sig = "def ".to_owned();
                    sig.append(resolved.function_name.as_str());
                    sig.append("(...)");
                    proof {
                        assert(sig@ =~= "def "@ + resolved.function_name@ + "(...)"@);
                    }
                    root_signature = sig;
                }
                let analysis = match self.analyze_single_function(&resolved, item_id.as_str()) {
                    Ok(a) => a,
                    Err(_) => {
                        proof {
                            if depth == 0 {
                                assert(rootv is None);
                            }
                        }
                        idx = idx + 1;
                        continue ;
                    },
                };
                proof {
                    if depth == 0 {
                        assert(rootv == spec_harvest(*self, resolved.rec(), function_id@));
                        assert(rootv is Some);
                    }
                }
                let ghost v0 = spec_harvest(*self, resolved.rec(), item_id@)->Some_0;
                let raises = analysis.raises;
                let rn = raises.len();
                let mut ri: usize = 0;
                let ghost before_r = all_raises@;
                let ghost chains0 = call_chains@;
                while ri < rn
                    invariant
                        rn == raises@.len(),
                        ri <= rn,
                        idx < frontier@.len(),
                        all_raises@ == before_r + raises@.take(ri as int),
                        forall|k: int|
                            0 <= k < frontier@.len() ==> (#[trigger] frontier@[
                            k]).call_chain@.len() >= 1 && frontier@[k].call_chain@[0]@
                                == function_id@,
                        forall|key: Seq<char>|
                            call_chains@.dom().contains(key) ==> (#[trigger] call_chains@[
                            key])@.len() >= 1 && call_chains@[key]@[0]@ == function_id@,
                        depth == 0 ==> frontier@[0].call_chain.deep_view() == seq![function_id@]
                            && idx == 0,
                        depth == 0 ==> (forall|key: Seq<char>|
                            call_chains@.dom().contains(key) ==> (#[trigger] call_chains@[
                            key]).deep_view() == seq![function_id@]),
                    decreases rn - ri,
                {
                    let chain_key = finding_key(
                        raises[ri].exception_type.as_str(),
                        raises[ri].raise_location.file.as_str(),
                        raises[ri].raise_location.line,
                    );
                    let chain_copy = clone_string_vec(&frontier[idx].call_chain);
                    proof {
                        assert(chain_copy@ == frontier@[idx as int].call_chain@);
                        if depth == 0 {
                            assert(chain_copy.deep_view() =~= seq![function_id@]);
                        }
                    }
                    call_chains.insert(chain_key, chain_copy);
                    all_raises.push(raises[ri].clone());
                    proof {
                        assert(all_raises@ =~= before_r + raises@.take(ri + 1));
                    }
                    ri = ri + 1;
                }
                proof {
                    assert(raises@.take(rn as int) =~= raises@);
                    assert(all_raises@ == before_r + raises@);
                }
                let none_sources = analysis.none_sources;
                let nn = none_sources.len();
                let mut ni: usize = 0;
                let ghost before_n = all_none_sources@;
                while ni < nn
                    invariant
                        nn == none_sources@.len(),
                        ni <= nn,
                        idx < frontier@.len(),
                        all_none_sources@ == before_n + none_sources@.take(ni as int),
                        forall|k: int|
                            0 <= k < frontier@.len() ==> (#[trigger] frontier@[
                            k]).call_chain@.len() >= 1 && frontier@[k].call_chain@[0]@
                                == function_id@,
                        forall|key: Seq<char>|
                            call_chains@.dom().contains(key) ==> (#[trigger] call_chains@[
                            key])@.len() >= 1 && call_chains@[key]@[0]@ == function_id@,
                        depth == 0 ==> frontier@[0].call_chain.deep_view() == seq![function_id@]
                            && idx == 0,
                        depth == 0 ==> (forall|key: Seq<char>|
                            call_chains@.dom().contains(key) ==> (#[trigger] call_chains@[
                            key]).deep_view() == seq![function_id@]),
                    decreases nn - ni,
                {
                    let chain_key = finding_key(
                        none_sources[ni].kind.as_str(),
                        none_sources[ni].location.file.as_str(),
                        none_sources[ni].location.line,
                    );
                    let chain_copy = clone_string_vec(&frontier[idx].call_chain);
                    proof {
                        assert(chain_copy@ == frontier@[idx as int].call_chain@);
                        if depth == 0 {
                            assert(chain_copy.deep_view() =~= seq![function_id@]);
                        }
                    }
                    call_chains.insert(chain_key, chain_copy);
                    all_none_sources.push(none_sources[ni].clone());
                    proof {
                        assert(all_none_sources@ =~= before_n + none_sources@.take(ni + 1));
                    }
                    ni = ni + 1;
                }
                proof {
                    assert(none_sources@.take(nn as int) =~= none_sources@);
                    assert(all_none_sources@ == before_n + none_sources@);
                    // The item's own harvest now stands as the newest block.
                    assert(raise_outs(all_raises@) =~= raise_outs(before_r) + raise_outs(
                        raises@,
                    ));
                    assert(crate::extract::none_recs(all_none_sources@) =~= crate::extract::none_recs(
                        before_n,
                    ) + crate::extract::none_recs(none_sources@));
                    if depth == 0 {
                        assert(before_r =~= Seq::<RaiseStatement>::empty());
                        assert(before_n =~= Seq::<NoneSource>::empty());
                        assert(raise_outs(all_raises@) =~= raise_outs(raises@));
                        assert(crate::extract::none_recs(all_none_sources@)
                            =~= crate::extract::none_recs(none_sources@));
                        assert(rootv matches Some(v) && raise_outs(all_raises@) == v.raises
                            && crate::extract::none_recs(all_none_sources@) == v.nones);
                    }
                    match rootv {
                        Some(v) => {
                            if depth >= 1 {
                                assert(raise_outs(all_raises@).take(v.raises.len() as int)
                                    =~= raise_outs(before_r).take(v.raises.len() as int));
                                assert(crate::extract::none_recs(all_none_sources@).take(
                                    v.nones.len() as int,
                                ) =~= crate::extract::none_recs(before_n).take(
                                    v.nones.len() as int,
                                ));
                            }
                        },
                        None => {},
                    }
                }
                let calls = analysis.calls;
                let cn = calls.len();
                let mut ci: usize = 0;
                while ci < cn
                    invariant
                        cn == calls@.len(),
                        ci <= cn,
                        idx < frontier@.len(),
                        depth < usize::MAX,
                        forall|k: int|
                            0 <= k < frontier@.len() ==> (#[trigger] frontier@[
                            k]).call_chain@.len() >= 1 && frontier@[k].call_chain@[0]@
                                == function_id@,
                        forall|k: int|
                            0 <= k < next_frontier@.len() ==> (#[trigger] next_frontier@[k].depth)
                                as int == depth + 1,
                        forall|k: int|
                            0 <= k < next_frontier@.len() ==> (#[trigger] next_frontier@[
                            k]).call_chain@.len() >= 1 && next_frontier@[k].call_chain@[0]@
                                == function_id@,
                    decreases cn - ci,
                {
                    if !vec_contains_str(&visited, calls[ci].as_str()) {
                        let mut new_chain = clone_string_vec(&frontier[idx].call_chain);
                        proof {
                            assert(new_chain@ == frontier@[idx as int].call_chain@);
                        }
                        new_chain.push(calls[ci].clone());
                        next_frontier.push(
                            QueueItem {
                                function_id: calls[ci].clone(),
                                depth: depth + 1,
                                call_chain: new_chain,
                            },
                        );
                    }
                    ci = ci + 1;
                }
                idx = idx + 1;
            }
            frontier = next_frontier;
            depth = depth + 1;
        }

        let location = match root_location {
            Some(loc) => loc,
            None => {
                proof {
                    reveal_strlit("unknown");
                }
                CodeLocation::new("unknown".to_owned(), 0)
            },
        };
        let mut result = FunctionAnalysis::new(function_id.to_owned(), root_signature, location);
        result.raises = all_raises;
        result.none_sources = all_none_sources;
        result.functions_traced = functions_traced;
        result.call_depth = max_call_depth;
        result.call_chains = call_chains;
        Ok(result)
    }
}

/// The aggregation key of one finding: its type or kind at its exact
/// file and line.
fn finding_key(tag: &str, file: &str, line: u32) -> (r: String)
    ensures
        r@ == tag@ + "@"@ + file@ + ":"@ + spec_dec(line as nat),
{
    proof {
        reveal_strlit("@");
        reveal_strlit(":");
    }
    let mut r = tag.to_owned();
    r.append("@");
    r.append(file);
    r.append(":");
    let line_str = u32_to_string(line);
    r.append(line_str.as_str());
    proof {
        assert(r@ =~= tag@ + "@"@ + file@ + ":"@ + spec_dec(line as nat));
    }
    r
}

/// The words of a resolution failure, for wrapping it in a traversal
/// failure.
fn resolve_error_text(e: &ResolveError) -> String {
    match e {
        ResolveError::ModuleNotFound(s) => s.clone(),
        ResolveError::FunctionNotFound(a, _) => a.clone(),
        ResolveError::InvalidQualifiedName(s) => s.clone(),
        ResolveError::Io(s) => s.clone(),
        ResolveError::ParserError(s) => s.clone(),
    }
}

/// The last separator-delimited component, as `spec_last_component` says.
fn last_component_of(p: &str) -> (r: String)
    ensures
        r@ == spec_last_component(p@),
{
    match last_index_of(p, '/') {
        Some(j) => {
            proof {
                let cj = choose|cj: int|
                    0 <= cj < p@.len() && p@[cj] == '/' && forall|k: int|
                        cj < k < p@.len() ==> p@[k] != '/';
                if cj < j {
                    assert(p@[j as int] == '/');
                } else if cj > j {
                    assert(p@[cj] == '/');
                }
                assert(cj == j);
            }
            let pl = p.unicode_len();
            let tail = p.substring_char(j + 1, pl);
            proof {
                assert(tail@ =~= p@.skip(j + 1));
            }
            tail.to_owned()
        },
        None => p.to_owned(),
    }
}

/// The file stem, as `spec_stem` says.
fn stem_of(name: &str) -> (r: String)
    ensures
        r@ == spec_stem(name@),
{
    match last_index_of(name, '.') {
        Some(j) => {
            proof {
                let cj = choose|cj: int|
                    0 <= cj < name@.len() && name@[cj] == '.' && forall|k: int|
                        cj < k < name@.len() ==> name@[k] != '.';
                if cj < j {
                    assert(name@[j as int] == '.');
                } else if cj > j {
                    assert(name@[cj] == '.');
                }
                assert(cj == j);
            }
            if j > 0 {
                let head = name.substring_char(0, j);
                proof {
                    assert(head@ =~= name@.take(j as int));
                }
                head.to_owned()
            } else {
                name.to_owned()
            }
        },
        None => name.to_owned(),
    }
}

/// The module name a single file suggests, as `spec_module_from_path`
/// says.
fn module_from_path(path: &str) -> (r: Option<String>)
    ensures
        r.deep_view() == spec_module_from_path(path@),
{
    proof {
        reveal_strlit("__init__");
    }
    let name = last_component_of(path);
    let stem = stem_of(name.as_str());
    if str_eq(stem.as_str(), "__init__") {
        match crate::resolver::parent_path(path) {
            Some(parent) => Some(last_component_of(parent.as_str())),
            None => None,
        }
    } else {
        Some(stem)
    }
}

/// The dotted module path of a file, as `spec_full_module` says.
fn full_module_path(files: &StrMap<String>, path: &str) -> (r: String)
    ensures
        r@ == spec_full_module(files@, path@),
{
    proof {
        reveal_strlit("__init__");
        reveal_strlit("src");
        reveal_strlit(".");
        assert("."@ =~= seq!['.']);
    }
    let ghost head: Seq<Seq<char>> = if spec_stem(spec_last_component(path@)) == "__init__"@ {
        Seq::<Seq<char>>::empty()
    } else {
        seq![spec_stem(spec_last_component(path@))]
    };
    let mut components: Vec<String> = Vec::new();
    let name = last_component_of(path);
    let stem = stem_of(name.as_str());
    if !str_eq(stem.as_str(), "__init__") {
        components.push(stem);
    }
    proof {
        assert(components.deep_view() =~= head);
    }
    let mut current: String = match crate::resolver::parent_path(path) {
        Some(p) => p,
        None => String::new(),
    };
    let ghost walked: Seq<Seq<char>> = match spec_parent_path(path@) {
        Some(p) => spec_pkg_walk(files@, p),
        None => Seq::<Seq<char>>::empty(),
    };
    proof {
        if spec_parent_path(path@) is None {
            assert(spec_pkg_walk(files@, current@) =~= Seq::<Seq<char>>::empty());
        }
        assert(walked == spec_pkg_walk(files@, current@));
    }
    loop
        invariant_except_break
            components.deep_view() + spec_pkg_walk(files@, current@) == head + walked,
        ensures
            components.deep_view() == head + walked,
        decreases current@.len() + 1,
    {
        proof {
            reveal_strlit("src");
        }
        if current.as_str().is_empty() {
            proof {
                assert(spec_pkg_walk(files@, current@) =~= Seq::<Seq<char>>::empty());
                assert(components.deep_view() =~= head + walked);
            }
            break ;
        }
        let init = crate::resolver::join_path(current.as_str(), "__init__.py");
        proof {
            reveal_strlit("__init__.py");
        }
        let dir_name = last_component_of(current.as_str());
        let is_package = files.contains_key(init.as_str());
        let is_src = str_eq(dir_name.as_str(), "src");
        if !(is_package || is_src) {
            proof {
                assert(spec_pkg_walk(files@, current@) =~= Seq::<Seq<char>>::empty());
                assert(components.deep_view() =~= head + walked);
            }
            break ;
        }
        let ghost before = components.deep_view();
        components.push(dir_name);
        proof {
            assert(components.deep_view() =~= before.push(spec_last_component(current@)));
        }
        match crate::resolver::parent_path(current.as_str()) {
            Some(p) => {
                proof {
                    lemma_parent_shorter(current@);
                    assert(spec_pkg_walk(files@, current@) =~= seq![
                        spec_last_component(current@),
                    ] + spec_pkg_walk(files@, p@));
                    assert(components.deep_view() + spec_pkg_walk(files@, p@) =~= before
                        + spec_pkg_walk(files@, current@));
                }
                current = p;
            },
            None => {
                proof {
                    assert(spec_pkg_walk(files@, current@) =~= seq![
                        spec_last_component(current@),
                    ]);
                    assert(components.deep_view() =~= before + spec_pkg_walk(files@, current@));
                    assert(components.deep_view() =~= head + walked);
                }
                break ;
            },
        }
    }
    let flipped = reversed_strings(&components);
    proof {
        assert(flipped.deep_view() =~= (head + walked).reverse());
    }
    join_str(&flipped, ".")
}

/// A copy of a string list in the opposite order.
fn reversed_strings(v: &Vec<String>) -> (r: Vec<String>)
    ensures
        r.deep_view() == v.deep_view().reverse(),
{
    let n = v.len();
    let mut r: Vec<String> = Vec::new();
    let mut i: usize = 0;
    while i < n
        invariant
            n == v@.len(),
            i <= n,
            r@.len() == i,
            forall|k: int| 0 <= k < i ==> r@[k]@ == v@[n - 1 - k]@,
        decreases n - i,
    {
        r.push(v[n - 1 - i].clone());
        i = i + 1;
    }
    proof {
        assert(r.deep_view() =~= v.deep_view().reverse());
    }
    r
}

} // verus!
