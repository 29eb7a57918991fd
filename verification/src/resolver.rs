//! The module and name resolver: given a dotted qualified name and search
//! roots, locates the defining file and definition span, following package
//! initializers, re-export indirection and relative imports. The resolver
//! works over a snapshot of the source files under the roots, handed to it
//! as a map from path to content.

use vstd::prelude::*;
use vstd::string::StrSliceExecFns;
use vstd::string::StringExecFns;
use crate::strmap::StrMap;
use crate::strutil::{
    count_leading, last_index_of, replace_char, spec_join, spec_leading, spec_replace_char,
    spec_split, split_char, str_eq, join_str, tail_from,
};
use crate::syntree::{
    SynNode, parse_of, parse_source, spec_child_by_field, spec_line_of_row,
};
use crate::types::ResolvedFunction;

verus! {

/// Why a name could not be resolved.
#[derive(Debug)]
pub enum ResolveError {
    ModuleNotFound(String),
    FunctionNotFound(String, String),
    InvalidQualifiedName(String),
    Io(String),
    ParserError(String),
}

/// The facts of a resolution result, as plain mathematical values.
pub struct ResolvedRec {
    pub file: Seq<char>,
    pub name: Seq<char>,
    pub line_start: u32,
    pub line_end: u32,
    pub is_method: bool,
    pub parent_class: Option<Seq<char>>,
}

pub open spec fn resolved_rec(r: ResolvedFunction) -> ResolvedRec {
    ResolvedRec {
        file: r.file_path@,
        name: r.function_name@,
        line_start: r.line_start,
        line_end: r.line_end,
        is_method: r.is_method,
        parent_class: r.parent_class.deep_view(),
    }
}

/// The facts of a resolution failure, as plain mathematical values.
pub enum ResolveErrRec {
    ModuleNotFound(Seq<char>),
    FunctionNotFound(Seq<char>, Seq<char>),
    InvalidQualifiedName(Seq<char>),
    Io(Seq<char>),
    ParserError(Seq<char>),
}

pub open spec fn resolve_err_rec(e: ResolveError) -> ResolveErrRec {
    match e {
        ResolveError::ModuleNotFound(s) => ResolveErrRec::ModuleNotFound(s@),
        ResolveError::FunctionNotFound(a, b) => ResolveErrRec::FunctionNotFound(a@, b@),
        ResolveError::InvalidQualifiedName(s) => ResolveErrRec::InvalidQualifiedName(s@),
        ResolveError::Io(s) => ResolveErrRec::Io(s@),
        ResolveError::ParserError(s) => ResolveErrRec::ParserError(s@),
    }
}

/// One import binding read from a package initializer: the locally bound
/// name, the module text it came from, and the original name where the
/// binding is an alias.
pub struct ImportInfo {
    pub name: String,
    pub source_module: String,
    pub original_name: Option<String>,
}

/// The facts of one import binding, as plain mathematical values.
pub struct ImportRec {
    pub name: Seq<char>,
    pub source_module: Seq<char>,
    pub original_name: Option<Seq<char>>,
}

pub open spec fn import_rec(i: ImportInfo) -> ImportRec {
    ImportRec {
        name: i.name@,
        source_module: i.source_module@,
        original_name: i.original_name.deep_view(),
    }
}

pub open spec fn import_recs(v: Seq<ImportInfo>) -> Seq<ImportRec> {
    v.map_values(|i: ImportInfo| import_rec(i))
}

/// Whether the snapshot holds a file at this exact path.
pub open spec fn spec_is_file(fs: Map<Seq<char>, String>, p: Seq<char>) -> bool {
    fs.dom().contains(p)
}

/// Whether some file lies strictly under this path, which is what makes
/// the path a directory in the snapshot.
pub open spec fn spec_is_dir(fs: Map<Seq<char>, String>, p: Seq<char>) -> bool {
    exists|k: Seq<char>|
        fs.dom().contains(k) && k.len() > p.len() + 1 && k.take(p.len() as int + 1) == p
            + seq!['/']
}

/// A path under a base: the two joined with a separator, except that an
/// empty side stands for the other alone.
pub open spec fn spec_join_path(base: Seq<char>, rel: Seq<char>) -> Seq<char> {
    if rel.len() == 0 {
        base
    } else if base.len() == 0 {
        rel
    } else if base.last() == '/' {
        base + rel
    } else {
        base + seq!['/'] + rel
    }
}

/// The directory a path lies in: what stands before its last separator;
/// a bare name lies in the empty directory, and the root and the empty
/// path have none.
pub open spec fn spec_parent_path(p: Seq<char>) -> Option<Seq<char>> {
    if p.len() == 0 || p == seq!['/'] {
        None
    } else if exists|j: int| 0 <= j < p.len() && p[j] == '/' {
        let j = choose|j: int|
            0 <= j < p.len() && p[j] == '/' && forall|k: int| j < k < p.len() ==> p[k] != '/';
        if j == 0 {
            Some(seq!['/'])
        } else {
            Some(p.take(j))
        }
    } else {
        Some(Seq::<char>::empty())
    }
}

/// The location record for a definition found at `node`.
pub open spec fn spec_resolved_of(
    node: SynNode,
    file: Seq<char>,
    name: Seq<char>,
    is_method: bool,
    parent: Option<Seq<char>>,
) -> ResolvedRec {
    ResolvedRec {
        file,
        name,
        line_start: spec_line_of_row(node.row),
        line_end: if spec_line_of_row(node.end_row) < spec_line_of_row(node.row) {
            spec_line_of_row(node.row)
        } else {
            spec_line_of_row(node.end_row)
        },
        is_method,
        parent_class: parent,
    }
}

/// The function node that a top-level child stands for: the child itself,
/// or what a decorated definition wraps.
pub open spec fn spec_unwrap_def(child: SynNode) -> Option<SynNode> {
    if child.kind@ == "function_definition"@ {
        Some(child)
    } else if child.kind@ == "decorated_definition"@ {
        spec_child_by_field(child.children@, "definition"@)
    } else {
        None
    }
}

/// The class node that a top-level child stands for.
pub open spec fn spec_unwrap_class(child: SynNode) -> Option<SynNode> {
    if child.kind@ == "class_definition"@ {
        Some(child)
    } else if child.kind@ == "decorated_definition"@ {
        match spec_child_by_field(child.children@, "definition"@) {
            Some(d) => if d.kind@ == "class_definition"@ {
                Some(d)
            } else {
                None
            },
            None => None,
        }
    } else {
        None
    }
}

/// The first top-level function definition named `name`, from child `i`
/// on.
pub open spec fn spec_find_top_level(
    s: Seq<SynNode>,
    i: int,
    file: Seq<char>,
    name: Seq<char>,
) -> Option<ResolvedRec>
    decreases s.len() - i,
{
    if i < 0 || i >= s.len() {
        None
    } else {
        let hit = match spec_unwrap_def(s[i]) {
            Some(f) => if f.kind@ == "function_definition"@ {
                match spec_child_by_field(f.children@, "name"@) {
                    Some(nm) => if nm.text@ == name {
                        Some(spec_resolved_of(f, file, name, false, None))
                    } else {
                        None
                    },
                    None => None,
                }
            } else {
                None
            },
            None => None,
        };
        match hit {
            Some(r) => Some(r),
            None => spec_find_top_level(s, i + 1, file, name),
        }
    }
}

/// The first top-level class definition named `name`, from child `i` on.
pub open spec fn spec_find_class_def(
    s: Seq<SynNode>,
    i: int,
    file: Seq<char>,
    name: Seq<char>,
) -> Option<ResolvedRec>
    decreases s.len() - i,
{
    if i < 0 || i >= s.len() {
        None
    } else {
        let hit = match spec_unwrap_class(s[i]) {
            Some(c) => match spec_child_by_field(c.children@, "name"@) {
                Some(nm) => if nm.text@ == name {
                    Some(spec_resolved_of(c, file, name, false, None))
                } else {
                    None
                },
                None => None,
            },
            None => None,
        };
        match hit {
            Some(r) => Some(r),
            None => spec_find_class_def(s, i + 1, file, name),
        }
    }
}

/// The first method named `method` in a class body, from child `j` on.
pub open spec fn spec_find_method_in_body(
    body: Seq<SynNode>,
    j: int,
    file: Seq<char>,
    class_name: Seq<char>,
    method: Seq<char>,
) -> Option<ResolvedRec>
    decreases body.len() - j,
{
    if j < 0 || j >= body.len() {
        None
    } else {
        let hit = match spec_unwrap_def(body[j]) {
            Some(f) => if f.kind@ == "function_definition"@ {
                match spec_child_by_field(f.children@, "name"@) {
                    Some(nm) => if nm.text@ == method {
                        Some(
                            spec_resolved_of(
                                f,
                                file,
                                class_name + seq!['.'] + method,
                                true,
                                Some(class_name),
                            ),
                        )
                    } else {
                        None
                    },
                    None => None,
                }
            } else {
                None
            },
            None => None,
        };
        match hit {
            Some(r) => Some(r),
            None => spec_find_method_in_body(body, j + 1, file, class_name, method),
        }
    }
}

/// The first method `class_name.method` among the top-level classes, from
/// child `i` on; a class of the right name without the method does not
/// stop the search.
pub open spec fn spec_find_method_in_class(
    s: Seq<SynNode>,
    i: int,
    file: Seq<char>,
    class_name: Seq<char>,
    method: Seq<char>,
) -> Option<ResolvedRec>
    decreases s.len() - i,
{
    if i < 0 || i >= s.len() {
        None
    } else {
        let hit = match spec_unwrap_class(s[i]) {
            Some(c) => match spec_child_by_field(c.children@, "name"@) {
                Some(nm) => if nm.text@ == class_name {
                    match spec_child_by_field(c.children@, "body"@) {
                        Some(b) => spec_find_method_in_body(
                            b.children@,
                            0,
                            file,
                            class_name,
                            method,
                        ),
                        None => None,
                    }
                } else {
                    None
                },
                None => None,
            },
            None => None,
        };
        match hit {
            Some(r) => Some(r),
            None => spec_find_method_in_class(s, i + 1, file, class_name, method),
        }
    }
}

/// Builds the resolution record for a definition node.
fn make_resolved(
    node: &SynNode,
    file: &str,
    name: String,
    is_method: bool,
    parent: Option<String>,
) -> (r: ResolvedFunction)
    ensures
        resolved_rec(r) == spec_resolved_of(*node, file@, name@, is_method, parent.deep_view()),
{
    let line_start = node.line();
    let raw_end: u32 = if node.end_row == u32::MAX {
        u32::MAX
    } else {
        node.end_row + 1
    };
    let line_end: u32 = if raw_end < line_start {
        line_start
    } else {
        raw_end
    };
    ResolvedFunction {
        file_path: file.to_owned(),
        function_name: name,
        line_start,
        line_end,
        is_method,
        parent_class: parent,
    }
}

/// The function node a top-level child stands for, unwrapping decoration.
fn unwrap_def<'a>(child: &'a SynNode) -> (r: Option<&'a SynNode>)
    ensures
        match r {
            Some(f) => spec_unwrap_def(*child) == Some(*f),
            None => spec_unwrap_def(*child) is None,
        },
{
    if child.is_kind("function_definition") {
        Some(child)
    } else if child.is_kind("decorated_definition") {
        child.child_by_field("definition")
    } else {
        None
    }
}

/// The class node a top-level child stands for, unwrapping decoration.
fn unwrap_class<'a>(child: &'a SynNode) -> (r: Option<&'a SynNode>)
    ensures
        match r {
            Some(c) => spec_unwrap_class(*child) == Some(*c),
            None => spec_unwrap_class(*child) is None,
        },
{
    if child.is_kind("class_definition") {
        Some(child)
    } else if child.is_kind("decorated_definition") {
        match child.child_by_field("definition") {
            Some(d) => if d.is_kind("class_definition") {
                Some(d)
            } else {
                None
            },
            None => None,
        }
    } else {
        None
    }
}

fn find_top_level(children: &Vec<SynNode>, i: usize, file: &str, name: &str) -> (r: Option<
    ResolvedFunction,
>)
    ensures
        match r {
            Some(f) => spec_find_top_level(children@, i as int, file@, name@) == Some(
                resolved_rec(f),
            ),
            None => spec_find_top_level(children@, i as int, file@, name@) is None,
        },
    decreases children@.len() - i,
{
    if i >= children.len() {
        return None;
    }
    let child = &children[i];
    if let Some(f) = unwrap_def(child) {
        if f.is_kind("function_definition") {
            if let Some(nm) = f.child_by_field("name") {
                if str_eq(nm.text.as_str(), name) {
                    return Some(make_resolved(f, file, name.to_owned(), false, None));
                }
            }
        }
    }
    find_top_level(children, i + 1, file, name)
}

fn find_class_definition(children: &Vec<SynNode>, i: usize, file: &str, name: &str) -> (r: Option<
    ResolvedFunction,
>)
    ensures
        match r {
            Some(f) => spec_find_class_def(children@, i as int, file@, name@) == Some(
                resolved_rec(f),
            ),
            None => spec_find_class_def(children@, i as int, file@, name@) is None,
        },
    decreases children@.len() - i,
{
    if i >= children.len() {
        return None;
    }
    let child = &children[i];
    if let Some(c) = unwrap_class(child) {
        if let Some(nm) = c.child_by_field("name") {
            if str_eq(nm.text.as_str(), name) {
                return Some(make_resolved(c, file, name.to_owned(), false, None));
            }
        }
    }
    find_class_definition(children, i + 1, file, name)
}

fn find_method_in_body(
    body: &Vec<SynNode>,
    j: usize,
    file: &str,
    class_name: &str,
    method: &str,
) -> (r: Option<ResolvedFunction>)
    ensures
        match r {
            Some(f) => spec_find_method_in_body(body@, j as int, file@, class_name@, method@)
                == Some(resolved_rec(f)),
            None => spec_find_method_in_body(body@, j as int, file@, class_name@, method@)
                is None,
        },
    decreases body@.len() - j,
{
    if j >= body.len() {
        return None;
    }
    let member = &body[j];
    if let Some(f) = unwrap_def(member) {
        if f.is_kind("function_definition") {
            if let Some(nm) = f.child_by_field("name") {
                if str_eq(nm.text.as_str(), method) {
                    proof {
                        reveal_strlit(".");
                        assert("."@ =~= seq!['.']);
                    }
                    let mut qualified = class_name.to_owned();
                    qualified.append(".");
                    qualified.append(method);
                    proof {
                        assert(qualified@ =~= class_name@ + seq!['.'] + method@);
                    }
                    return Some(
                        make_resolved(f, file, qualified, true, Some(class_name.to_owned())),
                    );
                }
            }
        }
    }
    find_method_in_body(body, j + 1, file, class_name, method)
}

fn find_method_in_class(
    children: &Vec<SynNode>,
    i: usize,
    file: &str,
    class_name: &str,
    method: &str,
) -> (r: Option<ResolvedFunction>)
    ensures
        match r {
            Some(f) => spec_find_method_in_class(
                children@,
                i as int,
                file@,
                class_name@,
                method@,
            ) == Some(resolved_rec(f)),
            None => spec_find_method_in_class(children@, i as int, file@, class_name@, method@)
                is None,
        },
    decreases children@.len() - i,
{
    if i >= children.len() {
        return None;
    }
    let child = &children[i];
    if let Some(c) = unwrap_class(child) {
        if let Some(nm) = c.child_by_field("name") {
            if str_eq(nm.text.as_str(), class_name) {
                if let Some(b) = c.child_by_field("body") {
                    if let Some(found) = find_method_in_body(&b.children, 0, file, class_name, method) {
                        return Some(found);
                    }
                }
            }
        }
    }
    find_method_in_class(children, i + 1, file, class_name, method)
}

/// What searching one parsed file for a name yields: a method lookup when
/// the name has the form `Class.method`, else a top-level function, else a
/// class; a file that does not parse is a reported failure.
pub open spec fn spec_find_function_in_file(
    fs: Map<Seq<char>, String>,
    file_path: Seq<char>,
    name: Seq<char>,
) -> Result<Option<ResolvedRec>, ResolveErrRec> {
    match parse_of(fs[file_path]@) {
        None => Err(ResolveErrRec::ParserError("Failed to parse "@ + file_path)),
        Some(tree) => {
            let parts = spec_split(name, '.');
            if parts.len() >= 2 {
                Ok(spec_find_method_in_class(tree.children@, 0, file_path, parts[0], parts[1]))
            } else {
                match spec_find_top_level(tree.children@, 0, file_path, name) {
                    Some(r) => Ok(Some(r)),
                    None => Ok(spec_find_class_def(tree.children@, 0, file_path, name)),
                }
            }
        },
    }
}

/// The dots that an import prefix construct renders, one per dot child.
pub open spec fn spec_prefix_dots(s: Seq<SynNode>, k: int, acc: Seq<char>) -> Seq<char>
    decreases s.len() - k,
{
    if k < 0 || k >= s.len() {
        acc
    } else if s[k].kind@ == "."@ {
        spec_prefix_dots(s, k + 1, acc.push('.'))
    } else {
        spec_prefix_dots(s, k + 1, acc)
    }
}

/// Folds a relative-import construct inside an import-from statement: the
/// prefix collects the dots, and a dotted name becomes the module text.
pub open spec fn spec_rel_parts(
    s: Seq<SynNode>,
    k: int,
    prefix: Seq<char>,
    module: Seq<char>,
) -> (Seq<char>, Seq<char>)
    decreases s.len() - k,
{
    if k < 0 || k >= s.len() {
        (prefix, module)
    } else {
        let c = s[k];
        let next: (Seq<char>, Seq<char>) = if c.kind@ == "import_prefix"@ {
            (spec_prefix_dots(c.children@, 0, prefix), module)
        } else if c.kind@ == "dotted_name"@ {
            (prefix, c.text@)
        } else {
            (prefix, module)
        };
        spec_rel_parts(s, k + 1, next.0, next.1)
    }
}

/// Folds one import-from statement's children into the bindings it adds,
/// walking the module part, then each name after the `import` keyword.
pub open spec fn spec_from_stmt(
    s: Seq<SynNode>,
    j: int,
    module: Seq<char>,
    prefix: Seq<char>,
    in_names: bool,
    acc: Seq<ImportRec>,
) -> Seq<ImportRec>
    decreases s.len() - j,
{
    if j < 0 || j >= s.len() {
        acc
    } else {
        let c = s[j];
        if c.kind@ == "relative_import"@ {
            let pm = spec_rel_parts(c.children@, 0, prefix, module);
            spec_from_stmt(s, j + 1, pm.1, pm.0, in_names, acc)
        } else if c.kind@ == "dotted_name"@ {
            if !in_names {
                if module.len() == 0 {
                    spec_from_stmt(s, j + 1, c.text@, prefix, in_names, acc)
                } else {
                    spec_from_stmt(s, j + 1, module, prefix, in_names, acc)
                }
            } else {
                let rec = ImportRec {
                    name: c.text@,
                    source_module: prefix + module,
                    original_name: None,
                };
                spec_from_stmt(s, j + 1, module, prefix, in_names, acc.push(rec))
            }
        } else if c.kind@ == "aliased_import"@ {
            let orig = match spec_child_by_field(c.children@, "name"@) {
                Some(n) => Some(n.text@),
                None => None,
            };
            let alias = match spec_child_by_field(c.children@, "alias"@) {
                Some(a) => Some(a.text@),
                None => None,
            };
            let local = match alias {
                Some(a) => Some(a),
                None => orig,
            };
            match local {
                Some(nm) => {
                    let rec = ImportRec {
                        name: nm,
                        source_module: prefix + module,
                        original_name: orig,
                    };
                    spec_from_stmt(s, j + 1, module, prefix, in_names, acc.push(rec))
                },
                None => spec_from_stmt(s, j + 1, module, prefix, in_names, acc),
            }
        } else if c.kind@ == "import"@ {
            spec_from_stmt(s, j + 1, module, prefix, true, acc)
        } else {
            spec_from_stmt(s, j + 1, module, prefix, in_names, acc)
        }
    }
}

/// The import bindings of a file's top-level import-from statements, in
/// source order.
pub open spec fn spec_init_imports(s: Seq<SynNode>, i: int, acc: Seq<ImportRec>) -> Seq<ImportRec>
    decreases s.len() - i,
{
    if i < 0 || i >= s.len() {
        acc
    } else if s[i].kind@ == "import_from_statement"@ {
        spec_init_imports(
            s,
            i + 1,
            spec_from_stmt(s[i].children@, 0, Seq::empty(), Seq::empty(), false, acc),
        )
    } else {
        spec_init_imports(s, i + 1, acc)
    }
}

fn prefix_dots(children: &Vec<SynNode>, k: usize, acc: String) -> (r: String)
    ensures
        r@ == spec_prefix_dots(children@, k as int, acc@),
    decreases children@.len() - k,
{
    proof {
        reveal_strlit(".");
        assert("."@ =~= seq!['.']);
    }
    if k >= children.len() {
        return acc;
    }
    if children[k].is_kind(".") {
        let ghost av = acc@;
        let mut acc2 = acc;
        acc2.append(".");
        proof {
            assert(acc2@ =~= av.push('.'));
        }
        prefix_dots(children, k + 1, acc2)
    } else {
        prefix_dots(children, k + 1, acc)
    }
}

fn rel_parts(children: &Vec<SynNode>, k: usize, prefix: String, module: String) -> (r: (
    String,
    String,
))
    ensures
        (r.0@, r.1@) == spec_rel_parts(children@, k as int, prefix@, module@),
    decreases children@.len() - k,
{
    if k >= children.len() {
        return (prefix, module);
    }
    let c = &children[k];
    if c.is_kind("import_prefix") {
        let p2 = prefix_dots(&c.children, 0, prefix);
        rel_parts(children, k + 1, p2, module)
    } else if c.is_kind("dotted_name") {
        rel_parts(children, k + 1, prefix, c.text.clone())
    } else {
        rel_parts(children, k + 1, prefix, module)
    }
}

fn from_stmt(
    children: &Vec<SynNode>,
    j: usize,
    module: String,
    prefix: String,
    in_names: bool,
    acc: Vec<ImportInfo>,
) -> (r: Vec<ImportInfo>)
    ensures
        import_recs(r@) == spec_from_stmt(
            children@,
            j as int,
            module@,
            prefix@,
            in_names,
            import_recs(acc@),
        ),
    decreases children@.len() - j,
{
    if j >= children.len() {
        return acc;
    }
    let c = &children[j];
    if c.is_kind("relative_import") {
        let pm = rel_parts(&c.children, 0, prefix, module);
        from_stmt(children, j + 1, pm.1, pm.0, in_names, acc)
    } else if c.is_kind("dotted_name") {
        if !in_names {
            if module.as_str().is_empty() {
                from_stmt(children, j + 1, c.text.clone(), prefix, in_names, acc)
            } else {
                from_stmt(children, j + 1, module, prefix, in_names, acc)
            }
        } else {
            let mut source = prefix.clone();
            source.append(module.as_str());
            let rec = ImportInfo {
                name: c.text.clone(),
                source_module: source,
                original_name: None,
            };
            let ghost accv = import_recs(acc@);
            let ghost rv = import_rec(rec);
            let mut acc2 = acc;
            acc2.push(rec);
            proof {
                assert(import_recs(acc2@) =~= accv.push(rv));
            }
            from_stmt(children, j + 1, module, prefix, in_names, acc2)
        }
    } else if c.is_kind("aliased_import") {
        let orig: Option<String> = match c.child_by_field("name") {
            Some(n) => Some(n.text.clone()),
            None => None,
        };
        let alias: Option<String> = match c.child_by_field("alias") {
            Some(a) => Some(a.text.clone()),
            None => None,
        };
        let local: Option<String> = match alias {
            Some(a) => Some(a),
            None => match &orig {
                Some(o) => Some(o.clone()),
                None => None,
            },
        };
        match local {
            Some(nm) => {
                let mut source = prefix.clone();
                source.append(module.as_str());
                let rec = ImportInfo { name: nm, source_module: source, original_name: orig };
                let ghost accv = import_recs(acc@);
                let ghost rv = import_rec(rec);
                let mut acc2 = acc;
                acc2.push(rec);
                proof {
                    assert(import_recs(acc2@) =~= accv.push(rv));
                }
                from_stmt(children, j + 1, module, prefix, in_names, acc2)
            },
            None => from_stmt(children, j + 1, module, prefix, in_names, acc),
        }
    } else if c.is_kind("import") {
        from_stmt(children, j + 1, module, prefix, true, acc)
    } else {
        from_stmt(children, j + 1, module, prefix, in_names, acc)
    }
}

fn init_imports(children: &Vec<SynNode>, i: usize, acc: Vec<ImportInfo>) -> (r: Vec<ImportInfo>)
    ensures
        import_recs(r@) == spec_init_imports(children@, i as int, import_recs(acc@)),
    decreases children@.len() - i,
{
    if i >= children.len() {
        return acc;
    }
    if children[i].is_kind("import_from_statement") {
        let acc2 = from_stmt(&children[i].children, 0, String::new(), String::new(), false, acc);
        init_imports(children, i + 1, acc2)
    } else {
        init_imports(children, i + 1, acc)
    }
}

/// Joins a relative path onto a base.
pub(crate) fn join_path(base: &str, rel: &str) -> (r: String)
    ensures
        r@ == spec_join_path(base@, rel@),
{
    proof {
        reveal_strlit("/");
        assert("/"@ =~= seq!['/']);
    }
    if rel.is_empty() {
        base.to_owned()
    } else if base.is_empty() {
        rel.to_owned()
    } else {
        let bl = base.unicode_len();
        if base.get_char(bl - 1) == '/' {
            let mut r = base.to_owned();
            r.append(rel);
            proof {
                assert(r@ =~= base@ + rel@);
            }
            r
        } else {
            let mut r = base.to_owned();
            r.append("/");
            r.append(rel);
            proof {
                assert(r@ =~= base@ + seq!['/'] + rel@);
            }
            r
        }
    }
}

/// The directory a path lies in, as `spec_parent_path` says.
pub(crate) fn parent_path(p: &str) -> (r: Option<String>)
    ensures
        r.deep_view() == spec_parent_path(p@),
{
    proof {
        reveal_strlit("/");
        assert("/"@ =~= seq!['/']);
    }
    let n = p.unicode_len();
    if n == 0 {
        return None;
    }
    if n == 1 && p.get_char(0) == '/' {
        proof {
            assert(p@ =~= seq!['/']);
        }
        return None;
    }
    proof {
        assert(p@ != seq!['/']);
    }
    match last_index_of(p, '/') {
        Some(j) => {
            proof {
                let cj = choose|cj: int|
                    0 <= cj < p@.len() && p@[cj] == '/' && forall|k: int|
                        cj < k < p@.len() ==> p@[k] != '/';
                if cj < j {
                    assert(p@[j as int] == '/');
                } else if cj > j {
                    assert(p@[cj] == '/');
                }
                assert(cj == j);
            }
            if j == 0 {
                Some("/".to_owned())
            } else {
                let head = p.substring_char(0, j);
                proof {
                    assert(head@ =~= p@.take(j as int));
                }
                Some(head.to_owned())
            }
        },
        None => Some(String::new()),
    }
}

/// The result of hopping up `k` directories from a base.
pub open spec fn spec_hop_up(base: Seq<char>, k: nat) -> Option<Seq<char>>
    decreases k,
{
    if k == 0 {
        Some(base)
    } else {
        match spec_parent_path(base) {
            Some(p) => spec_hop_up(p, (k - 1) as nat),
            None => None,
        }
    }
}

fn hop_up(base: String, k: usize) -> (r: Option<String>)
    ensures
        r.deep_view() == spec_hop_up(base@, k as nat),
    decreases k,
{
    if k == 0 {
        Some(base)
    } else {
        match parent_path(base.as_str()) {
            Some(p) => hop_up(p, k - 1),
            None => None,
        }
    }
}

/// Where a relative import in `from_file` leads: dots hop up from the
/// file's directory, and the remaining dotted name becomes a module file,
/// or a package directory's initializer.
pub open spec fn spec_resolve_relative_import(
    fs: Map<Seq<char>, String>,
    from_file: Seq<char>,
    module: Seq<char>,
) -> Option<Seq<char>> {
    match spec_parent_path(from_file) {
        None => None,
        Some(parent) => {
            let dots = spec_leading(module, '.');
            let rest = module.skip(dots as int);
            let hops: nat = if dots >= 1 {
                (dots - 1) as nat
            } else {
                0
            };
            match spec_hop_up(parent, hops) {
                None => None,
                Some(base) => if rest.len() == 0 {
                    Some(spec_join_path(base, "__init__.py"@))
                } else {
                    let subpath = spec_replace_char(rest, '.', '/');
                    let fpath = spec_join_path(base, subpath + ".py"@);
                    if spec_is_file(fs, fpath) {
                        Some(fpath)
                    } else {
                        let dpath = spec_join_path(base, subpath);
                        if spec_is_dir(fs, dpath) && spec_is_file(
                            fs,
                            spec_join_path(dpath, "__init__.py"@),
                        ) {
                            Some(spec_join_path(dpath, "__init__.py"@))
                        } else {
                            None
                        }
                    }
                },
            }
        },
    }
}

/// Whether the snapshot holds a file at this path.
fn fs_is_file(files: &StrMap<String>, p: &str) -> (r: bool)
    ensures
        r == spec_is_file(files@, p@),
{
    files.contains_key(p)
}

/// Whether some file of the snapshot lies under this path.
fn fs_is_dir(files: &StrMap<String>, p: &str) -> (r: bool)
    ensures
        r == spec_is_dir(files@, p@),
{
    proof {
        reveal_strlit("/");
        assert("/"@ =~= seq!['/']);
    }
    let mut prefix = p.to_owned();
    prefix.append("/");
    proof {
        assert(prefix@ =~= p@ + seq!['/']);
    }
    files.has_key_with_prefix(prefix.as_str())
}

fn resolve_relative_import(files: &StrMap<String>, from_file: &str, module: &str) -> (r: Option<
    String,
>)
    ensures
        r.deep_view() == spec_resolve_relative_import(files@, from_file@, module@),
{
    proof {
        reveal_strlit("__init__.py");
        reveal_strlit("/");
        assert("/"@ =~= seq!['/']);
    }
    let parent = match parent_path(from_file) {
        Some(p) => p,
        None => {
            return None;
        },
    };
    let dots = count_leading(module, '.');
    let ml = module.unicode_len();
    let rest = module.substring_char(dots, ml);
    proof {
        assert(rest@ =~= module@.skip(dots as int));
    }
    let hops: usize = if dots >= 1 {
        dots - 1
    } else {
        0
    };
    let base = match hop_up(parent, hops) {
        Some(b) => b,
        None => {
            return None;
        },
    };
    if rest.is_empty() {
        Some(join_path(base.as_str(), "__init__.py"))
    } else {
        let subpath = replace_char(rest, '.', "/");
        let mut with_ext = subpath.clone();
        with_ext.append(".py");
        proof {
            assert(with_ext@ =~= subpath@ + ".py"@);
        }
        let fpath = join_path(base.as_str(), with_ext.as_str());
        if fs_is_file(files, fpath.as_str()) {
            Some(fpath)
        } else {
            let dpath = join_path(base.as_str(), subpath.as_str());
            if fs_is_dir(files, dpath.as_str()) {
                let init = join_path(dpath.as_str(), "__init__.py");
                if fs_is_file(files, init.as_str()) {
                    Some(init)
                } else {
                    None
                }
            } else {
                None
            }
        }
    }
}

/// The view of a search result, for stating contracts once.
pub open spec fn find_result_rec(r: Result<Option<ResolvedFunction>, ResolveError>) -> Result<
    Option<ResolvedRec>,
    ResolveErrRec,
> {
    match r {
        Ok(Some(f)) => Ok(Some(resolved_rec(f))),
        Ok(None) => Ok(None),
        Err(e) => Err(resolve_err_rec(e)),
    }
}

/// Searches one file of the snapshot for a definition of `name`.
fn find_function_in_file(files: &StrMap<String>, file_path: &str, name: &str) -> (r: Result<
    Option<ResolvedFunction>,
    ResolveError,
>)
    requires
        spec_is_file(files@, file_path@),
    ensures
        find_result_rec(r) == spec_find_function_in_file(files@, file_path@, name@),
{
    let content: &String = match files.get(file_path) {
        Some(c) => c,
        None => {
            return vstd::pervasive::unreached();
        },
    };
    let tree = match parse_source(content.as_str()) {
        Some(t) => t,
        None => {
            let mut msg = "Failed to parse ".to_owned();
            msg.append(file_path);
            proof {
                assert(msg@ =~= "Failed to parse "@ + file_path@);
            }
            return Err(ResolveError::ParserError(msg));
        },
    };
    proof {
        reveal_strlit(".");
    }
    let parts = split_char(name, '.');
    proof {
        crate::strutil::lemma_split_len(name@, '.');
    }
    if parts.len() >= 2 {
        match find_method_in_class(
            &tree.children,
            0,
            file_path,
            parts[0].as_str(),
            parts[1].as_str(),
        ) {
            Some(f) => Ok(Some(f)),
            None => Ok(None),
        }
    } else {
        match find_top_level(&tree.children, 0, file_path, name) {
            Some(f) => Ok(Some(f)),
            None => match find_class_definition(&tree.children, 0, file_path, name) {
                Some(f) => Ok(Some(f)),
                None => Ok(None),
            },
        }
    }
}

/// Scans an initializer's import bindings for one that re-exports `name`,
/// and follows it to the definition, keeping the requested name.
pub open spec fn spec_reexport_scan(
    fs: Map<Seq<char>, String>,
    init_path: Seq<char>,
    name: Seq<char>,
    imports: Seq<ImportRec>,
    i: int,
) -> Result<Option<ResolvedRec>, ResolveErrRec>
    decreases imports.len() - i,
{
    if i < 0 || i >= imports.len() {
        Ok(None)
    } else {
        let imp = imports[i];
        if imp.name == name || imp.original_name == Some(name) {
            let target = match imp.original_name {
                Some(o) => o,
                None => imp.name,
            };
            match spec_resolve_relative_import(fs, init_path, imp.source_module) {
                Some(path) => if spec_is_file(fs, path) {
                    match spec_find_function_in_file(fs, path, target) {
                        Err(e) => Err(e),
                        Ok(Some(r)) => Ok(Some(ResolvedRec { name, ..r })),
                        Ok(None) => spec_reexport_scan(fs, init_path, name, imports, i + 1),
                    }
                } else {
                    spec_reexport_scan(fs, init_path, name, imports, i + 1)
                },
                None => spec_reexport_scan(fs, init_path, name, imports, i + 1),
            }
        } else {
            spec_reexport_scan(fs, init_path, name, imports, i + 1)
        }
    }
}

/// What looking for a re-export of `name` in an initializer yields: the
/// definition behind the first matching import binding, nothing when the
/// initializer is missing, and a reported failure when it does not parse.
pub open spec fn spec_find_in_init_reexport(
    fs: Map<Seq<char>, String>,
    init_path: Seq<char>,
    name: Seq<char>,
) -> Result<Option<ResolvedRec>, ResolveErrRec> {
    if !spec_is_file(fs, init_path) {
        Ok(None)
    } else {
        match parse_of(fs[init_path]@) {
            None => Err(ResolveErrRec::ParserError("Failed to parse "@ + init_path)),
            Some(tree) => spec_reexport_scan(
                fs,
                init_path,
                name,
                spec_init_imports(tree.children@, 0, Seq::empty()),
                0,
            ),
        }
    }
}

fn reexport_scan(
    files: &StrMap<String>,
    init_path: &str,
    name: &str,
    imports: &Vec<ImportInfo>,
    i: usize,
) -> (r: Result<Option<ResolvedFunction>, ResolveError>)
    ensures
        find_result_rec(r) == spec_reexport_scan(
            files@,
            init_path@,
            name@,
            import_recs(imports@),
            i as int,
        ),
    decreases imports@.len() - i,
{
    if i >= imports.len() {
        return Ok(None);
    }
    let imp = &imports[i];
    let matches_name = str_eq(imp.name.as_str(), name) || match &imp.original_name {
        Some(o) => str_eq(o.as_str(), name),
        None => false,
    };
    if matches_name {
        let target: String = match &imp.original_name {
            Some(o) => o.clone(),
            None => imp.name.clone(),
        };
        match resolve_relative_import(files, init_path, imp.source_module.as_str()) {
            Some(path) => {
                if fs_is_file(files, path.as_str()) {
                    match find_function_in_file(files, path.as_str(), target.as_str()) {
                        Err(e) => Err(e),
                        Ok(Some(f)) => Ok(
                            Some(ResolvedFunction { function_name: name.to_owned(), ..f }),
                        ),
                        Ok(None) => reexport_scan(files, init_path, name, imports, i + 1),
                    }
                } else {
                    reexport_scan(files, init_path, name, imports, i + 1)
                }
            },
            None => reexport_scan(files, init_path, name, imports, i + 1),
        }
    } else {
        reexport_scan(files, init_path, name, imports, i + 1)
    }
}

fn find_in_init_reexport(files: &StrMap<String>, init_path: &str, name: &str) -> (r: Result<
    Option<ResolvedFunction>,
    ResolveError,
>)
    ensures
        find_result_rec(r) == spec_find_in_init_reexport(files@, init_path@, name@),
{
    let content: &String = match files.get(init_path) {
        Some(c) => c,
        None => {
            return Ok(None);
        },
    };
    let tree = match parse_source(content.as_str()) {
        Some(t) => t,
        None => {
            let mut msg = "Failed to parse ".to_owned();
            msg.append(init_path);
            proof {
                assert(msg@ =~= "Failed to parse "@ + init_path@);
            }
            return Err(ResolveError::ParserError(msg));
        },
    };
    let empty_imports: Vec<ImportInfo> = Vec::new();
    proof {
        assert(import_recs(empty_imports@) =~= Seq::<ImportRec>::empty());
    }
    let imports = init_imports(&tree.children, 0, empty_imports);
    reexport_scan(files, init_path, name, &imports, 0)
}

/// Whether one search root resolves the candidate module segments: a
/// package directory with an initializer, a same-named module file, or a
/// module file inside the parent package.
pub open spec fn spec_root_match(
    fs: Map<Seq<char>, String>,
    base: Seq<char>,
    parts: Seq<Seq<char>>,
) -> Option<Seq<char>> {
    let subpath = spec_join(parts, seq!['/']);
    let dir_path = spec_join_path(base, subpath);
    if spec_is_dir(fs, dir_path) && spec_is_file(fs, spec_join_path(dir_path, "__init__.py"@)) {
        Some(dir_path)
    } else {
        let file_path = spec_join_path(base, subpath + ".py"@);
        if spec_is_file(fs, file_path) {
            Some(file_path)
        } else if parts.len() > 1 {
            let parent_path = spec_join_path(base, spec_join(parts.drop_last(), seq!['/']));
            let fip = spec_join_path(parent_path, parts.last() + ".py"@);
            if spec_is_dir(fs, parent_path) && spec_is_file(fs, fip) {
                Some(fip)
            } else {
                None
            }
        } else {
            None
        }
    }
}

/// The first search root, from position `i` on, that resolves the module
/// segments; roots are tried in order.
pub open spec fn spec_resolve_module_path(
    fs: Map<Seq<char>, String>,
    roots: Seq<Seq<char>>,
    parts: Seq<Seq<char>>,
    i: int,
) -> Option<Seq<char>>
    decreases roots.len() - i,
{
    if i < 0 || i >= roots.len() {
        None
    } else {
        match spec_root_match(fs, roots[i], parts) {
            Some(p) => Some(p),
            None => spec_resolve_module_path(fs, roots, parts, i + 1),
        }
    }
}

fn root_match(files: &StrMap<String>, base: &str, parts: &Vec<String>) -> (r: Option<String>)
    ensures
        r.deep_view() == spec_root_match(files@, base@, parts.deep_view()),
{
    proof {
        reveal_strlit("/");
        reveal_strlit(".py");
        reveal_strlit("__init__.py");
        assert("/"@ =~= seq!['/']);
    }
    let subpath = join_str(parts, "/");
    let dir_path = join_path(base, subpath.as_str());
    if fs_is_dir(files, dir_path.as_str()) {
        let init = join_path(dir_path.as_str(), "__init__.py");
        if fs_is_file(files, init.as_str()) {
            return Some(dir_path);
        }
    }
    let mut with_ext = subpath.clone();
    with_ext.append(".py");
    proof {
        assert(with_ext@ =~= subpath@ + ".py"@);
    }
    let file_path = join_path(base, with_ext.as_str());
    if fs_is_file(files, file_path.as_str()) {
        return Some(file_path);
    }
    if parts.len() > 1 {
        let mut front = crate::types::clone_string_vec(parts);
        let last = front.pop().unwrap();
        proof {
            assert(front.deep_view() =~= parts.deep_view().drop_last());
        }
        let parent_sub = join_str(&front, "/");
        let parent_path = join_path(base, parent_sub.as_str());
        let mut last_ext = last.clone();
        last_ext.append(".py");
        proof {
            assert(last_ext@ =~= parts.deep_view().last() + ".py"@);
        }
        let fip = join_path(parent_path.as_str(), last_ext.as_str());
        if fs_is_dir(files, parent_path.as_str()) && fs_is_file(files, fip.as_str()) {
            return Some(fip);
        }
    }
    None
}

fn resolve_module_path(
    files: &StrMap<String>,
    roots: &Vec<String>,
    parts: &Vec<String>,
    i: usize,
) -> (r: Option<String>)
    ensures
        r.deep_view() == spec_resolve_module_path(
            files@,
            roots.deep_view(),
            parts.deep_view(),
            i as int,
        ),
    decreases roots@.len() - i,
{
    if i >= roots.len() {
        return None;
    }
    match root_match(files, roots[i].as_str(), parts) {
        Some(p) => Some(p),
        None => resolve_module_path(files, roots, parts, i + 1),
    }
}

/// The view of a resolution outcome, for stating contracts once.
pub open spec fn resolve_result_rec(r: Result<ResolvedFunction, ResolveError>) -> Result<
    ResolvedRec,
    ResolveErrRec,
> {
    match r {
        Ok(f) => Ok(resolved_rec(f)),
        Err(e) => Err(resolve_err_rec(e)),
    }
}

/// One candidate split of the qualified name, tried at length `i`: the
/// first `i` segments as the module, the rest as the name inside it.
pub open spec fn spec_resolve_try(
    fs: Map<Seq<char>, String>,
    roots: Seq<Seq<char>>,
    name: Seq<char>,
    parts: Seq<Seq<char>>,
    i: int,
) -> Result<ResolvedRec, ResolveErrRec>
    decreases i,
{
    if i < 1 {
        spec_resolve_final(fs, roots, name, parts)
    } else {
        match spec_resolve_module_path(fs, roots, parts.take(i), 0) {
            Some(module_loc) => {
                let remaining = parts.skip(i);
                let function_name = if remaining.len() == 0 {
                    parts.last()
                } else {
                    spec_join(remaining, seq!['.'])
                };
                let step1: Result<Option<ResolvedRec>, ResolveErrRec> = if remaining.len()
                    == 0 {
                    spec_find_in_init_reexport(fs, module_loc, parts.last())
                } else {
                    Ok(None)
                };
                match step1 {
                    Err(e) => Err(e),
                    Ok(Some(r)) => Ok(r),
                    Ok(None) => {
                        let step2: Result<Option<ResolvedRec>, ResolveErrRec> = if spec_is_file(
                            fs,
                            module_loc,
                        ) {
                            spec_find_function_in_file(fs, module_loc, function_name)
                        } else {
                            Ok(None)
                        };
                        match step2 {
                            Err(e) => Err(e),
                            Ok(Some(r)) => Ok(r),
                            Ok(None) => {
                                let init_path = if spec_is_dir(fs, module_loc) {
                                    spec_join_path(module_loc, "__init__.py"@)
                                } else {
                                    module_loc
                                };
                                let step3: Result<Option<ResolvedRec>, ResolveErrRec> =
                                    if spec_is_file(fs, init_path) {
                                    spec_find_in_init_reexport(fs, init_path, function_name)
                                } else {
                                    Ok(None)
                                };
                                match step3 {
                                    Err(e) => Err(e),
                                    Ok(Some(r)) => Ok(r),
                                    Ok(None) => spec_resolve_try(fs, roots, name, parts, i - 1),
                                }
                            },
                        }
                    },
                }
            },
            None => spec_resolve_try(fs, roots, name, parts, i - 1),
        }
    }
}

/// The last attempt: all segments but the last as the module, the last as
/// the name, also trying re-export indirection.
pub open spec fn spec_resolve_final(
    fs: Map<Seq<char>, String>,
    roots: Seq<Seq<char>>,
    name: Seq<char>,
    parts: Seq<Seq<char>>,
) -> Result<ResolvedRec, ResolveErrRec> {
    let not_found = ResolveErrRec::FunctionNotFound(name, "all search paths"@);
    match spec_resolve_module_path(fs, roots, parts.drop_last(), 0) {
        Some(mp) => {
            let file_path = if spec_is_dir(fs, mp) {
                spec_join_path(mp, "__init__.py"@)
            } else {
                mp
            };
            if spec_is_file(fs, file_path) {
                match spec_find_function_in_file(fs, file_path, parts.last()) {
                    Err(e) => Err(e),
                    Ok(Some(r)) => Ok(r),
                    Ok(None) => match spec_find_in_init_reexport(fs, file_path, parts.last()) {
                        Err(e) => Err(e),
                        Ok(Some(r)) => Ok(r),
                        Ok(None) => Err(not_found),
                    },
                }
            } else {
                Err(not_found)
            }
        },
        None => Err(not_found),
    }
}

/// What resolving a dotted name against the snapshot yields: candidate
/// module lengths from longest to shortest, then the final fallback; an
/// empty name is rejected outright.
pub open spec fn spec_resolve(
    fs: Map<Seq<char>, String>,
    roots: Seq<Seq<char>>,
    name: Seq<char>,
) -> Result<ResolvedRec, ResolveErrRec> {
    if name.len() == 0 {
        Err(ResolveErrRec::InvalidQualifiedName("Empty qualified name"@))
    } else {
        let parts = spec_split(name, '.');
        spec_resolve_try(fs, roots, name, parts, parts.len() as int)
    }
}

fn resolve_final(
    files: &StrMap<String>,
    roots: &Vec<String>,
    name: &str,
    parts: &Vec<String>,
) -> (r: Result<ResolvedFunction, ResolveError>)
    requires
        parts.deep_view().len() >= 1,
    ensures
        resolve_result_rec(r) == spec_resolve_final(
            files@,
            roots.deep_view(),
            name@,
            parts.deep_view(),
        ),
{
    proof {
        reveal_strlit("__init__.py");
    }
    let mut front = crate::types::clone_string_vec(parts);
    let last = front.pop().unwrap();
    proof {
        assert(front.deep_view() =~= parts.deep_view().drop_last());
        assert(last@ == parts.deep_view().last());
    }
    match resolve_module_path(files, roots, &front, 0) {
        Some(mp) => {
            let file_path: String = if fs_is_dir(files, mp.as_str()) {
                join_path(mp.as_str(), "__init__.py")
            } else {
                mp
            };
            if fs_is_file(files, file_path.as_str()) {
                match find_function_in_file(files, file_path.as_str(), last.as_str()) {
                    Err(e) => Err(e),
                    Ok(Some(f)) => Ok(f),
                    Ok(None) => match find_in_init_reexport(
                        files,
                        file_path.as_str(),
                        last.as_str(),
                    ) {
                        Err(e) => Err(e),
                        Ok(Some(f)) => Ok(f),
                        Ok(None) => Err(
                            ResolveError::FunctionNotFound(
                                name.to_owned(),
                                "all search paths".to_owned(),
                            ),
                        ),
                    },
                }
            } else {
                Err(
                    ResolveError::FunctionNotFound(
                        name.to_owned(),
                        "all search paths".to_owned(),
                    ),
                )
            }
        },
        None => Err(
            ResolveError::FunctionNotFound(name.to_owned(), "all search paths".to_owned()),
        ),
    }
}

fn resolve_try(
    files: &StrMap<String>,
    roots: &Vec<String>,
    name: &str,
    parts: &Vec<String>,
    i: usize,
) -> (r: Result<ResolvedFunction, ResolveError>)
    requires
        parts.deep_view().len() >= 1,
        i <= parts.deep_view().len(),
    ensures
        resolve_result_rec(r) == spec_resolve_try(
            files@,
            roots.deep_view(),
            name@,
            parts.deep_view(),
            i as int,
        ),
    decreases i,
{
    proof {
        reveal_strlit(".");
        reveal_strlit("__init__.py");
        assert("."@ =~= seq!['.']);
    }
    if i < 1 {
        return resolve_final(files, roots, name, parts);
    }
    let candidate = crate::strutil::head_vec(parts, i);
    match resolve_module_path(files, roots, &candidate, 0) {
        Some(module_loc) => {
            let remaining = tail_from(parts, i);
            let last = &parts[parts.len() - 1];
            proof {
                assert(last@ == parts.deep_view().last());
            }
            let function_name: String = if remaining.is_empty() {
                last.clone()
            } else {
                join_str(&remaining, ".")
            };
            if remaining.is_empty() {
                match find_in_init_reexport(files, module_loc.as_str(), last.as_str()) {
                    Err(e) => {
                        return Err(e);
                    },
                    Ok(Some(f)) => {
                        return Ok(f);
                    },
                    Ok(None) => {},
                }
            }
            if fs_is_file(files, module_loc.as_str()) {
                match find_function_in_file(
                    files,
                    module_loc.as_str(),
                    function_name.as_str(),
                ) {
                    Err(e) => {
                        return Err(e);
                    },
                    Ok(Some(f)) => {
                        return Ok(f);
                    },
                    Ok(None) => {},
                }
            }
            let init_path: String = if fs_is_dir(files, module_loc.as_str()) {
                join_path(module_loc.as_str(), "__init__.py")
            } else {
                module_loc
            };
            if fs_is_file(files, init_path.as_str()) {
                match find_in_init_reexport(files, init_path.as_str(), function_name.as_str()) {
                    Err(e) => {
                        return Err(e);
                    },
                    Ok(Some(f)) => {
                        return Ok(f);
                    },
                    Ok(None) => {},
                }
            }
            resolve_try(files, roots, name, parts, i - 1)
        },
        None => resolve_try(files, roots, name, parts, i - 1),
    }
}

/// The resolver: explicit source roots searched before secondary library
/// roots, over a snapshot of the files under them.
pub struct PythonResolver {
    pub python_path: Vec<String>,
    pub site_packages: Vec<String>,
    pub venv_path: Option<String>,
    pub files: StrMap<String>,
}

impl PythonResolver {
    /// The roots in search order: explicit source roots first.
    pub open spec fn roots(self) -> Seq<Seq<char>> {
        self.python_path.deep_view() + self.site_packages.deep_view()
    }

    pub fn new(python_path: Vec<String>, site_packages: Vec<String>) -> (r: Self)
        ensures
            r.python_path == python_path,
            r.site_packages == site_packages,
            r.venv_path is None,
            r.files@ == Map::<Seq<char>, String>::empty(),
    {
        PythonResolver { python_path, site_packages, venv_path: None, files: StrMap::new() }
    }

    pub fn with_venv(self, venv_path: String) -> (r: Self)
        ensures
            r == (PythonResolver { venv_path: Some(venv_path), ..self }),
    {
        PythonResolver { venv_path: Some(venv_path), ..self }
    }

    /// The same resolver over a snapshot of the source files under its
    /// roots, each path mapped to its content.
    pub fn with_files(self, files: StrMap<String>) -> (r: Self)
        ensures
            r == (PythonResolver { files, ..self }),
    {
        PythonResolver { files, ..self }
    }

    /// Every search root, explicit roots before library roots.
    pub fn search_paths(&self) -> (r: Vec<String>)
        ensures
            r.deep_view() == self.roots(),
    {
        let mut r = crate::types::clone_string_vec(&self.python_path);
        let mut site = crate::types::clone_string_vec(&self.site_packages);
        r.append(&mut site);
        proof {
            assert(r.deep_view() =~= self.roots());
        }
        r
    }

    /// The import bindings of one initializer text, as read during
    /// re-export resolution.
    pub fn parse_imports(&self, content: &str, file_path: &str) -> (r: Result<
        Vec<ImportInfo>,
        ResolveError,
    >)
        ensures
            match r {
                Ok(v) => parse_of(content@) matches Some(t) && import_recs(v@)
                    == spec_init_imports(t.children@, 0, Seq::empty()),
                Err(_) => parse_of(content@) is None,
            },
    {
        let tree = match parse_source(content) {
            Some(t) => t,
            None => {
                let mut msg = "Failed to parse ".to_owned();
                msg.append(file_path);
                return Err(ResolveError::ParserError(msg));
            },
        };
        let empty_imports: Vec<ImportInfo> = Vec::new();
        proof {
            assert(import_recs(empty_imports@) =~= Seq::<ImportRec>::empty());
        }
        Ok(init_imports(&tree.children, 0, empty_imports))
    }

    /// Where a relative import written in `from_file` leads, against the
    /// snapshot.
    pub fn resolve_relative(&self, from_file: &str, module: &str) -> (r: Option<String>)
        ensures
            r.deep_view() == spec_resolve_relative_import(self.files@, from_file@, module@),
    {
        resolve_relative_import(&self.files, from_file, module)
    }

    /// Locates the definition of a dotted qualified name, as
    /// `spec_resolve` describes: the longest module prefix wins, explicit
    /// source roots take precedence, and re-exports in package
    /// initializers are followed.
    pub fn resolve(&self, qualified_name: &str) -> (r: Result<ResolvedFunction, ResolveError>)
        ensures
            resolve_result_rec(r) == spec_resolve(self.files@, self.roots(), qualified_name@),
    {
        proof {
            reveal_strlit(".");
        }
        if qualified_name.is_empty() {
            return Err(
                ResolveError::InvalidQualifiedName("Empty qualified name".to_owned()),
            );
        }
        let parts = split_char(qualified_name, '.');
        proof {
            crate::strutil::lemma_split_len(qualified_name@, '.');
        }
        let roots = self.search_paths();
        resolve_try(&self.files, &roots, qualified_name, &parts, parts.len())
    }
}

/// A name that some explicit source root can resolve is resolved under an
/// explicit root: the secondary library roots never shadow one.
pub proof fn lemma_explicit_root_precedence(
    fs: Map<Seq<char>, String>,
    python_path: Seq<Seq<char>>,
    site_packages: Seq<Seq<char>>,
    parts: Seq<Seq<char>>,
    j: int,
)
    requires
        0 <= j < python_path.len(),
        spec_root_match(fs, python_path[j], parts) is Some,
    ensures
        spec_resolve_module_path(fs, python_path + site_packages, parts, 0) is Some,
        exists|k: int|
            0 <= k < python_path.len() && spec_root_match(fs, python_path[k], parts) is Some
                && spec_resolve_module_path(fs, python_path + site_packages, parts, 0)
                == spec_root_match(fs, python_path[k], parts),
{
    let roots = python_path + site_packages;
    assert(roots[j] == python_path[j]);
    lemma_module_path_first_match(fs, roots, parts, 0, j);
    let k = choose|k: int|
        0 <= k <= j && spec_root_match(fs, roots[k], parts) is Some && spec_resolve_module_path(
            fs,
            roots,
            parts,
            0,
        ) == spec_root_match(fs, roots[k], parts);
    assert(roots[k] == python_path[k]);
}

/// Some last occurrence exists wherever any occurrence does.
pub proof fn lemma_last_occurrence(p: Seq<char>, c: char)
    requires
        exists|j: int| 0 <= j < p.len() && p[j] == c,
    ensures
        exists|j: int|
            0 <= j < p.len() && p[j] == c && forall|k: int| j < k < p.len() ==> p[k] != c,
    decreases p.len(),
{
    if p.len() > 0 {
        if p.last() == c {
            assert(p[p.len() - 1] == c && forall|k: int|
                p.len() - 1 < k < p.len() ==> p[k] != c);
        } else {
            let j0 = choose|j: int| 0 <= j < p.len() && p[j] == c;
            assert(0 <= j0 < p.drop_last().len() && p.drop_last()[j0] == c);
            lemma_last_occurrence(p.drop_last(), c);
            let j = choose|j: int|
                0 <= j < p.drop_last().len() && p.drop_last()[j] == c && forall|k: int|
                    j < k < p.drop_last().len() ==> p.drop_last()[k] != c;
            assert(forall|k: int| j < k < p.len() - 1 ==> p.drop_last()[k] == p[k]);
            assert(p[j] == c && forall|k: int| j < k < p.len() ==> p[k] != c);
        }
    }
}

/// A path's parent is strictly shorter, which bounds walks up the
/// directory tree.
pub proof fn lemma_parent_shorter(p: Seq<char>)
    ensures
        match spec_parent_path(p) {
            Some(q) => q.len() < p.len(),
            None => true,
        },
{
    if p.len() == 0 || p == seq!['/'] {
    } else if exists|j: int| 0 <= j < p.len() && p[j] == '/' {
        lemma_last_occurrence(p, '/');
        let j = choose|j: int|
            0 <= j < p.len() && p[j] == '/' && forall|k: int| j < k < p.len() ==> p[k] != '/';
        if j == 0 {
            if p.len() == 1 {
                assert(p =~= seq!['/']);
            }
        }
    }
}

/// The first matching root at or after `i` supplies the result of the
/// module-path search.
proof fn lemma_module_path_first_match(
    fs: Map<Seq<char>, String>,
    roots: Seq<Seq<char>>,
    parts: Seq<Seq<char>>,
    i: int,
    j: int,
)
    requires
        0 <= i <= j < roots.len(),
        spec_root_match(fs, roots[j], parts) is Some,
    ensures
        exists|k: int|
            i <= k <= j && spec_root_match(fs, roots[k], parts) is Some
                && spec_resolve_module_path(fs, roots, parts, i) == spec_root_match(
                fs,
                roots[k],
                parts,
            ),
    decreases j - i,
{
    if spec_root_match(fs, roots[i], parts) is Some {
        assert(spec_resolve_module_path(fs, roots, parts, i) == spec_root_match(
            fs,
            roots[i],
            parts,
        ));
    } else {
        lemma_module_path_first_match(fs, roots, parts, i + 1, j);
    }
}

} // verus!
