//! The symbol indexer: turns source files into a `SymbolIndex` mapping
//! fully qualified names to definition spans, with a content hash per file
//! for change detection.

use vstd::prelude::*;
use vstd::string::StrSliceExecFns;
use vstd::string::StringExecFns;
use crate::strmap::StrMap;
use crate::strutil::{
    ends_with, spec_hex, spec_join, spec_split, split_char, str_eq, u64_to_hex,
};
use crate::syntree::{SynNode, parse_of, parse_source, spec_child_by_field, spec_line_of_row};
use crate::types::ResolvedFunction;

verus! {

/// Where one indexed symbol is defined: the file, the inclusive line span
/// of the definition, and, for methods, the owning class.
pub struct SymbolLocation {
    pub file_path: String,
    pub line_start: u32,
    pub line_end: u32,
    pub is_method: bool,
    pub parent_class: Option<String>,
}

impl Clone for SymbolLocation {
    fn clone(&self) -> (r: Self)
        ensures
            r == *self,
    {
        SymbolLocation {
            file_path: self.file_path.clone(),
            line_start: self.line_start,
            line_end: self.line_end,
            is_method: self.is_method,
            parent_class: match &self.parent_class {
                Some(c) => Some(c.clone()),
                None => None,
            },
        }
    }
}

impl SymbolLocation {
    /// The same place, under the name a caller asked for.
    pub fn to_resolved(&self, name: &str) -> (r: ResolvedFunction)
        ensures
            r.file_path == self.file_path,
            r.function_name@ == name@,
            r.line_start == self.line_start,
            r.line_end == self.line_end,
            r.is_method == self.is_method,
            r.parent_class == self.parent_class,
    {
        ResolvedFunction {
            file_path: self.file_path.clone(),
            function_name: name.to_owned(),
            line_start: self.line_start,
            line_end: self.line_end,
            is_method: self.is_method,
            parent_class: match &self.parent_class {
                Some(c) => Some(c.clone()),
                None => None,
            },
        }
    }
}

/// The facts of one symbol location, as plain mathematical values.
pub struct SymRec {
    pub file: Seq<char>,
    pub line_start: u32,
    pub line_end: u32,
    pub is_method: bool,
    pub parent_class: Option<Seq<char>>,
}

pub open spec fn sym_rec(l: SymbolLocation) -> SymRec {
    SymRec {
        file: l.file_path@,
        line_start: l.line_start,
        line_end: l.line_end,
        is_method: l.is_method,
        parent_class: l.parent_class.deep_view(),
    }
}

/// A symbol map as plain values.
pub open spec fn sym_map_deep(m: Map<Seq<char>, SymbolLocation>) -> Map<Seq<char>, SymRec> {
    m.map_values(|l: SymbolLocation| sym_rec(l))
}

/// A hash map as plain values.
pub open spec fn hash_map_deep(m: Map<Seq<char>, String>) -> Map<Seq<char>, Seq<char>> {
    m.map_values(|h: String| h@)
}

/// One step of the content hash: fold a character into the running value
/// by exclusive-or and a wrapping multiply with a fixed prime.
pub open spec fn spec_hash_step(h: u64, c: char) -> u64 {
    vstd::wrapping::u64_specs::wrapping_mul(h ^ (c as u64), 0x100000001b3)
}

pub open spec fn spec_hash_fold(s: Seq<char>, h: u64) -> u64
    decreases s.len(),
{
    if s.len() == 0 {
        h
    } else {
        spec_hash_fold(s.skip(1), spec_hash_step(h, s[0]))
    }
}

/// The content hash of a text: a 64-bit fold of its characters, rendered
/// in hexadecimal.
pub open spec fn spec_content_hash(s: Seq<char>) -> Seq<char> {
    spec_hex(spec_hash_fold(s, 0xcbf29ce484222325) as nat)
}

/// Hashes a file's content for change detection.
pub fn hash_content(content: &str) -> (r: String)
    ensures
        r@ == spec_content_hash(content@),
{
    let n = content.unicode_len();
    let mut h: u64 = 0xcbf29ce484222325;
    let mut i: usize = 0;
    proof {
        assert(content@.skip(0) =~= content@);
    }
    while i < n
        invariant
            n == content@.len(),
            i <= n,
            spec_hash_fold(content@.skip(i as int), h) == spec_hash_fold(
                content@,
                0xcbf29ce484222325,
            ),
        decreases n - i,
    {
        let c = content.get_char(i);
        proof {
            assert(content@.skip(i as int)[0] == content@[i as int]);
            assert(content@.skip(i as int).skip(1) =~= content@.skip(i + 1));
        }
        h = (h ^ (c as u64)).wrapping_mul(0x100000001b3);
        i = i + 1;
    }
    u64_to_hex(h)
}

/// The epoch timestamp of the moment an indexing pass finished.
/// Relies on chrono::Utc::now; the result depends on the clock, so nothing
/// is promised of it.
#[verifier::external_body]
pub(crate) fn now_timestamp() -> i64 {
    chrono::Utc::now().timestamp()
}

/// The precomputed mapping from qualified name to definition location,
/// with a content hash per indexed file and the time of the last pass.
pub struct SymbolIndex {
    pub symbols: StrMap<SymbolLocation>,
    pub indexed_at: Option<i64>,
    pub file_hashes: StrMap<String>,
}

impl SymbolIndex {
    pub fn new() -> (r: Self)
        ensures
            r.symbols@ == Map::<Seq<char>, SymbolLocation>::empty(),
            r.file_hashes@ == Map::<Seq<char>, String>::empty(),
            r.indexed_at is None,
    {
        SymbolIndex { symbols: StrMap::new(), indexed_at: None, file_hashes: StrMap::new() }
    }

    pub fn add(&mut self, qualified_name: String, location: SymbolLocation)
        ensures
            final(self).symbols@ == old(self).symbols@.insert(qualified_name@, location),
            final(self).file_hashes@ == old(self).file_hashes@,
            final(self).indexed_at == old(self).indexed_at,
    {
        self.symbols.insert(qualified_name, location);
    }

    pub fn get(&self, qualified_name: &str) -> (r: Option<&SymbolLocation>)
        ensures
            match r {
                Some(l) => self.symbols@.dom().contains(qualified_name@) && *l
                    == self.symbols@[qualified_name@],
                None => !self.symbols@.dom().contains(qualified_name@),
            },
    {
        self.symbols.get(qualified_name)
    }

    pub fn contains(&self, qualified_name: &str) -> (r: bool)
        ensures
            r == self.symbols@.dom().contains(qualified_name@),
    {
        self.symbols.contains_key(qualified_name)
    }

    pub fn len(&self) -> (r: usize)
        ensures
            self.symbols@.dom().finite(),
            r == self.symbols@.dom().len(),
    {
        self.symbols.len()
    }

    pub fn is_empty(&self) -> (r: bool)
        ensures
            self.symbols@.dom().finite(),
            r == (self.symbols@.dom().len() == 0),
    {
        self.symbols.is_empty()
    }

    /// Stamps the index with the present moment.
    pub fn mark_indexed(&mut self)
        ensures
            final(self).indexed_at is Some,
            final(self).symbols@ == old(self).symbols@,
            final(self).file_hashes@ == old(self).file_hashes@,
    {
        self.indexed_at = Some(now_timestamp());
    }

    pub fn set_file_hash(&mut self, path: String, hash: String)
        ensures
            final(self).file_hashes@ == old(self).file_hashes@.insert(path@, hash),
            final(self).symbols@ == old(self).symbols@,
            final(self).indexed_at == old(self).indexed_at,
    {
        self.file_hashes.insert(path, hash);
    }

    /// Whether a file's current content hash differs from the stored one;
    /// a file with no stored hash counts as changed.
    pub fn file_changed(&self, path: &str, current_hash: &str) -> (r: bool)
        ensures
            r == (if self.file_hashes@.dom().contains(path@) {
                self.file_hashes@[path@]@ != current_hash@
            } else {
                true
            }),
    {
        match self.file_hashes.get(path) {
            Some(stored) => !str_eq(stored.as_str(), current_hash),
            None => true,
        }
    }
}

/// Directory names that are never worth indexing: caches, version-control
/// metadata and build leftovers.
pub open spec fn spec_skip_name(name: Seq<char>) -> bool {
    ||| name == "__pycache__"@
    ||| name == ".git"@
    ||| name == "node_modules"@
    ||| name == ".tox"@
    ||| name == ".nox"@
    ||| name == ".mypy_cache"@
    ||| name == ".pytest_cache"@
    ||| name == ".ruff_cache"@
    ||| name == ".eggs"@
    ||| (name.len() >= ".egg-info"@.len() && name.skip(name.len() - ".egg-info"@.len())
        == ".egg-info"@)
}

/// The rule for pruning a directory from an indexing walk: its name is on
/// the deny list, or a marker shows it is an installed environment's root
/// (a configuration file, or an interpreter binary at the conventional
/// place); a library directory inside such an environment has no marker of
/// its own and is kept.
pub open spec fn spec_should_skip_dir(
    name: Seq<char>,
    has_env_cfg: bool,
    has_bin_interp: bool,
    has_scripts_interp: bool,
) -> bool {
    spec_skip_name(name) || has_env_cfg || has_bin_interp || has_scripts_interp
}

/// Decides whether a directory met during the walk is pruned; the caller
/// reports which environment markers exist under it.
pub fn should_skip_dir(
    dir_name: &str,
    has_env_cfg: bool,
    has_bin_interp: bool,
    has_scripts_interp: bool,
) -> (r: bool)
    ensures
        r == spec_should_skip_dir(dir_name@, has_env_cfg, has_bin_interp, has_scripts_interp),
{
    let skip = str_eq(dir_name, "__pycache__") || str_eq(dir_name, ".git") || str_eq(
        dir_name,
        "node_modules",
    ) || str_eq(dir_name, ".tox") || str_eq(dir_name, ".nox") || str_eq(dir_name, ".mypy_cache")
        || str_eq(dir_name, ".pytest_cache") || str_eq(dir_name, ".ruff_cache") || str_eq(
        dir_name,
        ".eggs",
    ) || ends_with(dir_name, ".egg-info");
    skip || has_env_cfg || has_bin_interp || has_scripts_interp
}

/// The path of `path` relative to `base`: what stands after `base` and a
/// separator, or the path itself where it does not lie under `base`.
pub open spec fn spec_rel_path(path: Seq<char>, base: Seq<char>) -> Seq<char> {
    if path == base {
        Seq::<char>::empty()
    } else if path.len() > base.len() + 1 && path.take(base.len() as int + 1) == base
        + seq!['/'] {
        path.skip(base.len() as int + 1)
    } else {
        path
    }
}

/// The module path of a source file relative to its indexing root: the
/// separator-split segments (empty and bare-dot segments dropped), the
/// source extension stripped from the last, a package-initializer name
/// collapsed to its directory, all joined with dots.
pub open spec fn spec_path_to_module(path: Seq<char>, base: Seq<char>) -> Seq<char> {
    let parts0 = spec_split(spec_rel_path(path, base), '/').filter(
        |p: Seq<char>| p.len() > 0 && p != "."@,
    );
    let parts1 = if parts0.len() > 0 && parts0.last().len() >= 3 && parts0.last().skip(
        parts0.last().len() - 3,
    ) == ".py"@ {
        parts0.update(parts0.len() - 1, parts0.last().take(parts0.last().len() - 3))
    } else {
        parts0
    };
    let parts2 = if parts1.len() > 0 && parts1.last() == "__init__"@ {
        parts1.drop_last()
    } else {
        parts1
    };
    spec_join(parts2, seq!['.'])
}

/// Computes a source file's dotted module path from its location under an
/// indexing root.
pub fn path_to_module(path: &str, base: &str) -> (r: String)
    ensures
        r@ == spec_path_to_module(path@, base@),
{
    proof {
        reveal_strlit(".");
        reveal_strlit("/");
        reveal_strlit(".py");
        reveal_strlit("__init__");
        assert("."@ =~= seq!['.']);
        assert("/"@ =~= seq!['/']);
    }
    let rel: String = if str_eq(path, base) {
        String::new()
    } else {
        let bl = base.unicode_len();
        let pl = path.unicode_len();
        if pl > bl && pl - 1 > bl {
            let mut prefix = base.to_owned();
            prefix.append("/");
            let head = path.substring_char(0, bl + 1);
            proof {
                assert(head@ =~= path@.take(bl + 1));
            }
            if str_eq(head, prefix.as_str()) {
                let tail = path.substring_char(bl + 1, pl);
                proof {
                    assert(tail@ =~= path@.skip(bl + 1));
                }
                tail.to_owned()
            } else {
                path.to_owned()
            }
        } else {
            path.to_owned()
        }
    };
    let raw_parts = split_char(rel.as_str(), '/');
    let ghost raw_seq = raw_parts.deep_view();
    let ghost pred = |p: Seq<char>| p.len() > 0 && p != "."@;
    let mut parts: Vec<String> = Vec::new();
    let n = raw_parts.len();
    let mut i: usize = 0;
    proof {
        reveal(Seq::filter);
        assert(raw_seq.take(0) =~= Seq::<Seq<char>>::empty());
        assert(raw_seq.take(0).filter(pred) =~= Seq::<Seq<char>>::empty());
        assert(parts.deep_view() =~= Seq::<Seq<char>>::empty());
    }
    while i < n
        invariant
            n == raw_parts@.len(),
            raw_seq == raw_parts.deep_view(),
            i <= n,
            forall|q: Seq<char>| #[trigger] pred(q) == (q.len() > 0 && q != "."@),
            parts.deep_view() == raw_seq.take(i as int).filter(pred),
        decreases n - i,
    {
        let p = &raw_parts[i];
        let ghost before = parts.deep_view();
        proof {
            assert(raw_seq[i as int] == raw_parts@[i as int]@);
        }
        if !p.as_str().is_empty() && !str_eq(p.as_str(), ".") {
            parts.push(p.clone());
            proof {
                assert(pred(raw_seq[i as int]));
                assert(parts.deep_view() =~= before.push(raw_seq[i as int]));
            }
        } else {
            proof {
                assert(!pred(raw_seq[i as int]));
                assert(parts.deep_view() =~= before);
            }
        }
        proof {
            reveal_strlit(".");
            assert(raw_seq.take(i + 1).drop_last() =~= raw_seq.take(i as int));
            assert(raw_seq.take(i + 1).last() == raw_seq[i as int]);
            reveal(Seq::filter);
        }
        i = i + 1;
    }
    proof {
        assert(raw_seq.take(n as int) =~= raw_seq);
    }
    // Strip the source extension from the last segment.
    let m = parts.len();
    if m > 0 {
        let last_len = parts[m - 1].as_str().unicode_len();
        if last_len >= 3 && ends_with(parts[m - 1].as_str(), ".py") {
            let stem = parts[m - 1].as_str().substring_char(0, last_len - 3);
            proof {
                let lv = parts.deep_view()[m - 1];
                assert(lv.skip(lv.len() - 3) =~= lv.subrange(lv.len() - 3, lv.len() as int));
            }
            let stem_string = stem.to_owned();
            let ghost before = parts.deep_view();
            parts[m - 1] = stem_string;
            proof {
                assert(parts.deep_view() =~= before.update(
                    before.len() - 1,
                    before.last().take(before.last().len() - 3),
                ));
            }
        }
    }
    // Collapse a package initializer to its directory.
    let m2 = parts.len();
    if m2 > 0 && str_eq(parts[m2 - 1].as_str(), "__init__") {
        let ghost before = parts.deep_view();
        let _ = parts.pop();
        proof {
            assert(parts.deep_view() =~= before.drop_last());
        }
    }
    join_parts_dot(&parts)
}

/// Joins module segments with dots.
fn join_parts_dot(parts: &Vec<String>) -> (r: String)
    ensures
        r@ == spec_join(parts.deep_view(), seq!['.']),
{
    proof {
        reveal_strlit(".");
        assert("."@ =~= seq!['.']);
    }
    crate::strutil::join_str(parts, ".")
}

/// The location record for a definition node.
pub open spec fn spec_sym_of(
    node: SynNode,
    file: Seq<char>,
    is_method: bool,
    parent: Option<Seq<char>>,
) -> SymRec {
    SymRec {
        file,
        line_start: spec_line_of_row(node.row),
        line_end: if spec_line_of_row(node.end_row) < spec_line_of_row(node.row) {
            spec_line_of_row(node.row)
        } else {
            spec_line_of_row(node.end_row)
        },
        is_method,
        parent_class: parent,
    }
}

/// A name under its module: `module.name`.
pub open spec fn spec_qual2(module: Seq<char>, name: Seq<char>) -> Seq<char> {
    module + seq!['.'] + name
}

/// A method under its module and class: `module.Class.name`.
pub open spec fn spec_qual3(module: Seq<char>, cls: Seq<char>, name: Seq<char>) -> Seq<char> {
    module + seq!['.'] + cls + seq!['.'] + name
}

/// The symbols that the definition-collecting walk records at `node`: a
/// function definition under its qualified name, a class definition and
/// then each definition in its body qualified by the class, a decorated
/// definition unwrapped to what it decorates, and a module's children in
/// turn; the walk does not descend into function bodies.
pub open spec fn spec_symbols(
    node: SynNode,
    file: Seq<char>,
    module: Seq<char>,
    cls: Option<Seq<char>>,
    acc: Map<Seq<char>, SymRec>,
) -> Map<Seq<char>, SymRec>
    decreases node, 1int,
    via spec_symbols_dec
{
    if node.kind@ == "function_definition"@ {
        match spec_child_by_field(node.children@, "name"@) {
            Some(nm) => {
                let q = match cls {
                    Some(c) => spec_qual3(module, c, nm.text@),
                    None => spec_qual2(module, nm.text@),
                };
                acc.insert(q, spec_sym_of(node, file, cls is Some, cls))
            },
            None => acc,
        }
    } else if node.kind@ == "class_definition"@ {
        match spec_child_by_field(node.children@, "name"@) {
            Some(nm) => {
                let acc1 = acc.insert(
                    spec_qual2(module, nm.text@),
                    spec_sym_of(node, file, false, None),
                );
                match spec_child_by_field(node.children@, "body"@) {
                    Some(b) => spec_symbols_seq(b.children@, file, module, Some(nm.text@), acc1),
                    None => acc1,
                }
            },
            None => acc,
        }
    } else if node.kind@ == "decorated_definition"@ {
        match spec_child_by_field(node.children@, "definition"@) {
            Some(d) => spec_symbols(d, file, module, cls, acc),
            None => acc,
        }
    } else if node.kind@ == "module"@ {
        spec_symbols_seq(node.children@, file, module, cls, acc)
    } else {
        acc
    }
}

#[via_fn]
proof fn spec_symbols_dec(
    node: SynNode,
    file: Seq<char>,
    module: Seq<char>,
    cls: Option<Seq<char>>,
    acc: Map<Seq<char>, SymRec>,
) {
    crate::syntree::lemma_child_by_field_index(node.children@, "body"@);
    crate::syntree::lemma_child_by_field_index(node.children@, "definition"@);
    match spec_child_by_field(node.children@, "body"@) {
        Some(b) => {
            let i = choose|i: int|
                0 <= i < node.children@.len() && node.children@[i] == b;
            assert(decreases_to!(node => node.children@[i]));
        },
        None => {},
    }
    match spec_child_by_field(node.children@, "definition"@) {
        Some(d) => {
            let i = choose|i: int|
                0 <= i < node.children@.len() && node.children@[i] == d;
            assert(decreases_to!(node => node.children@[i]));
        },
        None => {},
    }
}

pub open spec fn spec_symbols_seq(
    s: Seq<SynNode>,
    file: Seq<char>,
    module: Seq<char>,
    cls: Option<Seq<char>>,
    acc: Map<Seq<char>, SymRec>,
) -> Map<Seq<char>, SymRec>
    decreases s, 0int,
{
    if s.len() == 0 {
        acc
    } else {
        spec_symbols_seq(s.skip(1), file, module, cls, spec_symbols(s[0], file, module, cls, acc))
    }
}

proof fn lemma_sym_deep_insert(m: Map<Seq<char>, SymbolLocation>, k: Seq<char>, v: SymbolLocation)
    ensures
        sym_map_deep(m.insert(k, v)) == sym_map_deep(m).insert(k, sym_rec(v)),
{
    assert(sym_map_deep(m.insert(k, v)) =~= sym_map_deep(m).insert(k, sym_rec(v)));
}

/// Builds the location record for one definition node.
fn make_location(node: &SynNode, file: &str, is_method: bool, parent: &Option<String>) -> (r:
    SymbolLocation)
    ensures
        sym_rec(r) == spec_sym_of(*node, file@, is_method, parent.deep_view()),
{
    let line_start = node.line();
    let raw_end: u32 = if node.end_row == u32::MAX {
        u32::MAX
    } else {
        node.end_row + 1
    };
    let line_end: u32 = if raw_end < line_start {
        line_start
    } else {
        raw_end
    };
    SymbolLocation {
        file_path: file.to_owned(),
        line_start,
        line_end,
        is_method,
        parent_class: match parent {
            Some(c) => Some(c.clone()),
            None => None,
        },
    }
}

/// Walks one node collecting definitions into the index, as
/// `spec_symbols` describes.
fn collect_symbols(
    node: &SynNode,
    file: &str,
    module: &str,
    cls: &Option<String>,
    index: &mut SymbolIndex,
)
    ensures
        sym_map_deep(final(index).symbols@) == spec_symbols(
            *node,
            file@,
            module@,
            cls.deep_view(),
            sym_map_deep(old(index).symbols@),
        ),
        final(index).file_hashes@ == old(index).file_hashes@,
        final(index).indexed_at == old(index).indexed_at,
    decreases *node,
{
    proof {
        reveal_strlit(".");
        assert("."@ =~= seq!['.']);
    }
    if node.is_kind("function_definition") {
        if let Some(nm) = node.child_by_field("name") {
            let mut q: String = module.to_owned();
            q.append(".");
            let is_method = cls.is_some();
            if let Some(c) = cls {
                q.append(c.as_str());
                q.append(".");
            }
            q.append(nm.text.as_str());
            proof {
                match cls.deep_view() {
                    Some(cv) => {
                        assert(q@ =~= spec_qual3(module@, cv, nm.text@));
                    },
                    None => {
                        assert(q@ =~= spec_qual2(module@, nm.text@));
                    },
                }
            }
            let location = make_location(node, file, is_method, cls);
            let ghost qv = q@;
            index.add(q, location);
            proof {
                lemma_sym_deep_insert(old(index).symbols@, qv, index.symbols@[qv]);
            }
        }
    } else if node.is_kind("class_definition") {
        if let Some(nm) = node.child_by_field("name") {
            let mut q: String = module.to_owned();
            q.append(".");
            q.append(nm.text.as_str());
            proof {
                assert(q@ =~= spec_qual2(module@, nm.text@));
            }
            let no_class: Option<String> = None;
            let location = make_location(node, file, false, &no_class);
            let ghost qv = q@;
            let ghost before = index.symbols@;
            index.add(q, location);
            proof {
                lemma_sym_deep_insert(before, qv, index.symbols@[qv]);
            }
            let ghost acc1 = sym_map_deep(index.symbols@);
            if let Some(body) = node.child_by_field("body") {
                let new_cls: Option<String> = Some(nm.text.clone());
                proof {
                    crate::syntree::lemma_child_by_field_index(node.children@, "body"@);
                }
                let n = body.children.len();
                let mut i: usize = 0;
                proof {
                    assert(body.children@.skip(0) =~= body.children@);
                }
                while i < n
                    invariant
                        n == body.children@.len(),
                        i <= n,
                        new_cls.deep_view() == Some(nm.text@),
                        exists|bi: int|
                            0 <= bi < node.children@.len() && node.children@[bi] == *body,
                        spec_symbols_seq(
                            body.children@.skip(i as int),
                            file@,
                            module@,
                            Some(nm.text@),
                            sym_map_deep(index.symbols@),
                        ) == spec_symbols_seq(
                            body.children@,
                            file@,
                            module@,
                            Some(nm.text@),
                            acc1,
                        ),
                        index.file_hashes@ == old(index).file_hashes@,
                        index.indexed_at == old(index).indexed_at,
                    decreases n - i,
                {
                    proof {
                        assert(body.children@.skip(i as int)[0] == body.children@[i as int]);
                        assert(body.children@.skip(i as int).skip(1) =~= body.children@.skip(
                            i + 1,
                        ));
                        let bi = choose|bi: int|
                            0 <= bi < node.children@.len() && node.children@[bi] == *body;
                        assert(decreases_to!(*node => node.children@[bi]));
                        assert(decreases_to!(node.children@[bi] => body.children@[i as int]));
                    }
                    collect_symbols(&body.children[i], file, module, &new_cls, index);
                    i = i + 1;
                }
                proof {
                    assert(body.children@.skip(n as int) =~= Seq::<SynNode>::empty());
                }
            }
        }
    } else if node.is_kind("decorated_definition") {
        if let Some(def) = node.child_by_field("definition") {
            proof {
                crate::syntree::lemma_child_by_field_index(node.children@, "definition"@);
                let di = choose|di: int|
                    0 <= di < node.children@.len() && node.children@[di] == *def;
                assert(decreases_to!(*node => node.children@[di]));
            }
            collect_symbols(def, file, module, cls, index);
        }
    } else if node.is_kind("module") {
        let ghost acc0 = sym_map_deep(index.symbols@);
        let n = node.children.len();
        let mut i: usize = 0;
        proof {
            assert(node.children@.skip(0) =~= node.children@);
        }
        while i < n
            invariant
                n == node.children@.len(),
                i <= n,
                spec_symbols_seq(
                    node.children@.skip(i as int),
                    file@,
                    module@,
                    cls.deep_view(),
                    sym_map_deep(index.symbols@),
                ) == spec_symbols_seq(node.children@, file@, module@, cls.deep_view(), acc0),
                index.file_hashes@ == old(index).file_hashes@,
                index.indexed_at == old(index).indexed_at,
            decreases n - i,
        {
            proof {
                assert(node.children@.skip(i as int)[0] == node.children@[i as int]);
                assert(node.children@.skip(i as int).skip(1) =~= node.children@.skip(i + 1));
            }
            collect_symbols(&node.children[i], file, module, cls, index);
            i = i + 1;
        }
        proof {
            assert(node.children@.skip(n as int) =~= Seq::<SynNode>::empty());
        }
    }
}

/// One source file handed to an indexing pass: its path, the root it was
/// found under, and its text.
pub struct SourceFile {
    pub path: String,
    pub base: String,
    pub content: String,
}

/// The facts of one source file, as plain mathematical values.
pub struct FileRec {
    pub path: Seq<char>,
    pub base: Seq<char>,
    pub content: Seq<char>,
}

pub open spec fn file_rec(f: SourceFile) -> FileRec {
    FileRec { path: f.path@, base: f.base@, content: f.content@ }
}

pub open spec fn file_recs(v: Seq<SourceFile>) -> Seq<FileRec> {
    v.map_values(|f: SourceFile| file_rec(f))
}

/// What indexing one file adds: its symbols and its content hash, or
/// nothing at all when its text does not parse.
pub open spec fn spec_index_file(
    f: FileRec,
    symbols: Map<Seq<char>, SymRec>,
    hashes: Map<Seq<char>, Seq<char>>,
) -> (Map<Seq<char>, SymRec>, Map<Seq<char>, Seq<char>>) {
    match parse_of(f.content) {
        Some(tree) => (
            spec_symbols(tree, f.path, spec_path_to_module(f.path, f.base), None, symbols),
            hashes.insert(f.path, spec_content_hash(f.content)),
        ),
        None => (symbols, hashes),
    }
}

pub open spec fn spec_index_files(
    fs: Seq<FileRec>,
    symbols: Map<Seq<char>, SymRec>,
    hashes: Map<Seq<char>, Seq<char>>,
) -> (Map<Seq<char>, SymRec>, Map<Seq<char>, Seq<char>>)
    decreases fs.len(),
{
    if fs.len() == 0 {
        (symbols, hashes)
    } else {
        let step = spec_index_file(fs[0], symbols, hashes);
        spec_index_files(fs.skip(1), step.0, step.1)
    }
}

/// What went wrong while building an index.
#[derive(Debug)]
pub enum IndexerError {
    Io(String),
    Parser(String),
    Walk(String),
}

/// Builds a `SymbolIndex` from source files, one indexing session at a
/// time.
pub struct Indexer {
}

impl Indexer {
    pub fn new() -> (r: Result<Self, IndexerError>)
        ensures
            r is Ok,
    {
        Ok(Indexer {  })
    }

    /// Indexes every given file: parses it, records each definition under
    /// its qualified name and the file's content hash, skips files that do
    /// not parse, and stamps the result. The outcome is a pure function of
    /// the files' paths and contents, so indexing the same files twice
    /// yields the same symbols and the same hashes.
    pub fn index_files(&self, files: &Vec<SourceFile>) -> (r: SymbolIndex)
        ensures
            sym_map_deep(r.symbols@) == spec_index_files(
                file_recs(files@),
                Map::<Seq<char>, SymRec>::empty(),
                Map::<Seq<char>, Seq<char>>::empty(),
            ).0,
            hash_map_deep(r.file_hashes@) == spec_index_files(
                file_recs(files@),
                Map::<Seq<char>, SymRec>::empty(),
                Map::<Seq<char>, Seq<char>>::empty(),
            ).1,
            r.indexed_at is Some,
    {
        let mut index = SymbolIndex::new();
        proof {
            assert(sym_map_deep(index.symbols@) =~= Map::<Seq<char>, SymRec>::empty());
            assert(hash_map_deep(index.file_hashes@) =~= Map::<Seq<char>, Seq<char>>::empty());
            assert(file_recs(files@).skip(0) =~= file_recs(files@));
        }
        let n = files.len();
        let mut i: usize = 0;
        while i < n
            invariant
                n == files@.len(),
                i <= n,
                spec_index_files(
                    file_recs(files@).skip(i as int),
                    sym_map_deep(index.symbols@),
                    hash_map_deep(index.file_hashes@),
                ) == spec_index_files(
                    file_recs(files@),
                    Map::<Seq<char>, SymRec>::empty(),
                    Map::<Seq<char>, Seq<char>>::empty(),
                ),
            decreases n - i,
        {
            proof {
                assert(file_recs(files@).skip(i as int)[0] == file_recs(files@)[i as int]);
                assert(file_recs(files@).skip(i as int).skip(1) =~= file_recs(files@).skip(
                    i + 1,
                ));
            }
            let f = &files[i];
            if let Some(tree) = parse_source(f.content.as_str()) {
                let module = path_to_module(f.path.as_str(), f.base.as_str());
                let no_class: Option<String> = None;
                collect_symbols(&tree, f.path.as_str(), module.as_str(), &no_class, &mut index);
                let hash = hash_content(f.content.as_str());
                let ghost before_h = index.file_hashes@;
                let ghost pv = f.path@;
                let ghost hv = hash@;
                index.set_file_hash(f.path.clone(), hash);
                proof {
                    assert(hash_map_deep(index.file_hashes@) =~= hash_map_deep(before_h).insert(
                        pv,
                        hv,
                    ));
                }
            }
            i = i + 1;
        }
        proof {
            assert(file_recs(files@).skip(n as int) =~= Seq::<FileRec>::empty());
        }
        index.mark_indexed();
        index
    }
}

/// A well-formed symbol record: its span starts at line one or later and
/// never ends before it starts, and it is a method exactly when it has an
/// owning class.
pub open spec fn spec_sym_wf(r: SymRec) -> bool {
    1 <= r.line_start && r.line_start <= r.line_end && (r.is_method <==> r.parent_class
        is Some)
}

/// The definition-collecting walk only ever records well-formed symbol
/// records.
pub proof fn lemma_symbols_wf(
    node: SynNode,
    file: Seq<char>,
    module: Seq<char>,
    cls: Option<Seq<char>>,
    acc: Map<Seq<char>, SymRec>,
)
    requires
        forall|k: Seq<char>| acc.dom().contains(k) ==> spec_sym_wf(#[trigger] acc[k]),
    ensures
        forall|k: Seq<char>|
            spec_symbols(node, file, module, cls, acc).dom().contains(k) ==> spec_sym_wf(
                #[trigger] spec_symbols(node, file, module, cls, acc)[k],
            ),
    decreases node, 1int,
{
    let out = spec_symbols(node, file, module, cls, acc);
    if node.kind@ == "function_definition"@ {
        match spec_child_by_field(node.children@, "name"@) {
            Some(nm) => {
                let q = match cls {
                    Some(c) => spec_qual3(module, c, nm.text@),
                    None => spec_qual2(module, nm.text@),
                };
                let v = spec_sym_of(node, file, cls is Some, cls);
                assert(spec_sym_wf(v));
                lemma_sym_wf_insert(acc, q, v);
                assert(out == acc.insert(q, v));
            },
            None => {
                assert(out == acc);
            },
        }
    } else if node.kind@ == "class_definition"@ {
        match spec_child_by_field(node.children@, "name"@) {
            Some(nm) => {
                let q = spec_qual2(module, nm.text@);
                let v = spec_sym_of(node, file, false, None);
                let acc1 = acc.insert(q, v);
                assert(spec_sym_wf(v));
                lemma_sym_wf_insert(acc, q, v);
                match spec_child_by_field(node.children@, "body"@) {
                    Some(b) => {
                        crate::syntree::lemma_child_by_field_index(node.children@, "body"@);
                        let bi = choose|bi: int|
                            0 <= bi < node.children@.len() && node.children@[bi] == b;
                        assert(decreases_to!(node => node.children@[bi]));
                        lemma_symbols_wf_seq(b.children@, file, module, Some(nm.text@), acc1);
                        assert(out == spec_symbols_seq(
                            b.children@,
                            file,
                            module,
                            Some(nm.text@),
                            acc1,
                        ));
                    },
                    None => {
                        assert(out == acc1);
                    },
                }
            },
            None => {
                assert(out == acc);
            },
        }
    } else if node.kind@ == "decorated_definition"@ {
        match spec_child_by_field(node.children@, "definition"@) {
            Some(d) => {
                crate::syntree::lemma_child_by_field_index(node.children@, "definition"@);
                let di = choose|di: int|
                    0 <= di < node.children@.len() && node.children@[di] == d;
                assert(decreases_to!(node => node.children@[di]));
                lemma_symbols_wf(d, file, module, cls, acc);
                assert(out == spec_symbols(d, file, module, cls, acc));
            },
            None => {
                assert(out == acc);
            },
        }
    } else if node.kind@ == "module"@ {
        lemma_symbols_wf_seq(node.children@, file, module, cls, acc);
        assert(out == spec_symbols_seq(node.children@, file, module, cls, acc));
    } else {
        assert(out == acc);
    }
}

proof fn lemma_sym_wf_insert(acc: Map<Seq<char>, SymRec>, q: Seq<char>, v: SymRec)
    requires
        forall|k: Seq<char>| acc.dom().contains(k) ==> spec_sym_wf(#[trigger] acc[k]),
        spec_sym_wf(v),
    ensures
        forall|k: Seq<char>|
            acc.insert(q, v).dom().contains(k) ==> spec_sym_wf(#[trigger] acc.insert(q, v)[k]),
{
    assert forall|k: Seq<char>| acc.insert(q, v).dom().contains(k) implies spec_sym_wf(
        acc.insert(q, v)[k],
    ) by {
        if k != q {
            assert(acc.dom().contains(k));
            assert(acc.insert(q, v)[k] == acc[k]);
        }
    }
}

proof fn lemma_symbols_wf_seq(
    s: Seq<SynNode>,
    file: Seq<char>,
    module: Seq<char>,
    cls: Option<Seq<char>>,
    acc: Map<Seq<char>, SymRec>,
)
    requires
        forall|k: Seq<char>| acc.dom().contains(k) ==> spec_sym_wf(#[trigger] acc[k]),
    ensures
        forall|k: Seq<char>|
            spec_symbols_seq(s, file, module, cls, acc).dom().contains(k) ==> spec_sym_wf(
                #[trigger] spec_symbols_seq(s, file, module, cls, acc)[k],
            ),
    decreases s, 0int,
{
    if s.len() > 0 {
        lemma_symbols_wf(s[0], file, module, cls, acc);
        let acc1 = spec_symbols(s[0], file, module, cls, acc);
        lemma_symbols_wf_seq(s.skip(1), file, module, cls, acc1);
        assert(spec_symbols_seq(s, file, module, cls, acc) == spec_symbols_seq(
            s.skip(1),
            file,
            module,
            cls,
            acc1,
        ));
    } else {
        assert(spec_symbols_seq(s, file, module, cls, acc) == acc);
    }
}

/// Every symbol an indexing pass records is well-formed: spans in order,
/// starting at line one or later, with the method flag agreeing with the
/// owning class.
pub proof fn lemma_index_symbols_wf(files: Seq<SourceFile>)
    ensures
        forall|k: Seq<char>|
            spec_index_files(
                file_recs(files),
                Map::<Seq<char>, SymRec>::empty(),
                Map::<Seq<char>, Seq<char>>::empty(),
            ).0.dom().contains(k) ==> spec_sym_wf(
                #[trigger] spec_index_files(
                    file_recs(files),
                    Map::<Seq<char>, SymRec>::empty(),
                    Map::<Seq<char>, Seq<char>>::empty(),
                ).0[k],
            ),
{
    lemma_index_files_wf(
        file_recs(files),
        Map::<Seq<char>, SymRec>::empty(),
        Map::<Seq<char>, Seq<char>>::empty(),
    );
}

proof fn lemma_index_files_wf(
    fs: Seq<FileRec>,
    symbols: Map<Seq<char>, SymRec>,
    hashes: Map<Seq<char>, Seq<char>>,
)
    requires
        forall|k: Seq<char>| symbols.dom().contains(k) ==> spec_sym_wf(#[trigger] symbols[k]),
    ensures
        forall|k: Seq<char>|
            spec_index_files(fs, symbols, hashes).0.dom().contains(k) ==> spec_sym_wf(
                #[trigger] spec_index_files(fs, symbols, hashes).0[k],
            ),
    decreases fs.len(),
{
    if fs.len() > 0 {
        let step = spec_index_file(fs[0], symbols, hashes);
        match crate::syntree::parse_of(fs[0].content) {
            Some(tree) => {
                lemma_symbols_wf(
                    tree,
                    fs[0].path,
                    spec_path_to_module(fs[0].path, fs[0].base),
                    None,
                    symbols,
                );
                assert(step.0 == spec_symbols(
                    tree,
                    fs[0].path,
                    spec_path_to_module(fs[0].path, fs[0].base),
                    None,
                    symbols,
                ));
            },
            None => {
                assert(step.0 == symbols);
            },
        }
        lemma_index_files_wf(fs.skip(1), step.0, step.1);
        assert(spec_index_files(fs, symbols, hashes) == spec_index_files(
            fs.skip(1),
            step.0,
            step.1,
        ));
    } else {
        assert(spec_index_files(fs, symbols, hashes).0 == symbols);
    }
}

/// Two indexing passes over the same files agree on every symbol and every
/// stored hash: what `index_files` yields is a function of the files'
/// paths and contents alone.
pub proof fn lemma_reindex_agrees(a: SymbolIndex, b: SymbolIndex, files: Seq<SourceFile>)
    requires
        sym_map_deep(a.symbols@) == spec_index_files(
            file_recs(files),
            Map::<Seq<char>, SymRec>::empty(),
            Map::<Seq<char>, Seq<char>>::empty(),
        ).0,
        hash_map_deep(a.file_hashes@) == spec_index_files(
            file_recs(files),
            Map::<Seq<char>, SymRec>::empty(),
            Map::<Seq<char>, Seq<char>>::empty(),
        ).1,
        sym_map_deep(b.symbols@) == spec_index_files(
            file_recs(files),
            Map::<Seq<char>, SymRec>::empty(),
            Map::<Seq<char>, Seq<char>>::empty(),
        ).0,
        hash_map_deep(b.file_hashes@) == spec_index_files(
            file_recs(files),
            Map::<Seq<char>, SymRec>::empty(),
            Map::<Seq<char>, Seq<char>>::empty(),
        ).1,
    ensures
        sym_map_deep(a.symbols@).dom() == sym_map_deep(b.symbols@).dom(),
        sym_map_deep(a.symbols@) == sym_map_deep(b.symbols@),
        hash_map_deep(a.file_hashes@) == hash_map_deep(b.file_hashes@),
{
}

} // verus!
