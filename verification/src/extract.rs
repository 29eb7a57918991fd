//! The syntax-pattern extractor: pure functions over a parsed tree that
//! harvest raise statements, `None`-yielding patterns, call expressions
//! and import bindings, optionally restricted to an inclusive line range.
//! Each function's result is pinned exactly by a spec-level mirror of the
//! extraction rules.

use vstd::prelude::*;
use crate::strmap::StrMap;
use crate::strutil::{
    join_str, spec_join, spec_split, spec_trim_quotes, split_char, str_eq, tail_from, trim_quotes,
    vec_contains_str,
};
use crate::syntree::{
    SynNode, spec_child_by_field, spec_first_of_kind, spec_in_range, spec_line_of_row,
};
use crate::types::{CodeLocation, NoneSource, NoneSourceKind, RaiseStatement};

verus! {

/// The facts of one raise site, as plain mathematical values; the ghost
/// image of a `RaiseStatement` fresh from extraction.
pub struct RaiseRec {
    pub exception_type: Seq<char>,
    pub qualified_type: Seq<char>,
    pub file: Seq<char>,
    pub line: u32,
    pub col: Option<u32>,
    pub condition: Option<Seq<char>>,
    pub message: Option<Seq<char>>,
}

/// The ghost image of a raise statement's extracted fields.
pub open spec fn raise_rec(r: RaiseStatement) -> RaiseRec {
    RaiseRec {
        exception_type: r.exception_type@,
        qualified_type: r.qualified_type@,
        file: r.raise_location.file@,
        line: r.raise_location.line,
        col: r.raise_location.column,
        condition: r.condition.deep_view(),
        message: r.message.deep_view(),
    }
}

pub open spec fn raise_recs(v: Seq<RaiseStatement>) -> Seq<RaiseRec> {
    v.map_values(|r: RaiseStatement| raise_rec(r))
}

/// A raise statement as extraction hands it out: no definition resolved
/// yet, and no enclosing-function name attached.
pub open spec fn fresh_raise(r: RaiseStatement) -> bool {
    r.definition_location is None && r.raise_location.containing_function is None
}

/// The facts of one `None` source, as plain mathematical values.
pub struct NoneRec {
    pub kind: NoneSourceKind,
    pub file: Seq<char>,
    pub line: u32,
    pub col: Option<u32>,
    pub condition: Option<Seq<char>>,
}

pub open spec fn none_rec(n: NoneSource) -> NoneRec {
    NoneRec {
        kind: n.kind,
        file: n.location.file@,
        line: n.location.line,
        col: n.location.column,
        condition: n.condition.deep_view(),
    }
}

pub open spec fn none_recs(v: Seq<NoneSource>) -> Seq<NoneRec> {
    v.map_values(|n: NoneSource| none_rec(n))
}

/// A `None` source as extraction hands it out: no source definition, and
/// no enclosing-function name attached.
pub open spec fn fresh_none(n: NoneSource) -> bool {
    n.source_definition is None && n.location.containing_function is None
}

/// The guarding condition that `node` hands to its children: entering an
/// `if` construct replaces it with that construct's own condition text.
pub open spec fn spec_child_cond(node: SynNode, cond: Option<Seq<char>>) -> Option<Seq<char>> {
    if node.kind@ == "if_statement"@ {
        match spec_child_by_field(node.children@, "condition"@) {
            Some(c) => Some(c.text@),
            None => cond,
        }
    } else {
        cond
    }
}

/// Folds a raise construct's children left to right: a called constructor
/// contributes its callee text and its first string argument, a bare or
/// dotted name contributes its own text, and later children overwrite
/// earlier ones.
pub open spec fn spec_raise_fields(
    s: Seq<SynNode>,
    t: Seq<char>,
    m: Option<Seq<char>>,
) -> (Seq<char>, Option<Seq<char>>)
    decreases s.len(),
{
    if s.len() == 0 {
        (t, m)
    } else {
        let c = s[0];
        let t1 = if c.kind@ == "call"@ {
            match spec_child_by_field(c.children@, "function"@) {
                Some(f) => f.text@,
                None => t,
            }
        } else if c.kind@ == "identifier"@ || c.kind@ == "attribute"@ {
            c.text@
        } else {
            t
        };
        let m1 = if c.kind@ == "call"@ {
            match spec_child_by_field(c.children@, "arguments"@) {
                Some(a) => spec_first_string_arg(a),
                None => m,
            }
        } else {
            m
        };
        spec_raise_fields(s.skip(1), t1, m1)
    }
}

/// The first string literal among an argument list's children, with
/// surrounding quote characters stripped.
pub open spec fn spec_first_string_arg(args: SynNode) -> Option<Seq<char>> {
    match spec_first_of_kind(args.children@, "string"@) {
        Some(n) => Some(spec_trim_quotes(n.text@)),
        None => None,
    }
}

/// What one in-range raise construct yields: the type name found among its
/// children, or the re-raise sentinel when none is there.
pub open spec fn spec_parse_raise(node: SynNode, file: Seq<char>, cond: Option<Seq<char>>) -> RaiseRec {
    let (t, m) = spec_raise_fields(node.children@, Seq::<char>::empty(), None);
    let ty = if t.len() == 0 {
        "(re-raise)"@
    } else {
        t
    };
    RaiseRec {
        exception_type: ty,
        qualified_type: ty,
        file,
        line: spec_line_of_row(node.row),
        col: Some(node.col),
        condition: cond,
        message: m,
    }
}

/// Every raise site in the subtree at `node`, in source order. A raise
/// construct outside the line range is skipped together with its subtree;
/// any other node's children are always visited.
pub open spec fn spec_raises(
    node: SynNode,
    file: Seq<char>,
    rng: Option<(u32, u32)>,
    cond: Option<Seq<char>>,
) -> Seq<RaiseRec>
    decreases node,
{
    if node.kind@ == "raise_statement"@ && !spec_in_range(node.row, rng) {
        Seq::<RaiseRec>::empty()
    } else {
        let own = if node.kind@ == "raise_statement"@ {
            seq![spec_parse_raise(node, file, cond)]
        } else {
            Seq::<RaiseRec>::empty()
        };
        own + spec_raises_seq(node.children@, file, rng, spec_child_cond(node, cond))
    }
}

pub open spec fn spec_raises_seq(
    s: Seq<SynNode>,
    file: Seq<char>,
    rng: Option<(u32, u32)>,
    cond: Option<Seq<char>>,
) -> Seq<RaiseRec>
    decreases s,
{
    if s.len() == 0 {
        Seq::<RaiseRec>::empty()
    } else {
        spec_raises(s[0], file, rng, cond) + spec_raises_seq(s.skip(1), file, rng, cond)
    }
}

fn first_string_arg(args: &SynNode) -> (r: Option<String>)
    ensures
        r.deep_view() == spec_first_string_arg(*args),
{
    match args.first_child_of_kind("string") {
        Some(n) => Some(trim_quotes(n.text.as_str())),
        None => None,
    }
}

/// Reads one raise construct: the exception-type name from a constructor
/// call, bare name or dotted name among its children, the first string
/// argument as the message, and the inherited guarding condition.
fn parse_raise_statement(node: &SynNode, path: &str, cond: &Option<String>) -> (r: RaiseStatement)
    ensures
        raise_rec(r) == spec_parse_raise(*node, path@, cond.deep_view()),
        fresh_raise(r),
{
    let mut ty = String::new();
    let mut msg: Option<String> = None;
    let n = node.children.len();
    let mut i: usize = 0;
    proof {
        assert(node.children@.skip(0) =~= node.children@);
    }
    while i < n
        invariant
            n == node.children@.len(),
            i <= n,
            spec_raise_fields(node.children@, Seq::<char>::empty(), None) == spec_raise_fields(
                node.children@.skip(i as int),
                ty@,
                msg.deep_view(),
            ),
        decreases n - i,
    {
        let c = &node.children[i];
        proof {
            assert(node.children@.skip(i as int)[0] == node.children@[i as int]);
            assert(node.children@.skip(i as int).skip(1) =~= node.children@.skip(i + 1));
        }
        if c.is_kind("call") {
            if let Some(f) = c.child_by_field("function") {
                ty = f.text.clone();
            }
            if let Some(a) = c.child_by_field("arguments") {
                msg = first_string_arg(a);
            }
        } else if c.is_kind("identifier") || c.is_kind("attribute") {
            ty = c.text.clone();
        }
        i = i + 1;
    }
    if ty.as_str().is_empty() {
        proof {
            reveal_strlit("(re-raise)");
        }
        ty = String::new();
        ty.append("(re-raise)");
    }
    let location = CodeLocation::new(path.to_owned(), node.line()).with_column(node.col);
    let mut stmt = RaiseStatement::new(ty.clone(), ty, location);
    if let Some(m) = msg {
        stmt = stmt.with_message(m);
    }
    if let Some(cd) = cond {
        stmt = stmt.with_condition(cd.clone());
    }
    stmt
}

fn extract_raises_rec(
    node: &SynNode,
    path: &str,
    rng: &Option<(u32, u32)>,
    cond: &Option<String>,
    out: &mut Vec<RaiseStatement>,
)
    ensures
        final(out)@.len() == old(out)@.len() + spec_raises(
            *node,
            path@,
            *rng,
            cond.deep_view(),
        ).len(),
        forall|k: int| 0 <= k < old(out)@.len() ==> final(out)@[k] == old(out)@[k],
        raise_recs(final(out)@.skip(old(out)@.len() as int)) == spec_raises(
            *node,
            path@,
            *rng,
            cond.deep_view(),
        ),
        forall|k: int|
            old(out)@.len() <= k < final(out)@.len() ==> #[trigger] fresh_raise(final(out)@[k]),
    decreases *node,
{
    let ghost total = spec_raises(*node, path@, *rng, cond.deep_view());
    let ghost orig = out@;
    if node.is_kind("raise_statement") && !node.in_range(rng) {
        proof {
            assert(raise_recs(out@.skip(out@.len() as int)) =~= total);
        }
        return ;
    }
    if node.is_kind("raise_statement") {
        let stmt = parse_raise_statement(node, path, cond);
        out.push(stmt);
    }
    let next_cond: Option<String> = if node.is_kind("if_statement") {
        match node.child_by_field("condition") {
            Some(c) => Some(c.text.clone()),
            None => match cond {
                Some(s) => Some(s.clone()),
                None => None,
            },
        }
    } else {
        match cond {
            Some(s) => Some(s.clone()),
            None => None,
        }
    };
    let ghost ccond = spec_child_cond(*node, cond.deep_view());
    let ghost own_seq = if node.kind@ == "raise_statement"@ {
        seq![spec_parse_raise(*node, path@, cond.deep_view())]
    } else {
        Seq::<RaiseRec>::empty()
    };
    let ghost base = out@;
    proof {
        assert(next_cond.deep_view() == ccond);
        assert(node.children@.skip(0) =~= node.children@);
        assert(raise_recs(base.skip(base.len() as int)) =~= Seq::<RaiseRec>::empty());
        assert(base.skip(orig.len() as int) =~= if orig.len() < base.len() {
            seq![base[orig.len() as int]]
        } else {
            Seq::<RaiseStatement>::empty()
        });
        assert(raise_recs(base.skip(orig.len() as int)) =~= own_seq);
        assert(total == own_seq + spec_raises_seq(node.children@, path@, *rng, ccond));
    }
    let n = node.children.len();
    let mut i: usize = 0;
    while i < n
        invariant
            n == node.children@.len(),
            i <= n,
            out@.len() >= base.len() >= orig.len(),
            next_cond.deep_view() == ccond,
            forall|k: int| 0 <= k < base.len() ==> out@[k] == base[k],
            forall|k: int| 0 <= k < orig.len() ==> base[k] == orig[k],
            forall|k: int| orig.len() <= k < out@.len() ==> #[trigger] fresh_raise(out@[k]),
            raise_recs(base.skip(orig.len() as int)) == own_seq,
            total == own_seq + spec_raises_seq(node.children@, path@, *rng, ccond),
            raise_recs(out@.skip(base.len() as int)) + spec_raises_seq(
                node.children@.skip(i as int),
                path@,
                *rng,
                ccond,
            ) == spec_raises_seq(node.children@, path@, *rng, ccond),
        decreases n - i,
    {
        let ghost before = out@;
        extract_raises_rec(&node.children[i], path, rng, &next_cond, out);
        proof {
            let skip_i = node.children@.skip(i as int);
            assert(skip_i[0] == node.children@[i as int]);
            assert(skip_i.skip(1) =~= node.children@.skip(i + 1));
            let added = spec_raises(node.children@[i as int], path@, *rng, ccond);
            assert(raise_recs(out@.skip(before.len() as int)) == added);
            assert(spec_raises_seq(skip_i, path@, *rng, ccond) == added + spec_raises_seq(
                node.children@.skip(i + 1),
                path@,
                *rng,
                ccond,
            ));
            assert(out@.skip(base.len() as int) =~= before.skip(base.len() as int) + out@.skip(
                before.len() as int,
            ));
            assert(raise_recs(out@.skip(base.len() as int)) =~= raise_recs(
                before.skip(base.len() as int),
            ) + raise_recs(out@.skip(before.len() as int)));
            assert(raise_recs(out@.skip(base.len() as int)) + spec_raises_seq(
                node.children@.skip(i + 1),
                path@,
                *rng,
                ccond,
            ) =~= raise_recs(before.skip(base.len() as int)) + spec_raises_seq(
                skip_i,
                path@,
                *rng,
                ccond,
            ));
        }
        i = i + 1;
    }
    proof {
        assert(node.children@.skip(n as int) =~= Seq::<SynNode>::empty());
        assert(spec_raises_seq(Seq::<SynNode>::empty(), path@, *rng, ccond)
            =~= Seq::<RaiseRec>::empty());
        assert(raise_recs(out@.skip(base.len() as int)) =~= spec_raises_seq(
            node.children@,
            path@,
            *rng,
            ccond,
        ));
        assert(out@.skip(orig.len() as int) =~= base.skip(orig.len() as int)
            + out@.skip(base.len() as int));
        assert(raise_recs(out@.skip(orig.len() as int)) =~= raise_recs(
            base.skip(orig.len() as int),
        ) + raise_recs(out@.skip(base.len() as int)));
        assert(raise_recs(out@.skip(orig.len() as int)) =~= total);
        assert(forall|k: int| 0 <= k < orig.len() ==> out@[k] == orig[k]);
    }
}

/// Every raise site in the whole tree, in source order.
pub fn extract_raises(tree: &SynNode, path: &str) -> (r: Vec<RaiseStatement>)
    ensures
        raise_recs(r@) == spec_raises(*tree, path@, None, None),
        forall|k: int| 0 <= k < r@.len() ==> #[trigger] fresh_raise(r@[k]),
{
    let mut out: Vec<RaiseStatement> = Vec::new();
    let rng: Option<(u32, u32)> = None;
    let cond: Option<String> = None;
    extract_raises_rec(tree, path, &rng, &cond, &mut out);
    proof {
        assert(out@.skip(0) =~= out@);
    }
    out
}

/// Every raise site whose construct starts inside the inclusive 1-based
/// line range.
pub fn extract_raises_in_range(tree: &SynNode, path: &str, line_start: u32, line_end: u32) -> (r:
    Vec<RaiseStatement>)
    ensures
        raise_recs(r@) == spec_raises(*tree, path@, Some((line_start, line_end)), None),
        forall|k: int| 0 <= k < r@.len() ==> #[trigger] fresh_raise(r@[k]),
{
    let mut out: Vec<RaiseStatement> = Vec::new();
    let rng: Option<(u32, u32)> = Some((line_start, line_end));
    let cond: Option<String> = None;
    extract_raises_rec(tree, path, &rng, &cond, &mut out);
    proof {
        assert(out@.skip(0) =~= out@);
    }
    out
}

/// Folds a return construct's children: whether any child besides the
/// keyword carries a value, and whether one of them is the `None` literal.
pub open spec fn spec_return_flags(s: Seq<SynNode>, has_value: bool, explicit: bool) -> (
    bool,
    bool,
)
    decreases s.len(),
{
    if s.len() == 0 {
        (has_value, explicit)
    } else {
        let c = s[0];
        let hv = if c.kind@ != "return"@ {
            true
        } else {
            has_value
        };
        let ex = if c.kind@ != "return"@ && c.kind@ == "none"@ {
            true
        } else {
            explicit
        };
        spec_return_flags(s.skip(1), hv, ex)
    }
}

/// What one in-range return construct yields: an explicit-return source
/// for `return None`, an implicit-return source for a bare `return`, and
/// nothing when a value other than the `None` literal is returned.
pub open spec fn spec_parse_return_none(
    node: SynNode,
    file: Seq<char>,
    cond: Option<Seq<char>>,
) -> Option<NoneRec> {
    let (has_value, explicit) = spec_return_flags(node.children@, false, false);
    if explicit {
        Some(
            NoneRec {
                kind: NoneSourceKind::ExplicitReturn,
                file,
                line: spec_line_of_row(node.row),
                col: Some(node.col),
                condition: cond,
            },
        )
    } else if !has_value {
        Some(
            NoneRec {
                kind: NoneSourceKind::ImplicitReturn,
                file,
                line: spec_line_of_row(node.row),
                col: Some(node.col),
                condition: cond,
            },
        )
    } else {
        None
    }
}

/// What one in-range call construct yields: a `None` source when its
/// callee is an attribute access whose method name is one of the fixed
/// set that may hand back an absent value.
pub open spec fn spec_check_none_call(
    node: SynNode,
    file: Seq<char>,
    cond: Option<Seq<char>>,
) -> Option<NoneRec> {
    match spec_child_by_field(node.children@, "function"@) {
        Some(f) => if f.kind@ == "attribute"@ {
            match spec_child_by_field(f.children@, "attribute"@) {
                Some(m) => {
                    let t = m.text@;
                    if t == "get"@ || t == "getattr"@ {
                        Some(
                            NoneRec {
                                kind: NoneSourceKind::CollectionAccess,
                                file,
                                line: spec_line_of_row(node.row),
                                col: Some(node.col),
                                condition: cond,
                            },
                        )
                    } else if t == "pop"@ || t == "setdefault"@ {
                        Some(
                            NoneRec {
                                kind: NoneSourceKind::FunctionCall,
                                file,
                                line: spec_line_of_row(node.row),
                                col: Some(node.col),
                                condition: cond,
                            },
                        )
                    } else {
                        None
                    }
                },
                None => None,
            }
        } else {
            None
        },
        None => None,
    }
}

/// Every `None` source in the subtree at `node`, in source order. A node
/// outside the line range contributes nothing itself, but its children are
/// still visited.
pub open spec fn spec_nones(
    node: SynNode,
    file: Seq<char>,
    rng: Option<(u32, u32)>,
    cond: Option<Seq<char>>,
) -> Seq<NoneRec>
    decreases node,
{
    let found = if spec_in_range(node.row, rng) {
        if node.kind@ == "return_statement"@ {
            spec_parse_return_none(node, file, cond)
        } else if node.kind@ == "call"@ {
            spec_check_none_call(node, file, cond)
        } else {
            None
        }
    } else {
        None
    };
    let own = match found {
        Some(rec) => seq![rec],
        None => Seq::<NoneRec>::empty(),
    };
    own + spec_nones_seq(node.children@, file, rng, spec_child_cond(node, cond))
}

pub open spec fn spec_nones_seq(
    s: Seq<SynNode>,
    file: Seq<char>,
    rng: Option<(u32, u32)>,
    cond: Option<Seq<char>>,
) -> Seq<NoneRec>
    decreases s,
{
    if s.len() == 0 {
        Seq::<NoneRec>::empty()
    } else {
        spec_nones(s[0], file, rng, cond) + spec_nones_seq(s.skip(1), file, rng, cond)
    }
}

/// Builds the `None` source for one node once its kind is settled.
fn make_none_source(
    kind: NoneSourceKind,
    node: &SynNode,
    path: &str,
    cond: &Option<String>,
) -> (r: NoneSource)
    ensures
        none_rec(r) == (NoneRec {
            kind,
            file: path@,
            line: spec_line_of_row(node.row),
            col: Some(node.col),
            condition: cond.deep_view(),
        }),
        fresh_none(r),
{
    let location = CodeLocation::new(path.to_owned(), node.line()).with_column(node.col);
    let mut source = NoneSource::new(kind, location);
    if let Some(cd) = cond {
        source = source.with_condition(cd.clone());
    }
    source
}

/// Reads one return construct, as `spec_parse_return_none` describes.
fn parse_return_none(node: &SynNode, path: &str, cond: &Option<String>) -> (r: Option<NoneSource>)
    ensures
        r matches Some(s) ==> Some(none_rec(s)) == spec_parse_return_none(
            *node,
            path@,
            cond.deep_view(),
        ) && fresh_none(s),
        r is None ==> spec_parse_return_none(*node, path@, cond.deep_view()) is None,
{
    let mut has_value = false;
    let mut explicit = false;
    let n = node.children.len();
    let mut i: usize = 0;
    proof {
        assert(node.children@.skip(0) =~= node.children@);
    }
    while i < n
        invariant
            n == node.children@.len(),
            i <= n,
            spec_return_flags(node.children@, false, false) == spec_return_flags(
                node.children@.skip(i as int),
                has_value,
                explicit,
            ),
        decreases n - i,
    {
        let c = &node.children[i];
        proof {
            assert(node.children@.skip(i as int)[0] == node.children@[i as int]);
            assert(node.children@.skip(i as int).skip(1) =~= node.children@.skip(i + 1));
        }
        if !c.is_kind("return") {
            has_value = true;
            if c.is_kind("none") {
                explicit = true;
            }
        }
        i = i + 1;
    }
    if explicit {
        Some(make_none_source(NoneSourceKind::ExplicitReturn, node, path, cond))
    } else if !has_value {
        Some(make_none_source(NoneSourceKind::ImplicitReturn, node, path, cond))
    } else {
        None
    }
}

/// Reads one call construct, as `spec_check_none_call` describes.
fn check_none_returning_call(node: &SynNode, path: &str, cond: &Option<String>) -> (r: Option<
    NoneSource,
>)
    ensures
        r matches Some(s) ==> Some(none_rec(s)) == spec_check_none_call(
            *node,
            path@,
            cond.deep_view(),
        ) && fresh_none(s),
        r is None ==> spec_check_none_call(*node, path@, cond.deep_view()) is None,
{
    match node.child_by_field("function") {
        Some(f) => {
            if f.is_kind("attribute") {
                match f.child_by_field("attribute") {
                    Some(m) => {
                        let t = m.text.as_str();
                        if crate::strutil::str_eq(t, "get") || crate::strutil::str_eq(
                            t,
                            "getattr",
                        ) {
                            Some(make_none_source(NoneSourceKind::CollectionAccess, node, path, cond))
                        } else if crate::strutil::str_eq(t, "pop") || crate::strutil::str_eq(
                            t,
                            "setdefault",
                        ) {
                            Some(make_none_source(NoneSourceKind::FunctionCall, node, path, cond))
                        } else {
                            None
                        }
                    },
                    None => None,
                }
            } else {
                None
            }
        },
        None => None,
    }
}

fn extract_nones_rec(
    node: &SynNode,
    path: &str,
    rng: &Option<(u32, u32)>,
    cond: &Option<String>,
    out: &mut Vec<NoneSource>,
)
    ensures
        final(out)@.len() == old(out)@.len() + spec_nones(
            *node,
            path@,
            *rng,
            cond.deep_view(),
        ).len(),
        forall|k: int| 0 <= k < old(out)@.len() ==> final(out)@[k] == old(out)@[k],
        none_recs(final(out)@.skip(old(out)@.len() as int)) == spec_nones(
            *node,
            path@,
            *rng,
            cond.deep_view(),
        ),
        forall|k: int|
            old(out)@.len() <= k < final(out)@.len() ==> #[trigger] fresh_none(final(out)@[k]),
    decreases *node,
{
    let ghost total = spec_nones(*node, path@, *rng, cond.deep_view());
    let ghost orig = out@;
    let in_rng = node.in_range(rng);
    if in_rng && node.is_kind("return_statement") {
        if let Some(source) = parse_return_none(node, path, cond) {
            out.push(source);
        }
    } else if in_rng && node.is_kind("call") {
        if let Some(source) = check_none_returning_call(node, path, cond) {
            out.push(source);
        }
    }
    let next_cond: Option<String> = if node.is_kind("if_statement") {
        match node.child_by_field("condition") {
            Some(c) => Some(c.text.clone()),
            None => match cond {
                Some(s) => Some(s.clone()),
                None => None,
            },
        }
    } else {
        match cond {
            Some(s) => Some(s.clone()),
            None => None,
        }
    };
    let ghost ccond = spec_child_cond(*node, cond.deep_view());
    let ghost own_seq = match (if spec_in_range(node.row, *rng) {
        if node.kind@ == "return_statement"@ {
            spec_parse_return_none(*node, path@, cond.deep_view())
        } else if node.kind@ == "call"@ {
            spec_check_none_call(*node, path@, cond.deep_view())
        } else {
            None
        }
    } else {
        None
    }) {
        Some(rec) => seq![rec],
        None => Seq::<NoneRec>::empty(),
    };
    let ghost base = out@;
    proof {
        assert(next_cond.deep_view() == ccond);
        assert(node.children@.skip(0) =~= node.children@);
        assert(none_recs(base.skip(base.len() as int)) =~= Seq::<NoneRec>::empty());
        assert(base.skip(orig.len() as int) =~= if orig.len() < base.len() {
            seq![base[orig.len() as int]]
        } else {
            Seq::<NoneSource>::empty()
        });
        assert(none_recs(base.skip(orig.len() as int)) =~= own_seq);
        assert(total == own_seq + spec_nones_seq(node.children@, path@, *rng, ccond));
    }
    let n = node.children.len();
    let mut i: usize = 0;
    while i < n
        invariant
            n == node.children@.len(),
            i <= n,
            out@.len() >= base.len() >= orig.len(),
            next_cond.deep_view() == ccond,
            forall|k: int| 0 <= k < base.len() ==> out@[k] == base[k],
            forall|k: int| 0 <= k < orig.len() ==> base[k] == orig[k],
            forall|k: int| orig.len() <= k < out@.len() ==> #[trigger] fresh_none(out@[k]),
            none_recs(base.skip(orig.len() as int)) == own_seq,
            total == own_seq + spec_nones_seq(node.children@, path@, *rng, ccond),
            none_recs(out@.skip(base.len() as int)) + spec_nones_seq(
                node.children@.skip(i as int),
                path@,
                *rng,
                ccond,
            ) == spec_nones_seq(node.children@, path@, *rng, ccond),
        decreases n - i,
    {
        let ghost before = out@;
        extract_nones_rec(&node.children[i], path, rng, &next_cond, out);
        proof {
            let skip_i = node.children@.skip(i as int);
            assert(skip_i[0] == node.children@[i as int]);
            assert(skip_i.skip(1) =~= node.children@.skip(i + 1));
            let added = spec_nones(node.children@[i as int], path@, *rng, ccond);
            assert(none_recs(out@.skip(before.len() as int)) == added);
            assert(spec_nones_seq(skip_i, path@, *rng, ccond) == added + spec_nones_seq(
                node.children@.skip(i + 1),
                path@,
                *rng,
                ccond,
            ));
            assert(out@.skip(base.len() as int) =~= before.skip(base.len() as int) + out@.skip(
                before.len() as int,
            ));
            assert(none_recs(out@.skip(base.len() as int)) =~= none_recs(
                before.skip(base.len() as int),
            ) + none_recs(out@.skip(before.len() as int)));
            assert(none_recs(out@.skip(base.len() as int)) + spec_nones_seq(
                node.children@.skip(i + 1),
                path@,
                *rng,
                ccond,
            ) =~= none_recs(before.skip(base.len() as int)) + spec_nones_seq(
                skip_i,
                path@,
                *rng,
                ccond,
            ));
        }
        i = i + 1;
    }
    proof {
        assert(node.children@.skip(n as int) =~= Seq::<SynNode>::empty());
        assert(spec_nones_seq(Seq::<SynNode>::empty(), path@, *rng, ccond)
            =~= Seq::<NoneRec>::empty());
        assert(none_recs(out@.skip(base.len() as int)) =~= spec_nones_seq(
            node.children@,
            path@,
            *rng,
            ccond,
        ));
        assert(out@.skip(orig.len() as int) =~= base.skip(orig.len() as int) + out@.skip(
            base.len() as int,
        ));
        assert(none_recs(out@.skip(orig.len() as int)) =~= none_recs(base.skip(orig.len() as int))
            + none_recs(out@.skip(base.len() as int)));
        assert(none_recs(out@.skip(orig.len() as int)) =~= total);
        assert(forall|k: int| 0 <= k < orig.len() ==> out@[k] == orig[k]);
    }
}

/// Every `None` source in the whole tree, in source order.
pub fn extract_none_sources(tree: &SynNode, path: &str) -> (r: Vec<NoneSource>)
    ensures
        none_recs(r@) == spec_nones(*tree, path@, None, None),
        forall|k: int| 0 <= k < r@.len() ==> #[trigger] fresh_none(r@[k]),
{
    let mut out: Vec<NoneSource> = Vec::new();
    let rng: Option<(u32, u32)> = None;
    let cond: Option<String> = None;
    extract_nones_rec(tree, path, &rng, &cond, &mut out);
    proof {
        assert(out@.skip(0) =~= out@);
    }
    out
}

/// Every `None` source whose node starts inside the inclusive 1-based
/// line range.
pub fn extract_none_sources_in_range(
    tree: &SynNode,
    path: &str,
    line_start: u32,
    line_end: u32,
) -> (r: Vec<NoneSource>)
    ensures
        none_recs(r@) == spec_nones(*tree, path@, Some((line_start, line_end)), None),
        forall|k: int| 0 <= k < r@.len() ==> #[trigger] fresh_none(r@[k]),
{
    let mut out: Vec<NoneSource> = Vec::new();
    let rng: Option<(u32, u32)> = Some((line_start, line_end));
    let cond: Option<String> = None;
    extract_nones_rec(tree, path, &rng, &cond, &mut out);
    proof {
        assert(out@.skip(0) =~= out@);
    }
    out
}

/// What is known about the function whose body is being read, for turning
/// callee text into qualified names: the module it stands in, the class it
/// belongs to if it is a method, and the file's import bindings.
pub struct CallContext {
    pub current_module: String,
    pub current_class: Option<String>,
    pub imports: StrMap<String>,
}

impl CallContext {
    pub fn new() -> (r: Self)
        ensures
            r.current_module@.len() == 0,
            r.current_class is None,
            r.imports@ == Map::<Seq<char>, String>::empty(),
    {
        CallContext { current_module: String::new(), current_class: None, imports: StrMap::new() }
    }
}

/// The facts of a call context, as plain mathematical values.
pub struct CtxRec {
    pub module: Seq<char>,
    pub class: Option<Seq<char>>,
    pub imports: Map<Seq<char>, Seq<char>>,
}

pub open spec fn ctx_rec(c: CallContext) -> CtxRec {
    CtxRec {
        module: c.current_module@,
        class: c.current_class.deep_view(),
        imports: smap_deep(c.imports),
    }
}

/// The qualification rule for one callee text: a `self.` call is rewritten
/// through the current class, a callee whose first segment is an import
/// binding is rewritten through it, a bare name is prefixed with the
/// current module, and anything else passes through unchanged.
pub open spec fn spec_qualify(name: Seq<char>, ctx: CtxRec) -> Seq<char> {
    let parts = spec_split(name, '.');
    if parts[0] == "self"@ {
        match ctx.class {
            Some(cls) => {
                let method = spec_join(parts.skip(1), seq!['.']);
                if method.len() == 0 {
                    name
                } else {
                    ctx.module + seq!['.'] + cls + seq!['.'] + method
                }
            },
            None => name,
        }
    } else if ctx.imports.dom().contains(parts[0]) {
        if parts.len() == 1 {
            ctx.imports[parts[0]]
        } else {
            ctx.imports[parts[0]] + seq!['.'] + spec_join(parts.skip(1), seq!['.'])
        }
    } else if parts.len() == 1 && ctx.module.len() > 0 {
        ctx.module + seq!['.'] + name
    } else {
        name
    }
}

/// Rewrites one callee text against the context, as `spec_qualify` says;
/// without a context the text passes through unchanged.
pub fn qualify_call(call_name: &str, context: Option<&CallContext>) -> (r: String)
    ensures
        r@ == match context {
            Some(c) => spec_qualify(call_name@, ctx_rec(*c)),
            None => call_name@,
        },
{
    proof {
        reveal_strlit("self");
        reveal_strlit(".");
        assert("."@ =~= seq!['.']);
    }
    let ctx = match context {
        Some(c) => c,
        None => {
            return call_name.to_owned();
        },
    };
    let parts = split_char(call_name, '.');
    proof {
        crate::strutil::lemma_split_len(call_name@, '.');
    }
    if str_eq(parts[0].as_str(), "self") {
        if let Some(cls) = &ctx.current_class {
            let rest = tail_from(&parts, 1);
            let method = join_str(&rest, ".");
            if method.as_str().is_empty() {
                return call_name.to_owned();
            }
            let mut r = ctx.current_module.clone();
            r.append(".");
            r.append(cls.as_str());
            r.append(".");
            r.append(method.as_str());
            proof {
                assert(r@ =~= spec_qualify(call_name@, ctx_rec(*ctx)));
            }
            return r;
        }
        return call_name.to_owned();
    }
    if let Some(qualified_base) = ctx.imports.get(parts[0].as_str()) {
        if parts.len() == 1 {
            return qualified_base.clone();
        }
        let rest = tail_from(&parts, 1);
        let tail_joined = join_str(&rest, ".");
        let mut r = qualified_base.clone();
        r.append(".");
        r.append(tail_joined.as_str());
        proof {
            assert(r@ =~= spec_qualify(call_name@, ctx_rec(*ctx)));
        }
        return r;
    }
    if parts.len() == 1 && !ctx.current_module.as_str().is_empty() {
        let mut r = ctx.current_module.clone();
        r.append(".");
        r.append(call_name);
        proof {
            assert(r@ =~= spec_qualify(call_name@, ctx_rec(*ctx)));
        }
        return r;
    }
    call_name.to_owned()
}

/// Every callee text in the subtree at `node` that starts inside the line
/// range, qualified against the context and deduplicated by first
/// occurrence; `acc` holds what has been collected so far.
pub open spec fn spec_calls(
    node: SynNode,
    rng: Option<(u32, u32)>,
    ctx: Option<CtxRec>,
    acc: Seq<Seq<char>>,
) -> Seq<Seq<char>>
    decreases node,
{
    let acc1 = if node.kind@ == "call"@ && spec_in_range(node.row, rng) {
        match spec_child_by_field(node.children@, "function"@) {
            Some(f) => {
                let q = match ctx {
                    Some(c) => spec_qualify(f.text@, c),
                    None => f.text@,
                };
                if acc.contains(q) {
                    acc
                } else {
                    acc.push(q)
                }
            },
            None => acc,
        }
    } else {
        acc
    };
    spec_calls_seq(node.children@, rng, ctx, acc1)
}

pub open spec fn spec_calls_seq(
    s: Seq<SynNode>,
    rng: Option<(u32, u32)>,
    ctx: Option<CtxRec>,
    acc: Seq<Seq<char>>,
) -> Seq<Seq<char>>
    decreases s,
{
    if s.len() == 0 {
        acc
    } else {
        spec_calls_seq(s.skip(1), rng, ctx, spec_calls(s[0], rng, ctx, acc))
    }
}

/// The context as a spec value, when one is given.
pub open spec fn spec_opt_ctx(ctx: Option<&CallContext>) -> Option<CtxRec> {
    match ctx {
        Some(c) => Some(ctx_rec(*c)),
        None => None,
    }
}

fn extract_calls_rec(
    node: &SynNode,
    rng: &Option<(u32, u32)>,
    context: Option<&CallContext>,
    out: &mut Vec<String>,
)
    ensures
        final(out).deep_view() == spec_calls(*node, *rng, spec_opt_ctx(context), old(
            out,
        ).deep_view()),
    decreases *node,
{
    let ghost orig = out.deep_view();
    if node.is_kind("call") && node.in_range(rng) {
        if let Some(f) = node.child_by_field("function") {
            let qualified = qualify_call(f.text.as_str(), context);
            if !vec_contains_str(out, qualified.as_str()) {
                out.push(qualified);
                proof {
                    assert(out.deep_view() =~= orig.push(out.deep_view().last()));
                }
            }
        }
    }
    let ghost acc1 = out.deep_view();
    let n = node.children.len();
    let mut i: usize = 0;
    proof {
        assert(node.children@.skip(0) =~= node.children@);
    }
    while i < n
        invariant
            n == node.children@.len(),
            i <= n,
            spec_calls_seq(node.children@.skip(i as int), *rng, spec_opt_ctx(context), out.deep_view())
                == spec_calls_seq(node.children@, *rng, spec_opt_ctx(context), acc1),
        decreases n - i,
    {
        proof {
            assert(node.children@.skip(i as int)[0] == node.children@[i as int]);
            assert(node.children@.skip(i as int).skip(1) =~= node.children@.skip(i + 1));
        }
        extract_calls_rec(&node.children[i], rng, context, out);
        i = i + 1;
    }
    proof {
        assert(node.children@.skip(n as int) =~= Seq::<SynNode>::empty());
    }
}

/// Every callee text in the whole tree, unqualified, deduplicated by first
/// occurrence.
pub fn extract_calls(tree: &SynNode) -> (r: Vec<String>)
    ensures
        r.deep_view() == spec_calls(*tree, None, None, Seq::<Seq<char>>::empty()),
{
    let mut out: Vec<String> = Vec::new();
    let rng: Option<(u32, u32)> = None;
    proof {
        assert(out.deep_view() =~= Seq::<Seq<char>>::empty());
    }
    extract_calls_rec(tree, &rng, None, &mut out);
    out
}

/// Every callee text inside the line range, unqualified.
pub fn extract_calls_in_range(tree: &SynNode, line_start: u32, line_end: u32) -> (r: Vec<String>)
    ensures
        r.deep_view() == spec_calls(
            *tree,
            Some((line_start, line_end)),
            None,
            Seq::<Seq<char>>::empty(),
        ),
{
    let mut out: Vec<String> = Vec::new();
    let rng: Option<(u32, u32)> = Some((line_start, line_end));
    proof {
        assert(out.deep_view() =~= Seq::<Seq<char>>::empty());
    }
    extract_calls_rec(tree, &rng, None, &mut out);
    out
}

/// Every callee text inside the line range, qualified against the context.
pub fn extract_calls_in_range_with_context(
    tree: &SynNode,
    line_start: u32,
    line_end: u32,
    context: &CallContext,
) -> (r: Vec<String>)
    ensures
        r.deep_view() == spec_calls(
            *tree,
            Some((line_start, line_end)),
            Some(ctx_rec(*context)),
            Seq::<Seq<char>>::empty(),
        ),
{
    let mut out: Vec<String> = Vec::new();
    let rng: Option<(u32, u32)> = Some((line_start, line_end));
    proof {
        assert(out.deep_view() =~= Seq::<Seq<char>>::empty());
    }
    extract_calls_rec(tree, &rng, Some(context), &mut out);
    out
}

/// The import table as a map over plain values.
pub open spec fn smap_deep(m: StrMap<String>) -> Map<Seq<char>, Seq<char>> {
    m@.map_values(|v: String| v@)
}

proof fn lemma_smap_deep_insert(m: Map<Seq<char>, String>, k: Seq<char>, v: String)
    ensures
        m.insert(k, v).map_values(|x: String| x@) == m.map_values(|x: String| x@).insert(k, v@),
{
    assert(m.insert(k, v).map_values(|x: String| x@) =~= m.map_values(|x: String| x@).insert(
        k,
        v@,
    ));
}

/// Folds a relative-import construct's children: the prefix dots, then the
/// dotted module name appended to them.
pub open spec fn spec_rel_fold(s: Seq<SynNode>, res: Seq<char>) -> Seq<char>
    decreases s.len(),
{
    if s.len() == 0 {
        res
    } else {
        let c = s[0];
        let r1 = if c.kind@ == "import_prefix"@ {
            c.text@
        } else if c.kind@ == "dotted_name"@ {
            if res.len() == 0 {
                c.text@
            } else {
                res + c.text@
            }
        } else {
            res
        };
        spec_rel_fold(s.skip(1), r1)
    }
}

/// The recorded source-module text of a relative import: its leading dots
/// followed by the dotted name, when one is there.
pub open spec fn spec_relative_import(node: SynNode) -> Seq<char> {
    spec_rel_fold(node.children@, Seq::<char>::empty())
}

/// The first child that is a dotted or bare name: the imported name of an
/// aliased import.
pub open spec fn spec_aliased_name(s: Seq<SynNode>) -> Option<Seq<char>>
    decreases s.len(),
{
    if s.len() == 0 {
        None
    } else if s[0].kind@ == "dotted_name"@ || s[0].kind@ == "identifier"@ {
        Some(s[0].text@)
    } else {
        spec_aliased_name(s.skip(1))
    }
}

/// The first bare name after the `as` keyword: the alias of an aliased
/// import.
pub open spec fn spec_aliased_alias(s: Seq<SynNode>, found_as: bool) -> Option<Seq<char>>
    decreases s.len(),
{
    if s.len() == 0 {
        None
    } else if s[0].kind@ == "as"@ {
        spec_aliased_alias(s.skip(1), true)
    } else if found_as && s[0].kind@ == "identifier"@ {
        Some(s[0].text@)
    } else {
        spec_aliased_alias(s.skip(1), found_as)
    }
}

/// The (name, alias) pair of an aliased import; an alias missing after
/// `as` falls back to the name itself.
pub open spec fn spec_aliased(node: SynNode) -> Option<(Seq<char>, Seq<char>)> {
    match spec_aliased_name(node.children@) {
        Some(n) => match spec_aliased_alias(node.children@, false) {
            Some(a) => Some((n, a)),
            None => Some((n, n)),
        },
        None => None,
    }
}

/// Folds an import-from construct's children into the source module text
/// and the list of (name, alias) pairs it binds.
pub open spec fn spec_from_fold(
    s: Seq<SynNode>,
    m: Seq<char>,
    ps: Seq<(Seq<char>, Option<Seq<char>>)>,
) -> (Seq<char>, Seq<(Seq<char>, Option<Seq<char>>)>)
    decreases s.len(),
{
    if s.len() == 0 {
        (m, ps)
    } else {
        let c = s[0];
        let next: (Seq<char>, Seq<(Seq<char>, Option<Seq<char>>)>) = if c.kind@
            == "dotted_name"@ {
            if m.len() == 0 {
                (c.text@, ps)
            } else {
                (m, ps.push((c.text@, None)))
            }
        } else if c.kind@ == "relative_import"@ {
            (spec_relative_import(c), ps)
        } else if c.kind@ == "aliased_import"@ {
            match spec_aliased(c) {
                Some((n, a)) => (m, ps.push((n, Some(a)))),
                None => (m, ps),
            }
        } else if c.kind@ == "identifier"@ {
            if c.text@ != "from"@ && c.text@ != "import"@ {
                (m, ps.push((c.text@, None)))
            } else {
                (m, ps)
            }
        } else {
            (m, ps)
        };
        spec_from_fold(s.skip(1), next.0, next.1)
    }
}

/// Binds each pair: the alias, or the name itself, maps to the source
/// module joined with the name by a dot.
pub open spec fn spec_insert_pairs(
    ps: Seq<(Seq<char>, Option<Seq<char>>)>,
    m: Seq<char>,
    acc: Map<Seq<char>, Seq<char>>,
) -> Map<Seq<char>, Seq<char>>
    decreases ps.len(),
{
    if ps.len() == 0 {
        acc
    } else {
        let nm = ps[0].0;
        let local = match ps[0].1 {
            Some(a) => a,
            None => nm,
        };
        spec_insert_pairs(ps.skip(1), m, acc.insert(local, m + seq!['.'] + nm))
    }
}

/// What one import-from construct adds to the import table.
pub open spec fn spec_import_from(node: SynNode, acc: Map<Seq<char>, Seq<char>>) -> Map<
    Seq<char>,
    Seq<char>,
> {
    let folded = spec_from_fold(node.children@, Seq::<char>::empty(), Seq::empty());
    spec_insert_pairs(folded.1, folded.0, acc)
}

/// What one plain import construct adds: each dotted name binds its last
/// segment, and each aliased import binds its alias.
pub open spec fn spec_plain_fold(s: Seq<SynNode>, acc: Map<Seq<char>, Seq<char>>) -> Map<
    Seq<char>,
    Seq<char>,
>
    decreases s.len(),
{
    if s.len() == 0 {
        acc
    } else {
        let c = s[0];
        let a1 = if c.kind@ == "dotted_name"@ {
            acc.insert(spec_split(c.text@, '.').last(), c.text@)
        } else if c.kind@ == "aliased_import"@ {
            match spec_aliased(c) {
                Some((n, a)) => acc.insert(a, n),
                None => acc,
            }
        } else {
            acc
        };
        spec_plain_fold(s.skip(1), a1)
    }
}

/// The import table that the subtree at `node` builds up, walking import
/// constructs in source order.
pub open spec fn spec_imports(node: SynNode, acc: Map<Seq<char>, Seq<char>>) -> Map<
    Seq<char>,
    Seq<char>,
>
    decreases node,
{
    let a1 = if node.kind@ == "import_from_statement"@ {
        spec_import_from(node, acc)
    } else if node.kind@ == "import_statement"@ {
        spec_plain_fold(node.children@, acc)
    } else {
        acc
    };
    spec_imports_seq(node.children@, a1)
}

pub open spec fn spec_imports_seq(s: Seq<SynNode>, acc: Map<Seq<char>, Seq<char>>) -> Map<
    Seq<char>,
    Seq<char>,
>
    decreases s,
{
    if s.len() == 0 {
        acc
    } else {
        spec_imports_seq(s.skip(1), spec_imports(s[0], acc))
    }
}

/// Reads a relative import's recorded module text.
fn relative_import_text(node: &SynNode) -> (r: String)
    ensures
        r@ == spec_relative_import(*node),
{
    let mut res = String::new();
    let n = node.children.len();
    let mut i: usize = 0;
    proof {
        assert(node.children@.skip(0) =~= node.children@);
    }
    while i < n
        invariant
            n == node.children@.len(),
            i <= n,
            spec_rel_fold(node.children@, Seq::<char>::empty()) == spec_rel_fold(
                node.children@.skip(i as int),
                res@,
            ),
        decreases n - i,
    {
        let c = &node.children[i];
        proof {
            assert(node.children@.skip(i as int)[0] == node.children@[i as int]);
            assert(node.children@.skip(i as int).skip(1) =~= node.children@.skip(i + 1));
        }
        if c.is_kind("import_prefix") {
            res = c.text.clone();
        } else if c.is_kind("dotted_name") {
            if res.as_str().is_empty() {
                res = c.text.clone();
            } else {
                res.append(c.text.as_str());
            }
        }
        i = i + 1;
    }
    res
}

/// Reads an aliased import's (name, alias) pair.
fn aliased_import_parts(node: &SynNode) -> (r: Option<(String, String)>)
    ensures
        match r {
            Some(p) => spec_aliased(*node) == Some((p.0@, p.1@)),
            None => spec_aliased(*node) is None,
        },
{
    let mut name: Option<String> = None;
    let n = node.children.len();
    let mut i: usize = 0;
    proof {
        assert(node.children@.skip(0) =~= node.children@);
    }
    while i < n
        invariant
            n == node.children@.len(),
            i <= n,
            match name {
                Some(nm) => spec_aliased_name(node.children@) == Some(nm@),
                None => spec_aliased_name(node.children@) == spec_aliased_name(
                    node.children@.skip(i as int),
                ),
            },
        decreases n - i,
    {
        proof {
            assert(node.children@.skip(i as int)[0] == node.children@[i as int]);
            assert(node.children@.skip(i as int).skip(1) =~= node.children@.skip(i + 1));
        }
        if name.is_none() {
            let c = &node.children[i];
            if c.is_kind("dotted_name") || c.is_kind("identifier") {
                name = Some(c.text.clone());
            }
        }
        i = i + 1;
    }
    let name = match name {
        Some(nm) => nm,
        None => {
            return None;
        },
    };
    let mut found_as = false;
    let mut alias: Option<String> = None;
    let mut j: usize = 0;
    proof {
        assert(node.children@.skip(0) =~= node.children@);
    }
    while j < n && alias.is_none()
        invariant
            n == node.children@.len(),
            j <= n,
            spec_aliased_name(node.children@) == Some(name@),
            match alias {
                Some(al) => spec_aliased_alias(node.children@, false) == Some(al@),
                None => spec_aliased_alias(node.children@, false) == spec_aliased_alias(
                    node.children@.skip(j as int),
                    found_as,
                ),
            },
        decreases n - j,
    {
        let c = &node.children[j];
        proof {
            assert(node.children@.skip(j as int)[0] == node.children@[j as int]);
            assert(node.children@.skip(j as int).skip(1) =~= node.children@.skip(j + 1));
        }
        if c.is_kind("as") {
            found_as = true;
        } else if found_as && c.is_kind("identifier") {
            alias = Some(c.text.clone());
        }
        j = j + 1;
    }
    match alias {
        Some(al) => Some((name, al)),
        None => {
            let al = name.clone();
            Some((name, al))
        },
    }
}

/// The entries of the collected (name, alias) list, as plain values.
pub open spec fn pairs_view(v: Seq<(String, Option<String>)>) -> Seq<(Seq<char>, Option<Seq<char>>)> {
    v.map_values(|p: (String, Option<String>)| (p.0@, p.1.deep_view()))
}

/// Reads one import-from construct into the import table.
fn parse_import_from(node: &SynNode, imports: &mut StrMap<String>)
    ensures
        smap_deep(*final(imports)) == spec_import_from(*node, smap_deep(*old(imports))),
{
    let mut module_name = String::new();
    let mut names: Vec<(String, Option<String>)> = Vec::new();
    let n = node.children.len();
    let mut i: usize = 0;
    proof {
        assert(node.children@.skip(0) =~= node.children@);
        assert(pairs_view(names@) =~= Seq::<(Seq<char>, Option<Seq<char>>)>::empty());
    }
    while i < n
        invariant
            n == node.children@.len(),
            i <= n,
            spec_from_fold(node.children@, Seq::<char>::empty(), Seq::empty())
                == spec_from_fold(node.children@.skip(i as int), module_name@, pairs_view(names@)),
        decreases n - i,
    {
        let c = &node.children[i];
        proof {
            reveal_strlit("from");
            reveal_strlit("import");
            assert(node.children@.skip(i as int)[0] == node.children@[i as int]);
            assert(node.children@.skip(i as int).skip(1) =~= node.children@.skip(i + 1));
        }
        if c.is_kind("dotted_name") {
            if module_name.as_str().is_empty() {
                module_name = c.text.clone();
            } else {
                let ghost pv = pairs_view(names@);
                names.push((c.text.clone(), None));
                proof {
                    assert(pairs_view(names@) =~= pv.push((c.text@, None)));
                }
            }
        } else if c.is_kind("relative_import") {
            module_name = relative_import_text(c);
        } else if c.is_kind("aliased_import") {
            if let Some((nm, al)) = aliased_import_parts(c) {
                let ghost pv = pairs_view(names@);
                let ghost nv = nm@;
                let ghost av = al@;
                names.push((nm, Some(al)));
                proof {
                    assert(pairs_view(names@) =~= pv.push((nv, Some(av))));
                }
            }
        } else if c.is_kind("identifier") {
            if !str_eq(c.text.as_str(), "from") && !str_eq(c.text.as_str(), "import") {
                let ghost pv = pairs_view(names@);
                names.push((c.text.clone(), None));
                proof {
                    assert(pairs_view(names@) =~= pv.push((c.text@, None)));
                }
            }
        }
        i = i + 1;
    }
    let m = names.len();
    let mut k: usize = 0;
    proof {
        assert(node.children@.skip(n as int) =~= Seq::<SynNode>::empty());
        assert(spec_from_fold(node.children@, Seq::<char>::empty(), Seq::empty()) == (
            module_name@,
            pairs_view(names@),
        ));
        assert(pairs_view(names@).skip(0) =~= pairs_view(names@));
    }
    while k < m
        invariant
            m == names@.len(),
            k <= m,
            spec_insert_pairs(
                pairs_view(names@).skip(k as int),
                module_name@,
                smap_deep(*imports),
            ) == spec_import_from(*node, smap_deep(*old(imports))),
        decreases m - k,
    {
        proof {
            reveal_strlit(".");
            assert("."@ =~= seq!['.']);
            assert(pairs_view(names@).skip(k as int)[0] == pairs_view(names@)[k as int]);
            assert(pairs_view(names@).skip(k as int).skip(1) =~= pairs_view(names@).skip(k + 1));
        }
        let (nm, al) = &names[k];
        let local: String = match al {
            Some(a) => a.clone(),
            None => nm.clone(),
        };
        let mut qualified = module_name.clone();
        qualified.append(".");
        qualified.append(nm.as_str());
        let ghost before = imports@;
        let ghost qv = qualified@;
        let ghost lv = local@;
        imports.insert(local, qualified);
        proof {
            assert(imports@ == before.insert(lv, imports@[lv]));
            assert(imports@[lv]@ == qv);
            assert(smap_deep(*imports) =~= before.map_values(|x: String| x@).insert(lv, qv));
            assert(qv =~= module_name@ + seq!['.'] + pairs_view(names@)[k as int].0);
        }
        k = k + 1;
    }
    proof {
        assert(pairs_view(names@).skip(m as int) =~= Seq::<(Seq<char>, Option<Seq<char>>)>::empty());
    }
}

/// Reads one plain import construct into the import table.
fn parse_import(node: &SynNode, imports: &mut StrMap<String>)
    ensures
        smap_deep(*final(imports)) == spec_plain_fold(node.children@, smap_deep(*old(imports))),
{
    let n = node.children.len();
    let mut i: usize = 0;
    proof {
        assert(node.children@.skip(0) =~= node.children@);
    }
    while i < n
        invariant
            n == node.children@.len(),
            i <= n,
            spec_plain_fold(node.children@.skip(i as int), smap_deep(*imports))
                == spec_plain_fold(node.children@, smap_deep(*old(imports))),
        decreases n - i,
    {
        let c = &node.children[i];
        proof {
            assert(node.children@.skip(i as int)[0] == node.children@[i as int]);
            assert(node.children@.skip(i as int).skip(1) =~= node.children@.skip(i + 1));
        }
        if c.is_kind("dotted_name") {
            let segs = split_char(c.text.as_str(), '.');
            let local = segs[segs.len() - 1].clone();
            let ghost before = imports@;
            let ghost lv = local@;
            let ghost tv = c.text@;
            imports.insert(local, c.text.clone());
            proof {
                assert(imports@ == before.insert(lv, imports@[lv]));
                assert(imports@[lv]@ == tv);
                assert(smap_deep(*imports) =~= before.map_values(|x: String| x@).insert(lv, tv));
                assert(lv == spec_split(c.text@, '.').last());
            }
        } else if c.is_kind("aliased_import") {
            if let Some((nm, al)) = aliased_import_parts(c) {
                let ghost before = imports@;
                let ghost nv = nm@;
                let ghost av = al@;
                imports.insert(al, nm);
                proof {
                    assert(imports@ == before.insert(av, imports@[av]));
                    assert(imports@[av]@ == nv);
                    assert(smap_deep(*imports) =~= before.map_values(|x: String| x@).insert(
                        av,
                        nv,
                    ));
                }
            }
        }
        i = i + 1;
    }
    proof {
        assert(node.children@.skip(n as int) =~= Seq::<SynNode>::empty());
    }
}

fn extract_imports_rec(node: &SynNode, imports: &mut StrMap<String>)
    ensures
        smap_deep(*final(imports)) == spec_imports(*node, smap_deep(*old(imports))),
    decreases *node,
{
    if node.is_kind("import_from_statement") {
        parse_import_from(node, imports);
    } else if node.is_kind("import_statement") {
        parse_import(node, imports);
    }
    let ghost a1 = smap_deep(*imports);
    let n = node.children.len();
    let mut i: usize = 0;
    proof {
        assert(node.children@.skip(0) =~= node.children@);
    }
    while i < n
        invariant
            n == node.children@.len(),
            i <= n,
            spec_imports_seq(node.children@.skip(i as int), smap_deep(*imports))
                == spec_imports_seq(node.children@, a1),
        decreases n - i,
    {
        proof {
            assert(node.children@.skip(i as int)[0] == node.children@[i as int]);
            assert(node.children@.skip(i as int).skip(1) =~= node.children@.skip(i + 1));
        }
        extract_imports_rec(&node.children[i], imports);
        i = i + 1;
    }
    proof {
        assert(node.children@.skip(n as int) =~= Seq::<SynNode>::empty());
    }
}

/// Why extraction failed.
#[derive(Debug)]
pub enum ExtractorError {
    QueryCompilation(String),
    ExtractionFailed(String),
}

/// Where an exception type is defined; the extractor alone has no symbol
/// index to consult, so it never knows.
pub fn find_exception_definition(_exc_type: &str) -> (r: Option<crate::types::CodeLocation>)
    ensures
        r is None,
{
    None
}

/// The import table of a whole file: every local binding that an import
/// construct introduces, mapped to the qualified name it stands for.
pub fn extract_imports(tree: &SynNode) -> (r: StrMap<String>)
    ensures
        smap_deep(r) == spec_imports(*tree, Map::<Seq<char>, Seq<char>>::empty()),
{
    let mut imports: StrMap<String> = StrMap::new();
    proof {
        assert(smap_deep(imports) =~= Map::<Seq<char>, Seq<char>>::empty());
    }
    extract_imports_rec(tree, &mut imports);
    imports
}

} // verus!
