//! The syntax-tree model: a parsed Python file as a tree of plain values.
//! Parsing itself is done by the tree-sitter library behind a trusted
//! boundary; everything that reads the tree is verified code over
//! `SynNode` values.

use vstd::prelude::*;
use crate::strutil::str_eq;

verus! {

/// One node of a parsed syntax tree: the grammar kind name, the field name
/// under which it hangs off its parent (empty when none), its 0-based
/// start row and column, its 0-based end row, the source text it spans,
/// and its children in source order.
pub struct SynNode {
    pub kind: String,
    pub field: String,
    pub row: u32,
    pub col: u32,
    pub end_row: u32,
    pub text: String,
    pub children: Vec<SynNode>,
}

/// The tree that parsing a given source text yields. Parsing is a pure
/// function of the text; this name records that, so that two parses of
/// the same content are known to agree.
pub uninterp spec fn parse_of(s: Seq<char>) -> Option<SynNode>;

/// Relies on tree_sitter::Parser::parse with the tree_sitter_python
/// grammar: parsing is deterministic in the source text, and yields None
/// only when the parser cannot be set up or gives no tree.
#[verifier::external_body]
pub fn parse_source(content: &str) -> (r: Option<SynNode>)
    ensures
        r == parse_of(content@),
{
    let mut parser = tree_sitter::Parser::new();
    if parser.set_language(&tree_sitter_python::LANGUAGE.into()).is_err() {
        return None;
    }
    match parser.parse(content, None) {
        Some(tree) => Some(conv_node(tree.root_node(), content, String::new())),
        None => None,
    }
}

/// The node type of the parsing library; it appears only while a freshly
/// parsed tree is being rebuilt as plain values.
#[verifier::external_type_specification]
#[verifier::external_body]
pub struct ExNode<'tree>(tree_sitter::Node<'tree>);

/// Relies on tree_sitter::Node's accessors (kind, child, child count,
/// field names, positions, byte range): copies the node and its children
/// into plain values, one for one.
#[verifier::external_body]
fn conv_node(node: tree_sitter::Node<'_>, content: &str, field: String) -> (r: SynNode) {
    let mut children = Vec::new();
    for i in 0..node.child_count() {
        if let Some(c) = node.child(i) {
            let f = node.field_name_for_child(i).unwrap_or("").to_string();
            children.push(conv_node(c, content, f));
        }
    }
    SynNode {
        kind: node.kind().to_string(), field,
        row: node.start_position().row as u32, col: node.start_position().column as u32,
        end_row: node.end_position().row as u32,
        text: content.get(node.byte_range()).unwrap_or("").to_string(), children,
    }
}

/// The first node in a sequence that hangs under the given field name.
pub open spec fn spec_child_by_field(s: Seq<SynNode>, name: Seq<char>) -> Option<SynNode>
    decreases s.len(),
{
    if s.len() == 0 {
        None
    } else if s[0].field@ == name {
        Some(s[0])
    } else {
        spec_child_by_field(s.skip(1), name)
    }
}

/// A node found by field name is an element of the sequence, which makes
/// recursion into it well founded.
pub proof fn lemma_child_by_field_index(s: Seq<SynNode>, name: Seq<char>)
    ensures
        match spec_child_by_field(s, name) {
            Some(c) => exists|i: int| 0 <= i < s.len() && s[i] == c,
            None => true,
        },
    decreases s.len(),
{
    if s.len() > 0 && s[0].field@ != name {
        lemma_child_by_field_index(s.skip(1), name);
        match spec_child_by_field(s, name) {
            Some(c) => {
                let i = choose|i: int| 0 <= i < s.skip(1).len() && s.skip(1)[i] == c;
                assert(s[i + 1] == c);
            },
            None => {},
        }
    }
}

/// The first node in a sequence of the given grammar kind.
pub open spec fn spec_first_of_kind(s: Seq<SynNode>, kind: Seq<char>) -> Option<SynNode>
    decreases s.len(),
{
    if s.len() == 0 {
        None
    } else if s[0].kind@ == kind {
        Some(s[0])
    } else {
        spec_first_of_kind(s.skip(1), kind)
    }
}

/// The 1-based line of a node with 0-based row `row`; a row at the top of
/// the type's range stays there rather than wrapping.
pub open spec fn spec_line_of_row(row: u32) -> u32 {
    if row == u32::MAX {
        u32::MAX
    } else {
        (row + 1) as u32
    }
}

/// Whether a node starting at `row` lies inside an optional inclusive
/// 1-based line range.
pub open spec fn spec_in_range(row: u32, rng: Option<(u32, u32)>) -> bool {
    match rng {
        Some((lo, hi)) => lo <= spec_line_of_row(row) && spec_line_of_row(row) <= hi,
        None => true,
    }
}

impl SynNode {
    /// The 1-based line on which this node starts.
    pub fn line(&self) -> (r: u32)
        ensures
            r == spec_line_of_row(self.row),
    {
        if self.row == u32::MAX {
            u32::MAX
        } else {
            self.row + 1
        }
    }

    /// Whether this node starts inside the optional inclusive line range.
    pub fn in_range(&self, rng: &Option<(u32, u32)>) -> (r: bool)
        ensures
            r == spec_in_range(self.row, *rng),
    {
        match rng {
            Some((lo, hi)) => {
                let line = self.line();
                *lo <= line && line <= *hi
            },
            None => true,
        }
    }

    /// The first child under the given field name, as the grammar labels
    /// children ("name", "body", "condition", and so on).
    pub fn child_by_field(&self, name: &str) -> (r: Option<&SynNode>)
        ensures
            match r {
                Some(c) => spec_child_by_field(self.children@, name@) == Some(*c),
                None => spec_child_by_field(self.children@, name@) is None,
            },
    {
        let n = self.children.len();
        let mut i: usize = 0;
        proof {
            assert(self.children@.skip(0) =~= self.children@);
        }
        while i < n
            invariant
                n == self.children@.len(),
                i <= n,
                spec_child_by_field(self.children@, name@) == spec_child_by_field(
                    self.children@.skip(i as int),
                    name@,
                ),
            decreases n - i,
        {
            if str_eq(self.children[i].field.as_str(), name) {
                proof {
                    assert(self.children@.skip(i as int)[0] == self.children@[i as int]);
                }
                return Some(&self.children[i]);
            }
            proof {
                assert(self.children@.skip(i as int)[0] == self.children@[i as int]);
                assert(self.children@.skip(i as int).skip(1) =~= self.children@.skip(i + 1));
            }
            i = i + 1;
        }
        None
    }

    /// The first child of the given grammar kind.
    pub fn first_child_of_kind(&self, kind: &str) -> (r: Option<&SynNode>)
        ensures
            match r {
                Some(c) => spec_first_of_kind(self.children@, kind@) == Some(*c),
                None => spec_first_of_kind(self.children@, kind@) is None,
            },
    {
        let n = self.children.len();
        let mut i: usize = 0;
        proof {
            assert(self.children@.skip(0) =~= self.children@);
        }
        while i < n
            invariant
                n == self.children@.len(),
                i <= n,
                spec_first_of_kind(self.children@, kind@) == spec_first_of_kind(
                    self.children@.skip(i as int),
                    kind@,
                ),
            decreases n - i,
        {
            if str_eq(self.children[i].kind.as_str(), kind) {
                proof {
                    assert(self.children@.skip(i as int)[0] == self.children@[i as int]);
                }
                return Some(&self.children[i]);
            }
            proof {
                assert(self.children@.skip(i as int)[0] == self.children@[i as int]);
                assert(self.children@.skip(i as int).skip(1) =~= self.children@.skip(i + 1));
            }
            i = i + 1;
        }
        None
    }

    /// Whether this node's grammar kind is the given name.
    pub fn is_kind(&self, name: &str) -> (r: bool)
        ensures
            r == (self.kind@ == name@),
    {
        str_eq(self.kind.as_str(), name)
    }
}

} // verus!
