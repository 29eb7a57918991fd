//! The data model: source locations, raise statements, sources of `None`
//! values, per-function analysis results, and the call graph.

use vstd::prelude::*;
use vstd::string::StringExecFns;
use crate::strutil::{spec_dec, u32_to_string};
use crate::strmap::StrMap;

verus! {

/// A place in a source file: path, 1-based line, optional column, and the
/// name of the enclosing function when it is known.
pub struct CodeLocation {
    pub file: String,
    pub line: u32,
    pub column: Option<u32>,
    pub containing_function: Option<String>,
}

impl Clone for CodeLocation {
    fn clone(&self) -> (r: Self)
        ensures
            r == *self,
    {
        CodeLocation {
            file: self.file.clone(),
            line: self.line,
            column: match &self.column {
                Some(c) => Some(*c),
                None => None,
            },
            containing_function: match &self.containing_function {
                Some(f) => Some(f.clone()),
                None => None,
            },
        }
    }
}

/// The short rendering of a location: `file:line`, with `:column` added
/// when a column is recorded.
pub open spec fn spec_location_short(loc: CodeLocation) -> Seq<char> {
    match loc.column {
        Some(c) => loc.file@ + seq![':'] + spec_dec(loc.line as nat) + seq![':'] + spec_dec(
            c as nat,
        ),
        None => loc.file@ + seq![':'] + spec_dec(loc.line as nat),
    }
}

impl CodeLocation {
    pub fn new(file: String, line: u32) -> (r: Self)
        ensures
            r.file == file,
            r.line == line,
            r.column is None,
            r.containing_function is None,
    {
        CodeLocation { file, line, column: None, containing_function: None }
    }

    pub fn with_column(self, column: u32) -> (r: Self)
        ensures
            r.file == self.file,
            r.line == self.line,
            r.column == Some(column),
            r.containing_function == self.containing_function,
    {
        CodeLocation { column: Some(column), ..self }
    }

    pub fn with_function(self, function: String) -> (r: Self)
        ensures
            r.file == self.file,
            r.line == self.line,
            r.column == self.column,
            r.containing_function == Some(function),
    {
        CodeLocation { containing_function: Some(function), ..self }
    }

    pub fn to_string_short(&self) -> (r: String)
        ensures
            r@ == spec_location_short(*self),
    {
        proof {
            reveal_strlit(":");
        }
        let mut r = self.file.clone();
        r.append(":");
        let line_str = u32_to_string(self.line);
        r.append(line_str.as_str());
        match &self.column {
            Some(c) => {
                r.append(":");
                let col_str = u32_to_string(*c);
                r.append(col_str.as_str());
                proof {
                    assert(r@ =~= spec_location_short(*self));
                }
                r
            },
            None => {
                proof {
                    assert(r@ =~= spec_location_short(*self));
                }
                r
            },
        }
    }
}

/// One syntactic raise site: the displayed exception-type name, a possibly
/// more qualified name, where it is raised, where the type is defined when
/// that could be resolved, the guarding condition's source text, and a
/// literal message argument.
pub struct RaiseStatement {
    pub exception_type: String,
    pub qualified_type: String,
    pub raise_location: CodeLocation,
    pub definition_location: Option<CodeLocation>,
    pub condition: Option<String>,
    pub message: Option<String>,
}

impl Clone for RaiseStatement {
    fn clone(&self) -> (r: Self)
        ensures
            r == *self,
    {
        RaiseStatement {
            exception_type: self.exception_type.clone(),
            qualified_type: self.qualified_type.clone(),
            raise_location: self.raise_location.clone(),
            definition_location: match &self.definition_location {
                Some(l) => Some(l.clone()),
                None => None,
            },
            condition: match &self.condition {
                Some(c) => Some(c.clone()),
                None => None,
            },
            message: match &self.message {
                Some(m) => Some(m.clone()),
                None => None,
            },
        }
    }
}

impl RaiseStatement {
    pub fn new(exception_type: String, qualified_type: String, raise_location: CodeLocation) -> (r:
        Self)
        ensures
            r.exception_type == exception_type,
            r.qualified_type == qualified_type,
            r.raise_location == raise_location,
            r.definition_location is None,
            r.condition is None,
            r.message is None,
    {
        RaiseStatement {
            exception_type,
            qualified_type,
            raise_location,
            definition_location: None,
            condition: None,
            message: None,
        }
    }

    pub fn with_definition(self, location: CodeLocation) -> (r: Self)
        ensures
            r == (RaiseStatement { definition_location: Some(location), ..self }),
    {
        RaiseStatement { definition_location: Some(location), ..self }
    }

    pub fn with_condition(self, condition: String) -> (r: Self)
        ensures
            r == (RaiseStatement { condition: Some(condition), ..self }),
    {
        RaiseStatement { condition: Some(condition), ..self }
    }

    pub fn with_message(self, message: String) -> (r: Self)
        ensures
            r == (RaiseStatement { message: Some(message), ..self }),
    {
        RaiseStatement { message: Some(message), ..self }
    }
}

/// The closed set of syntactic shapes that yield a `None` value. Only the
/// first four are populated by the extractor; the rest are reserved.
#[derive(Clone, Copy, PartialEq, Eq, Structural, Debug)]
pub enum NoneSourceKind {
    ExplicitReturn,
    ImplicitReturn,
    FunctionCall,
    CollectionAccess,
    AttributeAccess,
    ConditionalExpr,
    MatchArm,
}

/// The display name of each kind of `None` source.
pub open spec fn spec_none_kind_str(k: NoneSourceKind) -> Seq<char> {
    match k {
        NoneSourceKind::ExplicitReturn => "explicit return"@,
        NoneSourceKind::ImplicitReturn => "implicit return"@,
        NoneSourceKind::FunctionCall => "function call"@,
        NoneSourceKind::CollectionAccess => "collection access"@,
        NoneSourceKind::AttributeAccess => "attribute access"@,
        NoneSourceKind::ConditionalExpr => "conditional expression"@,
        NoneSourceKind::MatchArm => "match arm"@,
    }
}

impl NoneSourceKind {
    pub fn as_str(&self) -> (r: &'static str)
        ensures
            r@ == spec_none_kind_str(*self),
    {
        match self {
            NoneSourceKind::ExplicitReturn => "explicit return",
            NoneSourceKind::ImplicitReturn => "implicit return",
            NoneSourceKind::FunctionCall => "function call",
            NoneSourceKind::CollectionAccess => "collection access",
            NoneSourceKind::AttributeAccess => "attribute access",
            NoneSourceKind::ConditionalExpr => "conditional expression",
            NoneSourceKind::MatchArm => "match arm",
        }
    }
}

/// One syntactic origin of a possible `None` value.
pub struct NoneSource {
    pub kind: NoneSourceKind,
    pub location: CodeLocation,
    pub source_definition: Option<CodeLocation>,
    pub condition: Option<String>,
}

impl Clone for NoneSource {
    fn clone(&self) -> (r: Self)
        ensures
            r == *self,
    {
        NoneSource {
            kind: self.kind,
            location: self.location.clone(),
            source_definition: match &self.source_definition {
                Some(l) => Some(l.clone()),
                None => None,
            },
            condition: match &self.condition {
                Some(c) => Some(c.clone()),
                None => None,
            },
        }
    }
}

impl NoneSource {
    pub fn new(kind: NoneSourceKind, location: CodeLocation) -> (r: Self)
        ensures
            r.kind == kind,
            r.location == location,
            r.source_definition is None,
            r.condition is None,
    {
        NoneSource { kind, location, source_definition: None, condition: None }
    }

    pub fn with_source_definition(self, location: CodeLocation) -> (r: Self)
        ensures
            r == (NoneSource { source_definition: Some(location), ..self }),
    {
        NoneSource { source_definition: Some(location), ..self }
    }

    pub fn with_condition(self, condition: String) -> (r: Self)
        ensures
            r == (NoneSource { condition: Some(condition), ..self }),
    {
        NoneSource { condition: Some(condition), ..self }
    }
}

/// How risky a function looks, judged from how many exceptions and `None`
/// sources its analysis found.
#[derive(Clone, Copy, PartialEq, Eq, Structural, Debug)]
pub enum RiskLevel {
    Low,
    Medium,
    High,
}

/// The risk classification rule: ten exceptions or five `None` sources
/// rank high; five exceptions or two `None` sources rank medium.
pub open spec fn spec_risk_level(exc_count: nat, none_count: nat) -> RiskLevel {
    if exc_count >= 10 || none_count >= 5 {
        RiskLevel::High
    } else if exc_count >= 5 || none_count >= 2 {
        RiskLevel::Medium
    } else {
        RiskLevel::Low
    }
}

pub open spec fn spec_risk_str(r: RiskLevel) -> Seq<char> {
    match r {
        RiskLevel::Low => "Low"@,
        RiskLevel::Medium => "Medium"@,
        RiskLevel::High => "High"@,
    }
}

pub open spec fn spec_risk_emoji(r: RiskLevel) -> Seq<char> {
    match r {
        RiskLevel::Low => "\u{1F7E2}"@,
        RiskLevel::Medium => "\u{1F7E1}"@,
        RiskLevel::High => "\u{1F534}"@,
    }
}

impl RiskLevel {
    pub fn as_str(&self) -> (r: &'static str)
        ensures
            r@ == spec_risk_str(*self),
    {
        match self {
            RiskLevel::Low => "Low",
            RiskLevel::Medium => "Medium",
            RiskLevel::High => "High",
        }
    }

    pub fn emoji(&self) -> (r: &'static str)
        ensures
            r@ == spec_risk_emoji(*self),
    {
        match self {
            RiskLevel::Low => "\u{1F7E2}",
            RiskLevel::Medium => "\u{1F7E1}",
            RiskLevel::High => "\u{1F534}",
        }
    }
}

/// Everything one traversal discovered for a root function: its identity,
/// signature and location, the raise sites and `None` sources found in it
/// and in everything it transitively calls, the number of functions
/// visited, the deepest level reached, and the call chain that produced
/// each finding.
pub struct FunctionAnalysis {
    pub function_id: String,
    pub signature: String,
    pub location: CodeLocation,
    pub raises: Vec<RaiseStatement>,
    pub none_sources: Vec<NoneSource>,
    pub functions_traced: usize,
    pub call_depth: usize,
    pub call_chains: StrMap<Vec<String>>,
}

impl FunctionAnalysis {
    pub fn new(function_id: String, signature: String, location: CodeLocation) -> (r: Self)
        ensures
            r.function_id == function_id,
            r.signature == signature,
            r.location == location,
            r.raises@.len() == 0,
            r.none_sources@.len() == 0,
            r.functions_traced == 0,
            r.call_depth == 0,
            r.call_chains@ == Map::<Seq<char>, Vec<String>>::empty(),
    {
        FunctionAnalysis {
            function_id,
            signature,
            location,
            raises: Vec::new(),
            none_sources: Vec::new(),
            functions_traced: 0,
            call_depth: 0,
            call_chains: StrMap::new(),
        }
    }

    pub fn exception_count(&self) -> (r: usize)
        ensures
            r == self.raises@.len(),
    {
        self.raises.len()
    }

    pub fn none_source_count(&self) -> (r: usize)
        ensures
            r == self.none_sources@.len(),
    {
        self.none_sources.len()
    }

    pub fn risk_level(&self) -> (r: RiskLevel)
        ensures
            r == spec_risk_level(self.raises@.len(), self.none_sources@.len()),
    {
        let exc_count = self.exception_count();
        let none_count = self.none_source_count();
        if exc_count >= 10 || none_count >= 5 {
            RiskLevel::High
        } else if exc_count >= 5 || none_count >= 2 {
            RiskLevel::Medium
        } else {
            RiskLevel::Low
        }
    }
}

/// One indexed definition: where a function or class is defined.
pub struct FunctionDef {
    pub id: String,
    pub name: String,
    pub file: String,
    pub line_start: u32,
    pub line_end: u32,
    pub is_method: bool,
    pub parent_class: Option<String>,
}

/// What resolving a qualified name yields: the defining file and the span
/// of the definition inside it.
pub struct ResolvedFunction {
    pub file_path: String,
    pub function_name: String,
    pub line_start: u32,
    pub line_end: u32,
    pub is_method: bool,
    pub parent_class: Option<String>,
}

impl Clone for ResolvedFunction {
    fn clone(&self) -> (r: Self)
        ensures
            r == *self,
    {
        ResolvedFunction {
            file_path: self.file_path.clone(),
            function_name: self.function_name.clone(),
            line_start: self.line_start,
            line_end: self.line_end,
            is_method: self.is_method,
            parent_class: match &self.parent_class {
                Some(c) => Some(c.clone()),
                None => None,
            },
        }
    }
}

/// Who calls whom, in both directions.
pub struct CallGraph {
    pub calls: StrMap<Vec<String>>,
    pub called_by: StrMap<Vec<String>>,
}

impl CallGraph {
    pub fn new() -> (r: Self)
        ensures
            r.calls@ == Map::<Seq<char>, Vec<String>>::empty(),
            r.called_by@ == Map::<Seq<char>, Vec<String>>::empty(),
    {
        CallGraph { calls: StrMap::new(), called_by: StrMap::new() }
    }

    /// Records one edge, appending to the callee list of the caller and to
    /// the caller list of the callee.
    pub fn add_call(&mut self, caller: &str, callee: &str)
        ensures
            final(self).calls@.dom().contains(caller@),
            final(self).calls@[caller@].deep_view() == (if old(self).calls@.dom().contains(
                caller@,
            ) {
                old(self).calls@[caller@].deep_view().push(callee@)
            } else {
                seq![callee@]
            }),
            final(self).calls@.remove(caller@) == old(self).calls@.remove(caller@),
            final(self).called_by@.dom().contains(callee@),
            final(self).called_by@[callee@].deep_view() == (if old(
                self,
            ).called_by@.dom().contains(callee@) {
                old(self).called_by@[callee@].deep_view().push(caller@)
            } else {
                seq![caller@]
            }),
            final(self).called_by@.remove(callee@) == old(self).called_by@.remove(callee@),
    {
        let mut out_edges: Vec<String> = match self.calls.get(caller) {
            Some(v) => clone_string_vec(v),
            None => Vec::new(),
        };
        out_edges.push(callee.to_owned());
        self.calls.insert(caller.to_owned(), out_edges);
        let mut in_edges: Vec<String> = match self.called_by.get(callee) {
            Some(v) => clone_string_vec(v),
            None => Vec::new(),
        };
        in_edges.push(caller.to_owned());
        self.called_by.insert(callee.to_owned(), in_edges);
        proof {
            assert(final(self).calls@.remove(caller@) =~= old(self).calls@.remove(caller@));
            assert(final(self).called_by@.remove(callee@) =~= old(self).called_by@.remove(
                callee@,
            ));
            if old(self).calls@.dom().contains(caller@) {
                assert(final(self).calls@[caller@].deep_view() =~= old(
                    self,
                ).calls@[caller@].deep_view().push(callee@));
            } else {
                assert(final(self).calls@[caller@].deep_view() =~= seq![callee@]);
            }
            if old(self).called_by@.dom().contains(callee@) {
                assert(final(self).called_by@[callee@].deep_view() =~= old(
                    self,
                ).called_by@[callee@].deep_view().push(caller@));
            } else {
                assert(final(self).called_by@[callee@].deep_view() =~= seq![caller@]);
            }
        }
    }

    pub fn get_callees(&self, function: &str) -> (r: Option<&Vec<String>>)
        ensures
            match r {
                Some(v) => self.calls@.dom().contains(function@) && *v == self.calls@[function@],
                None => !self.calls@.dom().contains(function@),
            },
    {
        self.calls.get(function)
    }

    pub fn get_callers(&self, function: &str) -> (r: Option<&Vec<String>>)
        ensures
            match r {
                Some(v) => self.called_by@.dom().contains(function@) && *v
                    == self.called_by@[function@],
                None => !self.called_by@.dom().contains(function@),
            },
    {
        self.called_by.get(function)
    }
}

/// A copy of a vector of strings, equal to it in view.
pub fn clone_string_vec(v: &Vec<String>) -> (r: Vec<String>)
    ensures
        r@ == v@,
{
    let n = v.len();
    let mut r: Vec<String> = Vec::new();
    let mut i: usize = 0;
    while i < n
        invariant
            n == v@.len(),
            i <= n,
            r@ =~= v@.take(i as int),
        decreases n - i,
    {
        r.push(v[i].clone());
        proof {
            assert(r@ =~= v@.take(i + 1));
        }
        i = i + 1;
    }
    proof {
        assert(v@.take(n as int) =~= v@);
    }
    r
}

/// What the extractor harvests from one function's definition span.
pub struct SingleFunctionAnalysis {
    pub raises: Vec<RaiseStatement>,
    pub none_sources: Vec<NoneSource>,
    pub calls: Vec<String>,
}

impl SingleFunctionAnalysis {
    pub fn new() -> (r: Self)
        ensures
            r.raises@.len() == 0,
            r.none_sources@.len() == 0,
            r.calls@.len() == 0,
    {
        SingleFunctionAnalysis { raises: Vec::new(), none_sources: Vec::new(), calls: Vec::new() }
    }
}

impl Default for SingleFunctionAnalysis {
    fn default() -> (r: Self)
        ensures
            r.raises@.len() == 0,
            r.none_sources@.len() == 0,
            r.calls@.len() == 0,
    {
        SingleFunctionAnalysis::new()
    }
}

} // verus!
