//! Queries over a loaded analysis database: each one reads the stored
//! results and renders an answer; none touches the disk.

use vstd::prelude::*;
use vstd::string::StrSliceExecFns;
use vstd::string::StringExecFns;
use crate::database::ArborDatabase;
use crate::grouping::RecoveryStrategy;
use crate::strutil::{spec_dec, split_char, str_eq, usize_to_string};
use crate::types::{FunctionAnalysis, RaiseStatement, spec_risk_emoji, spec_risk_level, spec_risk_str};

verus! {

/// Why a query failed.
#[derive(Debug)]
pub enum QueryError {
    DatabaseNotInitialized,
    FunctionNotFound(String),
    ExceptionNotFound(String, String),
    NoneSourceIndexOutOfBounds(usize),
    InvalidQuery(String),
    Database(String),
    Io(String),
}

/// The stored analysis of one function, or the failure naming it.
fn lookup_function<'a>(db: &'a ArborDatabase, function: &str) -> (r: Result<
    &'a FunctionAnalysis,
    QueryError,
>)
    ensures
        match r {
            Ok(a) => db.functions@.dom().contains(function@) && *a == db.functions@[function@],
            Err(e) => !db.functions@.dom().contains(function@) && (e
                matches QueryError::FunctionNotFound(f) && f@ == function@),
        },
{
    match db.get_function(function) {
        Some(a) => Ok(a),
        None => Err(QueryError::FunctionNotFound(function.to_owned())),
    }
}

/// The one-line risk summary of a stored function: its level, counts and
/// depth; the query fails exactly when no analysis is stored under the
/// name.
pub fn query_risk(db: &ArborDatabase, function: &str) -> (r: Result<String, QueryError>)
    ensures
        match r {
            Ok(text) => db.functions@.dom().contains(function@) && {
                let a = db.functions@[function@];
                let risk = spec_risk_level(a.raises@.len(), a.none_sources@.len());
                text@ == spec_risk_emoji(risk) + " "@ + spec_risk_str(risk) + " | "@ + spec_dec(
                    a.raises@.len() as nat,
                ) + " exceptions, "@ + spec_dec(a.none_sources@.len() as nat)
                    + " None sources | depth: "@ + spec_dec(a.call_depth as nat)
            },
            Err(e) => !db.functions@.dom().contains(function@) && (e
                matches QueryError::FunctionNotFound(f) && f@ == function@),
        },
{
    let analysis = lookup_function(db, function)?;
    let risk = analysis.risk_level();
    let mut text = risk.emoji().to_owned();
    text.append(" ");
    text.append(risk.as_str());
    text.append(" | ");
    let exc = usize_to_string(analysis.exception_count());
    text.append(exc.as_str());
    text.append(" exceptions, ");
    let nones = usize_to_string(analysis.none_source_count());
    text.append(nones.as_str());
    text.append(" None sources | depth: ");
    let depth = usize_to_string(analysis.call_depth);
    text.append(depth.as_str());
    proof {
        let a = db.functions@[function@];
        let rk = spec_risk_level(a.raises@.len(), a.none_sources@.len());
        assert(text@ =~= spec_risk_emoji(rk) + " "@ + spec_risk_str(rk) + " | "@ + spec_dec(
            a.raises@.len() as nat,
        ) + " exceptions, "@ + spec_dec(a.none_sources@.len() as nat)
            + " None sources | depth: "@ + spec_dec(a.call_depth as nat));
    }
    Ok(text)
}

/// The stored signature and location of a function; fails exactly when
/// none is stored.
pub fn query_signature(db: &ArborDatabase, function: &str) -> (r: Result<String, QueryError>)
    ensures
        match r {
            Ok(text) => db.functions@.dom().contains(function@) && {
                let a = db.functions@[function@];
                text@ == a.signature@ + "\n  Location: "@ + crate::types::spec_location_short(
                    a.location,
                )
            },
            Err(e) => !db.functions@.dom().contains(function@) && (e
                matches QueryError::FunctionNotFound(f) && f@ == function@),
        },
{
    let analysis = lookup_function(db, function)?;
    let mut text = analysis.signature.clone();
    text.append("\n  Location: ");
    let loc = analysis.location.to_string_short();
    text.append(loc.as_str());
    proof {
        let a = db.functions@[function@];
        assert(text@ =~= a.signature@ + "\n  Location: "@ + crate::types::spec_location_short(
            a.location,
        ));
    }
    Ok(text)
}

/// Whether some stored raise's plain or qualified type equals the name.
pub open spec fn spec_has_matching_raise(raises: Seq<RaiseStatement>, exception: Seq<char>) -> bool {
    exists|j: int|
        0 <= j < raises.len() && ((#[trigger] raises[j]).exception_type@ == exception
            || raises[j].qualified_type@ == exception)
}

/// The position of the first stored raise whose plain or qualified type
/// equals `exception`.
fn find_raise_position(raises: &Vec<RaiseStatement>, exception: &str) -> (r: Option<usize>)
    ensures
        match r {
            Some(i) => i < raises@.len() && (raises@[i as int].exception_type@ == exception@
                || raises@[i as int].qualified_type@ == exception@),
            None => forall|j: int|
                0 <= j < raises@.len() ==> (#[trigger] raises@[j]).exception_type@ != exception@
                    && raises@[j].qualified_type@ != exception@,
        },
{
    let n = raises.len();
    let mut i: usize = 0;
    while i < n
        invariant
            n == raises@.len(),
            i <= n,
            forall|j: int|
                0 <= j < i ==> (#[trigger] raises@[j]).exception_type@ != exception@
                    && raises@[j].qualified_type@ != exception@,
        decreases n - i,
    {
        if str_eq(raises[i].exception_type.as_str(), exception) || str_eq(
            raises[i].qualified_type.as_str(),
            exception,
        ) {
            return Some(i);
        }
        i = i + 1;
    }
    None
}

/// Whether a stored function can raise a given exception, rendered as a
/// short report with a handler sketch; fails exactly when the function has
/// no stored analysis.
pub fn query_has(db: &ArborDatabase, function: &str, exception: &str) -> (r: Result<
    String,
    QueryError,
>)
    ensures
        match r {
            Ok(text) => db.functions@.dom().contains(function@) && {
                let hit = spec_has_matching_raise(
                    db.functions@[function@].raises@,
                    exception@,
                );
                (hit ==> crate::strutil::match_at(text@, "## Yes"@, 0)) && (!hit
                    ==> crate::strutil::match_at(text@, "## No"@, 0))
            },
            Err(e) => !db.functions@.dom().contains(function@) && (e
                matches QueryError::FunctionNotFound(f) && f@ == function@),
        },
{
    let analysis = lookup_function(db, function)?;
    match find_raise_position(&analysis.raises, exception) {
        Some(i) => {
            let raise = &analysis.raises[i];
            let strategy = RecoveryStrategy::from_exception_type(raise.exception_type.as_str());
            let via: String = match &raise.raise_location.containing_function {
                Some(f) => f.clone(),
                None => "direct".to_owned(),
            };
            let def_loc: String = match &raise.definition_location {
                Some(l) => l.to_string_short(),
                None => "(builtin)".to_owned(),
            };
            let parts = split_char(function, '.');
            let fn_name = &parts[parts.len() - 1];
            let mut text = "## Yes\n\n`".to_owned();
            text.append(function);
            text.append("` can raise `");
            text.append(exception);
            text.append("`.\n\n- **Via:** `");
            text.append(via.as_str());
            text.append("`\n- **Defined at:** `");
            text.append(def_loc.as_str());
            text.append("`\n\nHandle with:\n```python\ntry:\n    response = ");
            text.append(fn_name.as_str());
            text.append("()\nexcept ");
            text.append(exception);
            text.append(" as e:\n    # ");
            text.append(strategy.as_str());
            text.append(" (");
            match strategy {
                RecoveryStrategy::Retry => {
                    text.append("retryable");
                },
                _ => {
                    text.append("not retryable");
                },
            }
            text.append(")\n    pass\n```\n");
            proof {
                reveal_strlit("## Yes");
                reveal_strlit("## Yes\n\n`");
                assert(spec_has_matching_raise(db.functions@[function@].raises@, exception@));
                assert(text@.subrange(0, 6) =~= "## Yes"@);
                assert(crate::strutil::match_at(text@, "## Yes"@, 0));
            }
            Ok(text)
        },
        None => {
            let mut text = "## No\n\n`".to_owned();
            text.append(function);
            text.append("` cannot raise `");
            text.append(exception);
            text.append("`.\n\nThis exception is not in the call graph.\n");
            proof {
                reveal_strlit("## No");
                reveal_strlit("## No\n\n`");
                assert(!spec_has_matching_raise(db.functions@[function@].raises@, exception@));
                assert(text@.subrange(0, 5) =~= "## No"@);
                assert(crate::strutil::match_at(text@, "## No"@, 0));
            }
            Ok(text)
        },
    }
}

/// A handler skeleton grouping a stored function's exceptions by their
/// recovery strategies; fails exactly when no analysis is stored.
pub fn query_handle(db: &ArborDatabase, function: &str) -> (r: Result<String, QueryError>)
    ensures
        match r {
            Ok(text) => db.functions@.dom().contains(function@) && {
                let a = db.functions@[function@];
                &&& (a.raises@.len() == 0 ==> text@ == "# "@ + function@
                    + " raises no exceptions - no handler needed\nresult = "@
                    + crate::strutil::spec_split(function@, '.').last() + "()"@)
                &&& (a.raises@.len() > 0 ==> crate::strutil::match_at(text@, "try:"@, 0))
            },
            Err(e) => !db.functions@.dom().contains(function@) && (e
                matches QueryError::FunctionNotFound(f) && f@ == function@),
        },
{
    let analysis = lookup_function(db, function)?;
    proof {
        reveal_strlit(".");
        crate::strutil::lemma_split_len(function@, '.');
    }
    let parts = split_char(function, '.');
    let fn_name = parts[parts.len() - 1].clone();
    if analysis.raises.len() == 0 {
        let mut text = "# ".to_owned();
        text.append(function);
        text.append(" raises no exceptions - no handler needed\nresult = ");
        text.append(fn_name.as_str());
        text.append("()");
        proof {
            assert(text@ =~= "# "@ + function@
                + " raises no exceptions - no handler needed\nresult = "@
                + crate::strutil::spec_split(function@, '.').last() + "()"@);
        }
        return Ok(text);
    }
    let mut retry_exceptions: Vec<String> = Vec::new();
    let mut auth_exceptions: Vec<String> = Vec::new();
    let mut input_exceptions: Vec<String> = Vec::new();
    let mut other_exceptions: Vec<String> = Vec::new();
    let n = analysis.raises.len();
    let mut i: usize = 0;
    while i < n
        invariant
            n == analysis.raises@.len(),
            i <= n,
        decreases n - i,
    {
        let exc = analysis.raises[i].exception_type.clone();
        let strategy = RecoveryStrategy::from_exception_type(exc.as_str());
        match strategy {
            RecoveryStrategy::Retry => {
                if !crate::strutil::vec_contains_str(&retry_exceptions, exc.as_str()) {
                    retry_exceptions.push(exc);
                }
            },
            RecoveryStrategy::ReAuthenticate => {
                if !crate::strutil::vec_contains_str(&auth_exceptions, exc.as_str()) {
                    auth_exceptions.push(exc);
                }
            },
            RecoveryStrategy::FixInput => {
                if !crate::strutil::vec_contains_str(&input_exceptions, exc.as_str()) {
                    input_exceptions.push(exc);
                }
            },
            _ => {
                if !crate::strutil::vec_contains_str(&other_exceptions, exc.as_str()) {
                    other_exceptions.push(exc);
                }
            },
        }
        i = i + 1;
    }
    crate::strutil::sort_strings(&mut retry_exceptions);
    crate::strutil::sort_strings(&mut auth_exceptions);
    crate::strutil::sort_strings(&mut input_exceptions);
    crate::strutil::sort_strings(&mut other_exceptions);
    let mut handler = "try:\n    result = ".to_owned();
    handler.append(fn_name.as_str());
    handler.append("()\n");
    if retry_exceptions.len() > 0 {
        handler.append("except (");
        let joined = crate::strutil::join_str(&retry_exceptions, ", ");
        handler.append(joined.as_str());
        handler.append(") as e:\n    # Retry with backoff\n    raise\n");
    }
    if auth_exceptions.len() > 0 {
        handler.append("except (");
        let joined = crate::strutil::join_str(&auth_exceptions, ", ");
        handler.append(joined.as_str());
        handler.append(") as e:\n    # Re-authenticate and retry\n    raise\n");
    }
    if input_exceptions.len() > 0 {
        handler.append("except (");
        let joined = crate::strutil::join_str(&input_exceptions, ", ");
        handler.append(joined.as_str());
        handler.append(") as e:\n    # Fix input and retry\n    raise\n");
    }
    if other_exceptions.len() > 0 {
        handler.append("except (");
        let joined = crate::strutil::join_str(&other_exceptions, ", ");
        handler.append(joined.as_str());
        handler.append(") as e:\n    # Handle or re-raise\n    raise\n");
    }
    proof {
        reveal_strlit("try:");
        reveal_strlit("try:\n    result = ");
        assert(handler@.subrange(0, 4) =~= "try:"@);
        assert(crate::strutil::match_at(handler@, "try:"@, 0));
    }
    Ok(handler)
}

/// One stored raise in full, found by its plain or qualified type name;
/// fails when the function is unknown or raises no such exception.
pub fn query_one_exception(db: &ArborDatabase, function: &str, exc_type: &str) -> (r: Result<
    String,
    QueryError,
>)
    ensures
        match r {
            Ok(_) => db.functions@.dom().contains(function@) && spec_has_matching_raise(
                db.functions@[function@].raises@,
                exc_type@,
            ),
            Err(e) => match e {
                QueryError::FunctionNotFound(f) => !db.functions@.dom().contains(function@)
                    && f@ == function@,
                QueryError::ExceptionNotFound(t, f) => db.functions@.dom().contains(function@)
                    && !spec_has_matching_raise(db.functions@[function@].raises@, exc_type@)
                    && t@ == exc_type@ && f@ == function@,
                _ => false,
            },
        },
{
    let analysis = lookup_function(db, function)?;
    let raise = match find_raise_position(&analysis.raises, exc_type) {
        Some(i) => &analysis.raises[i],
        None => {
            return Err(
                QueryError::ExceptionNotFound(exc_type.to_owned(), function.to_owned()),
            );
        },
    };
    let mut text = "Exception: ".to_owned();
    text.append(raise.exception_type.as_str());
    text.append("\nQualified: ");
    text.append(raise.qualified_type.as_str());
    text.append("\nRaised at: ");
    let at = raise.raise_location.to_string_short();
    text.append(at.as_str());
    text.append("\n");
    match &raise.definition_location {
        Some(l) => {
            text.append("Defined at: ");
            let d = l.to_string_short();
            text.append(d.as_str());
            text.append("\n");
        },
        None => {
            text.append("Defined at: (builtin)\n");
        },
    }
    if let Some(cond) = &raise.condition {
        text.append("Condition: ");
        text.append(cond.as_str());
        text.append("\n");
    }
    if let Some(msg) = &raise.message {
        text.append("Message: ");
        text.append(msg.as_str());
        text.append("\n");
    }
    let strategy = RecoveryStrategy::from_exception_type(raise.exception_type.as_str());
    text.append("Recovery: ");
    text.append(strategy.as_str());
    Ok(text)
}

/// One stored `None` source in full, by its position in the stored list;
/// fails when the function is unknown or the position is out of range.
/// The full text describing one stored `None` source.
pub open spec fn spec_one_none_text(n: crate::types::NoneSource) -> Seq<char> {
    "Kind: "@ + crate::types::spec_none_kind_str(n.kind) + "\nLocation: "@
        + crate::types::spec_location_short(n.location) + "\n"@ + (match n.source_definition {
        Some(d) => "Source: "@ + crate::types::spec_location_short(d) + "\n"@,
        None => Seq::<char>::empty(),
    }) + (match n.condition {
        Some(c) => "Condition: "@ + c@,
        None => Seq::<char>::empty(),
    })
}

pub fn query_one_none(db: &ArborDatabase, function: &str, index: usize) -> (r: Result<
    String,
    QueryError,
>)
    ensures
        match r {
            Ok(text) => db.functions@.dom().contains(function@) && index < db.functions@[
                function@].none_sources@.len() && text@ == spec_one_none_text(
                db.functions@[function@].none_sources@[index as int],
            ),
            Err(e) => match e {
                QueryError::FunctionNotFound(f) => !db.functions@.dom().contains(function@)
                    && f@ == function@,
                QueryError::NoneSourceIndexOutOfBounds(i) => db.functions@.dom().contains(
                    function@,
                ) && index >= db.functions@[function@].none_sources@.len() && i == index,
                _ => false,
            },
        },
{
    let analysis = lookup_function(db, function)?;
    if index >= analysis.none_sources.len() {
        return Err(QueryError::NoneSourceIndexOutOfBounds(index));
    }
    let source = &analysis.none_sources[index];
    let mut text = "Kind: ".to_owned();
    text.append(source.kind.as_str());
    text.append("\nLocation: ");
    let loc = source.location.to_string_short();
    text.append(loc.as_str());
    text.append("\n");
    if let Some(def) = &source.source_definition {
        text.append("Source: ");
        let d = def.to_string_short();
        text.append(d.as_str());
        text.append("\n");
    }
    if let Some(cond) = &source.condition {
        text.append("Condition: ");
        text.append(cond.as_str());
    }
    proof {
        assert(text@ =~= spec_one_none_text(
            db.functions@[function@].none_sources@[index as int],
        ));
    }
    Ok(text)
}

/// Everyone recorded as calling a function; fails exactly when neither an
/// analysis nor an index entry knows the name.
pub fn query_callers(db: &ArborDatabase, function: &str) -> (r: Result<String, QueryError>)
    ensures
        match r {
            Ok(_) => db.functions@.dom().contains(function@)
                || db.symbol_index.symbols@.dom().contains(function@),
            Err(e) => !db.functions@.dom().contains(function@)
                && !db.symbol_index.symbols@.dom().contains(function@) && (e
                matches QueryError::FunctionNotFound(f) && f@ == function@),
        },
{
    if !db.functions.contains_key(function) && !db.symbol_index.contains(function) {
        return Err(QueryError::FunctionNotFound(function.to_owned()));
    }
    match db.dependency_graph.get_callers(function) {
        Some(callers) => {
            if callers.len() == 0 {
                let mut text = "No callers found for ".to_owned();
                text.append(function);
                return Ok(text);
            }
            let mut text = "Functions calling ".to_owned();
            text.append(function);
            text.append(":\n");
            let n = callers.len();
            let mut i: usize = 0;
            while i < n
                invariant
                    n == callers@.len(),
                    i <= n,
                decreases n - i,
            {
                text.append("  - ");
                text.append(callers[i].as_str());
                text.append("\n");
                i = i + 1;
            }
            Ok(text)
        },
        None => {
            let mut text = "No callers found for ".to_owned();
            text.append(function);
            Ok(text)
        },
    }
}

/// Everyone a function is recorded as calling; fails exactly when neither
/// an analysis nor an index entry knows the name.
pub fn query_callees(db: &ArborDatabase, function: &str) -> (r: Result<String, QueryError>)
    ensures
        match r {
            Ok(_) => db.functions@.dom().contains(function@)
                || db.symbol_index.symbols@.dom().contains(function@),
            Err(e) => !db.functions@.dom().contains(function@)
                && !db.symbol_index.symbols@.dom().contains(function@) && (e
                matches QueryError::FunctionNotFound(f) && f@ == function@),
        },
{
    if !db.functions.contains_key(function) && !db.symbol_index.contains(function) {
        return Err(QueryError::FunctionNotFound(function.to_owned()));
    }
    match db.dependency_graph.get_callees(function) {
        Some(callees) => {
            if callees.len() == 0 {
                let mut text = "No callees found for ".to_owned();
                text.append(function);
                return Ok(text);
            }
            let mut text = "Functions called by ".to_owned();
            text.append(function);
            text.append(":\n");
            let n = callees.len();
            let mut i: usize = 0;
            while i < n
                invariant
                    n == callees@.len(),
                    i <= n,
                decreases n - i,
            {
                text.append("  - ");
                text.append(callees[i].as_str());
                text.append("\n");
                i = i + 1;
            }
            Ok(text)
        },
        None => {
            let mut text = "No callees found for ".to_owned();
            text.append(function);
            Ok(text)
        },
    }
}

/// The last path component, as file names are shown in reports.
fn last_component(path: &str) -> String {
    match crate::strutil::last_index_of(path, '/') {
        Some(j) => {
            let pl = vstd::string::StrSliceExecFns::unicode_len(path);
            vstd::string::StrSliceExecFns::substring_char(path, j + 1, pl).to_owned()
        },
        None => path.to_owned(),
    }
}

/// A run of `n` copies of a text.
fn repeat_text(piece: &str, n: usize) -> String {
    let mut r = String::new();
    let mut i: usize = 0;
    while i < n
        invariant
            i <= n,
        decreases n - i,
    {
        r.append(piece);
        i = i + 1;
    }
    r
}

/// The stored call chain of a finding's containing function, rendered
/// root-first with arrows.
fn chain_text(db: &ArborDatabase, analysis: &FunctionAnalysis, function: &str, key: &str) -> Option<
    String,
> {
    match analysis.call_chains.get(key) {
        Some(chain) => {
            if chain.len() == 0 {
                return None;
            }
            let mut text = function.to_owned();
            let n = chain.len();
            let mut i: usize = 0;
            while i < n
                invariant
                    n == chain@.len(),
                    i <= n,
                decreases n - i,
            {
                text.append(" \u{2192} ");
                text.append(chain[i].as_str());
                i = i + 1;
            }
            Some(text)
        },
        None => None,
    }
}

/// The full exception report of a stored function; fails exactly when no
/// analysis is stored under the name.
pub fn query_exceptions(db: &ArborDatabase, function: &str) -> (r: Result<String, QueryError>)
    ensures
        match r {
            Ok(_) => db.functions@.dom().contains(function@),
            Err(e) => !db.functions@.dom().contains(function@) && (e
                matches QueryError::FunctionNotFound(f) && f@ == function@),
        },
{
    let analysis = lookup_function(db, function)?;
    let mut text = "# Exceptions for `".to_owned();
    text.append(function);
    text.append("`\n\n**Signature:** `");
    text.append(analysis.signature.as_str());
    text.append("`\n**Location:** `");
    let loc = analysis.location.to_string_short();
    text.append(loc.as_str());
    text.append("`\n**Total Exceptions:** ");
    let total = usize_to_string(analysis.raises.len());
    text.append(total.as_str());
    text.append("\n\n");
    if analysis.raises.len() == 0 {
        text.append("This function does not raise any exceptions.\n");
        return Ok(text);
    }
    text.append("## Exceptions\n\n");
    let n = analysis.raises.len();
    let mut i: usize = 0;
    while i < n
        invariant
            n == analysis.raises@.len(),
            i <= n,
        decreases n - i,
    {
        let raise = &analysis.raises[i];
        let strategy = RecoveryStrategy::from_exception_type(raise.exception_type.as_str());
        text.append("### ");
        text.append(raise.exception_type.as_str());
        text.append("\n\n- **Type:** `");
        text.append(raise.qualified_type.as_str());
        text.append("`\n- **Raised at:** `");
        let at = raise.raise_location.to_string_short();
        text.append(at.as_str());
        text.append("`\n");
        match &raise.definition_location {
            Some(def) => {
                text.append("- **Defined at:** `");
                let d = def.to_string_short();
                text.append(d.as_str());
                text.append("`\n");
            },
            None => {
                text.append("- **Defined at:** (builtin)\n");
            },
        }
        if let Some(cond) = &raise.condition {
            text.append("- **Condition:** ");
            text.append(cond.as_str());
            text.append("\n");
        }
        text.append("- **Recovery:** ");
        text.append(strategy.as_str());
        match strategy {
            RecoveryStrategy::Retry => {
                text.append(" (retryable)\n");
            },
            _ => {
                text.append(" (not retryable)\n");
            },
        }
        if let Some(containing) = &raise.raise_location.containing_function {
            if let Some(chain) = chain_text(db, analysis, function, containing.as_str()) {
                text.append("- **Call Chain:** `");
                text.append(chain.as_str());
                text.append("`\n");
            }
        }
        text.append("\n");
        i = i + 1;
    }
    if db.grouping_suggestions.entry_count() > 0 {
        text.append("---\n\n## Suggested Groupings\n\n");
        text.append("For grouping details, ask for the stored groups\n");
    }
    Ok(text)
}

/// The full `None`-source report of a stored function; fails exactly when
/// no analysis is stored under the name.
pub fn query_none(db: &ArborDatabase, function: &str) -> (r: Result<String, QueryError>)
    ensures
        match r {
            Ok(_) => db.functions@.dom().contains(function@),
            Err(e) => !db.functions@.dom().contains(function@) && (e
                matches QueryError::FunctionNotFound(f) && f@ == function@),
        },
{
    let analysis = lookup_function(db, function)?;
    let mut text = "# None Sources for `".to_owned();
    text.append(function);
    text.append("`\n\n**Signature:** `");
    text.append(analysis.signature.as_str());
    text.append("`\n**Location:** `");
    let loc = analysis.location.to_string_short();
    text.append(loc.as_str());
    text.append("`\n**Total None Sources:** ");
    let total = usize_to_string(analysis.none_sources.len());
    text.append(total.as_str());
    text.append("\n\n");
    if analysis.none_sources.len() == 0 {
        text.append("This function does not have any None sources.\n");
        return Ok(text);
    }
    text.append("## None Sources\n\n");
    let n = analysis.none_sources.len();
    let mut i: usize = 0;
    while i < n
        invariant
            n == analysis.none_sources@.len(),
            i <= n,
        decreases n - i,
    {
        let source = &analysis.none_sources[i];
        text.append("### ");
        let number = usize_to_string(i + 1);
        text.append(number.as_str());
        text.append(". ");
        text.append(source.kind.as_str());
        text.append("\n\n- **Kind:** `");
        text.append(source.kind.as_str());
        text.append("`\n- **Location:** `");
        let at = source.location.to_string_short();
        text.append(at.as_str());
        text.append("`\n");
        if let Some(def) = &source.source_definition {
            text.append("- **Source:** `");
            let d = def.to_string_short();
            text.append(d.as_str());
            text.append("`\n");
        }
        if let Some(cond) = &source.condition {
            text.append("- **Condition:** ");
            text.append(cond.as_str());
            text.append("\n");
        }
        if let Some(containing) = &source.location.containing_function {
            if let Some(chain) = chain_text(db, analysis, function, containing.as_str()) {
                text.append("- **Call Chain:** `");
                text.append(chain.as_str());
                text.append("`\n");
            }
        }
        text.append("\n");
        i = i + 1;
    }
    text.append("---\n\n## Recommendations\n\n");
    text.append("- Consider using `.get(key, default)` pattern at call sites\n");
    text.append("- Check for None before accessing attributes\n");
    text.append("- Use type hints: `-> T | None` if None is intentional\n");
    Ok(text)
}

/// The whole per-function report: overview, summary, exception groups,
/// findings, and follow-up commands; fails exactly when no analysis is
/// stored under the name.
/// The opening of the per-function report: identity, overview table and
/// the four counts, exactly as rendered.
pub open spec fn spec_function_report_head(a: FunctionAnalysis) -> Seq<char> {
    let risk = spec_risk_level(a.raises@.len(), a.none_sources@.len());
    "# Function Analysis: `"@ + a.function_id@
        + "`\n\n## Overview\n\n| Property | Value |\n|----------|-------|\n"@
        + "| **Qualified Name** | `"@ + a.function_id@ + "` |\n| **Signature** | `"@
        + a.signature@ + "` |\n| **File** | `"@ + a.location.file@ + "` |\n| **Line** | "@
        + spec_dec(a.location.line as nat) + " |\n| **Risk** | "@ + spec_risk_emoji(risk)
        + " "@ + spec_risk_str(risk)
        + " |\n\n## Analysis Summary\n\n| Metric | Count |\n|--------|-------|\n"@
        + "| Exceptions | "@ + spec_dec(a.raises@.len() as nat) + " |\n| None sources | "@
        + spec_dec(a.none_sources@.len() as nat) + " |\n| Functions traced | "@ + spec_dec(
        a.functions_traced as nat,
    ) + " |\n| Call depth | "@ + spec_dec(a.call_depth as nat) + " |\n\n"@
}

pub fn query_function(db: &ArborDatabase, function: &str) -> (r: Result<String, QueryError>)
    ensures
        match r {
            Ok(text) => db.functions@.dom().contains(function@) && text@.len()
                >= spec_function_report_head(db.functions@[function@]).len() && text@.take(
                spec_function_report_head(db.functions@[function@]).len() as int,
            ) == spec_function_report_head(db.functions@[function@]),
            Err(e) => !db.functions@.dom().contains(function@) && (e
                matches QueryError::FunctionNotFound(f) && f@ == function@),
        },
{
    let analysis = lookup_function(db, function)?;
    let risk = analysis.risk_level();
    let mut text = "# Function Analysis: `".to_owned();
    text.append(analysis.function_id.as_str());
    text.append("`\n\n## Overview\n\n| Property | Value |\n|----------|-------|\n");
    text.append("| **Qualified Name** | `");
    text.append(analysis.function_id.as_str());
    text.append("` |\n| **Signature** | `");
    text.append(analysis.signature.as_str());
    text.append("` |\n| **File** | `");
    text.append(analysis.location.file.as_str());
    text.append("` |\n| **Line** | ");
    let line = crate::strutil::u32_to_string(analysis.location.line);
    text.append(line.as_str());
    text.append(" |\n| **Risk** | ");
    text.append(risk.emoji());
    text.append(" ");
    text.append(risk.as_str());
    text.append(" |\n\n## Analysis Summary\n\n| Metric | Count |\n|--------|-------|\n");
    text.append("| Exceptions | ");
    let exc = usize_to_string(analysis.raises.len());
    text.append(exc.as_str());
    text.append(" |\n| None sources | ");
    let nones = usize_to_string(analysis.none_sources.len());
    text.append(nones.as_str());
    text.append(" |\n| Functions traced | ");
    let traced = usize_to_string(analysis.functions_traced);
    text.append(traced.as_str());
    text.append(" |\n| Call depth | ");
    let depth = usize_to_string(analysis.call_depth);
    text.append(depth.as_str());
    text.append(" |\n\n");
    let ghost headv = spec_function_report_head(db.functions@[function@]);
    proof {
        assert(text@ =~= headv);
    }
    if analysis.raises.len() > 0 {
        text.append("## Exceptions\n\n");
        let n = analysis.raises.len();
        let mut i: usize = 0;
        while i < n
            invariant
                n == analysis.raises@.len(),
                i <= n,
                text@.len() >= headv.len(),
                text@.take(headv.len() as int) == headv,
            decreases n - i,
        {
            let raise = &analysis.raises[i];
            text.append("- `");
            text.append(raise.exception_type.as_str());
            text.append("` at ");
            let file = last_component(raise.raise_location.file.as_str());
            text.append(file.as_str());
            text.append(":");
            let line_text = crate::strutil::u32_to_string(raise.raise_location.line);
            text.append(line_text.as_str());
            text.append("\n");
            proof {
                assert(text@.take(headv.len() as int) =~= headv);
            }
            i = i + 1;
        }
        text.append("\n");
    }
    if analysis.none_sources.len() > 0 {
        text.append("## None Sources\n\n");
        let n = analysis.none_sources.len();
        let mut i: usize = 0;
        while i < n
            invariant
                n == analysis.none_sources@.len(),
                i <= n,
                text@.len() >= headv.len(),
                text@.take(headv.len() as int) == headv,
            decreases n - i,
        {
            let source = &analysis.none_sources[i];
            text.append("- ");
            text.append(source.kind.as_str());
            text.append(" at ");
            let file = last_component(source.location.file.as_str());
            text.append(file.as_str());
            text.append(":");
            let line_text = crate::strutil::u32_to_string(source.location.line);
            text.append(line_text.as_str());
            text.append("\n");
            proof {
                assert(text@.take(headv.len() as int) =~= headv);
            }
            i = i + 1;
        }
        text.append("\n");
    }
    text.append("---\n\n## Follow-up Queries\n\n");
    text.append("- the full exception list\n");
    text.append("- the full None-source list\n");
    text.append("- a generated handler\n");
    proof {
        assert(text@.take(headv.len() as int) =~= headv);
    }
    Ok(text)
}

/// The call chain that leads from a stored function to one of its
/// exceptions; fails when the function is unknown or raises no such
/// exception.
pub fn query_chain(db: &ArborDatabase, function: &str, exception: &str) -> (r: Result<
    String,
    QueryError,
>)
    ensures
        match r {
            Ok(_) => db.functions@.dom().contains(function@) && spec_has_matching_raise(
                db.functions@[function@].raises@,
                exception@,
            ),
            Err(e) => match e {
                QueryError::FunctionNotFound(f) => !db.functions@.dom().contains(function@)
                    && f@ == function@,
                QueryError::ExceptionNotFound(t, f) => db.functions@.dom().contains(function@)
                    && !spec_has_matching_raise(db.functions@[function@].raises@, exception@)
                    && t@ == exception@ && f@ == function@,
                _ => false,
            },
        },
{
    let analysis = lookup_function(db, function)?;
    let raise_pos = match find_raise_position(&analysis.raises, exception) {
        Some(i) => i,
        None => {
            return Err(
                QueryError::ExceptionNotFound(exception.to_owned(), function.to_owned()),
            );
        },
    };
    let raise = &analysis.raises[raise_pos];
    let containing: String = match &raise.raise_location.containing_function {
        Some(f) => f.clone(),
        None => "unknown".to_owned(),
    };
    let strategy = RecoveryStrategy::from_exception_type(raise.exception_type.as_str());
    let mut chain_vec: Vec<String> = Vec::new();
    chain_vec.push(function.to_owned());
    match analysis.call_chains.get(containing.as_str()) {
        Some(chain) => {
            let n = chain.len();
            let mut i: usize = 0;
            while i < n
                invariant
                    n == chain@.len(),
                    i <= n,
                    chain_vec@.len() >= 1,
                decreases n - i,
            {
                chain_vec.push(chain[i].clone());
                i = i + 1;
            }
        },
        None => {},
    }
    let mut text = "# Call Chain: `".to_owned();
    text.append(exception);
    text.append("` in `");
    text.append(function);
    text.append("`\n\n## Path\n\n```\n");
    let raise_file = last_component(raise.raise_location.file.as_str());
    let raise_line = crate::strutil::u32_to_string(raise.raise_location.line);
    let steps = chain_vec.len();
    let mut i: usize = 0;
    while i < steps
        invariant
            steps == chain_vec@.len(),
            steps >= 1,
            i <= steps,
        decreases steps - i,
    {
        let indent = repeat_text("    ", i);
        if i == 0 {
            text.append(chain_vec[0].as_str());
            text.append(" (");
            text.append(raise_file.as_str());
            text.append(":");
            text.append(raise_line.as_str());
            text.append(")\n");
        } else {
            text.append(indent.as_str());
            text.append("\u{2502}\n");
            text.append(indent.as_str());
            text.append("\u{2514}\u{2500}\u{2500} ");
            text.append(chain_vec[i].as_str());
            text.append("\n");
        }
        if i == steps - 1 {
            let final_indent = repeat_text("    ", i + 1);
            text.append(final_indent.as_str());
            text.append("\u{2502}\n");
            text.append(final_indent.as_str());
            text.append("\u{2514}\u{2500}\u{2500} \u{1F534} raise ");
            text.append(exception);
            text.append("(\"...\")\n");
        }
        i = i + 1;
    }
    text.append("```\n\n## Exception Details\n\n- **Raised at:** `");
    text.append(raise.raise_location.file.as_str());
    text.append(":");
    text.append(raise_line.as_str());
    text.append("`\n");
    match &raise.definition_location {
        Some(def) => {
            text.append("- **Defined at:** `");
            let d = def.to_string_short();
            text.append(d.as_str());
            text.append("`\n");
        },
        None => {
            text.append("- **Defined at:** (builtin)\n");
        },
    }
    if let Some(cond) = &raise.condition {
        text.append("- **Condition:** ");
        text.append(cond.as_str());
        text.append("\n");
    }
    if let Some(msg) = &raise.message {
        text.append("- **Message:** \"");
        text.append(msg.as_str());
        text.append("\"\n");
    }
    text.append("\n## Handling Recommendation\n\n");
    let hops = usize_to_string(steps - 1);
    text.append("This exception propagates through **");
    text.append(hops.as_str());
    text.append(" function call(s)** before reaching `");
    text.append(function);
    text.append("`.\n\n```python\ntry:\n    result = ");
    let parts = split_char(function, '.');
    text.append(parts[parts.len() - 1].as_str());
    text.append("()\nexcept ");
    text.append(exception);
    text.append(" as e:\n    # ");
    text.append(strategy.as_str());
    match strategy {
        RecoveryStrategy::Retry => {
            text.append(" (retryable)\n    pass\n```\n");
        },
        _ => {
            text.append(" (not retryable)\n    pass\n```\n");
        },
    }
    Ok(text)
}

/// A placeholder answer about changes since the last analysis; history is
/// not yet stored, and the query fails exactly when the function is
/// unknown.
pub fn query_diff(db: &ArborDatabase, function: &str) -> (r: Result<String, QueryError>)
    ensures
        match r {
            Ok(text) => db.functions@.dom().contains(function@) && text@ == "Diff for "@
                + function@
                + ": No previous analysis stored (history tracking not yet implemented)"@,
            Err(e) => !db.functions@.dom().contains(function@) && (e
                matches QueryError::FunctionNotFound(f) && f@ == function@),
        },
{
    let _analysis = lookup_function(db, function)?;
    let mut text = "Diff for ".to_owned();
    text.append(function);
    text.append(": No previous analysis stored (history tracking not yet implemented)");
    proof {
        assert(text@ =~= "Diff for "@ + function@
            + ": No previous analysis stored (history tracking not yet implemented)"@);
    }
    Ok(text)
}


/// One exception row of a package report.
struct ExcRow {
    exception_type: String,
    qualified_type: String,
    definition_file: Option<String>,
    occurrences: u64,
}

impl Clone for ExcRow {
    fn clone(&self) -> (r: Self) {
        ExcRow {
            exception_type: self.exception_type.clone(),
            qualified_type: self.qualified_type.clone(),
            definition_file: match &self.definition_file {
                Some(f) => Some(f.clone()),
                None => None,
            },
            occurrences: self.occurrences,
        }
    }
}

/// Sorts exception rows by falling occurrence count; the count of rows is
/// kept.
fn sort_rows_desc(v: &mut Vec<ExcRow>)
    ensures
        final(v)@.len() == old(v)@.len(),
{
    let n = v.len();
    let mut i: usize = 1;
    while i < n
        invariant
            n == v@.len(),
            1 <= i || n == 0,
        decreases n - i,
    {
        let mut j: usize = i;
        while j > 0
            invariant
                j <= i < n,
                n == v@.len(),
            decreases j,
        {
            if v[j].occurrences > v[j - 1].occurrences {
                let a = v[j - 1].clone();
                let b = v[j].clone();
                v[j - 1] = b;
                v[j] = a;
            }
            j = j - 1;
        }
        i = i + 1;
    }
}

/// The position of a string in a list, by content.
fn position_of_str(v: &Vec<String>, s: &str) -> (r: Option<usize>)
    ensures
        match r {
            Some(i) => i < v@.len() && v@[i as int]@ == s@,
            None => forall|j: int| 0 <= j < v@.len() ==> v@[j]@ != s@,
        },
{
    let n = v.len();
    let mut i: usize = 0;
    while i < n
        invariant
            n == v@.len(),
            i <= n,
            forall|j: int| 0 <= j < i ==> v@[j]@ != s@,
        decreases n - i,
    {
        if str_eq(v[i].as_str(), s) {
            return Some(i);
        }
        i = i + 1;
    }
    None
}

/// Renders "Yes" or "No" for whether a strategy retries.
fn retry_text(strategy: RecoveryStrategy) -> &'static str {
    match strategy {
        RecoveryStrategy::Retry => "Yes",
        _ => "No",
    }
}

/// The stored grouping suggestions, optionally narrowed to groups whose
/// names mention a package; never fails.
pub fn query_groups(db: &ArborDatabase, package: Option<&str>) -> (r: Result<String, QueryError>)
    ensures
        r is Ok,
{
    if db.grouping_suggestions.entry_count() == 0 {
        return Ok("No grouping suggestions. Run an analysis first.".to_owned());
    }
    let pkg_name: String = match package {
        Some(p) => p.to_owned(),
        None => "all packages".to_owned(),
    };
    let mut text = "# Exception Grouping Suggestions for `".to_owned();
    text.append(pkg_name.as_str());
    text.append("`\n\nThese groupings are automatically generated for error handling.\n");
    text.append(
        "Each group contains exceptions that should be handled with the same recovery strategy.\n\n---\n\n",
    );
    let mut found_any = false;
    let n = db.grouping_suggestions.entry_count();
    let mut i: usize = 0;
    while i < n
        invariant
            n == db.grouping_suggestions.entries_seq().len(),
            i <= n,
        decreases n - i,
    {
        let (_, suggestion) = db.grouping_suggestions.entry_at(i);
        let keep = match package {
            Some(p) => {
                let group_lower = crate::strutil::to_lower(suggestion.group_name.as_str());
                let pkg_lower = crate::strutil::to_lower(p);
                crate::strutil::contains_sub(group_lower.as_str(), pkg_lower.as_str())
            },
            None => true,
        };
        if keep {
            found_any = true;
            let first_exc: String = if suggestion.exceptions.len() > 0 {
                suggestion.exceptions[0].clone()
            } else {
                String::new()
            };
            let strategy = RecoveryStrategy::from_exception_type(first_exc.as_str());
            text.append("## ");
            text.append(suggestion.group_name.as_str());
            text.append("\n\n**Retryable:** ");
            text.append(retry_text(strategy));
            text.append("\n**Reason:** ");
            text.append(suggestion.rationale.as_str());
            text.append("\n**Recovery:** ");
            text.append(strategy.as_str());
            text.append("\n\n| Exception | Recovery Strategy |\n|-----------|------------------|\n");
            let m = suggestion.exceptions.len();
            let mut k: usize = 0;
            while k < m
                invariant
                    m == suggestion.exceptions@.len(),
                    k <= m,
                decreases m - k,
            {
                let exc_strategy = RecoveryStrategy::from_exception_type(
                    suggestion.exceptions[k].as_str(),
                );
                text.append("| `");
                text.append(suggestion.exceptions[k].as_str());
                text.append("` | ");
                text.append(exc_strategy.as_str());
                text.append(" |\n");
                k = k + 1;
            }
            text.append("\n**Recommended Handler:**\n```python\n");
            text.append(suggestion.handler_example.as_str());
            text.append("\n```\n\n---\n\n");
        }
        i = i + 1;
    }
    if !found_any {
        text.append("No grouping suggestions found for '");
        text.append(pkg_name.as_str());
        text.append("'.\n");
    }
    Ok(text)
}

/// Everything known about one exception type across the stored analyses;
/// never fails, and says so when the type was never seen.
pub fn query_exception(db: &ArborDatabase, exc_type: &str) -> (r: Result<String, QueryError>)
    ensures
        r is Ok,
{
    let mut occ_functions: Vec<String> = Vec::new();
    let mut occ_files: Vec<String> = Vec::new();
    let mut occ_lines: Vec<u32> = Vec::new();
    let mut occ_conditions: Vec<Option<String>> = Vec::new();
    let mut definition_loc: Option<String> = None;
    let mut qualified_name: Option<String> = None;
    let fn_count = db.functions.entry_count();
    let mut fi: usize = 0;
    while fi < fn_count
        invariant
            fn_count == db.functions.entries_seq().len(),
            fi <= fn_count,
            occ_functions@.len() == occ_files@.len(),
            occ_functions@.len() == occ_lines@.len(),
            occ_functions@.len() == occ_conditions@.len(),
        decreases fn_count - fi,
    {
        let (fn_id, analysis) = db.functions.entry_at(fi);
        let rn = analysis.raises.len();
        let mut ri: usize = 0;
        while ri < rn
            invariant
                rn == analysis.raises@.len(),
                ri <= rn,
                occ_functions@.len() == occ_files@.len(),
                occ_functions@.len() == occ_lines@.len(),
                occ_functions@.len() == occ_conditions@.len(),
            decreases rn - ri,
        {
            let raise = &analysis.raises[ri];
            if str_eq(raise.exception_type.as_str(), exc_type) || str_eq(
                raise.qualified_type.as_str(),
                exc_type,
            ) {
                if qualified_name.is_none() {
                    definition_loc = match &raise.definition_location {
                        Some(l) => Some(l.to_string_short()),
                        None => None,
                    };
                    qualified_name = Some(raise.qualified_type.clone());
                }
                occ_functions.push(fn_id.clone());
                occ_files.push(raise.raise_location.file.clone());
                occ_lines.push(raise.raise_location.line);
                occ_conditions.push(match &raise.condition {
                    Some(c) => Some(c.clone()),
                    None => None,
                });
            }
            ri = ri + 1;
        }
        fi = fi + 1;
    }
    if occ_functions.len() == 0 {
        let mut text = "Exception `".to_owned();
        text.append(exc_type);
        text.append("` not found in analyzed functions.");
        return Ok(text);
    }
    let strategy = RecoveryStrategy::from_exception_type(exc_type);
    let mut text = "# Exception: `".to_owned();
    text.append(exc_type);
    text.append("`\n\n## Definition\n\n| Property | Value |\n|----------|-------|\n");
    text.append("| **Short Name** | ");
    text.append(exc_type);
    text.append(" |\n| **Qualified Name** | `");
    match &qualified_name {
        Some(q) => text.append(q.as_str()),
        None => text.append(exc_type),
    }
    text.append("` |\n| **Defined At** | `");
    match &definition_loc {
        Some(d) => text.append(d.as_str()),
        None => text.append("(builtin)"),
    }
    text.append("` |\n| **Recovery** | ");
    text.append(strategy.as_str());
    text.append(" |\n| **Retryable** | ");
    text.append(retry_text(strategy));
    text.append(" |\n\n## Where It's Raised\n\n| Location | Function | Condition |\n|----------|----------|-----------|\n");
    let oc = occ_functions.len();
    let mut oi: usize = 0;
    while oi < oc
        invariant
            oc == occ_functions@.len(),
            oc == occ_files@.len(),
            oc == occ_lines@.len(),
            oc == occ_conditions@.len(),
            oi <= oc,
        decreases oc - oi,
    {
        text.append("| `");
        let file = last_component(occ_files[oi].as_str());
        text.append(file.as_str());
        text.append(":");
        let line = crate::strutil::u32_to_string(occ_lines[oi]);
        text.append(line.as_str());
        text.append("` | `");
        text.append(occ_functions[oi].as_str());
        text.append("` | ");
        match &occ_conditions[oi] {
            Some(c) => text.append(c.as_str()),
            None => text.append("-"),
        }
        text.append(" |\n");
        oi = oi + 1;
    }
    text.append("\n## Functions That Can Raise This\n\n| Function | Occurrences |\n|----------|-------------|\n");
    let mut unique_functions = crate::types::clone_string_vec(&occ_functions);
    crate::strutil::sort_strings(&mut unique_functions);
    let mut deduped: Vec<String> = Vec::new();
    let un = unique_functions.len();
    let mut ui: usize = 0;
    while ui < un
        invariant
            un == unique_functions@.len(),
            ui <= un,
        decreases un - ui,
    {
        if !crate::strutil::vec_contains_str(&deduped, unique_functions[ui].as_str()) {
            deduped.push(unique_functions[ui].clone());
        }
        ui = ui + 1;
    }
    let dn = deduped.len();
    let mut di: usize = 0;
    while di < dn
        invariant
            dn == deduped@.len(),
            di <= dn,
        decreases dn - di,
    {
        let mut count: u64 = 0;
        let cn = occ_functions.len();
        let mut ci: usize = 0;
        while ci < cn
            invariant
                cn == occ_functions@.len(),
                ci <= cn,
                count <= ci,
                di < deduped@.len(),
            decreases cn - ci,
        {
            if str_eq(occ_functions[ci].as_str(), deduped[di].as_str()) {
                count = count + 1;
            }
            ci = ci + 1;
        }
        text.append("| `");
        text.append(deduped[di].as_str());
        text.append("` | ");
        let count_text = crate::strutil::u64_to_string(count);
        text.append(count_text.as_str());
        text.append(" |\n");
        di = di + 1;
    }
    text.append("\n## Suggested Group\n\n");
    let mut found_group = false;
    let gn = db.grouping_suggestions.entry_count();
    let mut gi: usize = 0;
    while gi < gn
        invariant
            gn == db.grouping_suggestions.entries_seq().len(),
            gi <= gn,
        decreases gn - gi,
    {
        if !found_group {
            let (_, suggestion) = db.grouping_suggestions.entry_at(gi);
            if crate::strutil::vec_contains_str(&suggestion.exceptions, exc_type) {
                found_group = true;
                text.append("This exception belongs to the **");
                text.append(suggestion.group_name.as_str());
                text.append("** group.\n\n**Reason:** ");
                text.append(suggestion.rationale.as_str());
                text.append("\n\n");
                let mut others_written = false;
                let sm = suggestion.exceptions.len();
                let mut si: usize = 0;
                while si < sm
                    invariant
                        sm == suggestion.exceptions@.len(),
                        si <= sm,
                    decreases sm - si,
                {
                    if !str_eq(suggestion.exceptions[si].as_str(), exc_type) {
                        if !others_written {
                            text.append("**Other exceptions in this group:**\n");
                            others_written = true;
                        }
                        text.append("- `");
                        text.append(suggestion.exceptions[si].as_str());
                        text.append("`\n");
                    }
                    si = si + 1;
                }
            }
        }
        gi = gi + 1;
    }
    if !found_group {
        text.append("No grouping suggestion found. Suggested recovery: **");
        text.append(strategy.as_str());
        text.append("**\n");
    }
    Ok(text)
}

/// The exception landscape of one package: its functions, their findings,
/// and the exception types they can raise; never fails, and says so when
/// nothing under the package was analyzed.
pub fn query_package(db: &ArborDatabase, name: &str) -> (r: Result<String, QueryError>)
    ensures
        r is Ok,
{
    proof {
        reveal_strlit(".");
    }
    let mut infix = ".".to_owned();
    infix.append(name);
    infix.append(".");
    let mut fn_names: Vec<String> = Vec::new();
    let mut fn_exc_counts: Vec<u64> = Vec::new();
    let mut fn_none_counts: Vec<u64> = Vec::new();
    let mut rows: Vec<ExcRow> = Vec::new();
    let fn_count = db.functions.entry_count();
    let mut fi: usize = 0;
    while fi < fn_count
        invariant
            fn_count == db.functions.entries_seq().len(),
            fi <= fn_count,
            fn_names@.len() == fn_exc_counts@.len(),
            fn_names@.len() == fn_none_counts@.len(),
        decreases fn_count - fi,
    {
        let (fn_id, analysis) = db.functions.entry_at(fi);
        let in_package = crate::strutil::starts_with(fn_id.as_str(), name)
            || crate::strutil::contains_sub(fn_id.as_str(), infix.as_str());
        if in_package {
            fn_names.push(fn_id.clone());
            let exc_count = analysis.raises.len();
            fn_exc_counts.push(exc_count as u64);
            let none_count = analysis.none_sources.len();
            fn_none_counts.push(none_count as u64);
            let rn = analysis.raises.len();
            let mut ri: usize = 0;
            while ri < rn
                invariant
                    rn == analysis.raises@.len(),
                    ri <= rn,
                decreases rn - ri,
            {
                let raise = &analysis.raises[ri];
                let mut found: bool = false;
                let rc = rows.len();
                let mut pi: usize = 0;
                while pi < rc
                    invariant
                        rc == rows@.len(),
                        pi <= rc,
                    decreases rc - pi,
                {
                    if !found && str_eq(
                        rows[pi].exception_type.as_str(),
                        raise.exception_type.as_str(),
                    ) {
                        found = true;
                        let bumped = if rows[pi].occurrences < 0xFFFF_FFFF_FFFF_FFFF {
                            rows[pi].occurrences + 1
                        } else {
                            rows[pi].occurrences
                        };
                        rows[pi].occurrences = bumped;
                    }
                    pi = pi + 1;
                }
                if !found {
                    rows.push(
                        ExcRow {
                            exception_type: raise.exception_type.clone(),
                            qualified_type: raise.qualified_type.clone(),
                            definition_file: match &raise.definition_location {
                                Some(l) => Some(last_component(l.file.as_str())),
                                None => None,
                            },
                            occurrences: 1,
                        },
                    );
                }
                ri = ri + 1;
            }
        }
        fi = fi + 1;
    }
    if fn_names.len() == 0 {
        let mut text = "Package `".to_owned();
        text.append(name);
        text.append("` not found in analyzed functions.\n\nTry a search to find related functions.");
        return Ok(text);
    }
    let mut total_exceptions: u64 = 0;
    let mut total_none: u64 = 0;
    let tn = fn_exc_counts.len();
    let mut ti: usize = 0;
    while ti < tn
        invariant
            tn == fn_exc_counts@.len(),
            tn == fn_none_counts@.len(),
            ti <= tn,
        decreases tn - ti,
    {
        total_exceptions = total_exceptions.checked_add(fn_exc_counts[ti]).unwrap_or(u64::MAX);
        total_none = total_none.checked_add(fn_none_counts[ti]).unwrap_or(u64::MAX);
        ti = ti + 1;
    }
    let mut text = "# Package Analysis: `".to_owned();
    text.append(name);
    text.append("`\n\n## Summary\n\n| Metric | Count |\n|--------|-------|\n");
    text.append("| Functions analyzed | ");
    let fcount = usize_to_string(fn_names.len());
    text.append(fcount.as_str());
    text.append(" |\n| Unique exception types | ");
    let ucount = usize_to_string(rows.len());
    text.append(ucount.as_str());
    text.append(" |\n| Total exception occurrences | ");
    let tcount = crate::strutil::u64_to_string(total_exceptions);
    text.append(tcount.as_str());
    text.append(" |\n| Total None sources | ");
    let ncount = crate::strutil::u64_to_string(total_none);
    text.append(ncount.as_str());
    text.append(" |\n\n");
    if rows.len() > 0 {
        text.append("## Exceptions Defined\n\n");
        text.append("| Exception | Qualified Type | Definition | Occurrences | Recovery |\n");
        text.append("|-----------|----------------|------------|-------------|----------|\n");
        sort_rows_desc(&mut rows);
        let rn = rows.len();
        let mut ri: usize = 0;
        while ri < rn
            invariant
                rn == rows@.len(),
                ri <= rn,
            decreases rn - ri,
        {
            let strategy = RecoveryStrategy::from_exception_type(
                rows[ri].exception_type.as_str(),
            );
            text.append("| `");
            text.append(rows[ri].exception_type.as_str());
            text.append("` | `");
            text.append(rows[ri].qualified_type.as_str());
            text.append("` | ");
            match &rows[ri].definition_file {
                Some(f) => text.append(f.as_str()),
                None => text.append("(builtin)"),
            }
            text.append(" | ");
            let occ = crate::strutil::u64_to_string(rows[ri].occurrences);
            text.append(occ.as_str());
            text.append(" | ");
            text.append(strategy.as_str());
            text.append(" |\n");
            ri = ri + 1;
        }
        text.append("\n");
    }
    text.append("## Functions\n\n| Function | Exceptions | None Sources | Risk |\n");
    text.append("|----------|------------|--------------|------|\n");
    let mut sorted_names = crate::types::clone_string_vec(&fn_names);
    crate::strutil::sort_strings(&mut sorted_names);
    let sn = sorted_names.len();
    let mut si: usize = 0;
    while si < sn
        invariant
            sn == sorted_names@.len(),
            si <= sn,
        decreases sn - si,
    {
        let fn_id = &sorted_names[si];
        text.append("| `");
        text.append(fn_id.as_str());
        text.append("` | ");
        match db.get_function(fn_id.as_str()) {
            Some(analysis) => {
                let risk = analysis.risk_level();
                let exc = usize_to_string(analysis.raises.len());
                text.append(exc.as_str());
                text.append(" | ");
                let nones = usize_to_string(analysis.none_sources.len());
                text.append(nones.as_str());
                text.append(" | ");
                text.append(risk.emoji());
                text.append(" ");
                text.append(risk.as_str());
            },
            None => {
                text.append("0 | 0 | -");
            },
        }
        text.append(" |\n");
        si = si + 1;
    }
    text.append("\n");
    Ok(text)
}

/// Every stored analysis, grouped by top-level package; never fails.
pub fn query_list(db: &ArborDatabase) -> (r: Result<String, QueryError>)
    ensures
        r is Ok,
{
    proof {
        reveal_strlit(".");
    }
    if db.functions.entry_count() == 0 {
        return Ok("No functions analyzed yet.".to_owned());
    }
    let mut text = "# Analyzed Functions\n\n**Database:** `.arbor/database.json`\n".to_owned();
    text.append("**Total Functions:** ");
    let total = usize_to_string(db.functions.entry_count());
    text.append(total.as_str());
    text.append("\n**Last Updated:** ");
    let updated = crate::strutil::i64_to_string(db.updated_at);
    text.append(updated.as_str());
    text.append("\n\n## By Package\n\n");
    let mut package_names: Vec<String> = Vec::new();
    let n = db.functions.entry_count();
    let mut i: usize = 0;
    while i < n
        invariant
            n == db.functions.entries_seq().len(),
            i <= n,
        decreases n - i,
    {
        let (fn_id, _) = db.functions.entry_at(i);
        let parts = split_char(fn_id.as_str(), '.');
        let package = parts[0].clone();
        if !crate::strutil::vec_contains_str(&package_names, package.as_str()) {
            package_names.push(package);
        }
        i = i + 1;
    }
    crate::strutil::sort_strings(&mut package_names);
    let pn = package_names.len();
    let mut pi: usize = 0;
    while pi < pn
        invariant
            pn == package_names@.len(),
            pi <= pn,
        decreases pn - pi,
    {
        let package = &package_names[pi];
        let mut member_names: Vec<String> = Vec::new();
        let fn_count = db.functions.entry_count();
        let mut fi: usize = 0;
        while fi < fn_count
            invariant
                fn_count == db.functions.entries_seq().len(),
                fi <= fn_count,
            decreases fn_count - fi,
        {
            let (fn_id, _) = db.functions.entry_at(fi);
            let parts = split_char(fn_id.as_str(), '.');
            if str_eq(parts[0].as_str(), package.as_str()) {
                member_names.push(fn_id.clone());
            }
            fi = fi + 1;
        }
        crate::strutil::sort_strings(&mut member_names);
        text.append("### ");
        text.append(package.as_str());
        text.append(" (");
        let count = usize_to_string(member_names.len());
        text.append(count.as_str());
        text.append(" functions)\n\n| Function | Exceptions | None Sources | Risk |\n");
        text.append("|----------|------------|--------------|------|\n");
        let mn = member_names.len();
        let mut mi: usize = 0;
        while mi < mn
            invariant
                mn == member_names@.len(),
                mi <= mn,
            decreases mn - mi,
        {
            let fn_id = &member_names[mi];
            let mut prefix = package.clone();
            prefix.append(".");
            let short: String = if crate::strutil::starts_with(
                fn_id.as_str(),
                prefix.as_str(),
            ) {
                let fl = vstd::string::StrSliceExecFns::unicode_len(fn_id.as_str());
                let pl = vstd::string::StrSliceExecFns::unicode_len(prefix.as_str());
                vstd::string::StrSliceExecFns::substring_char(fn_id.as_str(), pl, fl).to_owned()
            } else {
                fn_id.clone()
            };
            text.append("| `");
            text.append(short.as_str());
            text.append("` | ");
            match db.get_function(fn_id.as_str()) {
                Some(analysis) => {
                    let risk = analysis.risk_level();
                    let exc = usize_to_string(analysis.raises.len());
                    text.append(exc.as_str());
                    text.append(" | ");
                    let nones = usize_to_string(analysis.none_sources.len());
                    text.append(nones.as_str());
                    text.append(" | ");
                    text.append(risk.emoji());
                    text.append(" ");
                    text.append(risk.as_str());
                },
                None => {
                    text.append("0 | 0 | -");
                },
            }
            text.append(" |\n");
            mi = mi + 1;
        }
        text.append("\n");
        pi = pi + 1;
    }
    text.append("---\n\n## Follow-up\n\nAnalyze a new function, or ask for any stored one.\n");
    Ok(text)
}

/// The stored functions, indexed symbols and exception types whose names
/// mention a search text, case folded; never fails.
pub fn query_search(db: &ArborDatabase, wanted: &str) -> (r: Result<String, QueryError>)
    ensures
        r is Ok,
{
    let wanted_lower = crate::strutil::to_lower(wanted);
    let mut analyzed_lines: Vec<String> = Vec::new();
    let fn_count = db.functions.entry_count();
    let mut fi: usize = 0;
    while fi < fn_count
        invariant
            fn_count == db.functions.entries_seq().len(),
            fi <= fn_count,
        decreases fn_count - fi,
    {
        let (fn_id, analysis) = db.functions.entry_at(fi);
        let id_lower = crate::strutil::to_lower(fn_id.as_str());
        if crate::strutil::contains_sub(id_lower.as_str(), wanted_lower.as_str()) {
            let risk = analysis.risk_level();
            let mut line = "| `".to_owned();
            line.append(fn_id.as_str());
            line.append("` | ");
            let exc = usize_to_string(analysis.raises.len());
            line.append(exc.as_str());
            line.append(" | ");
            let nones = usize_to_string(analysis.none_sources.len());
            line.append(nones.as_str());
            line.append(" | ");
            line.append(risk.emoji());
            line.append(" ");
            line.append(risk.as_str());
            line.append(" |\n");
            analyzed_lines.push(line);
        }
        fi = fi + 1;
    }
    let mut unanalyzed_lines: Vec<String> = Vec::new();
    let sym_count = db.symbol_index.symbols.entry_count();
    let mut sy: usize = 0;
    while sy < sym_count
        invariant
            sym_count == db.symbol_index.symbols.entries_seq().len(),
            sy <= sym_count,
        decreases sym_count - sy,
    {
        let (symbol, loc) = db.symbol_index.symbols.entry_at(sy);
        let sym_lower = crate::strutil::to_lower(symbol.as_str());
        if crate::strutil::contains_sub(sym_lower.as_str(), wanted_lower.as_str()) {
            if !db.functions.contains_key(symbol.as_str()) {
                let mut line = "- `".to_owned();
                line.append(symbol.as_str());
                line.append("` - ");
                line.append(loc.file_path.as_str());
                line.append(":");
                let at = crate::strutil::u32_to_string(loc.line_start);
                line.append(at.as_str());
                line.append("\n");
                unanalyzed_lines.push(line);
            }
        }
        sy = sy + 1;
    }
    let mut exception_matches: Vec<String> = Vec::new();
    let mut efi: usize = 0;
    while efi < fn_count
        invariant
            fn_count == db.functions.entries_seq().len(),
            efi <= fn_count,
        decreases fn_count - efi,
    {
        let (_, analysis) = db.functions.entry_at(efi);
        let rn = analysis.raises.len();
        let mut ri: usize = 0;
        while ri < rn
            invariant
                rn == analysis.raises@.len(),
                ri <= rn,
            decreases rn - ri,
        {
            let raise = &analysis.raises[ri];
            let type_lower = crate::strutil::to_lower(raise.exception_type.as_str());
            let qual_lower = crate::strutil::to_lower(raise.qualified_type.as_str());
            let hit = crate::strutil::contains_sub(type_lower.as_str(), wanted_lower.as_str())
                || crate::strutil::contains_sub(qual_lower.as_str(), wanted_lower.as_str());
            if hit {
                if !crate::strutil::vec_contains_str(
                    &exception_matches,
                    raise.exception_type.as_str(),
                ) {
                    exception_matches.push(raise.exception_type.clone());
                }
            }
            ri = ri + 1;
        }
        efi = efi + 1;
    }
    if analyzed_lines.len() == 0 && unanalyzed_lines.len() == 0 && exception_matches.len() == 0 {
        let mut text = "No matches for '".to_owned();
        text.append(wanted);
        text.append("'\n\nTry a different search term.");
        return Ok(text);
    }
    let mut text = "# Search Results\n\n**Query:** `".to_owned();
    text.append(wanted);
    text.append("`\n**Results:** ");
    let matched = analyzed_lines.len().checked_add(unanalyzed_lines.len()).unwrap_or(usize::MAX);
    let matched_text = usize_to_string(matched);
    text.append(matched_text.as_str());
    text.append(" functions, ");
    let exc_text = usize_to_string(exception_matches.len());
    text.append(exc_text.as_str());
    text.append(" exceptions\n\n");
    if analyzed_lines.len() > 0 {
        text.append("## Functions\n\n### Analyzed\n\n| Function | Exceptions | None | Risk |\n");
        text.append("|----------|------------|------|------|\n");
        let an = analyzed_lines.len();
        let mut ai: usize = 0;
        while ai < an && ai < 25
            invariant
                an == analyzed_lines@.len(),
                ai <= an,
            decreases an - ai,
        {
            text.append(analyzed_lines[ai].as_str());
            ai = ai + 1;
        }
        if an > 25 {
            text.append("\n*... and more analyzed functions*\n");
        }
        text.append("\n");
    }
    if unanalyzed_lines.len() > 0 {
        text.append("### Not Analyzed\n\n");
        let un = unanalyzed_lines.len();
        let mut ui: usize = 0;
        while ui < un && ui < 25
            invariant
                un == unanalyzed_lines@.len(),
                ui <= un,
            decreases un - ui,
        {
            text.append(unanalyzed_lines[ui].as_str());
            ui = ui + 1;
        }
        if un > 25 {
            text.append("\n*... and more unanalyzed functions*\n");
        }
        text.append("\n");
    }
    if exception_matches.len() > 0 {
        text.append("## Exceptions Matching Query\n\n");
        let en = exception_matches.len();
        let mut ei: usize = 0;
        while ei < en && ei < 20
            invariant
                en == exception_matches@.len(),
                ei <= en,
            decreases en - ei,
        {
            let strategy = RecoveryStrategy::from_exception_type(exception_matches[ei].as_str());
            text.append("- `");
            text.append(exception_matches[ei].as_str());
            text.append("` (");
            text.append(strategy.as_str());
            text.append(")\n");
            ei = ei + 1;
        }
        if en > 20 {
            text.append("\n*... and more exceptions*\n");
        }
    }
    text.append("\n---\n\n**Tips:**\n");
    text.append("- Ask for a function's full analysis\n");
    text.append("- Analyze unanalyzed functions first\n");
    Ok(text)
}

/// Whole-database statistics: counts, risk distribution, the most common
/// exceptions, and the stored groups; never fails.
pub fn query_stats(db: &ArborDatabase) -> (r: Result<String, QueryError>)
    ensures
        r is Ok,
{
    proof {
        reveal_strlit(".");
    }
    let mut total_none: u64 = 0;
    let mut high_risk: u64 = 0;
    let mut medium_risk: u64 = 0;
    let mut low_risk: u64 = 0;
    let mut exc_rows: Vec<ExcRow> = Vec::new();
    let mut packages: Vec<String> = Vec::new();
    let fn_count = db.functions.entry_count();
    let mut fi: usize = 0;
    while fi < fn_count
        invariant
            fn_count == db.functions.entries_seq().len(),
            fi <= fn_count,
        decreases fn_count - fi,
    {
        let (fn_id, analysis) = db.functions.entry_at(fi);
        total_none = total_none.checked_add(analysis.none_sources.len() as u64).unwrap_or(
            u64::MAX,
        );
        match analysis.risk_level() {
            crate::types::RiskLevel::High => {
                high_risk = high_risk.checked_add(1).unwrap_or(u64::MAX);
            },
            crate::types::RiskLevel::Medium => {
                medium_risk = medium_risk.checked_add(1).unwrap_or(u64::MAX);
            },
            crate::types::RiskLevel::Low => {
                low_risk = low_risk.checked_add(1).unwrap_or(u64::MAX);
            },
        }
        let parts = split_char(fn_id.as_str(), '.');
        if !crate::strutil::vec_contains_str(&packages, parts[0].as_str()) {
            packages.push(parts[0].clone());
        }
        let rn = analysis.raises.len();
        let mut ri: usize = 0;
        while ri < rn
            invariant
                rn == analysis.raises@.len(),
                ri <= rn,
            decreases rn - ri,
        {
            let raise = &analysis.raises[ri];
            let mut found = false;
            let rc = exc_rows.len();
            let mut pi: usize = 0;
            while pi < rc
                invariant
                    rc == exc_rows@.len(),
                    pi <= rc,
                decreases rc - pi,
            {
                if !found && str_eq(
                    exc_rows[pi].exception_type.as_str(),
                    raise.exception_type.as_str(),
                ) {
                    found = true;
                    let bumped = if exc_rows[pi].occurrences < 0xFFFF_FFFF_FFFF_FFFF {
                        exc_rows[pi].occurrences + 1
                    } else {
                        exc_rows[pi].occurrences
                    };
                    exc_rows[pi].occurrences = bumped;
                }
                pi = pi + 1;
            }
            if !found {
                exc_rows.push(
                    ExcRow {
                        exception_type: raise.exception_type.clone(),
                        qualified_type: raise.qualified_type.clone(),
                        definition_file: None,
                        occurrences: 1,
                    },
                );
            }
            ri = ri + 1;
        }
        fi = fi + 1;
    }
    let mut text = "# Arbor Database Statistics\n\n**Database:** `.arbor/database.json`\n".to_owned();
    text.append("**Version:** ");
    text.append(db.version.as_str());
    text.append("\n**Created:** ");
    let created = crate::strutil::i64_to_string(db.created_at);
    text.append(created.as_str());
    text.append("\n**Updated:** ");
    let updated = crate::strutil::i64_to_string(db.updated_at);
    text.append(updated.as_str());
    text.append("\n\n## Summary\n\n| Metric | Count |\n|--------|-------|\n");
    text.append("| Functions analyzed | ");
    let fcount = usize_to_string(db.function_count());
    text.append(fcount.as_str());
    text.append(" |\n| Symbols indexed | ");
    let scount = usize_to_string(db.symbol_count());
    text.append(scount.as_str());
    text.append(" |\n| Unique exceptions | ");
    let ucount = usize_to_string(exc_rows.len());
    text.append(ucount.as_str());
    text.append(" |\n| Unique None sources | ");
    let ncount = crate::strutil::u64_to_string(total_none);
    text.append(ncount.as_str());
    text.append(" |\n| Packages covered | ");
    let pcount = usize_to_string(packages.len());
    text.append(pcount.as_str());
    text.append(" |\n| Grouping suggestions | ");
    let gcount = usize_to_string(db.grouping_suggestions.entry_count());
    text.append(gcount.as_str());
    text.append(" |\n\n## By Risk Level\n\n| Risk | Functions | Percentage |\n");
    text.append("|------|-----------|------------|\n");
    let total_functions = db.function_count();
    if total_functions > 0 {
        text.append("| \u{1F534} High | ");
        let hc = crate::strutil::u64_to_string(high_risk);
        text.append(hc.as_str());
        text.append(" | ");
        let hp = share_percent(high_risk, total_functions as u64);
        text.append(hp.as_str());
        text.append("% |\n| \u{1F7E1} Medium | ");
        let mc = crate::strutil::u64_to_string(medium_risk);
        text.append(mc.as_str());
        text.append(" | ");
        let mp = share_percent(medium_risk, total_functions as u64);
        text.append(mp.as_str());
        text.append("% |\n| \u{1F7E2} Low | ");
        let lc = crate::strutil::u64_to_string(low_risk);
        text.append(lc.as_str());
        text.append(" | ");
        let lp = share_percent(low_risk, total_functions as u64);
        text.append(lp.as_str());
        text.append("% |\n");
    } else {
        text.append("| - | 0 | 0% |\n");
    }
    text.append("\n");
    if exc_rows.len() > 0 {
        text.append("## Top Exceptions\n\n| Exception | Occurrences | Recovery |\n");
        text.append("|-----------|-------------|----------|\n");
        sort_rows_desc(&mut exc_rows);
        let en = exc_rows.len();
        let mut ei: usize = 0;
        while ei < en && ei < 10
            invariant
                en == exc_rows@.len(),
                ei <= en,
            decreases en - ei,
        {
            let strategy = RecoveryStrategy::from_exception_type(
                exc_rows[ei].exception_type.as_str(),
            );
            text.append("| `");
            text.append(exc_rows[ei].exception_type.as_str());
            text.append("` | ");
            let occ = crate::strutil::u64_to_string(exc_rows[ei].occurrences);
            text.append(occ.as_str());
            text.append(" | ");
            text.append(strategy.as_str());
            text.append(" |\n");
            ei = ei + 1;
        }
        if en > 10 {
            text.append("\n*... and more exception types*\n");
        }
        text.append("\n");
    }
    if db.grouping_suggestions.entry_count() > 0 {
        text.append("## Grouping Suggestions Available\n\n| Group | Exceptions | Retryable |\n");
        text.append("|-------|------------|----------|\n");
        let gn = db.grouping_suggestions.entry_count();
        let mut gi: usize = 0;
        while gi < gn
            invariant
                gn == db.grouping_suggestions.entries_seq().len(),
                gi <= gn,
            decreases gn - gi,
        {
            let (_, suggestion) = db.grouping_suggestions.entry_at(gi);
            let first_exc: String = if suggestion.exceptions.len() > 0 {
                suggestion.exceptions[0].clone()
            } else {
                String::new()
            };
            let strategy = RecoveryStrategy::from_exception_type(first_exc.as_str());
            text.append("| ");
            text.append(suggestion.group_name.as_str());
            text.append(" | ");
            let count = usize_to_string(suggestion.exceptions.len());
            text.append(count.as_str());
            text.append(" | ");
            text.append(retry_text(strategy));
            text.append(" |\n");
            gi = gi + 1;
        }
        text.append("\n");
    }
    text.append("---\n\n## Follow-up\n\nRefresh the stored analyses, list them, or view the groups.\n");
    Ok(text)
}

/// The share of a total in whole percent, as text.
fn share_percent(part: u64, total: u64) -> (r: String)
    requires
        total > 0,
{
    let scaled: u128 = (part as u128) * 100 / (total as u128);
    let clamped: u64 = if scaled > 0xFFFF_FFFF_FFFF_FFFF {
        0xFFFF_FFFF_FFFF_FFFF
    } else {
        scaled as u64
    };
    crate::strutil::u64_to_string(clamped)
}

/// A short guide to the available queries.
pub fn query_quickref() -> (r: String)
    ensures
        r@.len() > 0,
{
    proof {
        reveal_strlit("Arbor query commands - quick reference\n");
    }
    let mut text = "Arbor query commands - quick reference\n".to_owned();
    text.append("\nPer-function queries:\n");
    text.append("  risk <function>            One-line risk summary\n");
    text.append("  has <function> <exc>       Check if function raises exception\n");
    text.append("  handle <function>          Generate try/except block\n");
    text.append("  signature <function>       Function signature + location\n");
    text.append("  exception <fn> <exc>       Single exception details\n");
    text.append("  none <fn> <idx>            Single None source details\n");
    text.append("  callers <function>         What calls this function\n");
    text.append("  callees <function>         What this function calls\n");
    text.append("  diff <function>            Compare current vs previous\n");
    text.append("\nFull-analysis queries:\n");
    text.append("  exceptions <function>      All exceptions with locations\n");
    text.append("  none <function>            All None sources\n");
    text.append("  function <function>        Complete function summary\n");
    text.append("  chain <function> <exc>     Call chain visualization\n");
    text.append("\nCross-function queries:\n");
    text.append("  groups [package]           Grouping suggestions\n");
    text.append("  exception <type>           Exception type details\n");
    text.append("  package <name>             Package exception analysis\n");
    text.append("  list                       All analyzed functions\n");
    text.append("  search <text>              Search functions and exceptions\n");
    text.append("  stats                      Database statistics\n");
    text
}


} // verus!
