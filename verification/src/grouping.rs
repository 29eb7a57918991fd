//! The exception-grouping heuristics: a recovery strategy guessed from an
//! exception type's name, a semantic category guessed the same way, and
//! suggested handler groupings over a set of raise sites.

use vstd::prelude::*;
use vstd::string::StrSliceExecFns;
use vstd::string::StringExecFns;
use crate::strmap::StrMap;
use crate::strutil::{
    contains_sub, join_str, lower_char, match_at, sort_strings, spec_split, split_char, str_eq,
    to_lower, vec_contains_str,
};
use crate::types::RaiseStatement;

verus! {

/// Which kind of evidence a grouping suggestion rests on.
#[derive(Clone, Copy, PartialEq, Eq, Structural, Debug)]
pub enum GroupingSignal {
    RecoveryStrategy,
    SourcePackage,
    SemanticSimilarity,
    CommonParent,
}

pub open spec fn spec_signal_str(s: GroupingSignal) -> Seq<char> {
    match s {
        GroupingSignal::RecoveryStrategy => "recovery strategy"@,
        GroupingSignal::SourcePackage => "source package"@,
        GroupingSignal::SemanticSimilarity => "semantic similarity"@,
        GroupingSignal::CommonParent => "common parent"@,
    }
}

impl GroupingSignal {
    pub fn as_str(&self) -> (r: &'static str)
        ensures
            r@ == spec_signal_str(*self),
    {
        match self {
            GroupingSignal::RecoveryStrategy => "recovery strategy",
            GroupingSignal::SourcePackage => "source package",
            GroupingSignal::SemanticSimilarity => "semantic similarity",
            GroupingSignal::CommonParent => "common parent",
        }
    }
}

/// How a caller would sensibly react to an exception.
#[derive(Clone, Copy, PartialEq, Eq, Structural, Debug, Hash)]
pub enum RecoveryStrategy {
    Retry,
    FixInput,
    ReAuthenticate,
    Abort,
    Ignore,
}

pub open spec fn spec_strategy_str(s: RecoveryStrategy) -> Seq<char> {
    match s {
        RecoveryStrategy::Retry => "retry"@,
        RecoveryStrategy::FixInput => "fix input"@,
        RecoveryStrategy::ReAuthenticate => "re-authenticate"@,
        RecoveryStrategy::Abort => "abort"@,
        RecoveryStrategy::Ignore => "ignore"@,
    }
}

/// Whether `sub` occurs anywhere in `s`.
pub open spec fn spec_has_sub(s: Seq<char>, sub: Seq<char>) -> bool {
    exists|j: int| match_at(s, sub, j)
}

/// The case-folded name of an exception type, which the heuristics match
/// patterns against.
pub open spec fn spec_folded(t: Seq<char>) -> Seq<char> {
    t.map_values(|c: char| lower_char(c))
}

/// The recovery-strategy rule: transient-failure words suggest a retry,
/// credential words a re-authentication, validation words an input fix,
/// absence words an ignore, and anything else an abort.
pub open spec fn spec_strategy_of(t: Seq<char>) -> RecoveryStrategy {
    let lower = spec_folded(t);
    if spec_has_sub(lower, "timeout"@) || spec_has_sub(lower, "connection"@) || spec_has_sub(
        lower,
        "network"@,
    ) || spec_has_sub(lower, "temporary"@) || spec_has_sub(lower, "retry"@) || spec_has_sub(
        lower,
        "throttl"@,
    ) || spec_has_sub(lower, "ratelimit"@) {
        RecoveryStrategy::Retry
    } else if spec_has_sub(lower, "auth"@) || spec_has_sub(lower, "permission"@) || spec_has_sub(
        lower,
        "forbidden"@,
    ) || spec_has_sub(lower, "unauthorized"@) || spec_has_sub(lower, "credential"@)
        || spec_has_sub(lower, "token"@) {
        RecoveryStrategy::ReAuthenticate
    } else if spec_has_sub(lower, "validation"@) || spec_has_sub(lower, "invalid"@)
        || spec_has_sub(lower, "value"@) || spec_has_sub(lower, "type"@) || spec_has_sub(
        lower,
        "argument"@,
    ) || spec_has_sub(lower, "format"@) || spec_has_sub(lower, "parse"@) {
        RecoveryStrategy::FixInput
    } else if spec_has_sub(lower, "notfound"@) || spec_has_sub(lower, "missing"@)
        || spec_has_sub(lower, "doesnotexist"@) {
        RecoveryStrategy::Ignore
    } else {
        RecoveryStrategy::Abort
    }
}

impl RecoveryStrategy {
    pub fn as_str(&self) -> (r: &'static str)
        ensures
            r@ == spec_strategy_str(*self),
    {
        match self {
            RecoveryStrategy::Retry => "retry",
            RecoveryStrategy::FixInput => "fix input",
            RecoveryStrategy::ReAuthenticate => "re-authenticate",
            RecoveryStrategy::Abort => "abort",
            RecoveryStrategy::Ignore => "ignore",
        }
    }

    /// Guesses the recovery strategy from an exception type's name, as
    /// `spec_strategy_of` says.
    pub fn from_exception_type(exc_type: &str) -> (r: Self)
        ensures
            r == spec_strategy_of(exc_type@),
    {
        let lower_string = to_lower(exc_type);
        let lower = lower_string.as_str();
        if contains_sub(lower, "timeout") || contains_sub(lower, "connection") || contains_sub(
            lower,
            "network",
        ) || contains_sub(lower, "temporary") || contains_sub(lower, "retry") || contains_sub(
            lower,
            "throttl",
        ) || contains_sub(lower, "ratelimit") {
            return RecoveryStrategy::Retry;
        }
        if contains_sub(lower, "auth") || contains_sub(lower, "permission") || contains_sub(
            lower,
            "forbidden",
        ) || contains_sub(lower, "unauthorized") || contains_sub(lower, "credential")
            || contains_sub(lower, "token") {
            return RecoveryStrategy::ReAuthenticate;
        }
        if contains_sub(lower, "validation") || contains_sub(lower, "invalid") || contains_sub(
            lower,
            "value",
        ) || contains_sub(lower, "type") || contains_sub(lower, "argument") || contains_sub(
            lower,
            "format",
        ) || contains_sub(lower, "parse") {
            return RecoveryStrategy::FixInput;
        }
        if contains_sub(lower, "notfound") || contains_sub(lower, "missing") || contains_sub(
            lower,
            "doesnotexist",
        ) {
            return RecoveryStrategy::Ignore;
        }
        RecoveryStrategy::Abort
    }
}

/// The semantic-category rule: the first of a fixed list of patterns that
/// occurs in the case-folded name gives the category.
pub open spec fn spec_semantic_of(t: Seq<char>) -> Option<Seq<char>> {
    let lower = spec_folded(t);
    if spec_has_sub(lower, "timeout"@) {
        Some("Timeout"@)
    } else if spec_has_sub(lower, "connection"@) {
        Some("Connection"@)
    } else if spec_has_sub(lower, "network"@) {
        Some("Network"@)
    } else if spec_has_sub(lower, "auth"@) {
        Some("Authentication"@)
    } else if spec_has_sub(lower, "permission"@) {
        Some("Permission"@)
    } else if spec_has_sub(lower, "validation"@) {
        Some("Validation"@)
    } else if spec_has_sub(lower, "notfound"@) {
        Some("NotFound"@)
    } else if spec_has_sub(lower, "io"@) {
        Some("IO"@)
    } else if spec_has_sub(lower, "file"@) {
        Some("File"@)
    } else if spec_has_sub(lower, "encoding"@) {
        Some("Encoding"@)
    } else if spec_has_sub(lower, "json"@) {
        Some("JSON"@)
    } else if spec_has_sub(lower, "http"@) {
        Some("HTTP"@)
    } else if spec_has_sub(lower, "ssl"@) {
        Some("SSL"@)
    } else if spec_has_sub(lower, "dns"@) {
        Some("DNS"@)
    } else if spec_has_sub(lower, "socket"@) {
        Some("Socket"@)
    } else {
        None
    }
}

/// Guesses a semantic category from an exception type's name, as
/// `spec_semantic_of` says.
pub fn detect_semantic_category(exc_type: &str) -> (r: Option<String>)
    ensures
        r.deep_view() == spec_semantic_of(exc_type@),
{
    let lower_string = to_lower(exc_type);
    let lower = lower_string.as_str();
    if contains_sub(lower, "timeout") {
        Some("Timeout".to_owned())
    } else if contains_sub(lower, "connection") {
        Some("Connection".to_owned())
    } else if contains_sub(lower, "network") {
        Some("Network".to_owned())
    } else if contains_sub(lower, "auth") {
        Some("Authentication".to_owned())
    } else if contains_sub(lower, "permission") {
        Some("Permission".to_owned())
    } else if contains_sub(lower, "validation") {
        Some("Validation".to_owned())
    } else if contains_sub(lower, "notfound") {
        Some("NotFound".to_owned())
    } else if contains_sub(lower, "io") {
        Some("IO".to_owned())
    } else if contains_sub(lower, "file") {
        Some("File".to_owned())
    } else if contains_sub(lower, "encoding") {
        Some("Encoding".to_owned())
    } else if contains_sub(lower, "json") {
        Some("JSON".to_owned())
    } else if contains_sub(lower, "http") {
        Some("HTTP".to_owned())
    } else if contains_sub(lower, "ssl") {
        Some("SSL".to_owned())
    } else if contains_sub(lower, "dns") {
        Some("DNS".to_owned())
    } else if contains_sub(lower, "socket") {
        Some("Socket".to_owned())
    } else {
        None
    }
}

/// The package part of a qualified exception type: the first dotted
/// segment, present only when the name is dotted at all.
pub open spec fn spec_package_of(t: Seq<char>) -> Option<Seq<char>> {
    let parts = spec_split(t, '.');
    if parts.len() >= 2 {
        Some(parts[0])
    } else {
        None
    }
}

/// The package a qualified exception type comes from, as
/// `spec_package_of` says.
pub fn extract_package(qualified_type: &str) -> (r: Option<String>)
    ensures
        r.deep_view() == spec_package_of(qualified_type@),
{
    proof {
        reveal_strlit(".");
    }
    let parts = split_char(qualified_type, '.');
    if parts.len() >= 2 {
        Some(parts[0].clone())
    } else {
        None
    }
}

/// Whether a list of strings holds one with exactly this text.
pub open spec fn spec_contains_text(v: Seq<String>, x: Seq<char>) -> bool {
    exists|i: int| 0 <= i < v.len() && (#[trigger] v[i])@ == x
}

/// Whether every string of `v` also stands, by content, in `pool`.
pub open spec fn spec_texts_from(v: Seq<String>, pool: Seq<String>) -> bool {
    forall|i: int| 0 <= i < v.len() ==> spec_contains_text(pool, (#[trigger] v[i])@)
}

/// Whether a text is the display type of some input raise.
pub open spec fn spec_member_of(x: Seq<char>, raises: Seq<RaiseStatement>) -> bool {
    exists|j: int| 0 <= j < raises.len() && (#[trigger] raises[j]).exception_type@ == x
}

/// Whether every member is the display type of some input raise.
pub open spec fn spec_members_from(v: Seq<String>, raises: Seq<RaiseStatement>) -> bool {
    forall|i: int| 0 <= i < v.len() ==> spec_member_of((#[trigger] v[i])@, raises)
}

/// Whether no two neighbouring strings are equal.
pub open spec fn spec_adjacent_distinct(v: Seq<String>) -> bool {
    forall|i: int| 0 <= i < v.len() - 1 ==> (#[trigger] v[i])@ != v[i + 1]@
}

/// Whether every suggestion's member set is, by content, one of the
/// pool's member sets.
/// Whether some pool suggestion carries exactly this member set.
pub open spec fn spec_set_among(x: Seq<String>, pool: Seq<GroupingSuggestion>) -> bool {
    exists|m: int| 0 <= m < pool.len() && (#[trigger] pool[m]).exceptions@ == x
}

pub open spec fn spec_from_originals(
    v: Seq<GroupingSuggestion>,
    pool: Seq<GroupingSuggestion>,
) -> bool {
    forall|k: int| 0 <= k < v.len() ==> spec_set_among((#[trigger] v[k]).exceptions@, pool)
}

/// Whether some unsubsumed pool suggestion carries exactly this member
/// set.
pub open spec fn spec_kept_among(x: Seq<String>, pool: Seq<GroupingSuggestion>) -> bool {
    exists|m: int|
        0 <= m < pool.len() && (#[trigger] pool[m]).exceptions@ == x && spec_unsubsumed(pool, m)
}

/// Whether every suggestion comes from the pool and is subsumed by no
/// pool member.
pub open spec fn spec_kept_from(
    v: Seq<GroupingSuggestion>,
    pool: Seq<GroupingSuggestion>,
) -> bool {
    forall|k: int| 0 <= k < v.len() ==> spec_kept_among((#[trigger] v[k]).exceptions@, pool)
}

/// Membership carries through a by-content subset: texts drawn from a
/// list whose texts are input raise types are themselves input raise
/// types.
proof fn lemma_members_via(v: Seq<String>, mid: Seq<String>, origin: Seq<RaiseStatement>)
    requires
        spec_texts_from(v, mid),
        spec_members_from(mid, origin),
    ensures
        spec_members_from(v, origin),
{
    assert forall|i: int| 0 <= i < v.len() implies spec_member_of((#[trigger] v[i])@, origin) by {
        assert(spec_contains_text(mid, v[i]@));
        let m = choose|m: int| 0 <= m < mid.len() && (#[trigger] mid[m])@ == v[i]@;
        assert(spec_member_of((mid[m])@, origin));
        let j = choose|j: int|
            0 <= j < origin.len() && (#[trigger] origin[j]).exception_type@ == (mid[m])@;
        assert(origin[j].exception_type@ == v[i]@);
    }
}

/// Whether the suggestion at `m` is a strict subset of no other.
pub open spec fn spec_unsubsumed(all: Seq<GroupingSuggestion>, m: int) -> bool {
    forall|j: int|
        0 <= j < all.len() && j != m ==> !spec_strict_subset(
            all[m].exceptions@,
            (#[trigger] all[j]).exceptions@,
        )
}

/// Whether `a`'s texts all stand in `b` while `b` holds a text `a` lacks.
pub open spec fn spec_strict_subset(a: Seq<String>, b: Seq<String>) -> bool {
    (forall|i: int| 0 <= i < a.len() ==> spec_contains_text(b, (#[trigger] a[i])@)) && (exists|
        j: int,
    | 0 <= j < b.len() && !spec_contains_text(a, (#[trigger] b[j])@))
}

/// One suggested grouping of exceptions: a name for the group, its
/// members, the reason they belong together, and an example handler.
pub struct GroupingSuggestion {
    pub group_name: String,
    pub exceptions: Vec<String>,
    pub rationale: String,
    pub handler_example: String,
}

impl Clone for GroupingSuggestion {
    fn clone(&self) -> (r: Self)
        ensures
            r.group_name@ == self.group_name@,
            r.exceptions@ == self.exceptions@,
            r.rationale@ == self.rationale@,
            r.handler_example@ == self.handler_example@,
    {
        GroupingSuggestion {
            group_name: self.group_name.clone(),
            exceptions: crate::types::clone_string_vec(&self.exceptions),
            rationale: self.rationale.clone(),
            handler_example: self.handler_example.clone(),
        }
    }
}

/// Removes adjacent duplicates in place: entries never grow, no two
/// neighbours are left equal, and every survivor stood in the input.
fn dedup_adjacent(v: &mut Vec<String>)
    ensures
        final(v)@.len() <= old(v)@.len(),
        spec_adjacent_distinct(final(v)@),
        spec_texts_from(final(v)@, old(v)@),
{
    let mut out: Vec<String> = Vec::new();
    let n = v.len();
    let mut i: usize = 0;
    while i < n
        invariant
            n == v@.len(),
            i <= n,
            out@.len() <= i,
            spec_adjacent_distinct(out@),
            spec_texts_from(out@, v@),
        decreases n - i,
    {
        let keep = if out.len() == 0 {
            true
        } else {
            !str_eq(out[out.len() - 1].as_str(), v[i].as_str())
        };
        if keep {
            out.push(v[i].clone());
            proof {
                assert(spec_contains_text(v@, out@.last()@));
            }
        }
        i = i + 1;
    }
    *v = out;
}

/// The grouping keys and member lists for one classification of the raise
/// sites; members are sorted and deduplicated per group.
fn group_members(keys: &Vec<String>, members: &Vec<String>) -> (r: StrMap<Vec<String>>)
    requires
        keys@.len() == members@.len(),
    ensures
        forall|key: Seq<char>|
            r@.dom().contains(key) ==> spec_texts_from((#[trigger] r@[key])@, members@),
{
    let mut groups: StrMap<Vec<String>> = StrMap::new();
    let n = keys.len();
    let mut i: usize = 0;
    while i < n
        invariant
            n == keys@.len(),
            n == members@.len(),
            i <= n,
            forall|key: Seq<char>|
                groups@.dom().contains(key) ==> spec_texts_from(
                    (#[trigger] groups@[key])@,
                    members@,
                ),
        decreases n - i,
    {
        let existing: Vec<String> = match groups.get(keys[i].as_str()) {
            Some(v) => crate::types::clone_string_vec(v),
            None => Vec::new(),
        };
        let mut updated = existing;
        updated.push(members[i].clone());
        proof {
            assert(spec_contains_text(members@, updated@.last()@));
            assert(spec_texts_from(updated@, members@));
        }
        groups.insert(keys[i].clone(), updated);
        i = i + 1;
    }
    groups
}

/// The upper-case twin of an ASCII letter, for capitalising a word.
fn upper_rep(c: char) -> (r: Option<&'static str>) {
    if c == 'a' {
        Some("A")
    } else if c == 'b' {
        Some("B")
    } else if c == 'c' {
        Some("C")
    } else if c == 'd' {
        Some("D")
    } else if c == 'e' {
        Some("E")
    } else if c == 'f' {
        Some("F")
    } else if c == 'g' {
        Some("G")
    } else if c == 'h' {
        Some("H")
    } else if c == 'i' {
        Some("I")
    } else if c == 'j' {
        Some("J")
    } else if c == 'k' {
        Some("K")
    } else if c == 'l' {
        Some("L")
    } else if c == 'm' {
        Some("M")
    } else if c == 'n' {
        Some("N")
    } else if c == 'o' {
        Some("O")
    } else if c == 'p' {
        Some("P")
    } else if c == 'q' {
        Some("Q")
    } else if c == 'r' {
        Some("R")
    } else if c == 's' {
        Some("S")
    } else if c == 't' {
        Some("T")
    } else if c == 'u' {
        Some("U")
    } else if c == 'v' {
        Some("V")
    } else if c == 'w' {
        Some("W")
    } else if c == 'x' {
        Some("X")
    } else if c == 'y' {
        Some("Y")
    } else if c == 'z' {
        Some("Z")
    } else {
        None
    }
}

/// A word with its first letter capitalised.
fn capitalize(s: &str) -> String {
    let n = s.unicode_len();
    if n == 0 {
        return String::new();
    }
    let first = s.get_char(0);
    match upper_rep(first) {
        Some(u) => {
            let mut r = u.to_owned();
            let rest = s.substring_char(1, n);
            r.append(rest);
            r
        },
        None => s.to_owned(),
    }
}

/// An example handler for a group of exception types.
fn generate_handler_example(exc_types: &Vec<String>, group_name: &str) -> String {
    let types_str = join_str(exc_types, ", ");
    let lowered = to_lower(group_name);
    let mut r = "try:\n    result = call_function()\nexcept (".to_owned();
    r.append(types_str.as_str());
    r.append(") as e:\n    # Handle ");
    r.append(lowered.as_str());
    r.append(" errors\n    logger.error(f\"");
    r.append(group_name);
    r.append(" error: {e}\")\n    raise");
    r
}

/// An example handler for a group that shares a recovery strategy.
fn generate_recovery_handler(exc_types: &Vec<String>, strategy: RecoveryStrategy) -> String {
    let types_str = join_str(exc_types, ", ");
    match strategy {
        RecoveryStrategy::Retry => {
            let mut r =
                "for attempt in range(max_retries):\n    try:\n        result = call_function()\n        break\n    except (".to_owned();
            r.append(types_str.as_str());
            r.append(
                ") as e:\n        if attempt == max_retries - 1:\n            raise\n        time.sleep(backoff * (2 ** attempt))",
            );
            r
        },
        RecoveryStrategy::FixInput => {
            let mut r = "try:\n    result = call_function(data)\nexcept (".to_owned();
            r.append(types_str.as_str());
            r.append(
                ") as e:\n    # Log validation error and return user-friendly message\n    logger.warning(f\"Invalid input: {e}\")\n    raise ValidationError(str(e)) from e",
            );
            r
        },
        RecoveryStrategy::ReAuthenticate => {
            let mut r = "try:\n    result = call_function()\nexcept (".to_owned();
            r.append(types_str.as_str());
            r.append(
                ") as e:\n    # Refresh credentials and retry\n    refresh_credentials()\n    result = call_function()",
            );
            r
        },
        RecoveryStrategy::Ignore => {
            let mut r = "try:\n    result = call_function()\nexcept (".to_owned();
            r.append(types_str.as_str());
            r.append(
                ") as e:\n    # Resource not found, use default\n    logger.debug(f\"Not found: {e}\")\n    result = default_value",
            );
            r
        },
        RecoveryStrategy::Abort => {
            let mut r = "try:\n    result = call_function()\nexcept (".to_owned();
            r.append(types_str.as_str());
            r.append(
                ") as e:\n    # Unrecoverable error, abort operation\n    logger.error(f\"Fatal error: {e}\")\n    raise",
            );
            r
        },
    }
}

/// Builds suggestions for one grouping classification: a group appears
/// only when it has at least two members.
fn suggestions_for_groups(
    groups: &StrMap<Vec<String>>,
    name_suffix: &str,
    rationale_prefix: &str,
    rationale_suffix: &str,
    lower_name_in_rationale: bool,
    out: &mut Vec<GroupingSuggestion>,
    origin: Ghost<Seq<RaiseStatement>>,
)
    requires
        forall|key: Seq<char>|
            groups@.dom().contains(key) ==> spec_members_from(
                (#[trigger] groups@[key])@,
                origin@,
            ),
    ensures
        final(out)@.len() >= old(out)@.len(),
        forall|k: int| 0 <= k < old(out)@.len() ==> final(out)@[k] == old(out)@[k],
        forall|k: int|
            old(out)@.len() <= k < final(out)@.len() ==> (#[trigger] final(out)@[k]).exceptions@.len() >= 2
                && spec_members_from(final(out)@[k].exceptions@, origin@)
                && spec_adjacent_distinct(final(out)@[k].exceptions@),
{
    let n = groups.entry_count();
    let mut i: usize = 0;
    let ghost orig = out@;
    while i < n
        invariant
            n == groups.entries_seq().len(),
            i <= n,
            out@.len() >= orig.len(),
            forall|key: Seq<char>|
                groups@.dom().contains(key) ==> spec_members_from(
                    (#[trigger] groups@[key])@,
                    origin@,
                ),
            forall|k: int| 0 <= k < orig.len() ==> out@[k] == orig[k],
            forall|k: int|
                orig.len() <= k < out@.len() ==> (#[trigger] out@[k]).exceptions@.len() >= 2
                    && spec_members_from(out@[k].exceptions@, origin@)
                    && spec_adjacent_distinct(out@[k].exceptions@),
        decreases n - i,
    {
        let (key, members) = groups.entry_at(i);
        let key = key.clone();
        let mut exc_types = crate::types::clone_string_vec(members);
        let ghost pool0 = exc_types@;
        proof {
            assert(spec_members_from(pool0, origin@));
        }
        sort_strings(&mut exc_types);
        let ghost pool1 = exc_types@;
        proof {
            assert(spec_texts_from(pool1, pool0));
            lemma_members_via(pool1, pool0, origin@);
        }
        dedup_adjacent(&mut exc_types);
        proof {
            lemma_members_via(exc_types@, pool1, origin@);
        }
        if exc_types.len() >= 2 {
            let mut group_name = key.clone();
            group_name.append(name_suffix);
            let mut rationale = rationale_prefix.to_owned();
            if lower_name_in_rationale {
                let lowered = to_lower(key.as_str());
                rationale.append(lowered.as_str());
            } else {
                rationale.append(key.as_str());
            }
            rationale.append(rationale_suffix);
            let handler = generate_handler_example(&exc_types, key.as_str());
            out.push(
                GroupingSuggestion {
                    group_name,
                    exceptions: exc_types,
                    rationale,
                    handler_example: handler,
                },
            );
        }
        i = i + 1;
    }
}

/// Suggests handler groupings over a set of raise sites: by source
/// package, by semantic category, and by recovery strategy. Nothing is
/// suggested for an empty set, and every suggestion groups at least two
/// exception types.
pub fn suggest_groups(exceptions: &Vec<RaiseStatement>) -> (r: Vec<GroupingSuggestion>)
    ensures
        exceptions@.len() == 0 ==> r@.len() == 0,
        forall|k: int| 0 <= k < r@.len() ==> (#[trigger] r@[k]).exceptions@.len() >= 2,
        forall|k: int|
            0 <= k < r@.len() ==> spec_members_from((#[trigger] r@[k]).exceptions@, exceptions@),
        forall|k: int|
            0 <= k < r@.len() ==> spec_adjacent_distinct((#[trigger] r@[k]).exceptions@),
        forall|k1: int, k2: int|
            0 <= k1 < r@.len() && 0 <= k2 < r@.len() ==> !spec_strict_subset(
                (#[trigger] r@[k1]).exceptions@,
                (#[trigger] r@[k2]).exceptions@,
            ),
{
    let mut suggestions: Vec<GroupingSuggestion> = Vec::new();
    if exceptions.len() == 0 {
        return suggestions;
    }
    let n = exceptions.len();

    // Group by source package.
    let mut pkg_keys: Vec<String> = Vec::new();
    let mut pkg_members: Vec<String> = Vec::new();
    let mut i: usize = 0;
    while i < n
        invariant
            n == exceptions@.len(),
            i <= n,
            pkg_keys@.len() == pkg_members@.len(),
            spec_members_from(pkg_members@, exceptions@),
        decreases n - i,
    {
        if let Some(package) = extract_package(exceptions[i].qualified_type.as_str()) {
            pkg_keys.push(package);
            pkg_members.push(exceptions[i].exception_type.clone());
            proof {
                assert(spec_member_of(pkg_members@.last()@, exceptions@));
            }
        }
        i = i + 1;
    }
    let package_groups = group_members(&pkg_keys, &pkg_members);
    proof {
        assert forall|key: Seq<char>| package_groups@.dom().contains(key) implies spec_members_from(
            (#[trigger] package_groups@[key])@,
            exceptions@,
        ) by {
            lemma_members_via((package_groups@[key])@, pkg_members@, exceptions@);
        }
    }
    suggestions_for_groups(
        &package_groups,
        " exceptions",
        "All exceptions from the ",
        " package",
        false,
        &mut suggestions,
        Ghost(exceptions@),
    );

    // Group by semantic category.
    let mut sem_keys: Vec<String> = Vec::new();
    let mut sem_members: Vec<String> = Vec::new();
    let mut j: usize = 0;
    while j < n
        invariant
            n == exceptions@.len(),
            j <= n,
            sem_keys@.len() == sem_members@.len(),
            spec_members_from(sem_members@, exceptions@),
        decreases n - j,
    {
        if let Some(category) = detect_semantic_category(
            exceptions[j].exception_type.as_str(),
        ) {
            sem_keys.push(category);
            sem_members.push(exceptions[j].exception_type.clone());
            proof {
                assert(spec_member_of(sem_members@.last()@, exceptions@));
            }
        }
        j = j + 1;
    }
    let semantic_groups = group_members(&sem_keys, &sem_members);
    proof {
        assert forall|key: Seq<char>| semantic_groups@.dom().contains(key) implies spec_members_from(
            (#[trigger] semantic_groups@[key])@,
            exceptions@,
        ) by {
            lemma_members_via((semantic_groups@[key])@, sem_members@, exceptions@);
        }
    }
    suggestions_for_semantic(&semantic_groups, &mut suggestions, Ghost(exceptions@));

    // Group by recovery strategy.
    let mut rec_keys: Vec<String> = Vec::new();
    let mut rec_members: Vec<String> = Vec::new();
    let mut k: usize = 0;
    while k < n
        invariant
            n == exceptions@.len(),
            k <= n,
            rec_keys@.len() == rec_members@.len(),
            spec_members_from(rec_members@, exceptions@),
        decreases n - k,
    {
        let strategy = RecoveryStrategy::from_exception_type(
            exceptions[k].exception_type.as_str(),
        );
        rec_keys.push(strategy.as_str().to_owned());
        rec_members.push(exceptions[k].exception_type.clone());
        proof {
            assert(spec_member_of(rec_members@.last()@, exceptions@));
        }
        k = k + 1;
    }
    let recovery_groups = group_members(&rec_keys, &rec_members);
    proof {
        assert forall|key: Seq<char>| recovery_groups@.dom().contains(key) implies spec_members_from(
            (#[trigger] recovery_groups@[key])@,
            exceptions@,
        ) by {
            lemma_members_via((recovery_groups@[key])@, rec_members@, exceptions@);
        }
    }
    suggestions_for_recovery(&recovery_groups, &mut suggestions, Ghost(exceptions@));

    let ghost pre_dedup = suggestions@;
    deduplicate_suggestions(&mut suggestions);
    proof {
        assert forall|k: int| 0 <= k < suggestions@.len() implies (#[trigger] suggestions@[
        k]).exceptions@.len() >= 2 && spec_members_from(suggestions@[k].exceptions@, exceptions@)
            && spec_adjacent_distinct(suggestions@[k].exceptions@) by {
            assert(spec_set_among((suggestions@[k]).exceptions@, pre_dedup));
            let m = choose|m: int|
                0 <= m < pre_dedup.len() && (#[trigger] pre_dedup[m]).exceptions@ == (
                suggestions@[k]).exceptions@;
        }
    }
    suggestions
}

/// Builds the semantic-similarity suggestions.
fn suggestions_for_semantic(
    groups: &StrMap<Vec<String>>,
    out: &mut Vec<GroupingSuggestion>,
    origin: Ghost<Seq<RaiseStatement>>,
)
    requires
        forall|key: Seq<char>|
            groups@.dom().contains(key) ==> spec_members_from(
                (#[trigger] groups@[key])@,
                origin@,
            ),
    ensures
        final(out)@.len() >= old(out)@.len(),
        forall|k: int| 0 <= k < old(out)@.len() ==> final(out)@[k] == old(out)@[k],
        forall|k: int|
            old(out)@.len() <= k < final(out)@.len() ==> (#[trigger] final(out)@[k]).exceptions@.len() >= 2
                && spec_members_from(final(out)@[k].exceptions@, origin@)
                && spec_adjacent_distinct(final(out)@[k].exceptions@),
{
    let n = groups.entry_count();
    let mut i: usize = 0;
    let ghost orig = out@;
    while i < n
        invariant
            n == groups.entries_seq().len(),
            i <= n,
            out@.len() >= orig.len(),
            forall|key: Seq<char>|
                groups@.dom().contains(key) ==> spec_members_from(
                    (#[trigger] groups@[key])@,
                    origin@,
                ),
            forall|k: int| 0 <= k < orig.len() ==> out@[k] == orig[k],
            forall|k: int|
                orig.len() <= k < out@.len() ==> (#[trigger] out@[k]).exceptions@.len() >= 2
                    && spec_members_from(out@[k].exceptions@, origin@)
                    && spec_adjacent_distinct(out@[k].exceptions@),
        decreases n - i,
    {
        let (key, members) = groups.entry_at(i);
        let key = key.clone();
        let mut exc_types = crate::types::clone_string_vec(members);
        let ghost pool0 = exc_types@;
        proof {
            assert(spec_members_from(pool0, origin@));
        }
        sort_strings(&mut exc_types);
        let ghost pool1 = exc_types@;
        proof {
            assert(spec_texts_from(pool1, pool0));
            lemma_members_via(pool1, pool0, origin@);
        }
        dedup_adjacent(&mut exc_types);
        proof {
            lemma_members_via(exc_types@, pool1, origin@);
        }
        if exc_types.len() >= 2 {
            let mut group_name = key.clone();
            group_name.append(" errors");
            let lowered = to_lower(key.as_str());
            let mut rationale = "Semantically related ".to_owned();
            rationale.append(lowered.as_str());
            rationale.append(" exceptions");
            let handler = generate_handler_example(&exc_types, key.as_str());
            out.push(
                GroupingSuggestion {
                    group_name,
                    exceptions: exc_types,
                    rationale,
                    handler_example: handler,
                },
            );
        }
        i = i + 1;
    }
}

/// Builds the shared-recovery-strategy suggestions.
fn suggestions_for_recovery(
    groups: &StrMap<Vec<String>>,
    out: &mut Vec<GroupingSuggestion>,
    origin: Ghost<Seq<RaiseStatement>>,
)
    requires
        forall|key: Seq<char>|
            groups@.dom().contains(key) ==> spec_members_from(
                (#[trigger] groups@[key])@,
                origin@,
            ),
    ensures
        final(out)@.len() >= old(out)@.len(),
        forall|k: int| 0 <= k < old(out)@.len() ==> final(out)@[k] == old(out)@[k],
        forall|k: int|
            old(out)@.len() <= k < final(out)@.len() ==> (#[trigger] final(out)@[k]).exceptions@.len() >= 2
                && spec_members_from(final(out)@[k].exceptions@, origin@)
                && spec_adjacent_distinct(final(out)@[k].exceptions@),
{
    let n = groups.entry_count();
    let mut i: usize = 0;
    let ghost orig = out@;
    while i < n
        invariant
            n == groups.entries_seq().len(),
            i <= n,
            out@.len() >= orig.len(),
            forall|key: Seq<char>|
                groups@.dom().contains(key) ==> spec_members_from(
                    (#[trigger] groups@[key])@,
                    origin@,
                ),
            forall|k: int| 0 <= k < orig.len() ==> out@[k] == orig[k],
            forall|k: int|
                orig.len() <= k < out@.len() ==> (#[trigger] out@[k]).exceptions@.len() >= 2
                    && spec_members_from(out@[k].exceptions@, origin@)
                    && spec_adjacent_distinct(out@[k].exceptions@),
        decreases n - i,
    {
        let (key, members) = groups.entry_at(i);
        let key = key.clone();
        let mut exc_types = crate::types::clone_string_vec(members);
        let ghost pool0 = exc_types@;
        proof {
            assert(spec_members_from(pool0, origin@));
        }
        sort_strings(&mut exc_types);
        let ghost pool1 = exc_types@;
        proof {
            assert(spec_texts_from(pool1, pool0));
            lemma_members_via(pool1, pool0, origin@);
        }
        dedup_adjacent(&mut exc_types);
        proof {
            lemma_members_via(exc_types@, pool1, origin@);
        }
        if exc_types.len() >= 2 {
            let strategy = strategy_from_name(key.as_str());
            let capitalized = capitalize(key.as_str());
            let mut group_name = capitalized;
            group_name.append(" exceptions");
            let mut rationale = "Exceptions that can be handled with ".to_owned();
            rationale.append(key.as_str());
            rationale.append(" strategy");
            let handler = generate_recovery_handler(&exc_types, strategy);
            out.push(
                GroupingSuggestion {
                    group_name,
                    exceptions: exc_types,
                    rationale,
                    handler_example: handler,
                },
            );
        }
        i = i + 1;
    }
}

/// The strategy a display name stands for.
fn strategy_from_name(name: &str) -> RecoveryStrategy {
    if str_eq(name, "retry") {
        RecoveryStrategy::Retry
    } else if str_eq(name, "fix input") {
        RecoveryStrategy::FixInput
    } else if str_eq(name, "re-authenticate") {
        RecoveryStrategy::ReAuthenticate
    } else if str_eq(name, "ignore") {
        RecoveryStrategy::Ignore
    } else {
        RecoveryStrategy::Abort
    }
}

/// Drops every suggestion whose exception set is a strict subset of
/// another suggestion's.
fn deduplicate_suggestions(suggestions: &mut Vec<GroupingSuggestion>)
    ensures
        final(suggestions)@.len() <= old(suggestions)@.len(),
        spec_from_originals(final(suggestions)@, old(suggestions)@),
        forall|k1: int, k2: int|
            0 <= k1 < final(suggestions)@.len() && 0 <= k2 < final(suggestions)@.len()
                ==> !spec_strict_subset(
                (#[trigger] final(suggestions)@[k1]).exceptions@,
                (#[trigger] final(suggestions)@[k2]).exceptions@,
            ),
{
    let n = suggestions.len();
    let ghost orig = suggestions@;
    let mut keep: Vec<GroupingSuggestion> = Vec::new();
    let mut i: usize = 0;
    while i < n
        invariant
            suggestions@ == orig,
            n == orig.len(),
            i <= n,
            keep@.len() <= i,
            spec_kept_from(keep@, orig),
        decreases n - i,
    {
        let mut subsumed = false;
        let mut j: usize = 0;
        while j < n
            invariant
                suggestions@ == orig,
                n == orig.len(),
                i < n,
                j <= n,
                subsumed <==> exists|m: int|
                    0 <= m < j && m != i && spec_strict_subset(
                        orig[i as int].exceptions@,
                        (#[trigger] orig[m]).exceptions@,
                    ),
            decreases n - j,
        {
            if j != i {
                if is_strict_subset(&suggestions[i].exceptions, &suggestions[j].exceptions) {
                    subsumed = true;
                    proof {
                        assert(spec_strict_subset(
                            orig[i as int].exceptions@,
                            orig[j as int].exceptions@,
                        ));
                    }
                }
            }
            j = j + 1;
        }
        if !subsumed {
            let ghost prev = keep@;
            keep.push(suggestions[i].clone());
            proof {
                assert forall|k: int| 0 <= k < keep@.len() implies spec_kept_among(
                    (#[trigger] keep@[k]).exceptions@,
                    orig,
                ) by {
                    if k < prev.len() {
                        assert(keep@[k] == prev[k]);
                        assert(spec_kept_from(prev, orig));
                    } else {
                        assert((orig[i as int]).exceptions@ == (keep@[k]).exceptions@);
                        assert(spec_unsubsumed(orig, i as int));
                    }
                }
            }
        }
        i = i + 1;
    }
    proof {
        assert forall|k: int| 0 <= k < keep@.len() implies spec_set_among(
            (#[trigger] keep@[k]).exceptions@,
            orig,
        ) by {
            assert(spec_kept_among((keep@[k]).exceptions@, orig));
            let m = choose|m: int|
                0 <= m < orig.len() && (#[trigger] orig[m]).exceptions@ == (
                keep@[k]).exceptions@ && spec_unsubsumed(orig, m);
            assert((orig[m]).exceptions@ == (keep@[k]).exceptions@);
        }
        assert(spec_from_originals(keep@, orig));
        assert forall|k1: int, k2: int|
            0 <= k1 < keep@.len() && 0 <= k2 < keep@.len() implies !spec_strict_subset(
            (keep@[k1]).exceptions@,
            (keep@[k2]).exceptions@,
        ) by {
            assert(spec_kept_among((keep@[k1]).exceptions@, orig));
            assert(spec_kept_among((keep@[k2]).exceptions@, orig));
            let m1 = choose|m: int|
                0 <= m < orig.len() && (#[trigger] orig[m]).exceptions@ == (
                keep@[k1]).exceptions@ && spec_unsubsumed(orig, m);
            let m2 = choose|m: int|
                0 <= m < orig.len() && (#[trigger] orig[m]).exceptions@ == (
                keep@[k2]).exceptions@ && spec_unsubsumed(orig, m);
            if spec_strict_subset(keep@[k1].exceptions@, keep@[k2].exceptions@) {
                if m1 != m2 {
                    assert(!spec_strict_subset(orig[m1].exceptions@, orig[m2].exceptions@));
                } else {
                    let a = keep@[k1].exceptions@;
                    assert(forall|x: int|
                        0 <= x < a.len() ==> spec_contains_text(a, (#[trigger] a[x])@));
                }
            }
        }
    }
    *suggestions = keep;
}

/// Whether every string of `a` occurs in `b` while `b` holds content `a`
/// lacks, as `spec_strict_subset` says.
fn is_strict_subset(a: &Vec<String>, b: &Vec<String>) -> (r: bool)
    ensures
        r == spec_strict_subset(a@, b@),
{
    let na = a.len();
    let mut i: usize = 0;
    while i < na
        invariant
            na == a@.len(),
            i <= na,
            forall|k: int| 0 <= k < i ==> spec_contains_text(b@, (#[trigger] a@[k])@),
        decreases na - i,
    {
        if !vec_contains_str(b, a[i].as_str()) {
            proof {
                assert(forall|k: int|
                    0 <= k < b@.len() ==> b.deep_view()[k] == (#[trigger] b@[k])@);
                assert(!spec_contains_text(b@, a@[i as int]@));
            }
            return false;
        }
        proof {
            assert(spec_contains_text(b@, a@[i as int]@));
        }
        i = i + 1;
    }
    let nb = b.len();
    let mut j: usize = 0;
    while j < nb
        invariant
            na == a@.len(),
            nb == b@.len(),
            j <= nb,
            forall|k: int| 0 <= k < na ==> spec_contains_text(b@, (#[trigger] a@[k])@),
            forall|k: int| 0 <= k < j ==> spec_contains_text(a@, (#[trigger] b@[k])@),
        decreases nb - j,
    {
        if !vec_contains_str(a, b[j].as_str()) {
            proof {
                assert(forall|k: int|
                    0 <= k < a@.len() ==> a.deep_view()[k] == (#[trigger] a@[k])@);
                assert(!spec_contains_text(a@, b@[j as int]@));
            }
            return true;
        }
        proof {
            assert(spec_contains_text(a@, b@[j as int]@));
        }
        j = j + 1;
    }
    false
}

} // verus!
