//! The tool's configuration: database location, analysis bounds, search
//! environment, and ignore rules with simple wildcard patterns.

use vstd::prelude::*;
use vstd::string::StrSliceExecFns;
use vstd::string::StringExecFns;
use crate::strutil::{match_at, spec_split, split_char, str_eq, contains_char};

verus! {

/// Why a configuration could not be read.
#[derive(Debug)]
pub enum ConfigError {
    Io(String),
    Toml(String),
    NotFound(String),
}

/// Where the analysis database lives and whether it is saved after every
/// change.
pub struct DatabaseConfig {
    pub path: String,
    pub auto_save: bool,
}

impl Default for DatabaseConfig {
    fn default() -> (r: Self)
        ensures
            r.path@ == ".arbor"@ + "/"@ + "database.json"@,
            r.auto_save == true,
    {
        DatabaseConfig { path: crate::paths::database_path(), auto_save: true }
    }
}

/// Bounds on one analysis run.
pub struct AnalysisConfig {
    pub max_depth: usize,
    pub include_stdlib: bool,
    pub timeout_seconds: u64,
}

impl Default for AnalysisConfig {
    fn default() -> (r: Self)
        ensures
            r.max_depth == 50,
            r.include_stdlib == false,
            r.timeout_seconds == 300,
    {
        AnalysisConfig { max_depth: 50, include_stdlib: false, timeout_seconds: 300 }
    }
}

/// Where source and installed libraries are looked for.
pub struct EnvironmentConfig {
    pub python_path: Vec<String>,
    pub venv_path: Option<String>,
    pub site_packages: Vec<String>,
}

impl Default for EnvironmentConfig {
    fn default() -> (r: Self)
        ensures
            r.python_path@.len() == 0,
            r.venv_path is None,
            r.site_packages@.len() == 0,
    {
        EnvironmentConfig { python_path: Vec::new(), venv_path: None, site_packages: Vec::new() }
    }
}

/// What is left out of analyses: package names, function names, and
/// free-form patterns, each possibly holding wildcards.
pub struct IgnoreConfig {
    pub packages: Vec<String>,
    pub functions: Vec<String>,
    pub patterns: Vec<String>,
}

impl Default for IgnoreConfig {
    fn default() -> (r: Self)
        ensures
            r.packages@.len() == 0,
            r.functions@.len() == 0,
            r.patterns@.len() == 0,
    {
        IgnoreConfig { packages: Vec::new(), functions: Vec::new(), patterns: Vec::new() }
    }
}

/// The whole configuration.
pub struct ArborConfig {
    pub database: DatabaseConfig,
    pub analysis: AnalysisConfig,
    pub environment: EnvironmentConfig,
    pub ignore: IgnoreConfig,
}

impl Default for ArborConfig {
    fn default() -> (r: Self)
        ensures
            r.database.path@ == ".arbor"@ + "/"@ + "database.json"@,
            r.database.auto_save == true,
            r.analysis.max_depth == 50,
            r.analysis.include_stdlib == false,
            r.analysis.timeout_seconds == 300,
            r.environment.python_path@.len() == 0,
            r.ignore.packages@.len() == 0,
            r.ignore.functions@.len() == 0,
    {
        ArborConfig {
            database: DatabaseConfig::default(),
            analysis: AnalysisConfig::default(),
            environment: EnvironmentConfig::default(),
            ignore: IgnoreConfig::default(),
        }
    }
}

/// The first match of `part` in `text` at or after `from`.
pub open spec fn spec_first_match(text: Seq<char>, part: Seq<char>, from: int) -> Option<int>
    decreases text.len() + 1 - from,
{
    if from < 0 || from + part.len() > text.len() {
        None
    } else if match_at(text, part, from) {
        Some(from)
    } else {
        spec_first_match(text, part, from + 1)
    }
}

/// The wildcard rule over the pattern's literal pieces, from piece `i` on
/// with the search position at `pos`: the first piece anchors at the
/// start, the last anchors at the end, and each piece between is found
/// left to right.
pub open spec fn spec_glob_parts(
    parts: Seq<Seq<char>>,
    text: Seq<char>,
    i: int,
    pos: int,
) -> bool
    decreases parts.len() - i,
{
    if i < 0 || i >= parts.len() {
        true
    } else {
        let part = parts[i];
        if part.len() == 0 {
            spec_glob_parts(parts, text, i + 1, pos)
        } else if i == 0 {
            match_at(text, part, 0) && spec_glob_parts(parts, text, i + 1, part.len() as int)
        } else if i == parts.len() - 1 {
            part.len() <= text.len() && match_at(text, part, text.len() - part.len())
                && spec_glob_parts(parts, text, i + 1, pos)
        } else {
            match spec_first_match(text, part, pos) {
                Some(j) => spec_glob_parts(parts, text, i + 1, j + part.len()),
                None => false,
            }
        }
    }
}

/// Whether `text` matches `pattern`, where each star stands for any run
/// of characters; a pattern without a star must equal the text.
pub open spec fn spec_glob_match(pattern: Seq<char>, text: Seq<char>) -> bool {
    let parts = spec_split(pattern, '*');
    if parts.len() == 1 {
        pattern == text
    } else {
        spec_glob_parts(parts, text, 0, 0)
    }
}

/// The first match of `part` in `text` at or after `from`, as
/// `spec_first_match` says.
fn first_match_from(text: &str, part: &str, from: usize) -> (r: Option<usize>)
    ensures
        match r {
            Some(j) => spec_first_match(text@, part@, from as int) == Some(j as int),
            None => spec_first_match(text@, part@, from as int) is None,
        },
    decreases text@.len() - from,
{
    let tl = text.unicode_len();
    let pl = part.unicode_len();
    if pl > tl || from > tl - pl {
        return None;
    }
    if pl == 0 {
        proof {
            assert(text@.subrange(from as int, from as int) =~= part@);
        }
        return Some(from);
    }
    if crate::strutil::matches_at(text, part, from) {
        Some(from)
    } else {
        first_match_from(text, part, from + 1)
    }
}

/// Whether `text` matches the wildcard pattern, as `spec_glob_match`
/// says.
pub fn glob_match(pattern: &str, text: &str) -> (r: bool)
    ensures
        r == spec_glob_match(pattern@, text@),
{
    proof {
        reveal_strlit("*");
    }
    let parts = split_char(pattern, '*');
    proof {
        crate::strutil::lemma_split_len(pattern@, '*');
    }
    let n = parts.len();
    if n == 1 {
        return str_eq(pattern, text);
    }
    let tl = text.unicode_len();
    let mut pos: usize = 0;
    let mut i: usize = 0;
    while i < n
        invariant
            n == parts.deep_view().len(),
            parts.deep_view() == spec_split(pattern@, '*'),
            n >= 2,
            tl == text@.len(),
            i <= n,
            pos <= tl,
            spec_glob_parts(parts.deep_view(), text@, 0, 0) == spec_glob_parts(
                parts.deep_view(),
                text@,
                i as int,
                pos as int,
            ),
        decreases n - i,
    {
        let part = &parts[i];
        let pl = part.as_str().unicode_len();
        if pl == 0 {
            i = i + 1;
            continue ;
        }
        if i == 0 {
            if !crate::strutil::starts_with(text, part.as_str()) {
                return false;
            }
            pos = pl;
        } else if i == n - 1 {
            if !crate::strutil::ends_with(text, part.as_str()) {
                return false;
            }
        } else {
            match first_match_from(text, part.as_str(), pos) {
                Some(j) => {
                    proof {
                        lemma_first_match_bound(text@, parts.deep_view()[i as int], j as int);
                    }
                    pos = j + pl;
                },
                None => {
                    return false;
                },
            }
        }
        i = i + 1;
    }
    true
}

/// A found match lies inside the text, which keeps the search position in
/// bounds.
proof fn lemma_first_match_bound(text: Seq<char>, part: Seq<char>, j: int)
    requires
        exists|f: int| spec_first_match(text, part, f) == Some(j),
    ensures
        j + part.len() <= text.len(),
        j >= 0,
    decreases text.len(),
{
    let f = choose|f: int| spec_first_match(text, part, f) == Some(j);
    lemma_first_match_props(text, part, f);
}

proof fn lemma_first_match_props(text: Seq<char>, part: Seq<char>, from: int)
    ensures
        match spec_first_match(text, part, from) {
            Some(j) => from <= j && j >= 0 && j + part.len() <= text.len(),
            None => true,
        },
    decreases text.len() + 1 - from,
{
    if !(from < 0 || from + part.len() > text.len()) && !match_at(text, part, from) {
        lemma_first_match_props(text, part, from + 1);
    }
}

impl ArborConfig {
    /// The configured database location.
    pub fn database_path(&self) -> (r: String)
        ensures
            r@ == self.database.path@,
    {
        self.database.path.clone()
    }

    /// Whether a package name is ignored: some ignore entry equals it, or
    /// is a wildcard pattern matching it.
    pub fn should_ignore_package(&self, package: &str) -> (r: bool)
        ensures
            r == exists|i: int|
                0 <= i < self.ignore.packages@.len() && spec_ignore_entry_matches(
                    #[trigger] self.ignore.packages@[i]@,
                    package@,
                ),
    {
        ignore_list_matches(&self.ignore.packages, package)
    }

    /// Whether a function name is ignored, by the same rule.
    pub fn should_ignore_function(&self, function: &str) -> (r: bool)
        ensures
            r == exists|i: int|
                0 <= i < self.ignore.functions@.len() && spec_ignore_entry_matches(
                    #[trigger] self.ignore.functions@[i]@,
                    function@,
                ),
    {
        ignore_list_matches(&self.ignore.functions, function)
    }

    /// The default configuration file text.
    pub fn default_toml() -> (r: String)
        ensures
            r@.len() > 0,
    {
        proof {
            reveal_strlit("# Arbor Configuration");
        }
        let mut r = "# Arbor Configuration".to_owned();
        r.append("\n\n[database]\npath = \".arbor/database.json\"\nauto_save = true\n");
        r.append("\n[analysis]\nmax_depth = 50\ninclude_stdlib = false\ntimeout_seconds = 300\n");
        r.append("\n[environment]\npython_path = [\".\"]\n# venv_path = \".venv\"\n");
        r.append("\n[ignore]\npackages = [\"tests\", \"__pycache__\", \".git\"]\nfunctions = []\n");
        r
    }
}

/// One ignore entry matches a name when it holds a star and glob-matches
/// it, or equals it outright.
pub open spec fn spec_ignore_entry_matches(entry: Seq<char>, name: Seq<char>) -> bool {
    if entry.contains('*') {
        spec_glob_match(entry, name)
    } else {
        entry == name
    }
}

fn ignore_list_matches(entries: &Vec<String>, name: &str) -> (r: bool)
    ensures
        r == exists|i: int|
            0 <= i < entries@.len() && spec_ignore_entry_matches(
                #[trigger] entries@[i]@,
                name@,
            ),
{
    let n = entries.len();
    let mut i: usize = 0;
    while i < n
        invariant
            n == entries@.len(),
            i <= n,
            forall|j: int|
                0 <= j < i ==> !spec_ignore_entry_matches(#[trigger] entries@[j]@, name@),
        decreases n - i,
    {
        let entry = entries[i].as_str();
        let hit = if contains_char(entry, '*') {
            glob_match(entry, name)
        } else {
            str_eq(entry, name)
        };
        if hit {
            proof {
                assert(spec_ignore_entry_matches(entries@[i as int]@, name@));
            }
            return true;
        }
        i = i + 1;
    }
    false
}

} // verus!
