//! Markdown rendering of analysis results: small formatting helpers, a
//! table builder, and the rendering of each result type.

use vstd::prelude::*;
use vstd::string::StrSliceExecFns;
use vstd::string::StringExecFns;
use crate::grouping::{GroupingSuggestion, RecoveryStrategy, spec_strategy_str};
use crate::strutil::{join_str, spec_join, u32_to_string, u64_to_string, usize_to_string};
use crate::types::{
    FunctionAnalysis, NoneSource, RaiseStatement, RiskLevel, spec_risk_emoji, spec_risk_str,
};

verus! {

/// A risk level as an emoji and its name.
pub fn format_risk(risk: RiskLevel) -> (r: String)
    ensures
        r@ == spec_risk_emoji(risk) + " "@ + spec_risk_str(risk),
{
    let mut r = risk.emoji().to_owned();
    r.append(" ");
    r.append(risk.as_str());
    proof {
        assert(r@ =~= spec_risk_emoji(risk) + " "@ + spec_risk_str(risk));
    }
    r
}

/// A recovery strategy as its name with a note on whether it retries.
pub fn format_recovery(strategy: RecoveryStrategy) -> (r: String)
    ensures
        r@ == spec_strategy_str(strategy) + " ("@ + (if strategy is Retry {
            "retryable"@
        } else {
            "not retryable"@
        }) + ")"@,
{
    let mut r = strategy.as_str().to_owned();
    r.append(" (");
    match strategy {
        RecoveryStrategy::Retry => {
            r.append("retryable");
        },
        _ => {
            r.append("not retryable");
        },
    }
    r.append(")");
    proof {
        assert(r@ =~= spec_strategy_str(strategy) + " ("@ + (if strategy is Retry {
            "retryable"@
        } else {
            "not retryable"@
        }) + ")"@);
    }
    r
}

/// A fenced code block in the given language.
pub fn format_code_block(code: &str, lang: &str) -> (r: String)
    ensures
        r@ == "```"@ + lang@ + "\n"@ + code@ + "\n```"@,
{
    let mut r = "```".to_owned();
    r.append(lang);
    r.append("\n");
    r.append(code);
    r.append("\n```");
    proof {
        assert(r@ =~= "```"@ + lang@ + "\n"@ + code@ + "\n```"@);
    }
    r
}

/// `level` heading marks in a row.
pub open spec fn spec_heading_marks(level: nat) -> Seq<char>
    decreases level,
{
    if level == 0 {
        Seq::<char>::empty()
    } else {
        spec_heading_marks((level - 1) as nat) + "#"@
    }
}

/// A heading of the given level.
pub fn format_header(level: usize, text: &str) -> (r: String)
    ensures
        r@ == spec_heading_marks(level as nat) + " "@ + text@ + "\n"@,
{
    let mut marks = String::new();
    let mut i: usize = 0;
    while i < level
        invariant
            i <= level,
            marks@ == spec_heading_marks(i as nat),
        decreases level - i,
    {
        marks.append("#");
        i = i + 1;
    }
    let mut r = marks;
    r.append(" ");
    r.append(text);
    r.append("\n");
    proof {
        assert(r@ =~= spec_heading_marks(level as nat) + " "@ + text@ + "\n"@);
    }
    r
}

/// A bold key with its value on one line.
pub fn format_key_value(key: &str, value: &str) -> (r: String)
    ensures
        r@ == "**"@ + key@ + ":** "@ + value@ + "\n"@,
{
    let mut r = "**".to_owned();
    r.append(key);
    r.append(":** ");
    r.append(value);
    r.append("\n");
    proof {
        assert(r@ =~= "**"@ + key@ + ":** "@ + value@ + "\n"@);
    }
    r
}

/// One bulleted list item.
pub fn format_list_item(text: &str) -> (r: String)
    ensures
        r@ == "- "@ + text@ + "\n"@,
{
    let mut r = "- ".to_owned();
    r.append(text);
    r.append("\n");
    proof {
        assert(r@ =~= "- "@ + text@ + "\n"@);
    }
    r
}

/// One table line: the cells joined between pipes.
pub open spec fn spec_table_line(cells: Seq<Seq<char>>) -> Seq<char> {
    "| "@ + spec_join(cells, " | "@) + " |\n"@
}

/// The separator row's dashes, one run per column.
pub open spec fn spec_sep_marks(n: nat) -> Seq<char>
    decreases n,
{
    if n == 0 {
        Seq::<char>::empty()
    } else {
        spec_sep_marks((n - 1) as nat) + "------|"@
    }
}

/// The body lines of a table, from row `i` on.
pub open spec fn spec_table_rows(rows: Seq<Seq<Seq<char>>>, i: int) -> Seq<char>
    decreases rows.len() - i,
{
    if i < 0 || i >= rows.len() {
        Seq::<char>::empty()
    } else {
        spec_table_line(rows[i]) + spec_table_rows(rows, i + 1)
    }
}

/// The whole rendering of a table: header line, separator line, then each
/// row; a table without headers renders as nothing.
pub open spec fn spec_table_render(headers: Seq<Seq<char>>, rows: Seq<Seq<Seq<char>>>) -> Seq<
    char,
> {
    if headers.len() == 0 {
        Seq::<char>::empty()
    } else {
        spec_table_line(headers) + "|"@ + spec_sep_marks(headers.len()) + "\n"@ + spec_table_rows(
            rows,
            0,
        )
    }
}

/// A simple table: headers and rows of cells.
pub struct MarkdownTable {
    pub headers: Vec<String>,
    pub rows: Vec<Vec<String>>,
}

impl MarkdownTable {
    pub fn new(headers: Vec<String>) -> (r: Self)
        ensures
            r.headers == headers,
            r.rows@.len() == 0,
    {
        MarkdownTable { headers, rows: Vec::new() }
    }

    pub fn add_row(&mut self, row: Vec<String>)
        ensures
            final(self).headers == old(self).headers,
            final(self).rows@ == old(self).rows@.push(row),
    {
        self.rows.push(row);
    }

    /// Renders the table, as `spec_table_render` says.
    pub fn render(&self) -> (r: String)
        ensures
            r@ == spec_table_render(self.headers.deep_view(), self.rows.deep_view()),
    {
        if self.headers.is_empty() {
            return String::new();
        }
        let mut out = table_line(&self.headers);
        out.append("|");
        let n = self.headers.len();
        let mut i: usize = 0;
        let ghost after_header = out@;
        while i < n
            invariant
                n == self.headers@.len(),
                i <= n,
                out@ == after_header + spec_sep_marks(i as nat),
            decreases n - i,
        {
            out.append("------|");
            proof {
                assert(out@ =~= after_header + spec_sep_marks((i + 1) as nat));
            }
            i = i + 1;
        }
        out.append("\n");
        let m = self.rows.len();
        let mut j: usize = 0;
        let ghost before_rows = out@;
        while j < m
            invariant
                m == self.rows@.len(),
                j <= m,
                out@ + spec_table_rows(self.rows.deep_view(), j as int) == before_rows
                    + spec_table_rows(self.rows.deep_view(), 0),
            decreases m - j,
        {
            let line = table_line(&self.rows[j]);
            out.append(line.as_str());
            proof {
                assert(self.rows.deep_view()[j as int] == self.rows@[j as int].deep_view());
                assert(out@ + spec_table_rows(self.rows.deep_view(), j + 1) =~= before_rows
                    + spec_table_rows(self.rows.deep_view(), 0));
            }
            j = j + 1;
        }
        proof {
            assert(spec_table_rows(self.rows.deep_view(), m as int) =~= Seq::<char>::empty());
            assert(out@ =~= before_rows + spec_table_rows(self.rows.deep_view(), 0));
            assert(out@ =~= spec_table_render(self.headers.deep_view(), self.rows.deep_view()));
        }
        out
    }
}

/// One rendered table line over a list of cells.
fn table_line(cells: &Vec<String>) -> (r: String)
    ensures
        r@ == spec_table_line(cells.deep_view()),
{
    let mut r = "| ".to_owned();
    let joined = join_str(cells, " | ");
    r.append(joined.as_str());
    r.append(" |\n");
    proof {
        assert(r@ =~= spec_table_line(cells.deep_view()));
    }
    r
}

/// What each result type renders as: a one-line summary, a detailed
/// report, and a default rendering.
pub trait MarkdownOutput {
    fn to_markdown(&self) -> String;

    fn to_markdown_summary(&self) -> String;

    fn to_markdown_detailed(&self) -> String;
}

impl MarkdownOutput for FunctionAnalysis {
    fn to_markdown(&self) -> String {
        self.to_markdown_summary()
    }

    fn to_markdown_summary(&self) -> String {
        let risk = self.risk_level();
        let mut r = format_risk(risk);
        r.append(" | ");
        let exc = usize_to_string(self.exception_count());
        r.append(exc.as_str());
        r.append(" exceptions, ");
        let nones = usize_to_string(self.none_source_count());
        r.append(nones.as_str());
        r.append(" None sources | depth: ");
        let depth = usize_to_string(self.call_depth);
        r.append(depth.as_str());
        r
    }

    fn to_markdown_detailed(&self) -> String {
        let risk = self.risk_level();
        let mut out = String::new();
        let mut title = "Function Analysis: `".to_owned();
        title.append(self.function_id.as_str());
        title.append("`");
        let header = format_header(1, title.as_str());
        out.append(header.as_str());
        out.append("\n");
        let overview = format_header(2, "Overview");
        out.append(overview.as_str());
        out.append("\n");
        let mut headers: Vec<String> = Vec::new();
        headers.push("Property".to_owned());
        headers.push("Value".to_owned());
        let mut table = MarkdownTable::new(headers);
        table.add_row(two_cells("**Qualified Name**", ticked(self.function_id.as_str())));
        table.add_row(two_cells("**Signature**", ticked(self.signature.as_str())));
        table.add_row(two_cells("**File**", ticked(self.location.file.as_str())));
        table.add_row(two_cells_string("**Line**", u32_to_string(self.location.line)));
        table.add_row(two_cells_string("**Risk**", format_risk(risk)));
        let rendered = table.render();
        out.append(rendered.as_str());
        out.append("\n");
        let summary_hdr = format_header(2, "Analysis Summary");
        out.append(summary_hdr.as_str());
        out.append("\n");
        let mut sheaders: Vec<String> = Vec::new();
        sheaders.push("Metric".to_owned());
        sheaders.push("Count".to_owned());
        let mut summary = MarkdownTable::new(sheaders);
        summary.add_row(two_cells_string("Exceptions", usize_to_string(self.raises.len())));
        summary.add_row(
            two_cells_string("None sources", usize_to_string(self.none_sources.len())),
        );
        summary.add_row(
            two_cells_string("Functions traced", usize_to_string(self.functions_traced)),
        );
        summary.add_row(two_cells_string("Call depth", usize_to_string(self.call_depth)));
        let srendered = summary.render();
        out.append(srendered.as_str());
        out
    }
}

/// A cell pair from a label and an owned value.
fn two_cells_string(label: &str, value: String) -> (r: Vec<String>)
    ensures
        r@.len() == 2,
{
    let mut row: Vec<String> = Vec::new();
    row.push(label.to_owned());
    row.push(value);
    row
}

/// A cell pair from two borrowed texts.
fn two_cells(label: &str, value: String) -> (r: Vec<String>)
    ensures
        r@.len() == 2,
{
    two_cells_string(label, value)
}

/// A text wrapped in backticks.
fn ticked(text: &str) -> (r: String) {
    let mut r = "`".to_owned();
    r.append(text);
    r.append("`");
    r
}

impl MarkdownOutput for RaiseStatement {
    fn to_markdown(&self) -> String {
        self.to_markdown_summary()
    }

    fn to_markdown_summary(&self) -> String {
        let strategy = RecoveryStrategy::from_exception_type(self.exception_type.as_str());
        let mut r = ticked(self.exception_type.as_str());
        r.append(" at ");
        let loc = self.raise_location.to_string_short();
        r.append(loc.as_str());
        r.append(" (");
        r.append(strategy.as_str());
        r.append(")");
        r
    }

    fn to_markdown_detailed(&self) -> String {
        let strategy = RecoveryStrategy::from_exception_type(self.exception_type.as_str());
        let mut out = String::new();
        let hdr = format_header(3, self.exception_type.as_str());
        out.append(hdr.as_str());
        out.append("\n");
        let type_line = format_key_value("Type", ticked(self.qualified_type.as_str()).as_str());
        out.append(type_line.as_str());
        let at = self.raise_location.to_string_short();
        let at_line = format_key_value("Raised at", ticked(at.as_str()).as_str());
        out.append(at_line.as_str());
        match &self.definition_location {
            Some(def) => {
                let d = def.to_string_short();
                let def_line = format_key_value("Defined at", ticked(d.as_str()).as_str());
                out.append(def_line.as_str());
            },
            None => {
                let def_line = format_key_value("Defined at", "(builtin)");
                out.append(def_line.as_str());
            },
        }
        if let Some(cond) = &self.condition {
            let cond_line = format_key_value("Condition", cond.as_str());
            out.append(cond_line.as_str());
        }
        if let Some(msg) = &self.message {
            let mut quoted = "\"".to_owned();
            quoted.append(msg.as_str());
            quoted.append("\"");
            let msg_line = format_key_value("Message", quoted.as_str());
            out.append(msg_line.as_str());
        }
        let rec = format_recovery(strategy);
        let rec_line = format_key_value("Recovery", rec.as_str());
        out.append(rec_line.as_str());
        out
    }
}

impl MarkdownOutput for NoneSource {
    fn to_markdown(&self) -> String {
        self.to_markdown_summary()
    }

    fn to_markdown_summary(&self) -> String {
        let mut r = self.kind.as_str().to_owned();
        r.append(" at ");
        let loc = self.location.to_string_short();
        r.append(loc.as_str());
        r
    }

    fn to_markdown_detailed(&self) -> String {
        let mut out = String::new();
        let title = self.to_markdown_summary();
        let hdr = format_header(3, title.as_str());
        out.append(hdr.as_str());
        out.append("\n");
        let kind_line = format_key_value("Kind", ticked(self.kind.as_str()).as_str());
        out.append(kind_line.as_str());
        let loc = self.location.to_string_short();
        let loc_line = format_key_value("Location", ticked(loc.as_str()).as_str());
        out.append(loc_line.as_str());
        if let Some(def) = &self.source_definition {
            let d = def.to_string_short();
            let src_line = format_key_value("Source", ticked(d.as_str()).as_str());
            out.append(src_line.as_str());
        }
        if let Some(cond) = &self.condition {
            let cond_line = format_key_value("Condition", cond.as_str());
            out.append(cond_line.as_str());
        }
        out
    }
}

impl MarkdownOutput for GroupingSuggestion {
    fn to_markdown(&self) -> String {
        self.to_markdown_summary()
    }

    fn to_markdown_summary(&self) -> String {
        let mut r = "**".to_owned();
        r.append(self.group_name.as_str());
        r.append("**: ");
        let count = usize_to_string(self.exceptions.len());
        r.append(count.as_str());
        r.append(" exceptions");
        r
    }

    fn to_markdown_detailed(&self) -> String {
        let first_exc: String = if self.exceptions.len() > 0 {
            self.exceptions[0].clone()
        } else {
            String::new()
        };
        let strategy = RecoveryStrategy::from_exception_type(first_exc.as_str());
        let mut out = String::new();
        let hdr = format_header(2, self.group_name.as_str());
        out.append(hdr.as_str());
        out.append("\n");
        let retry_line = format_key_value(
            "Retryable",
            match strategy {
                RecoveryStrategy::Retry => "Yes",
                _ => "No",
            },
        );
        out.append(retry_line.as_str());
        let reason_line = format_key_value("Reason", self.rationale.as_str());
        out.append(reason_line.as_str());
        let rec_line = format_key_value("Recovery", strategy.as_str());
        out.append(rec_line.as_str());
        out.append("\n");
        let mut headers: Vec<String> = Vec::new();
        headers.push("Exception".to_owned());
        headers.push("Recovery Strategy".to_owned());
        let mut table = MarkdownTable::new(headers);
        let n = self.exceptions.len();
        let mut i: usize = 0;
        while i < n
            invariant
                n == self.exceptions@.len(),
                i <= n,
            decreases n - i,
        {
            let exc_strategy = RecoveryStrategy::from_exception_type(self.exceptions[i].as_str());
            table.add_row(
                two_cells_string(
                    ticked(self.exceptions[i].as_str()).as_str(),
                    exc_strategy.as_str().to_owned(),
                ),
            );
            i = i + 1;
        }
        let rendered = table.render();
        out.append(rendered.as_str());
        out.append("\n");
        out.append("**Recommended Handler:**\n");
        let block = format_code_block(self.handler_example.as_str(), "python");
        out.append(block.as_str());
        out
    }
}

/// Summary numbers over the whole database.
pub struct DatabaseStats {
    pub version: String,
    pub created_at: String,
    pub updated_at: String,
    pub function_count: usize,
    pub symbol_count: usize,
    pub unique_exceptions: usize,
    pub unique_none_sources: usize,
    pub package_count: usize,
    pub group_count: usize,
    pub high_risk: usize,
    pub medium_risk: usize,
    pub low_risk: usize,
}

/// A share of a total, in whole percent, clamped to the representable
/// range.
fn percent_of(part: usize, total: usize) -> (r: u64)
    requires
        total > 0,
{
    let scaled: u128 = (part as u128) * 100 / (total as u128);
    if scaled > 0xFFFF_FFFF_FFFF_FFFF {
        0xFFFF_FFFF_FFFF_FFFF
    } else {
        scaled as u64
    }
}

impl MarkdownOutput for DatabaseStats {
    fn to_markdown(&self) -> String {
        self.to_markdown_detailed()
    }

    fn to_markdown_summary(&self) -> String {
        self.to_markdown_detailed()
    }

    fn to_markdown_detailed(&self) -> String {
        let mut out = String::new();
        let hdr = format_header(1, "Arbor Database Statistics");
        out.append(hdr.as_str());
        out.append("\n");
        let db_line = format_key_value("Database", "`.arbor/database.json`");
        out.append(db_line.as_str());
        let ver_line = format_key_value("Version", self.version.as_str());
        out.append(ver_line.as_str());
        let created_line = format_key_value("Created", self.created_at.as_str());
        out.append(created_line.as_str());
        let updated_line = format_key_value("Updated", self.updated_at.as_str());
        out.append(updated_line.as_str());
        out.append("\n");
        let sum_hdr = format_header(2, "Summary");
        out.append(sum_hdr.as_str());
        out.append("\n");
        let mut headers: Vec<String> = Vec::new();
        headers.push("Metric".to_owned());
        headers.push("Count".to_owned());
        let mut summary = MarkdownTable::new(headers);
        summary.add_row(
            two_cells_string("Functions analyzed", usize_to_string(self.function_count)),
        );
        summary.add_row(
            two_cells_string("Symbols indexed", usize_to_string(self.symbol_count)),
        );
        summary.add_row(
            two_cells_string("Unique exceptions", usize_to_string(self.unique_exceptions)),
        );
        summary.add_row(
            two_cells_string("Unique None sources", usize_to_string(self.unique_none_sources)),
        );
        summary.add_row(
            two_cells_string("Packages covered", usize_to_string(self.package_count)),
        );
        summary.add_row(
            two_cells_string("Grouping suggestions", usize_to_string(self.group_count)),
        );
        let sr = summary.render();
        out.append(sr.as_str());
        out.append("\n");
        let risk_hdr = format_header(2, "By Risk Level");
        out.append(risk_hdr.as_str());
        out.append("\n");
        let total = self.function_count;
        let mut rheaders: Vec<String> = Vec::new();
        rheaders.push("Risk".to_owned());
        rheaders.push("Functions".to_owned());
        rheaders.push("Percentage".to_owned());
        let mut risk_table = MarkdownTable::new(rheaders);
        if total > 0 {
            risk_table.add_row(
                risk_row("\u{1F534} High", self.high_risk, percent_of(self.high_risk, total)),
            );
            risk_table.add_row(
                risk_row(
                    "\u{1F7E1} Medium",
                    self.medium_risk,
                    percent_of(self.medium_risk, total),
                ),
            );
            risk_table.add_row(
                risk_row("\u{1F7E2} Low", self.low_risk, percent_of(self.low_risk, total)),
            );
        }
        let rt = risk_table.render();
        out.append(rt.as_str());
        out
    }
}

/// One row of the risk table.
fn risk_row(label: &str, count: usize, pct: u64) -> (r: Vec<String>)
    ensures
        r@.len() == 3,
{
    let mut row: Vec<String> = Vec::new();
    row.push(label.to_owned());
    row.push(usize_to_string(count));
    let mut p = u64_to_string(pct);
    p.append("%");
    row.push(p);
    row
}

} // verus!
