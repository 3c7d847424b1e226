//! What the commands print for a person.
use vstd::prelude::*;

use crate::connect::{
    ConnectReport, ConnectionShowReport, ConnectionSummary, ConnectionsReport,
    ConnectorProfileSummary, DisconnectReport, ProfilesReport,
};
use crate::create::CreatePageReport;
use crate::daemon::{DaemonControlReport, DaemonStatusReport};
use crate::diff::{PlanSummaryOutput, PushPlanOutput, ValidationIssueOutput};
use crate::history::{JournalEntryOutput, LogReport, UndoReport};
use crate::pull::PullReport;
use crate::push::PushReport;
use crate::quoting;
use crate::quoting::SafeSet;
use crate::search::{SearchReport, SearchResult};
use crate::text;

verus! {

/// A line that is put together from the left.
pub struct Line {
    words: String,
}

impl Line {
    /// What the line holds so far.
    pub closed spec fn view(&self) -> Seq<char> {
        self.words@
    }

    /// A line that begins with a text.
    pub fn new(front: &str) -> (r: Line)
        ensures
            r@ == front@,
    {
        Line { words: front.to_string() }
    }

    /// The line with a text behind.
    pub fn with(self, words: &str) -> (r: Line)
        ensures
            r@ == self@ + words@,
    {
        let mut line = self.words;
        line.append(words);
        Line { words: line }
    }

    /// The line with a number behind.
    pub fn number(self, n: usize) -> (r: Line)
        ensures
            r@ == self@ + text::decimal(n as nat),
    {
        let mut line = self.words;
        line.append(&text::decimal_text(n as u128));
        Line { words: line }
    }

    /// The line as it is.
    pub fn end(self) -> (r: String)
        ensures
            r@ == self@,
    {
        self.words
    }
}

/// A line where there is something to say.
pub open spec fn line_if(front: Seq<char>, value: Option<Seq<char>>) -> Seq<Seq<char>> {
    match value {
        Some(v) => seq![front + v],
        None => Seq::empty(),
    }
}

/// Lines where a condition holds.
pub open spec fn lines_if(condition: bool, lines: Seq<Seq<char>>) -> Seq<Seq<char>> {
    if condition {
        lines
    } else {
        Seq::empty()
    }
}

/// A line for each text, behind a front.
pub open spec fn each_line(front: Seq<char>, values: Seq<Seq<char>>) -> Seq<Seq<char>> {
    Seq::new(values.len(), |i: int| front + values[i])
}

/// Adds a line.
pub fn push_line(out: &mut Vec<String>, line: Line)
    ensures
        text::texts(final(out)@) == text::texts(old(out)@).push(line@),
{
    let ghost before = text::texts(out@);
    out.push(line.end());
    assert(text::texts(out@) =~= before.push(line@));
}

/// Adds a line that is fixed.
pub fn push_words(out: &mut Vec<String>, words: &str)
    ensures
        text::texts(final(out)@) == text::texts(old(out)@).push(words@),
{
    push_line(out, Line::new(words));
}

/// Adds a line where there is something to say.
pub fn push_if(out: &mut Vec<String>, front: &str, value: &Option<String>)
    ensures
        text::texts(final(out)@) == text::texts(old(out)@) + line_if(
            front@,
            text::opt_text(*value),
        ),
{
    let ghost before = text::texts(out@);
    match value {
        Some(v) => {
            push_line(out, Line::new(front).with(v));
            assert(text::texts(out@) =~= before + seq![front@ + v@]);
        },
        None => {
            assert(text::texts(out@) =~= before + Seq::<Seq<char>>::empty());
        },
    }
}

/// Adds a line for each text.
pub fn push_each(out: &mut Vec<String>, front: &str, values: &Vec<String>)
    ensures
        text::texts(final(out)@) == text::texts(old(out)@) + each_line(
            front@,
            text::texts(values@),
        ),
{
    let ghost before = text::texts(out@);
    let ghost all = text::texts(values@);
    let mut i: usize = 0;
    assert(text::texts(out@) =~= before + each_line(front@, all).take(0));
    while i < values.len()
        invariant
            i <= values.len(),
            all == text::texts(values@),
            text::texts(out@) == before + each_line(front@, all).take(i as int),
        decreases values.len() - i,
    {
        push_line(out, Line::new(front).with(&values[i]));
        assert(text::texts(out@) =~= before + each_line(front@, all).take(i + 1));
        i += 1;
    }
    assert(each_line(front@, all).take(i as int) =~= each_line(front@, all));
}

/// The letter that makes a noun plural.
pub open spec fn plural_text(count: nat) -> Seq<char> {
    if count == 1 {
        ""@
    } else {
        "s"@
    }
}

/// The letter that makes a noun plural.
pub fn plural(count: usize) -> (r: &'static str)
    ensures
        r@ == plural_text(count as nat),
{
    if count == 1 {
        ""
    } else {
        "s"
    }
}

/// The end of a noun that ends in `y` or `ies`.
pub open spec fn plural_y_text(count: nat) -> Seq<char> {
    if count == 1 {
        "y"@
    } else {
        "ies"@
    }
}

/// The end of a noun that ends in `y` or `ies`.
pub fn plural_y(count: usize) -> (r: &'static str)
    ensures
        r@ == plural_y_text(count as nat),
{
    if count == 1 {
        "y"
    } else {
        "ies"
    }
}

/// A text, or what stands for it where there is none.
pub open spec fn or_else(value: Option<Seq<char>>, default: Seq<char>) -> Seq<char> {
    match value {
        Some(v) => v,
        None => default,
    }
}

fn text_or<'a>(value: &'a Option<String>, default: &'a str) -> (r: &'a str)
    ensures
        r@ == or_else(text::opt_text(*value), default@),
{
    match value {
        Some(v) => v.as_str(),
        None => default,
    }
}

/// The summary of a journaled plan.
pub open spec fn journal_summary(s: PlanSummaryOutput) -> Seq<char> {
    "  summary: "@ + text::decimal(s.blocks_updated as nat) + " updated, "@ + text::decimal(
        s.blocks_replaced as nat,
    ) + " replaced, "@ + text::decimal(s.media_updated as nat) + " media updated, "@
        + text::decimal(s.blocks_created as nat) + " created, "@ + text::decimal(
        s.blocks_moved as nat,
    ) + " moved, "@ + text::decimal(s.blocks_archived as nat) + " archived"@
}

/// The lines of a journal entry.
pub open spec fn entry_lines(entry: JournalEntryOutput) -> Seq<Seq<char>> {
    seq![
        "push "@ + entry.push_id@,
        "  status: "@ + entry.status@,
        "  mount: "@ + entry.mount_id@,
        "  entities: "@ + text::joined(text::texts(entry.remote_ids@), ", "@),
    ] + line_if("  failure: "@, text::opt_text(entry.failure)) + seq![
        journal_summary(entry.plan_summary),
        "  operations: "@ + text::decimal(entry.operation_count as nat),
    ]
}

/// The lines of journal entries, with a blank line between.
pub open spec fn entries_lines(entries: Seq<JournalEntryOutput>) -> Seq<Seq<char>>
    decreases entries.len(),
{
    if entries.len() == 0 {
        Seq::empty()
    } else {
        entries_lines(entries.drop_last()) + lines_if(entries.len() > 1, seq![""@]) + entry_lines(
            entries.last(),
        )
    }
}

fn push_entry(out: &mut Vec<String>, entry: &JournalEntryOutput)
    ensures
        text::texts(final(out)@) == text::texts(old(out)@) + entry_lines(*entry),
{
    let ghost before = text::texts(out@);
    push_line(out, Line::new("push ").with(&entry.push_id));
    push_line(out, Line::new("  status: ").with(&entry.status));
    push_line(out, Line::new("  mount: ").with(&entry.mount_id));
    push_line(out, Line::new("  entities: ").with(&text::join(&entry.remote_ids, ", ")));
    push_if(out, "  failure: ", &entry.failure);
    let s = &entry.plan_summary;
    push_line(
        out,
        Line::new("  summary: ").number(s.blocks_updated).with(" updated, ").number(
            s.blocks_replaced,
        ).with(" replaced, ").number(s.media_updated).with(" media updated, ").number(
            s.blocks_created,
        ).with(" created, ").number(s.blocks_moved).with(" moved, ").number(
            s.blocks_archived,
        ).with(" archived"),
    );
    push_line(out, Line::new("  operations: ").number(entry.operation_count));
    assert(text::texts(out@) =~= before + entry_lines(*entry));
}

/// The lines of the log.
pub fn log_report_lines(report: &LogReport) -> (r: Vec<String>)
    ensures
        text::texts(r@) == (if report.entries@.len() == 0 {
            seq!["no journal entries"@]
        } else {
            entries_lines(report.entries@)
        }),
{
    let mut out: Vec<String> = Vec::new();
    assert(text::texts(out@) =~= Seq::<Seq<char>>::empty());
    if report.entries.len() == 0 {
        push_words(&mut out, "no journal entries");
        return out;
    }
    let ghost all = report.entries@;
    let mut i: usize = 0;
    assert(text::texts(out@) =~= entries_lines(all.take(0)));
    while i < report.entries.len()
        invariant
            i <= report.entries.len(),
            all == report.entries@,
            text::texts(out@) == entries_lines(all.take(i as int)),
        decreases report.entries.len() - i,
    {
        let ghost before = text::texts(out@);
        assert(all.take(i + 1).drop_last() == all.take(i as int));
        assert(all.take(i + 1).last() == all[i as int]);
        if i > 0 {
            push_words(&mut out, "");
        }
        assert(text::texts(out@) =~= before + lines_if(all.take(i + 1).len() > 1, seq![""@]));
        push_entry(&mut out, &report.entries[i]);
        assert(text::texts(out@) =~= entries_lines(all.take(i + 1)));
        i += 1;
    }
    assert(all.take(i as int) == all);
    out
}

/// The lines of an undo.
pub fn undo_report_lines(report: &UndoReport) -> (r: Vec<String>)
    ensures
        text::texts(r@) == (if report.ok {
            seq![report.message@]
        } else {
            seq!["undo blocked for "@ + report.push_id@ + ": "@ + report.message@] + (
            match report.undo_plan {
                Some(plan) => seq![
                    "  undo plan: "@ + plan.status@ + " ("@ + text::decimal(plan.operations@.len())
                        + " operations, "@ + text::decimal(plan.unsupported@.len())
                        + " unsupported)"@,
                ],
                None => Seq::empty(),
            })
        }),
{
    let mut out: Vec<String> = Vec::new();
    assert(text::texts(out@) =~= Seq::<Seq<char>>::empty());
    if report.ok {
        push_words(&mut out, &report.message);
        return out;
    }
    push_line(
        &mut out,
        Line::new("undo blocked for ").with(&report.push_id).with(": ").with(&report.message),
    );
    let ghost first = text::texts(out@);
    match &report.undo_plan {
        Some(plan) => {
            push_line(
                &mut out,
                Line::new("  undo plan: ").with(&plan.status).with(" (").number(
                    plan.operations.len(),
                ).with(" operations, ").number(plan.unsupported.len()).with(" unsupported)"),
            );
            assert(text::texts(out@) =~= first + seq![text::texts(out@).last()]);
        },
        None => {
            assert(text::texts(out@) =~= first + Seq::<Seq<char>>::empty());
        },
    }
    out
}

/// The line of a validation finding.
pub open spec fn issue_line(issue: ValidationIssueOutput) -> Seq<char> {
    match issue.line {
        Some(line) => issue.file@ + ":"@ + text::decimal(line as nat) + ": "@ + issue.message@
            + " ("@ + issue.code@ + ")"@,
        None => issue.file@ + ": "@ + issue.message@ + " ("@ + issue.code@ + ")"@,
    }
}

/// The line of a plan.
pub open spec fn plan_line(s: PlanSummaryOutput) -> Seq<char> {
    text::decimal(s.blocks_updated as nat) + " block"@ + plural_text(s.blocks_updated as nat)
        + " updated, "@ + text::decimal(s.blocks_replaced as nat) + " replaced, "@ + text::decimal(
        s.media_updated as nat,
    ) + " media updated, "@ + text::decimal(s.blocks_created as nat) + " block"@ + plural_text(
        s.blocks_created as nat,
    ) + " created, "@ + text::decimal(s.entities_created as nat) + " entit"@ + plural_y_text(
        s.entities_created as nat,
    ) + " created, "@ + text::decimal(s.blocks_moved as nat) + " moved, "@ + text::decimal(
        s.blocks_archived as nat,
    ) + " block"@ + plural_text(s.blocks_archived as nat) + " archived, "@ + text::decimal(
        s.entities_archived as nat,
    ) + " entit"@ + plural_y_text(s.entities_archived as nat) + " archived"@
}

/// The lines of a preview: the validation findings where there are any, else
/// the plan.
pub open spec fn preview_lines(
    validation: Seq<ValidationIssueOutput>,
    plan: Option<PushPlanOutput>,
) -> Seq<Seq<char>> {
    if validation.len() > 0 {
        Seq::new(validation.len(), |i: int| issue_line(validation[i]))
    } else {
        match plan {
            None => seq!["no plan"@],
            Some(plan) => seq![plan_line(plan.summary)],
        }
    }
}

/// The lines of a preview.
pub fn diff_report_lines(
    validation: &Vec<ValidationIssueOutput>,
    plan: &Option<PushPlanOutput>,
) -> (r: Vec<String>)
    ensures
        text::texts(r@) == preview_lines(validation@, *plan),
{
    let mut out: Vec<String> = Vec::new();
    assert(text::texts(out@) =~= Seq::<Seq<char>>::empty());
    let ghost whole = Seq::new(validation@.len(), |i: int| issue_line(validation@[i]));
    let mut i: usize = 0;
    assert(text::texts(out@) =~= whole.take(0));
    while i < validation.len()
        invariant
            i <= validation.len(),
            whole == Seq::new(validation@.len(), |i: int| issue_line(validation@[i])),
            text::texts(out@) == whole.take(i as int),
        decreases validation.len() - i,
    {
        let issue = &validation[i];
        match issue.line {
            Some(line) => {
                push_line(
                    &mut out,
                    Line::new(&issue.file).with(":").number(line).with(": ").with(
                        &issue.message,
                    ).with(" (").with(&issue.code).with(")"),
                );
            },
            None => {
                push_line(
                    &mut out,
                    Line::new(&issue.file).with(": ").with(&issue.message).with(" (").with(
                        &issue.code,
                    ).with(")"),
                );
            },
        }
        assert(whole[i as int] == issue_line(*issue));
        assert(text::texts(out@) =~= whole.take(i + 1));
        i += 1;
    }
    assert(whole.take(i as int) =~= whole);
    if validation.len() > 0 {
        return out;
    }
    match plan {
        None => {
            push_words(&mut out, "no plan");
            assert(text::texts(out@) =~= seq!["no plan"@]);
        },
        Some(plan) => {
            let s = &plan.summary;
            push_line(
                &mut out,
                Line::new(&text::decimal_text(s.blocks_updated as u128)).with(" block").with(
                    plural(s.blocks_updated),
                ).with(" updated, ").number(s.blocks_replaced).with(" replaced, ").number(
                    s.media_updated,
                ).with(" media updated, ").number(s.blocks_created).with(" block").with(
                    plural(s.blocks_created),
                ).with(" created, ").number(s.entities_created).with(" entit").with(
                    plural_y(s.entities_created),
                ).with(" created, ").number(s.blocks_moved).with(" moved, ").number(
                    s.blocks_archived,
                ).with(" block").with(plural(s.blocks_archived)).with(" archived, ").number(
                    s.entities_archived,
                ).with(" entit").with(plural_y(s.entities_archived)).with(" archived"),
            );
            assert(text::texts(out@) =~= seq![plan_line(plan.summary)]);
        },
    }
    out
}

/// The lines of a push.
pub open spec fn push_lines(report: PushReport) -> Seq<Seq<char>> {
    let action = report.action@;
    let message = text::opt_text(report.message);
    let fix = line_if("  suggested_fix: "@, text::opt_text(report.suggested_fix));
    if action == "noop"@ {
        seq!["nothing to push"@]
    } else if action == "reconciled"@ {
        seq![
            "push "@ + or_else(text::opt_text(report.push_id), "<unknown>"@) + " reconciled (via "@
                + report.via@ + ")"@,
        ]
    } else if action == "fix_validation"@ {
        preview_lines(report.validation@, report.plan)
    } else if action == "confirm_plan"@ {
        seq!["push requires confirmation; rerun with -y or --yes"@]
    } else if action == "confirm_dangerous_plan"@ {
        seq!["dangerous push requires --confirm"@]
    } else if action == "read_only_blocked"@ {
        seq!["push blocked: mount is read-only"@]
    } else if action == "apply_not_implemented"@ {
        seq![or_else(message, "connector apply is not implemented yet"@)]
    } else if action == "unsupported_operations"@ {
        seq![or_else(message, "connector cannot apply one or more planned operations"@)] + fix
    } else if action == "apply_failed"@ {
        seq![or_else(message, "connector apply failed"@)] + fix
    } else {
        seq!["push stopped: "@ + action]
    }
}

fn one_line(line: Line) -> (r: Vec<String>)
    ensures
        text::texts(r@) == seq![line@],
{
    let mut out: Vec<String> = Vec::new();
    push_line(&mut out, line);
    assert(text::texts(out@) =~= seq![line@]);
    out
}

fn line_with_fix(words: &str, fix: &Option<String>) -> (r: Vec<String>)
    ensures
        text::texts(r@) == seq![words@] + line_if("  suggested_fix: "@, text::opt_text(*fix)),
{
    let mut out = one_line(Line::new(words));
    push_if(&mut out, "  suggested_fix: ", fix);
    out
}

/// The lines of a push.
pub fn push_report_lines(report: &PushReport) -> (r: Vec<String>)
    ensures
        text::texts(r@) == push_lines(*report),
{
    let action = report.action.as_str();
    if text::same_text(action, "noop") {
        one_line(Line::new("nothing to push"))
    } else if text::same_text(action, "reconciled") {
        one_line(
            Line::new("push ").with(text_or(&report.push_id, "<unknown>")).with(
                " reconciled (via ",
            ).with(&report.via).with(")"),
        )
    } else if text::same_text(action, "fix_validation") {
        diff_report_lines(&report.validation, &report.plan)
    } else if text::same_text(action, "confirm_plan") {
        one_line(Line::new("push requires confirmation; rerun with -y or --yes"))
    } else if text::same_text(action, "confirm_dangerous_plan") {
        one_line(Line::new("dangerous push requires --confirm"))
    } else if text::same_text(action, "read_only_blocked") {
        one_line(Line::new("push blocked: mount is read-only"))
    } else if text::same_text(action, "apply_not_implemented") {
        one_line(Line::new(text_or(&report.message, "connector apply is not implemented yet")))
    } else if text::same_text(action, "unsupported_operations") {
        line_with_fix(
            text_or(&report.message, "connector cannot apply one or more planned operations"),
            &report.suggested_fix,
        )
    } else if text::same_text(action, "apply_failed") {
        line_with_fix(text_or(&report.message, "connector apply failed"), &report.suggested_fix)
    } else {
        one_line(Line::new("push stopped: ").with(action))
    }
}

/// The lines of the reports of a push, each under the name of its target where they are `named`.
pub open spec fn reports_lines(reports: Seq<PushReport>, named: bool) -> Seq<Seq<char>>
    decreases reports.len(),
{
    if reports.len() == 0 {
        seq![]
    } else {
        let report = reports.last();
        reports_lines(reports.drop_last(), named) + lines_if(
            named,
            seq!["pushing "@ + report.path@],
        ) + push_lines(report)
    }
}

/// Adds all of `lines`.
fn push_all(out: &mut Vec<String>, lines: Vec<String>)
    ensures
        text::texts(final(out)@) == text::texts(old(out)@) + text::texts(lines@),
{
    let mut rest = lines;
    out.append(&mut rest);
    assert(text::texts(out@) =~= text::texts(old(out)@) + text::texts(lines@));
}

/// The lines that a push prints of its reports.
pub fn push_reports_lines(scoped: bool, reports: &Vec<PushReport>) -> (r: Vec<String>)
    ensures
        text::texts(r@) == reports_lines(reports@, scoped && reports@.len() > 1),
{
    let named = scoped && reports.len() > 1;
    let mut out: Vec<String> = Vec::new();
    let mut i: usize = 0;
    assert(text::texts(out@) =~= reports_lines(reports@.take(0), named));
    while i < reports.len()
        invariant
            i <= reports.len(),
            text::texts(out@) == reports_lines(reports@.take(i as int), named),
        decreases reports.len() - i,
    {
        assert(reports@.take(i + 1).drop_last() =~= reports@.take(i as int));
        if named {
            push_line(&mut out, Line::new("pushing ").with(&reports[i].path));
        }
        push_all(&mut out, push_report_lines(&reports[i]));
        assert(text::texts(out@) =~= reports_lines(reports@.take(i + 1), named));
        i += 1;
    }
    assert(reports@.take(i as int) =~= reports@);
    out
}

/// What an account is called: its label, else its workspace, else a default.
pub open spec fn account_name(
    label: Option<String>,
    workspace: Option<String>,
    default: Seq<char>,
) -> Seq<char> {
    match label {
        Some(l) => l@,
        None => or_else(text::opt_text(workspace), default),
    }
}

fn account_name_of<'a>(
    label: &'a Option<String>,
    workspace: &'a Option<String>,
    default: &'a str,
) -> (r: &'a str)
    ensures
        r@ == account_name(*label, *workspace, default@),
{
    match label {
        Some(l) => l.as_str(),
        None => text_or(workspace, default),
    }
}

/// The line of a new connection.
pub fn connect_report_line(report: &ConnectReport) -> (r: String)
    ensures
        r@ == "connected notion as \""@ + account_name(
            report.account_label,
            report.workspace_name,
            "Notion"@,
        ) + "\" (connection: "@ + report.connection_id@ + ")"@,
{
    Line::new("connected notion as \"").with(
        account_name_of(&report.account_label, &report.workspace_name, "Notion"),
    ).with("\" (connection: ").with(&report.connection_id).with(")").end()
}

/// The line of a connection.
pub open spec fn connection_line(c: ConnectionSummary) -> Seq<char> {
    c.connection_id@ + "  "@ + or_else(text::opt_text(c.profile_id), "profile:unknown"@) + "  "@
        + c.connector@ + "  "@ + c.status@ + "  "@ + account_name(
        c.account_label,
        c.workspace_name,
        "-"@,
    )
}

/// The lines of the connections.
pub fn connections_report_lines(report: &ConnectionsReport) -> (r: Vec<String>)
    ensures
        text::texts(r@) == (if report.connections@.len() == 0 {
            seq!["no connections"@]
        } else {
            Seq::new(
                report.connections@.len(),
                |i: int| connection_line(report.connections@[i]),
            )
        }),
{
    if report.connections.len() == 0 {
        return one_line(Line::new("no connections"));
    }
    let mut out: Vec<String> = Vec::new();
    let ghost whole = Seq::new(
        report.connections@.len(),
        |i: int| connection_line(report.connections@[i]),
    );
    let mut i: usize = 0;
    assert(text::texts(out@) =~= whole.take(0));
    while i < report.connections.len()
        invariant
            i <= report.connections.len(),
            whole == Seq::new(
                report.connections@.len(),
                |i: int| connection_line(report.connections@[i]),
            ),
            text::texts(out@) == whole.take(i as int),
        decreases report.connections.len() - i,
    {
        let c = &report.connections[i];
        push_line(
            &mut out,
            Line::new(&c.connection_id).with("  ").with(
                text_or(&c.profile_id, "profile:unknown"),
            ).with("  ").with(&c.connector).with("  ").with(&c.status).with("  ").with(
                account_name_of(&c.account_label, &c.workspace_name, "-"),
            ),
        );
        assert(whole[i as int] == connection_line(*c));
        assert(text::texts(out@) =~= whole.take(i + 1));
        i += 1;
    }
    assert(whole.take(i as int) =~= whole);
    out
}

/// The line of a profile.
pub open spec fn profile_line(p: ConnectorProfileSummary) -> Seq<char> {
    p.profile_id@ + "  "@ + p.connector@ + "  "@ + p.auth_kind@ + "  "@ + p.status@ + "  "@
        + p.connector_version@
}

/// The lines of the profiles.
pub fn profiles_report_lines(report: &ProfilesReport) -> (r: Vec<String>)
    ensures
        text::texts(r@) == (if report.profiles@.len() == 0 {
            seq!["no profiles"@]
        } else {
            Seq::new(report.profiles@.len(), |i: int| profile_line(report.profiles@[i]))
        }),
{
    if report.profiles.len() == 0 {
        return one_line(Line::new("no profiles"));
    }
    let mut out: Vec<String> = Vec::new();
    let ghost whole = Seq::new(
        report.profiles@.len(),
        |i: int| profile_line(report.profiles@[i]),
    );
    let mut i: usize = 0;
    assert(text::texts(out@) =~= whole.take(0));
    while i < report.profiles.len()
        invariant
            i <= report.profiles.len(),
            whole == Seq::new(
                report.profiles@.len(),
                |i: int| profile_line(report.profiles@[i]),
            ),
            text::texts(out@) == whole.take(i as int),
        decreases report.profiles.len() - i,
    {
        let p = &report.profiles[i];
        push_line(
            &mut out,
            Line::new(&p.profile_id).with("  ").with(&p.connector).with("  ").with(
                &p.auth_kind,
            ).with("  ").with(&p.status).with("  ").with(&p.connector_version),
        );
        assert(whole[i as int] == profile_line(*p));
        assert(text::texts(out@) =~= whole.take(i + 1));
        i += 1;
    }
    assert(whole.take(i as int) =~= whole);
    out
}

/// The lines of one connection.
pub fn connection_show_lines(report: &ConnectionShowReport) -> (r: Vec<String>)
    ensures
        ({
            let c = report.connection;
            text::texts(r@) == seq!["connection: "@ + c.connection_id@] + line_if(
                "  profile: "@,
                text::opt_text(c.profile_id),
            ) + seq![
                "  connector: "@ + c.connector@,
                "  status: "@ + c.status@,
                "  auth_kind: "@ + c.auth_kind@,
            ] + line_if("  account: "@, text::opt_text(c.account_label)) + line_if(
                "  workspace: "@,
                text::opt_text(c.workspace_name),
            )
        }),
{
    let c = &report.connection;
    let mut out = one_line(Line::new("connection: ").with(&c.connection_id));
    push_if(&mut out, "  profile: ", &c.profile_id);
    let ghost front = text::texts(out@);
    push_line(&mut out, Line::new("  connector: ").with(&c.connector));
    push_line(&mut out, Line::new("  status: ").with(&c.status));
    push_line(&mut out, Line::new("  auth_kind: ").with(&c.auth_kind));
    assert(text::texts(out@) =~= front + seq![
        "  connector: "@ + c.connector@,
        "  status: "@ + c.status@,
        "  auth_kind: "@ + c.auth_kind@,
    ]);
    push_if(&mut out, "  account: ", &c.account_label);
    push_if(&mut out, "  workspace: ", &c.workspace_name);
    out
}

/// The line of a connection that was given up.
pub fn disconnect_report_line(report: &DisconnectReport) -> (r: String)
    ensures
        r@ == "disconnected "@ + report.connection_id@ + " ("@ + report.status@ + ")"@,
{
    Line::new("disconnected ").with(&report.connection_id).with(" (").with(&report.status).with(
        ")",
    ).end()
}

/// What a pull fetched.
pub open spec fn pulled(report: PullReport) -> Seq<char> {
    text::decimal(report.hydrated as nat) + " hydrated, "@ + text::decimal(report.stubbed as nat)
        + " stubbed, "@ + text::decimal(report.enumerated as nat) + " enumerated (via "@
        + report.via@ + ")"@
}

/// The dirty files that a pull left alone, beside those in conflict.
pub open spec fn skipped_beside(report: PullReport) -> nat {
    if report.skipped_dirty >= report.conflicts@.len() {
        (report.skipped_dirty - report.conflicts@.len()) as nat
    } else {
        0
    }
}

/// The lines of a pull.
pub open spec fn pull_lines(report: PullReport) -> Seq<Seq<char>> {
    let n = report.conflicts@.len();
    if n > 0 {
        seq![
            "pull completed with "@ + text::decimal(n) + " conflicted file(s); "@ + text::decimal(
                skipped_beside(report),
            ) + " dirty file(s) skipped, "@ + pulled(report),
            "  conflicted:"@,
        ] + Seq::new(n, |i: int| "    "@ + report.conflicts@[i].path@) + seq![
            "  next: resolve the conflict markers in the file(s)"@,
            if n == 1 {
                "  then: loc push "@ + quoting::shell_word(
                    SafeSet::ShellWord,
                    report.conflicts@[0].path@,
                ) + " -y"@
            } else {
                "  then: run `loc push <file> -y` for each resolved file"@
            },
        ]
    } else if report.skipped_dirty > 0 {
        seq![
            "pull skipped "@ + text::decimal(report.skipped_dirty as nat) + " dirty file(s); "@
                + pulled(report),
        ]
    } else {
        seq!["pull complete: "@ + pulled(report)]
    }
}

fn pulled_words(report: &PullReport) -> (r: String)
    ensures
        r@ == pulled(*report),
{
    Line::new(&text::decimal_text(report.hydrated as u128)).with(" hydrated, ").number(
        report.stubbed,
    ).with(" stubbed, ").number(report.enumerated).with(" enumerated (via ").with(
        &report.via,
    ).with(")").end()
}

/// The lines of a pull.
pub fn pull_report_lines(report: &PullReport) -> (r: Vec<String>)
    ensures
        text::texts(r@) == pull_lines(*report),
{
    let n: usize = report.conflicts.len();
    let words = pulled_words(report);
    if n == 0 {
        if report.skipped_dirty > 0 {
            return one_line(
                Line::new("pull skipped ").number(report.skipped_dirty).with(
                    " dirty file(s); ",
                ).with(&words),
            );
        }
        return one_line(Line::new("pull complete: ").with(&words));
    }
    let skipped: usize = if report.skipped_dirty >= n {
        report.skipped_dirty - n
    } else {
        0
    };
    let mut out = one_line(
        Line::new("pull completed with ").number(n).with(" conflicted file(s); ").number(
            skipped,
        ).with(" dirty file(s) skipped, ").with(&words),
    );
    push_words(&mut out, "  conflicted:");
    let ghost front = text::texts(out@);
    let ghost files = Seq::new(n as nat, |i: int| "    "@ + report.conflicts@[i].path@);
    let mut i: usize = 0;
    assert(text::texts(out@) =~= front + files.take(0));
    while i < n
        invariant
            i <= n,
            n == report.conflicts@.len(),
            files == Seq::new(n as nat, |i: int| "    "@ + report.conflicts@[i].path@),
            text::texts(out@) == front + files.take(i as int),
        decreases n - i,
    {
        push_line(&mut out, Line::new("    ").with(&report.conflicts[i].path));
        assert(text::texts(out@) =~= front + files.take(i + 1));
        i += 1;
    }
    assert(files.take(i as int) =~= files);
    push_words(&mut out, "  next: resolve the conflict markers in the file(s)");
    if n == 1 {
        let path = quoting::shell_quote(&report.conflicts[0].path);
        push_line(&mut out, Line::new("  then: loc push ").with(&path).with(" -y"));
    } else {
        push_words(&mut out, "  then: run `loc push <file> -y` for each resolved file");
    }
    assert(text::texts(out@) =~= pull_lines(*report));
    out
}

/// The lines of a search result.
pub open spec fn result_lines(result: SearchResult) -> Seq<Seq<char>> {
    seq![
        result.title@ + "  "@ + result.kind@ + "  "@ + result.state@ + "  "@ + result.path@,
        "  mount: "@ + result.mount_id@ + "  connector: "@ + result.connector@ + "  remote: "@
            + result.remote_id@,
        "  path: "@ + result.absolute_path@,
    ] + lines_if(
        !result.safety.agent_readable,
        seq!["  safety: "@ + text::joined(text::texts(result.safety.labels@), ", "@)],
    ) + lines_if(
        result.remote.changed,
        seq![
            "  remote: "@ + (if result.remote.deleted {
                "deleted"@
            } else {
                "changed"@
            }),
        ],
    )
}

/// The lines of search results.
pub open spec fn results_lines(results: Seq<SearchResult>) -> Seq<Seq<char>>
    decreases results.len(),
{
    if results.len() == 0 {
        Seq::empty()
    } else {
        results_lines(results.drop_last()) + result_lines(results.last())
    }
}

fn push_result(out: &mut Vec<String>, result: &SearchResult)
    ensures
        text::texts(final(out)@) == text::texts(old(out)@) + result_lines(*result),
{
    let ghost before = text::texts(out@);
    push_line(
        out,
        Line::new(&result.title).with("  ").with(&result.kind).with("  ").with(
            &result.state,
        ).with("  ").with(&result.path),
    );
    push_line(
        out,
        Line::new("  mount: ").with(&result.mount_id).with("  connector: ").with(
            &result.connector,
        ).with("  remote: ").with(&result.remote_id),
    );
    push_line(out, Line::new("  path: ").with(&result.absolute_path));
    if !result.safety.agent_readable {
        push_line(out, Line::new("  safety: ").with(&text::join(&result.safety.labels, ", ")));
    }
    if result.remote.changed {
        push_line(
            out,
            Line::new("  remote: ").with(
                if result.remote.deleted {
                    "deleted"
                } else {
                    "changed"
                },
            ),
        );
    }
    assert(text::texts(out@) =~= before + result_lines(*result));
}

/// A text as `std` shows it for debugging: in double quotes, with what cannot be shown escaped.
pub uninterp spec fn debug_text(words: Seq<char>) -> Seq<char>;

/// Writes `words` with the `Debug` implementation of `str`. The result is named by `debug_text`:
/// it depends on the text alone, and nothing more is claimed of it.
#[verifier::external_body]
fn debug_quoted(words: &str) -> (r: String)
    ensures
        r@ == debug_text(words@),
{
    format!("{:?}", words)
}

/// What is shown of a search: its results or, where there are none, its quoted query.
pub open spec fn search_lines(report: SearchReport, quoted_query: Seq<char>) -> Seq<Seq<char>> {
    if report.results@.len() == 0 {
        seq!["no local matches for "@ + quoted_query]
    } else {
        results_lines(report.results@)
    }
}

/// The lines of a search.
pub fn search_report_lines(report: &SearchReport) -> (r: Vec<String>)
    ensures
        text::texts(r@) == search_lines(*report, debug_text(report.query@)),
{
    quoted_search_lines(report, &debug_quoted(&report.query))
}

/// The lines of a search. `quoted_query` is the query as it is shown where
/// nothing was found.
pub fn quoted_search_lines(report: &SearchReport, quoted_query: &str) -> (r: Vec<String>)
    ensures
        text::texts(r@) == search_lines(*report, quoted_query@),
{
    if report.results.len() == 0 {
        return one_line(Line::new("no local matches for ").with(quoted_query));
    }
    let ghost all = report.results@;
    let mut out: Vec<String> = Vec::new();
    let mut i: usize = 0;
    assert(text::texts(out@) =~= results_lines(all.take(0)));
    while i < report.results.len()
        invariant
            i <= report.results.len(),
            all == report.results@,
            text::texts(out@) == results_lines(all.take(i as int)),
        decreases report.results.len() - i,
    {
        assert(all.take(i + 1).drop_last() == all.take(i as int));
        assert(all.take(i + 1).last() == all[i as int]);
        push_result(&mut out, &report.results[i]);
        i += 1;
    }
    assert(all.take(i as int) == all);
    out
}

/// The lines of a created page.
pub fn create_page_lines(report: &CreatePageReport) -> (r: Vec<String>)
    ensures
        text::texts(r@) == seq![
            "created "@ + report.path@,
            "  title: "@ + report.title@,
            "  mount: "@ + report.mount_id@,
            "  next:"@,
        ] + each_line("    "@, text::texts(report.next@)),
{
    let mut out = one_line(Line::new("created ").with(&report.path));
    push_line(&mut out, Line::new("  title: ").with(&report.title));
    push_line(&mut out, Line::new("  mount: ").with(&report.mount_id));
    push_words(&mut out, "  next:");
    assert(text::texts(out@) =~= seq![
        "created "@ + report.path@,
        "  title: "@ + report.title@,
        "  mount: "@ + report.mount_id@,
        "  next:"@,
    ]);
    push_each(&mut out, "    ", &report.next);
    out
}

/// How a truth value is written.
pub open spec fn truth(value: bool) -> Seq<char> {
    if value {
        "true"@
    } else {
        "false"@
    }
}

/// How a truth value is written.
pub fn truth_text(value: bool) -> (r: &'static str)
    ensures
        r@ == truth(value),
{
    if value {
        "true"
    } else {
        "false"
    }
}

/// The lines of what the daemon tells about itself.
pub open spec fn daemon_status_lines(s: DaemonStatusReport) -> Seq<Seq<char>> {
    seq![
        "  build: "@ + s.version@ + " ("@ + s.build_id@ + ")"@,
        "  watched mounts: "@ + text::decimal(s.watched_mounts as nat),
        "  jobs: active="@ + truth(s.active_job) + ", pending="@ + text::decimal(
            s.pending_requests as nat,
        ) + ", hydration="@ + text::decimal(s.pending_hydrations as nat) + ", freshness="@
            + text::decimal(s.pending_freshness as nat),
        "  freshness: ready="@ + text::decimal(s.ready_freshness as nat) + ", deferred="@
            + text::decimal(s.deferred_freshness as nat) + ", ready_budget="@ + text::decimal(
            s.ready_freshness_budget_units as nat,
        ) + ", total_budget="@ + text::decimal(s.freshness_budget_units as nat),
    ] + (match s.active_job_detail {
        Some(job) => seq![
            "  active job: kind="@ + job.kind@ + " target="@ + or_else(
                text::opt_text(job.target),
                "-"@,
            ) + " elapsed="@ + text::decimal(job.elapsed_ms as nat) + "ms"@,
        ],
        None => Seq::empty(),
    }) + seq!["  scheduler: "@ + s.scheduler_mode@]
}

fn push_daemon_status(out: &mut Vec<String>, s: &DaemonStatusReport)
    ensures
        text::texts(final(out)@) == text::texts(old(out)@) + daemon_status_lines(*s),
{
    let ghost before = text::texts(out@);
    push_line(out, Line::new("  build: ").with(&s.version).with(" (").with(&s.build_id).with(")"));
    push_line(out, Line::new("  watched mounts: ").number(s.watched_mounts));
    push_line(
        out,
        Line::new("  jobs: active=").with(truth_text(s.active_job)).with(", pending=").number(
            s.pending_requests,
        ).with(", hydration=").number(s.pending_hydrations).with(", freshness=").number(
            s.pending_freshness,
        ),
    );
    push_line(
        out,
        Line::new("  freshness: ready=").number(s.ready_freshness).with(", deferred=").number(
            s.deferred_freshness,
        ).with(", ready_budget=").number(s.ready_freshness_budget_units).with(
            ", total_budget=",
        ).number(s.freshness_budget_units),
    );
    if let Some(job) = &s.active_job_detail {
        push_line(
            out,
            Line::new("  active job: kind=").with(&job.kind).with(" target=").with(
                text_or(&job.target, "-"),
            ).with(" elapsed=").with(&text::decimal_text(job.elapsed_ms as u128)).with("ms"),
        );
    }
    push_line(out, Line::new("  scheduler: ").with(&s.scheduler_mode));
    assert(text::texts(out@) =~= before + daemon_status_lines(*s));
}

/// The lines of the daemon command.
pub open spec fn daemon_lines(report: DaemonControlReport) -> Seq<Seq<char>> {
    seq![
        report.message@,
        "  state: "@ + report.state.name(),
        "  manager: "@ + report.manager.name(),
        "  state root: "@ + report.state_root@,
        "  socket: "@ + report.socket@,
    ] + (match report.reload {
        Some(reload) => seq![
            "  reload: +"@ + text::decimal(reload.added as nat) + " -"@ + text::decimal(
                reload.removed as nat,
            ) + " unchanged "@ + text::decimal(reload.unchanged as nat),
        ],
        None => Seq::empty(),
    }) + (match report.daemon_status {
        Some(s) => daemon_status_lines(s),
        None => Seq::empty(),
    }) + line_if("  log: "@, text::opt_text(report.stderr_log))
}

/// The lines of the daemon command.
pub fn daemon_report_lines(report: &DaemonControlReport) -> (r: Vec<String>)
    ensures
        text::texts(r@) == daemon_lines(*report),
{
    let mut out = one_line(Line::new(&report.message));
    push_line(&mut out, Line::new("  state: ").with(report.state.as_str()));
    push_line(&mut out, Line::new("  manager: ").with(report.manager.as_str()));
    push_line(&mut out, Line::new("  state root: ").with(&report.state_root));
    push_line(&mut out, Line::new("  socket: ").with(&report.socket));
    if let Some(reload) = &report.reload {
        push_line(
            &mut out,
            Line::new("  reload: +").number(reload.added).with(" -").number(reload.removed).with(
                " unchanged ",
            ).number(reload.unchanged),
        );
    }
    if let Some(s) = &report.daemon_status {
        push_daemon_status(&mut out, s);
    }
    push_if(&mut out, "  log: ", &report.stderr_log);
    assert(text::texts(out@) =~= daemon_lines(*report));
    out
}

} // verus!
