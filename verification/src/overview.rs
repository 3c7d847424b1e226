//! What the commands print that look at mounts, files and packs from outside.
use vstd::prelude::*;

use crate::json::Json;
use crate::printing;
use crate::printing::{Line, plural, plural_y, push_each, push_if, push_line, push_words};
use crate::providing::FileProviderCommandReport;
use crate::text;

verus! {

fn first_line(line: Line) -> (r: Vec<String>)
    ensures
        text::texts(r@) == seq![line@],
{
    let mut out: Vec<String> = Vec::new();
    push_line(&mut out, line);
    assert(text::texts(out@) =~= seq![line@]);
    out
}

/// What became of a guidance file.
#[derive(Debug, PartialEq, Eq)]
pub struct GuidanceFile {
    pub action: String,
    pub path: String,
}

/// A new mount.
#[derive(Debug, PartialEq, Eq)]
pub struct MountReport {
    pub mount_id: String,
    pub root: String,
    pub connector: String,
    pub connection_id: Option<String>,
    pub agents_md: GuidanceFile,
    pub claude_md: GuidanceFile,
}

/// The lines of a new mount.
pub fn mount_report_lines(report: &MountReport) -> (r: Vec<String>)
    ensures
        text::texts(r@) == seq![
            "mounted "@ + report.mount_id@ + " at "@ + report.root@ + " ("@ + report.connector@
                + ")"@,
        ] + printing::line_if("connection: "@, text::opt_text(report.connection_id)) + seq![
            "agent guidance: "@ + report.agents_md.action@ + " "@ + report.agents_md.path@ + ", "@
                + report.claude_md.action@ + " "@ + report.claude_md.path@,
        ],
{
    let mut out = first_line(
        Line::new("mounted ").with(&report.mount_id).with(" at ").with(&report.root).with(
            " (",
        ).with(&report.connector).with(")"),
    );
    push_if(&mut out, "connection: ", &report.connection_id);
    let ghost before = text::texts(out@);
    push_line(
        &mut out,
        Line::new("agent guidance: ").with(&report.agents_md.action).with(" ").with(
            &report.agents_md.path,
        ).with(", ").with(&report.claude_md.action).with(" ").with(&report.claude_md.path),
    );
    assert(text::texts(out@) =~= before + seq![text::texts(out@).last()]);
    out
}

/// The line of a restored file.
pub fn restore_report_line(path: &str) -> (r: String)
    ensures
        r@ == "restored "@ + path@,
{
    Line::new("restored ").with(path).end()
}

/// How a file stands against its remote side.
#[derive(Clone, Copy, Debug, PartialEq, Eq, Structural)]
pub enum StatusSyncState {
    AllSynced,
    CheckingFreshness,
    RemoteUpdateAvailable,
    PendingLocalChanges,
    ReviewNeeded,
    Conflicted,
}

/// Something that was found out about a file.
#[derive(Debug, PartialEq, Eq)]
pub struct Issue {
    pub code: String,
    pub message: String,
}

/// The status of a file. `sync` is the name of `sync_state`.
#[derive(Debug, PartialEq, Eq)]
pub struct StatusEntry {
    pub path: String,
    pub state: String,
    pub sync_state: StatusSyncState,
    pub sync: String,
    pub hydration: String,
    pub pending_journal_count: usize,
    pub failed_journal_count: usize,
    pub issues: Vec<Issue>,
}

/// Whether changes go to the remote side by themselves.
#[derive(Debug, PartialEq, Eq)]
pub struct LiveMode {
    pub enabled: bool,
    pub state: String,
    pub reason: Option<String>,
}

/// The status of a mount.
#[derive(Debug, PartialEq, Eq)]
pub struct StatusMount {
    pub mount_id: String,
    pub live_mode: LiveMode,
    pub entries: Vec<StatusEntry>,
}

/// How many files there are of each kind.
#[derive(Clone, Copy, Debug, PartialEq, Eq, Structural)]
pub struct StatusSummary {
    pub total: usize,
    pub clean: usize,
    pub stub: usize,
    pub dirty: usize,
    pub conflicted: usize,
    pub missing: usize,
    pub error: usize,
    pub remote_update_available: usize,
    pub pending_local_changes: usize,
    pub review_needed: usize,
    pub sync_conflicted: usize,
    pub checking_freshness: usize,
}

/// The status of the mounts.
#[derive(Debug, PartialEq, Eq)]
pub struct StatusReport {
    pub mounts: Vec<StatusMount>,
    pub summary: StatusSummary,
}

/// Whether nothing is to be said of a file: it is in step with its remote side,
/// as far as is known, and no push of it is pending or failed.
pub open spec fn is_quiet(entry: StatusEntry) -> bool {
    &&& entry.sync_state == StatusSyncState::AllSynced || entry.sync_state
        == StatusSyncState::CheckingFreshness
    &&& entry.pending_journal_count == 0
    &&& entry.failed_journal_count == 0
}

/// The line of a finding of the status.
pub open spec fn status_issue_line(issue: Issue) -> Seq<char> {
    if issue.code@ == "last_failure"@ {
        "  last_failure: "@ + issue.message@
    } else {
        "  issue: "@ + issue.code@ + " - "@ + issue.message@
    }
}

/// The lines of the status of a file.
pub open spec fn status_entry_lines(mount_id: Seq<char>, entry: StatusEntry) -> Seq<Seq<char>> {
    if is_quiet(entry) {
        Seq::empty()
    } else {
        seq![
            mount_id + "  "@ + entry.path@,
            "  state: "@ + entry.state@ + "  sync: "@ + entry.sync@ + "  hydration: "@
                + entry.hydration@,
        ] + Seq::new(entry.issues@.len(), |i: int| status_issue_line(entry.issues@[i]))
    }
}

/// The lines of the status of files.
pub open spec fn status_entries_lines(
    mount_id: Seq<char>,
    entries: Seq<StatusEntry>,
) -> Seq<Seq<char>>
    decreases entries.len(),
{
    if entries.len() == 0 {
        Seq::empty()
    } else {
        status_entries_lines(mount_id, entries.drop_last()) + status_entry_lines(
            mount_id,
            entries.last(),
        )
    }
}

/// The number of files of which something is said.
pub open spec fn loud_entries(entries: Seq<StatusEntry>) -> nat
    decreases entries.len(),
{
    if entries.len() == 0 {
        0
    } else {
        loud_entries(entries.drop_last()) + (if is_quiet(entries.last()) {
            0nat
        } else {
            1nat
        })
    }
}

/// The lines of the status of a mount.
pub open spec fn status_mount_lines(mount: StatusMount) -> Seq<Seq<char>> {
    printing::lines_if(
        mount.live_mode.enabled || mount.live_mode.state@ != "off"@,
        seq![mount.mount_id@ + "  live_mode: "@ + mount.live_mode.state@] + printing::line_if(
            "  live_mode_reason: "@,
            text::opt_text(mount.live_mode.reason),
        ),
    ) + status_entries_lines(mount.mount_id@, mount.entries@)
}

/// The lines of the status of mounts.
pub open spec fn status_mounts_lines(mounts: Seq<StatusMount>) -> Seq<Seq<char>>
    decreases mounts.len(),
{
    if mounts.len() == 0 {
        Seq::empty()
    } else {
        status_mounts_lines(mounts.drop_last()) + status_mount_lines(mounts.last())
    }
}

/// Whether something is said of some file.
pub open spec fn some_loud(mounts: Seq<StatusMount>) -> bool
    decreases mounts.len(),
{
    mounts.len() > 0 && (some_loud(mounts.drop_last()) || loud_entries(mounts.last().entries@) > 0)
}

/// The last lines of the status.
pub open spec fn status_end(loud: bool, s: StatusSummary) -> Seq<Seq<char>> {
    if !loud {
        seq![
            "status clean: "@ + text::decimal(s.total as nat) + " tracked entr"@
                + printing::plural_y_text(s.total as nat) + (if s.checking_freshness > 0 {
                " (checking freshness for "@ + text::decimal(s.checking_freshness as nat)
                    + " entr"@ + printing::plural_y_text(s.checking_freshness as nat) + ")"@
            } else {
                ""@
            }),
        ]
    } else {
        seq![
            "summary: "@ + text::decimal(s.clean as nat) + " clean, "@ + text::decimal(
                s.stub as nat,
            ) + " stub, "@ + text::decimal(s.dirty as nat) + " dirty, "@ + text::decimal(
                s.conflicted as nat,
            ) + " conflicted, "@ + text::decimal(s.missing as nat) + " missing, "@ + text::decimal(
                s.error as nat,
            ) + " error"@,
            "sync: "@ + text::decimal(s.remote_update_available as nat) + " remote updates, "@
                + text::decimal(s.pending_local_changes as nat) + " pending local, "@
                + text::decimal(s.review_needed as nat) + " review needed, "@ + text::decimal(
                s.sync_conflicted as nat,
            ) + " conflicted, "@ + text::decimal(s.checking_freshness as nat) + " checking"@,
        ]
    }
}

fn entry_is_quiet(entry: &StatusEntry) -> (r: bool)
    ensures
        r == is_quiet(*entry),
{
    (entry.sync_state == StatusSyncState::AllSynced || entry.sync_state
        == StatusSyncState::CheckingFreshness) && entry.pending_journal_count == 0
        && entry.failed_journal_count == 0
}

fn push_status_entry(out: &mut Vec<String>, mount_id: &str, entry: &StatusEntry)
    ensures
        text::texts(final(out)@) == text::texts(old(out)@) + status_entry_lines(mount_id@, *entry),
{
    let ghost before = text::texts(out@);
    if entry_is_quiet(entry) {
        assert(text::texts(out@) =~= before + status_entry_lines(mount_id@, *entry));
        return;
    }
    push_line(out, Line::new(mount_id).with("  ").with(&entry.path));
    push_line(
        out,
        Line::new("  state: ").with(&entry.state).with("  sync: ").with(&entry.sync).with(
            "  hydration: ",
        ).with(&entry.hydration),
    );
    let ghost front = text::texts(out@);
    let ghost whole = Seq::new(
        entry.issues@.len(),
        |i: int| status_issue_line(entry.issues@[i]),
    );
    let mut i: usize = 0;
    assert(text::texts(out@) =~= front + whole.take(0));
    while i < entry.issues.len()
        invariant
            i <= entry.issues.len(),
            whole == Seq::new(
                entry.issues@.len(),
                |i: int| status_issue_line(entry.issues@[i]),
            ),
            text::texts(out@) == front + whole.take(i as int),
        decreases entry.issues.len() - i,
    {
        let issue = &entry.issues[i];
        if text::same_text(&issue.code, "last_failure") {
            push_line(out, Line::new("  last_failure: ").with(&issue.message));
        } else {
            push_line(
                out,
                Line::new("  issue: ").with(&issue.code).with(" - ").with(&issue.message),
            );
        }
        assert(whole[i as int] == status_issue_line(*issue));
        assert(text::texts(out@) =~= front + whole.take(i + 1));
        i += 1;
    }
    assert(whole.take(i as int) =~= whole);
    assert(text::texts(out@) =~= before + status_entry_lines(mount_id@, *entry));
}

/// Adds the lines of a mount, and says whether something was said of a file.
fn push_status_mount(out: &mut Vec<String>, mount: &StatusMount) -> (r: bool)
    ensures
        text::texts(final(out)@) == text::texts(old(out)@) + status_mount_lines(*mount),
        r == (loud_entries(mount.entries@) > 0),
{
    let ghost before = text::texts(out@);
    let ghost all = mount.entries@;
    if mount.live_mode.enabled || !text::same_text(&mount.live_mode.state, "off") {
        push_line(
            out,
            Line::new(&mount.mount_id).with("  live_mode: ").with(&mount.live_mode.state),
        );
        push_if(out, "  live_mode_reason: ", &mount.live_mode.reason);
    }
    let ghost front = text::texts(out@);
    let ghost head = printing::lines_if(
        mount.live_mode.enabled || mount.live_mode.state@ != "off"@,
        seq![mount.mount_id@ + "  live_mode: "@ + mount.live_mode.state@] + printing::line_if(
            "  live_mode_reason: "@,
            text::opt_text(mount.live_mode.reason),
        ),
    );
    assert(front =~= before + head);
    let mut loud = false;
    let mut i: usize = 0;
    assert(text::texts(out@) =~= front + status_entries_lines(mount.mount_id@, all.take(0)));
    while i < mount.entries.len()
        invariant
            i <= mount.entries.len(),
            all == mount.entries@,
            text::texts(out@) == front + status_entries_lines(
                mount.mount_id@,
                all.take(i as int),
            ),
            loud == (loud_entries(all.take(i as int)) > 0),
        decreases mount.entries.len() - i,
    {
        assert(all.take(i + 1).drop_last() == all.take(i as int));
        assert(all.take(i + 1).last() == all[i as int]);
        push_status_entry(out, &mount.mount_id, &mount.entries[i]);
        assert(text::texts(out@) =~= front + status_entries_lines(
            mount.mount_id@,
            all.take(i + 1),
        ));
        if !entry_is_quiet(&mount.entries[i]) {
            loud = true;
        }
        i += 1;
    }
    assert(all.take(i as int) == all);
    assert(text::texts(out@) =~= before + status_mount_lines(*mount));
    loud
}

/// The lines of the status.
pub fn status_report_lines(report: &StatusReport) -> (r: Vec<String>)
    ensures
        text::texts(r@) == (if report.mounts@.len() == 0 {
            seq!["no mounts"@]
        } else {
            status_mounts_lines(report.mounts@) + status_end(
                some_loud(report.mounts@),
                report.summary,
            )
        }),
{
    if report.mounts.len() == 0 {
        return first_line(Line::new("no mounts"));
    }
    let ghost all = report.mounts@;
    let mut out: Vec<String> = Vec::new();
    let mut loud = false;
    let mut i: usize = 0;
    assert(text::texts(out@) =~= status_mounts_lines(all.take(0)));
    while i < report.mounts.len()
        invariant
            i <= report.mounts.len(),
            all == report.mounts@,
            text::texts(out@) == status_mounts_lines(all.take(i as int)),
            loud == some_loud(all.take(i as int)),
        decreases report.mounts.len() - i,
    {
        assert(all.take(i + 1).drop_last() == all.take(i as int));
        assert(all.take(i + 1).last() == all[i as int]);
        if push_status_mount(&mut out, &report.mounts[i]) {
            loud = true;
        }
        i += 1;
    }
    assert(all.take(i as int) == all);
    let ghost front = text::texts(out@);
    let s = &report.summary;
    if !loud {
        let checking = if s.checking_freshness > 0 {
            Line::new(" (checking freshness for ").number(s.checking_freshness).with(
                " entr",
            ).with(plural_y(s.checking_freshness)).with(")")
        } else {
            Line::new("")
        };
        push_line(
            &mut out,
            Line::new("status clean: ").number(s.total).with(" tracked entr").with(
                plural_y(s.total),
            ).with(&checking.end()),
        );
    } else {
        push_line(
            &mut out,
            Line::new("summary: ").number(s.clean).with(" clean, ").number(s.stub).with(
                " stub, ",
            ).number(s.dirty).with(" dirty, ").number(s.conflicted).with(" conflicted, ").number(
                s.missing,
            ).with(" missing, ").number(s.error).with(" error"),
        );
        push_line(
            &mut out,
            Line::new("sync: ").number(s.remote_update_available).with(
                " remote updates, ",
            ).number(s.pending_local_changes).with(" pending local, ").number(
                s.review_needed,
            ).with(" review needed, ").number(s.sync_conflicted).with(" conflicted, ").number(
                s.checking_freshness,
            ).with(" checking"),
        );
    }
    assert(text::texts(out@) =~= front + status_end(loud, *s));
    out
}

/// A file that an export left out.
#[derive(Debug, PartialEq, Eq)]
pub struct SkippedFile {
    pub path: String,
    pub reason: String,
}

/// What an export wrote.
#[derive(Debug, PartialEq, Eq)]
pub struct OkfExportReport {
    pub output: String,
    pub source: String,
    pub concepts: usize,
    pub indexes: usize,
    pub skipped: Vec<SkippedFile>,
}

/// The lines of an export.
pub fn okf_export_lines(report: &OkfExportReport) -> (r: Vec<String>)
    ensures
        text::texts(r@) == seq![
            "exported OKF bundle "@ + report.output@,
            "  source: "@ + report.source@,
            "  concepts: "@ + text::decimal(report.concepts as nat),
            "  indexes: "@ + text::decimal(report.indexes as nat),
        ] + printing::lines_if(
            report.skipped@.len() > 0,
            seq!["  skipped:"@] + Seq::new(
                report.skipped@.len(),
                |i: int|
                    "    "@ + report.skipped@[i].path@ + " ("@ + report.skipped@[i].reason@ + ")"@,
            ),
        ),
{
    let mut out = first_line(Line::new("exported OKF bundle ").with(&report.output));
    push_line(&mut out, Line::new("  source: ").with(&report.source));
    push_line(&mut out, Line::new("  concepts: ").number(report.concepts));
    push_line(&mut out, Line::new("  indexes: ").number(report.indexes));
    let ghost head = text::texts(out@);
    if report.skipped.len() == 0 {
        assert(text::texts(out@) =~= head + Seq::<Seq<char>>::empty());
        return out;
    }
    push_words(&mut out, "  skipped:");
    let ghost front = text::texts(out@);
    let ghost whole = Seq::new(
        report.skipped@.len(),
        |i: int| "    "@ + report.skipped@[i].path@ + " ("@ + report.skipped@[i].reason@ + ")"@,
    );
    let mut i: usize = 0;
    assert(text::texts(out@) =~= front + whole.take(0));
    while i < report.skipped.len()
        invariant
            i <= report.skipped.len(),
            whole == Seq::new(
                report.skipped@.len(),
                |i: int|
                    "    "@ + report.skipped@[i].path@ + " ("@ + report.skipped@[i].reason@ + ")"@,
            ),
            text::texts(out@) == front + whole.take(i as int),
        decreases report.skipped.len() - i,
    {
        push_line(
            &mut out,
            Line::new("    ").with(&report.skipped[i].path).with(" (").with(
                &report.skipped[i].reason,
            ).with(")"),
        );
        assert(text::texts(out@) =~= front + whole.take(i + 1));
        i += 1;
    }
    assert(whole.take(i as int) =~= whole);
    assert(text::texts(out@) =~= head + (seq!["  skipped:"@] + whole));
    out
}

/// A template pack.
#[derive(Debug, PartialEq, Eq)]
pub struct TemplatePack {
    pub id: String,
    pub version: String,
    pub name: String,
    pub description: Option<String>,
    pub connectors: Vec<String>,
    pub outputs: Vec<String>,
}

/// The lines of a template pack.
pub open spec fn pack_lines(pack: TemplatePack) -> Seq<Seq<char>> {
    seq![pack.id@ + "  "@ + pack.version@ + "  "@ + pack.name@] + printing::line_if(
        "  "@,
        text::opt_text(pack.description),
    ) + printing::lines_if(
        pack.connectors@.len() > 0,
        seq!["  connectors: "@ + text::joined(text::texts(pack.connectors@), ", "@)],
    ) + printing::lines_if(
        pack.outputs@.len() > 0,
        seq!["  outputs: "@ + text::joined(text::texts(pack.outputs@), ", "@)],
    )
}

/// The lines of template packs.
pub open spec fn packs_lines(packs: Seq<TemplatePack>) -> Seq<Seq<char>>
    decreases packs.len(),
{
    if packs.len() == 0 {
        Seq::empty()
    } else {
        packs_lines(packs.drop_last()) + pack_lines(packs.last())
    }
}

fn push_list(out: &mut Vec<String>, front: &str, values: &Vec<String>)
    ensures
        text::texts(final(out)@) == text::texts(old(out)@) + printing::lines_if(
            values@.len() > 0,
            seq![front@ + text::joined(text::texts(values@), ", "@)],
        ),
{
    let ghost before = text::texts(out@);
    if values.len() > 0 {
        push_line(out, Line::new(front).with(&text::join(values, ", ")));
        assert(text::texts(out@) =~= before + seq![text::texts(out@).last()]);
    } else {
        assert(text::texts(out@) =~= before + Seq::<Seq<char>>::empty());
    }
}

/// The lines of the template packs.
pub fn template_list_lines(packs: &Vec<TemplatePack>) -> (r: Vec<String>)
    ensures
        text::texts(r@) == (if packs@.len() == 0 {
            seq!["no template packs available"@]
        } else {
            packs_lines(packs@)
        }),
{
    if packs.len() == 0 {
        return first_line(Line::new("no template packs available"));
    }
    let ghost all = packs@;
    let mut out: Vec<String> = Vec::new();
    let mut i: usize = 0;
    assert(text::texts(out@) =~= packs_lines(all.take(0)));
    while i < packs.len()
        invariant
            i <= packs.len(),
            all == packs@,
            text::texts(out@) == packs_lines(all.take(i as int)),
        decreases packs.len() - i,
    {
        let ghost before = text::texts(out@);
        assert(all.take(i + 1).drop_last() == all.take(i as int));
        assert(all.take(i + 1).last() == all[i as int]);
        let pack = &packs[i];
        push_line(
            &mut out,
            Line::new(&pack.id).with("  ").with(&pack.version).with("  ").with(&pack.name),
        );
        push_if(&mut out, "  ", &pack.description);
        push_list(&mut out, "  connectors: ", &pack.connectors);
        push_list(&mut out, "  outputs: ", &pack.outputs);
        assert(text::texts(out@) =~= before + pack_lines(*pack));
        i += 1;
    }
    assert(all.take(i as int) == all);
    out
}

/// The lines of a template pack that is valid.
pub fn template_validate_lines(pack: &TemplatePack, path: &str) -> (r: Vec<String>)
    ensures
        text::texts(r@) == seq![
            "template pack valid: "@ + pack.id@ + " "@ + pack.version@,
            "  path: "@ + path@,
        ] + printing::lines_if(
            pack.connectors@.len() > 0,
            seq!["  connectors: "@ + text::joined(text::texts(pack.connectors@), ", "@)],
        ),
{
    let mut out = first_line(
        Line::new("template pack valid: ").with(&pack.id).with(" ").with(&pack.version),
    );
    push_line(&mut out, Line::new("  path: ").with(path));
    assert(text::texts(out@) =~= seq![
        "template pack valid: "@ + pack.id@ + " "@ + pack.version@,
        "  path: "@ + path@,
    ]);
    push_list(&mut out, "  connectors: ", &pack.connectors);
    out
}

/// The lines of a new template workspace.
pub fn template_new_lines(pack: &TemplatePack, path: &str, files_written: usize) -> (r: Vec<String>)
    ensures
        text::texts(r@) == seq![
            "created template workspace "@ + path@ + " from "@ + pack.id@ + " "@ + pack.version@,
            "  files: "@ + text::decimal(files_written as nat),
        ],
{
    let mut out = first_line(
        Line::new("created template workspace ").with(path).with(" from ").with(&pack.id).with(
            " ",
        ).with(&pack.version),
    );
    push_line(&mut out, Line::new("  files: ").number(files_written));
    assert(text::texts(out@) =~= seq![
        "created template workspace "@ + path@ + " from "@ + pack.id@ + " "@ + pack.version@,
        "  files: "@ + text::decimal(files_written as nat),
    ]);
    out
}

/// The lines of a draft from a template.
pub fn template_apply_lines(
    pack: &TemplatePack,
    template: &str,
    path: &str,
    suggested_next: &Vec<String>,
) -> (r: Vec<String>)
    ensures
        text::texts(r@) == seq![
            "created draft "@ + path@ + " from "@ + pack.id@ + "/"@ + template@,
        ] + printing::each_line("  next: "@, text::texts(suggested_next@)),
{
    let mut out = first_line(
        Line::new("created draft ").with(path).with(" from ").with(&pack.id).with("/").with(
            template,
        ),
    );
    push_each(&mut out, "  next: ", suggested_next);
    out
}

/// One side of a file under inspection.
#[derive(Debug, PartialEq, Eq)]
pub struct InspectSide {
    pub issue: Option<Issue>,
    pub changed: bool,
    /// The number of steps in the plan of this side, if there is one.
    pub operations: Option<usize>,
}

/// A file under inspection.
#[derive(Debug, PartialEq, Eq)]
pub struct InspectReport {
    pub path: String,
    pub mount_id: String,
    pub entity_id: String,
    pub title: String,
    pub synced_tree_version: Option<String>,
    pub remote_tree_version: Option<String>,
    pub local_read_path: String,
    pub state: String,
    pub action: String,
    pub local: InspectSide,
    pub remote: InspectSide,
    pub issues: Vec<Issue>,
}

/// What one side of a file has to say.
pub open spec fn side_text(side: InspectSide) -> Seq<char> {
    match side.issue {
        Some(issue) => "needs review ("@ + issue.code@ + " - "@ + issue.message@ + ")"@,
        None => {
            let operations = match side.operations {
                Some(n) => n as nat,
                None => 0,
            };
            (if side.changed {
                "changed"@
            } else {
                "unchanged"@
            }) + " ("@ + text::decimal(operations) + " operation"@ + printing::plural_text(
                operations,
            ) + ")"@
        },
    }
}

/// What one side of a file has to say.
pub fn inspect_side_summary(side: &InspectSide) -> (r: String)
    ensures
        r@ == side_text(*side),
{
    if let Some(issue) = &side.issue {
        return Line::new("needs review (").with(&issue.code).with(" - ").with(
            &issue.message,
        ).with(")").end();
    }
    let operations: usize = match side.operations {
        Some(n) => n,
        None => 0,
    };
    Line::new(
        if side.changed {
            "changed"
        } else {
            "unchanged"
        },
    ).with(" (").number(operations).with(" operation").with(plural(operations)).with(")").end()
}

/// The lines of a file under inspection.
pub open spec fn inspect_lines(report: InspectReport) -> Seq<Seq<char>> {
    seq![
        "inspect "@ + report.path@,
        "  mount: "@ + report.mount_id@ + "  entity: "@ + report.entity_id@,
        "  title: "@ + report.title@,
    ] + printing::line_if("  Synced Tree version: "@, text::opt_text(report.synced_tree_version))
        + printing::line_if("  Remote Tree version: "@, text::opt_text(report.remote_tree_version))
        + printing::lines_if(
        report.local_read_path@ != report.path@,
        seq!["  local cache: "@ + report.local_read_path@],
    ) + seq![
        "  state: "@ + report.state@ + "  action: "@ + report.action@,
        "  local: "@ + side_text(report.local),
        "  remote: "@ + side_text(report.remote),
    ] + Seq::new(
        report.issues@.len(),
        |i: int| "  issue: "@ + report.issues@[i].code@ + " - "@ + report.issues@[i].message@,
    )
}

/// The lines of a file under inspection.
pub fn inspect_report_lines(report: &InspectReport) -> (r: Vec<String>)
    ensures
        text::texts(r@) == inspect_lines(*report),
{
    let mut out = first_line(Line::new("inspect ").with(&report.path));
    push_line(
        &mut out,
        Line::new("  mount: ").with(&report.mount_id).with("  entity: ").with(&report.entity_id),
    );
    push_line(&mut out, Line::new("  title: ").with(&report.title));
    push_if(&mut out, "  Synced Tree version: ", &report.synced_tree_version);
    push_if(&mut out, "  Remote Tree version: ", &report.remote_tree_version);
    if !text::same_text(&report.local_read_path, &report.path) {
        push_line(&mut out, Line::new("  local cache: ").with(&report.local_read_path));
    }
    push_line(
        &mut out,
        Line::new("  state: ").with(&report.state).with("  action: ").with(&report.action),
    );
    push_line(&mut out, Line::new("  local: ").with(&inspect_side_summary(&report.local)));
    push_line(&mut out, Line::new("  remote: ").with(&inspect_side_summary(&report.remote)));
    let ghost front = text::texts(out@);
    let ghost whole = Seq::new(
        report.issues@.len(),
        |i: int| "  issue: "@ + report.issues@[i].code@ + " - "@ + report.issues@[i].message@,
    );
    let mut i: usize = 0;
    assert(text::texts(out@) =~= front + whole.take(0));
    while i < report.issues.len()
        invariant
            i <= report.issues.len(),
            whole == Seq::new(
                report.issues@.len(),
                |i: int|
                    "  issue: "@ + report.issues@[i].code@ + " - "@ + report.issues@[i].message@,
            ),
            text::texts(out@) == front + whole.take(i as int),
        decreases report.issues.len() - i,
    {
        let issue = &report.issues[i];
        push_line(
            &mut out,
            Line::new("  issue: ").with(&issue.code).with(" - ").with(&issue.message),
        );
        assert(text::texts(out@) =~= front + whole.take(i + 1));
        i += 1;
    }
    assert(whole.take(i as int) =~= whole);
    assert(text::texts(out@) =~= inspect_lines(*report));
    out
}

/// The entity that a path stands for.
#[derive(Debug, PartialEq, Eq)]
pub struct InfoEntity {
    pub title: String,
    pub entity_id: String,
    pub path: String,
    pub hydration: String,
    pub remote_edited_at: Option<String>,
}

/// What lies below a path.
#[derive(Clone, Copy, Debug, PartialEq, Eq, Structural)]
pub struct InfoChildren {
    pub pages: usize,
    pub databases: usize,
    pub directories: usize,
    pub assets: usize,
    pub unknown: usize,
    pub subtree: usize,
}

/// What is known of a path.
#[derive(Debug, PartialEq, Eq)]
pub struct InfoReport {
    pub target: String,
    pub mount_id: String,
    pub connector: String,
    pub root: String,
    pub role: String,
    pub source: String,
    pub remote_root_id: Option<String>,
    pub entity: Option<InfoEntity>,
    pub schema_path: Option<String>,
    pub children: InfoChildren,
    pub pending_journals: usize,
    pub failed_journals: usize,
    pub read_only: bool,
    pub suggestions: Vec<String>,
}

/// The lines of the entity that a path stands for.
pub open spec fn info_entity_lines(entity: Option<InfoEntity>) -> Seq<Seq<char>> {
    match entity {
        None => Seq::empty(),
        Some(e) => seq![
            "Title: "@ + e.title@,
            "Remote ID: "@ + e.entity_id@,
            "Entity path: "@ + e.path@,
            "Hydration: "@ + e.hydration@,
        ] + printing::line_if("Synced Tree version: "@, text::opt_text(e.remote_edited_at)),
    }
}

/// The line of what lies below a path.
pub open spec fn children_line(c: InfoChildren) -> Seq<char> {
    "Children: "@ + text::decimal(c.pages as nat) + " page"@ + printing::plural_text(
        c.pages as nat,
    ) + ", "@ + text::decimal(c.databases as nat) + " database"@ + printing::plural_text(
        c.databases as nat,
    ) + ", "@ + text::decimal(c.directories as nat) + " director"@ + printing::plural_y_text(
        c.directories as nat,
    ) + ", "@ + text::decimal(c.assets as nat) + " asset"@ + printing::plural_text(c.assets as nat)
        + ", "@ + text::decimal(c.unknown as nat) + " unknown"@
}

/// The first lines of what is known of a path.
pub open spec fn info_head(report: InfoReport) -> Seq<Seq<char>> {
    seq![
        "Path: "@ + report.target@,
        "Mount: "@ + report.mount_id@ + " ("@ + report.connector@ + ")"@,
        "Root: "@ + report.root@,
        "Role: "@ + report.role@,
        "Source: "@ + report.source@,
    ] + printing::line_if("Remote root ID: "@, text::opt_text(report.remote_root_id))
}

/// The last lines of what is known of a path.
pub open spec fn info_end(report: InfoReport) -> Seq<Seq<char>> {
    seq![
        children_line(report.children),
        "Subtree entities: "@ + text::decimal(report.children.subtree as nat),
        "Journals: "@ + text::decimal(report.pending_journals as nat) + " pending, "@
            + text::decimal(report.failed_journals as nat) + " failed"@,
        "Write mode: "@ + (if report.read_only {
            "read-only"@
        } else {
            "read-write"@
        }),
    ] + printing::lines_if(
        report.suggestions@.len() > 0,
        seq!["Next: "@ + text::joined(text::texts(report.suggestions@), "; "@)],
    )
}

/// The lines of what is known of a path.
pub open spec fn info_lines(report: InfoReport) -> Seq<Seq<char>> {
    info_head(report) + info_entity_lines(report.entity) + printing::line_if(
        "Schema: "@,
        text::opt_text(report.schema_path),
    ) + info_end(report)
}

fn info_head_lines(report: &InfoReport) -> (r: Vec<String>)
    ensures
        text::texts(r@) == info_head(*report),
{
    let mut out = first_line(Line::new("Path: ").with(&report.target));
    push_line(
        &mut out,
        Line::new("Mount: ").with(&report.mount_id).with(" (").with(&report.connector).with(")"),
    );
    push_line(&mut out, Line::new("Root: ").with(&report.root));
    push_line(&mut out, Line::new("Role: ").with(&report.role));
    push_line(&mut out, Line::new("Source: ").with(&report.source));
    push_if(&mut out, "Remote root ID: ", &report.remote_root_id);
    assert(text::texts(out@) =~= info_head(*report));
    out
}

fn push_info_entity(out: &mut Vec<String>, entity: &Option<InfoEntity>)
    ensures
        text::texts(final(out)@) == text::texts(old(out)@) + info_entity_lines(*entity),
{
    let ghost before = text::texts(out@);
    if let Some(e) = entity {
        push_line(out, Line::new("Title: ").with(&e.title));
        push_line(out, Line::new("Remote ID: ").with(&e.entity_id));
        push_line(out, Line::new("Entity path: ").with(&e.path));
        push_line(out, Line::new("Hydration: ").with(&e.hydration));
        push_if(out, "Synced Tree version: ", &e.remote_edited_at);
    }
    assert(text::texts(out@) =~= before + info_entity_lines(*entity));
}

fn children_words(c: &InfoChildren) -> (r: Line)
    ensures
        r@ == children_line(*c),
{
    Line::new("Children: ").number(c.pages).with(" page").with(plural(c.pages)).with(", ").number(
        c.databases,
    ).with(" database").with(plural(c.databases)).with(", ").number(c.directories).with(
        " director",
    ).with(plural_y(c.directories)).with(", ").number(c.assets).with(" asset").with(
        plural(c.assets),
    ).with(", ").number(c.unknown).with(" unknown")
}

fn push_info_end(out: &mut Vec<String>, report: &InfoReport)
    ensures
        text::texts(final(out)@) == text::texts(old(out)@) + info_end(*report),
{
    let ghost before = text::texts(out@);
    push_line(out, children_words(&report.children));
    push_line(out, Line::new("Subtree entities: ").number(report.children.subtree));
    push_line(
        out,
        Line::new("Journals: ").number(report.pending_journals).with(" pending, ").number(
            report.failed_journals,
        ).with(" failed"),
    );
    push_line(
        out,
        Line::new("Write mode: ").with(
            if report.read_only {
                "read-only"
            } else {
                "read-write"
            },
        ),
    );
    if report.suggestions.len() > 0 {
        push_line(out, Line::new("Next: ").with(&text::join(&report.suggestions, "; ")));
    }
    assert(text::texts(out@) =~= before + info_end(*report));
}

/// The lines of what is known of a path.
pub fn info_report_lines(report: &InfoReport) -> (r: Vec<String>)
    ensures
        text::texts(r@) == info_lines(*report),
{
    let mut out = info_head_lines(report);
    push_info_entity(&mut out, &report.entity);
    push_if(&mut out, "Schema: ", &report.schema_path);
    push_info_end(&mut out, report);
    out
}

/// A text of a JSON object, or `<unknown>`.
pub open spec fn known_text(value: Json, key: Seq<char>) -> Seq<char> {
    printing::or_else(value.text_at(key), "<unknown>"@)
}

/// A truth value of a JSON object, or `unknown`.
pub open spec fn known_truth(value: Json, key: Seq<char>) -> Seq<char> {
    match value.bool_at(key) {
        Some(b) => printing::truth(b),
        None => "unknown"@,
    }
}

fn text_or_unknown<'a>(value: &'a Json, key: &str) -> (r: &'a str)
    ensures
        r@ == known_text(*value, key@),
{
    match value.get_text(key) {
        Some(t) => t,
        None => "<unknown>",
    }
}

fn truth_or_unknown(value: &Json, key: &str) -> (r: &'static str)
    ensures
        r@ == known_truth(*value, key@),
{
    match value.get_bool(key) {
        Some(b) => printing::truth_text(b),
        None => "unknown",
    }
}

/// The texts among JSON values.
pub open spec fn texts_among(values: Seq<Json>) -> Seq<Seq<char>>
    decreases values.len(),
{
    if values.len() == 0 {
        Seq::empty()
    } else {
        match values.last() {
            Json::Text(t) => texts_among(values.drop_last()).push(t@),
            _ => texts_among(values.drop_last()),
        }
    }
}

fn texts_of(values: &Vec<Json>) -> (r: Vec<String>)
    ensures
        text::texts(r@) == texts_among(values@),
{
    let mut out: Vec<String> = Vec::new();
    let mut i: usize = 0;
    assert(text::texts(out@) =~= texts_among(values@.take(0)));
    while i < values.len()
        invariant
            i <= values.len(),
            text::texts(out@) == texts_among(values@.take(i as int)),
        decreases values.len() - i,
    {
        assert(values@.take(i + 1).drop_last() == values@.take(i as int));
        assert(values@.take(i + 1).last() == values@[i as int]);
        if let Json::Text(t) = &values[i] {
            text::push_text(&mut out, t);
        }
        i += 1;
    }
    assert(values@.take(i as int) == values@);
    out
}

/// The mounts of a FUSE root, with commas between.
pub open spec fn root_mounts(root: Json) -> Seq<char> {
    match root.items_at("mount_ids"@) {
        Some(ids) => {
            let joined = text::joined(texts_among(ids), ","@);
            if joined.len() > 0 {
                joined
            } else {
                "<unknown>"@
            }
        },
        None => "<unknown>"@,
    }
}

fn root_mounts_text(root: &Json) -> (r: String)
    ensures
        r@ == root_mounts(*root),
{
    match root.get_items("mount_ids") {
        Some(ids) => {
            let joined = text::join(&texts_of(ids), ",");
            if joined.as_str().is_empty() {
                "<unknown>".to_string()
            } else {
                joined
            }
        },
        None => "<unknown>".to_string(),
    }
}

/// The line of a FUSE root.
pub open spec fn fuse_root_line(root: Json) -> Seq<char> {
    "linux-fuse\t"@ + root_mounts(root) + "\t"@ + known_text(root, "mountpoint"@)
        + "\tregistered="@ + known_truth(root, "registered"@) + "\tactive="@ + known_truth(
        root,
        "active"@,
    )
}

/// The line of a FUSE unit that has no root any more.
pub open spec fn stale_unit_line(unit: Json) -> Seq<char> {
    "stale-linux-fuse\t"@ + known_text(unit, "service"@) + "\t"@ + known_text(unit, "mountpoint"@)
        + "\t"@ + known_text(unit, "unit_path"@) + "\tlegacy="@ + known_truth(unit, "legacy"@)
}

/// The line of a sync root.
pub open spec fn sync_root_line(root: Json) -> Seq<char> {
    known_text(root, "mount_id"@) + "\t"@ + known_text(root, "display_name"@) + "\t"@ + known_text(
        root,
        "path"@,
    )
}

/// The line of a domain.
pub open spec fn domain_line(domain: Json) -> Seq<char> {
    known_text(domain, "identifier"@) + "\t"@ + known_text(domain, "displayName"@)
}

/// The kinds of lines in a list of providers.
#[derive(Clone, Copy, Debug, PartialEq, Eq, Structural)]
pub enum Listed {
    FuseRoot,
    StaleUnit,
    SyncRoot,
    Domain,
}

/// The line of an item in a list of providers.
pub open spec fn listed_line(kind: Listed, item: Json) -> Seq<char> {
    match kind {
        Listed::FuseRoot => fuse_root_line(item),
        Listed::StaleUnit => stale_unit_line(item),
        Listed::SyncRoot => sync_root_line(item),
        Listed::Domain => domain_line(item),
    }
}

/// The lines of items in a list of providers.
pub open spec fn listed_lines(kind: Listed, items: Seq<Json>) -> Seq<Seq<char>> {
    Seq::new(items.len(), |i: int| listed_line(kind, items[i]))
}

/// Whether roots are those of FUSE.
pub open spec fn are_fuse_roots(roots: Seq<Json>) -> bool {
    exists|i: int|
        0 <= i < roots.len() && ((#[trigger] roots[i]).at("mount_ids"@) is Some || roots[i].at(
            "mountpoint"@,
        ) is Some)
}

/// The lines of a list of providers.
pub open spec fn provider_list(report: Json) -> Seq<Seq<char>> {
    let nothing = seq!["no file provider domains"@];
    match report.items_at("roots"@) {
        Some(roots) => if are_fuse_roots(roots) {
            listed_lines(Listed::FuseRoot, roots) + (match report.items_at("stale_units"@) {
                Some(units) => listed_lines(Listed::StaleUnit, units),
                None => Seq::empty(),
            })
        } else if roots.len() == 0 {
            nothing
        } else {
            listed_lines(Listed::SyncRoot, roots)
        },
        None => match report.items_at("domains"@) {
            Some(domains) => if domains.len() == 0 {
                nothing
            } else {
                listed_lines(Listed::Domain, domains)
            },
            None => nothing,
        },
    }
}

fn push_listed(out: &mut Vec<String>, kind: Listed, items: &Vec<Json>)
    ensures
        text::texts(final(out)@) == text::texts(old(out)@) + listed_lines(kind, items@),
{
    let ghost before = text::texts(out@);
    let ghost whole = listed_lines(kind, items@);
    let mut i: usize = 0;
    assert(text::texts(out@) =~= before + whole.take(0));
    while i < items.len()
        invariant
            i <= items.len(),
            whole == listed_lines(kind, items@),
            text::texts(out@) == before + whole.take(i as int),
        decreases items.len() - i,
    {
        let item = &items[i];
        match kind {
            Listed::FuseRoot => {
                push_line(
                    out,
                    Line::new("linux-fuse\t").with(&root_mounts_text(item)).with("\t").with(
                        text_or_unknown(item, "mountpoint"),
                    ).with("\tregistered=").with(truth_or_unknown(item, "registered")).with(
                        "\tactive=",
                    ).with(truth_or_unknown(item, "active")),
                );
            },
            Listed::StaleUnit => {
                push_line(
                    out,
                    Line::new("stale-linux-fuse\t").with(text_or_unknown(item, "service")).with(
                        "\t",
                    ).with(text_or_unknown(item, "mountpoint")).with("\t").with(
                        text_or_unknown(item, "unit_path"),
                    ).with("\tlegacy=").with(truth_or_unknown(item, "legacy")),
                );
            },
            Listed::SyncRoot => {
                push_line(
                    out,
                    Line::new(text_or_unknown(item, "mount_id")).with("\t").with(
                        text_or_unknown(item, "display_name"),
                    ).with("\t").with(text_or_unknown(item, "path")),
                );
            },
            Listed::Domain => {
                push_line(
                    out,
                    Line::new(text_or_unknown(item, "identifier")).with("\t").with(
                        text_or_unknown(item, "displayName"),
                    ),
                );
            },
        }
        assert(whole[i as int] == listed_line(kind, *item));
        assert(text::texts(out@) =~= before + whole.take(i + 1));
        i += 1;
    }
    assert(whole.take(i as int) =~= whole);
}

fn fuse_roots(roots: &Vec<Json>) -> (r: bool)
    ensures
        r == are_fuse_roots(roots@),
{
    let mut i: usize = 0;
    while i < roots.len()
        invariant
            i <= roots.len(),
            forall|k: int|
                0 <= k < i ==> (#[trigger] roots@[k]).at("mount_ids"@) is None && roots@[k].at(
                    "mountpoint"@,
                ) is None,
        decreases roots.len() - i,
    {
        if roots[i].get("mount_ids").is_some() || roots[i].get("mountpoint").is_some() {
            assert(roots@[i as int].at("mount_ids"@) is Some || roots@[i as int].at(
                "mountpoint"@,
            ) is Some);
            return true;
        }
        i += 1;
    }
    false
}

/// The lines of a list of providers.
pub fn file_provider_list_lines(report: &FileProviderCommandReport) -> (r: Vec<String>)
    ensures
        text::texts(r@) == provider_list(report.helper_report),
{
    let told = &report.helper_report;
    let mut out: Vec<String> = Vec::new();
    assert(text::texts(out@) =~= Seq::<Seq<char>>::empty());
    if let Some(roots) = told.get_items("roots") {
        if fuse_roots(roots) {
            push_listed(&mut out, Listed::FuseRoot, roots);
            let ghost front = text::texts(out@);
            assert(front =~= listed_lines(Listed::FuseRoot, roots@));
            if let Some(units) = told.get_items("stale_units") {
                push_listed(&mut out, Listed::StaleUnit, units);
            }
            assert(text::texts(out@) =~= provider_list(*told));
            return out;
        }
        if roots.len() == 0 {
            return first_line(Line::new("no file provider domains"));
        }
        push_listed(&mut out, Listed::SyncRoot, roots);
        assert(text::texts(out@) =~= provider_list(*told));
        return out;
    }
    match told.get_items("domains") {
        Some(domains) => {
            if domains.len() == 0 {
                return first_line(Line::new("no file provider domains"));
            }
            push_listed(&mut out, Listed::Domain, domains);
            assert(text::texts(out@) =~= provider_list(*told));
            out
        },
        None => first_line(Line::new("no file provider domains")),
    }
}

/// The lines of a provider command: the list where one was asked for, else what
/// the helper says, else that it is done.
pub fn file_provider_report_lines(report: &FileProviderCommandReport) -> (r: Vec<String>)
    ensures
        text::texts(r@) == (if report.action@ == "list"@ {
            provider_list(report.helper_report)
        } else {
            match report.helper_report.text_at("message"@) {
                Some(message) => if message.len() > 0 {
                    seq![message]
                } else {
                    seq!["file provider "@ + report.action@ + " complete"@]
                },
                None => seq!["file provider "@ + report.action@ + " complete"@],
            }
        }),
{
    if text::same_text(&report.action, "list") {
        return file_provider_list_lines(report);
    }
    if let Some(message) = report.helper_report.get_text("message") {
        if !message.is_empty() {
            return first_line(Line::new(message));
        }
    }
    first_line(Line::new("file provider ").with(&report.action).with(" complete"))
}

} // verus!
