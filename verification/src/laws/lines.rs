//! What the reports that are printed name.
use crate::connect::{ConnectionSummary, ConnectorProfileSummary};
use crate::daemon::{DaemonControlReport, DaemonStatusReport};
use crate::diff::{PlanSummaryOutput, PushPlanOutput, ValidationIssueOutput};
use crate::doctor;
use crate::doctor::{DoctorConnection, DoctorFinding, DoctorMount, DoctorReport};
use crate::history::JournalEntryOutput;
use crate::laws::words;
use crate::printing;
use crate::pull::PullReport;
use crate::push::PushReport;
use crate::quoting;
use crate::quoting::SafeSet;
use crate::search::{SearchReport, SearchResult};
use crate::text;
use vstd::prelude::*;

verus! {

/// Whether a line holds words.
pub open spec fn tells(line: Seq<char>, words: Seq<char>) -> bool {
    exists|i: int| #[trigger] words::stands_at(line, words, i)
}

/// Whether lines follow each other at a place among others.
pub open spec fn shows_at(lines: Seq<Seq<char>>, some: Seq<Seq<char>>, i: int) -> bool {
    0 <= i && i + some.len() <= lines.len() && lines.subrange(i, i + some.len()) == some
}

/// Whether lines follow each other among others.
pub open spec fn shows(lines: Seq<Seq<char>>, some: Seq<Seq<char>>) -> bool {
    exists|i: int| #[trigger] shows_at(lines, some, i)
}

proof fn lemma_tells(line: Seq<char>, before: Seq<char>, words: Seq<char>)
    requires
        line =~= before + words,
    ensures
        tells(line, words),
{
    assert(words::stands_at(line, words, before.len() as int));
}

proof fn lemma_shows(lines: Seq<Seq<char>>, some: Seq<Seq<char>>, i: int)
    requires
        0 <= i && i + some.len() <= lines.len(),
        lines.subrange(i, i + some.len()) =~= some,
    ensures
        shows(lines, some),
{
    assert(shows_at(lines, some, i));
}

proof fn lemma_shows_more(lines: Seq<Seq<char>>, more: Seq<Seq<char>>, some: Seq<Seq<char>>)
    requires
        shows(lines, some),
    ensures
        shows(lines + more, some),
{
    let i = choose|i: int| #[trigger] shows_at(lines, some, i);
    assert((lines + more).subrange(i, i + some.len()) =~= lines.subrange(i, i + some.len()));
    assert(shows_at(lines + more, some, i));
}

proof fn lemma_goes_on_with(a: Seq<char>, b: Seq<char>, words: Seq<char>)
    requires
        tells(a, words),
    ensures
        tells(a + b, words),
{
    let i = choose|i: int| #[trigger] words::stands_at(a, words, i);
    assert forall|k: int| 0 <= k < words.len() implies (a + b)[i + k] == #[trigger] words[k] by {
        assert(a[i + k] == words[k]);
    }
    assert(words::stands_at(a + b, words, i));
}

proof fn lemma_two(a: Seq<char>, x: Seq<char>, y: Seq<char>)
    ensures
        a + x + y == a + (x + y),
{
    assert(a + x + y =~= a + (x + y));
}

proof fn lemma_four(a: Seq<char>, x: Seq<char>, y: Seq<char>, z: Seq<char>, u: Seq<char>)
    ensures
        a + x + y + z + u == a + (x + y + z + u),
{
    assert(a + x + y + z + u =~= a + (x + y + z + u));
}

proof fn lemma_told_within(line: Seq<char>, before: Seq<char>, words: Seq<char>)
    requires
        tells(line, before + words),
    ensures
        tells(line, words),
{
    let all = before + words;
    let i = choose|i: int| #[trigger] words::stands_at(line, all, i);
    assert forall|k: int| 0 <= k < words.len() implies line[i + before.len() + k]
        == #[trigger] words[k] by {
        assert(all[before.len() + k] == words[k]);
    }
    assert(words::stands_at(line, words, i + before.len()));
}

proof fn lemma_eight_told(
    p0: Seq<char>,
    p1: Seq<char>,
    p2: Seq<char>,
    p3: Seq<char>,
    p4: Seq<char>,
    p5: Seq<char>,
    p6: Seq<char>,
    p7: Seq<char>,
)
    ensures
        ({
            let line = p0 + p1 + p2 + p3 + p4 + p5 + p6 + p7;
            &&& tells(line, p0)
            &&& tells(line, p1)
            &&& tells(line, p2)
            &&& tells(line, p3)
            &&& tells(line, p4)
            &&& tells(line, p5)
            &&& tells(line, p6)
            &&& tells(line, p7)
        }),
{
    let a1 = p0 + p1;
    let a2 = a1 + p2;
    let a3 = a2 + p3;
    let a4 = a3 + p4;
    let a5 = a4 + p5;
    let a6 = a5 + p6;
    let a7 = a6 + p7;
    lemma_tells(p0, Seq::empty(), p0);
    lemma_tells(a1, p0, p1);
    lemma_goes_on_with(p0, p1, p0);
    lemma_tells(a2, a1, p2);
    lemma_goes_on_with(a1, p2, p0);
    lemma_goes_on_with(a1, p2, p1);
    lemma_tells(a3, a2, p3);
    lemma_goes_on_with(a2, p3, p0);
    lemma_goes_on_with(a2, p3, p1);
    lemma_goes_on_with(a2, p3, p2);
    lemma_tells(a4, a3, p4);
    lemma_goes_on_with(a3, p4, p0);
    lemma_goes_on_with(a3, p4, p1);
    lemma_goes_on_with(a3, p4, p2);
    lemma_goes_on_with(a3, p4, p3);
    lemma_tells(a5, a4, p5);
    lemma_goes_on_with(a4, p5, p0);
    lemma_goes_on_with(a4, p5, p1);
    lemma_goes_on_with(a4, p5, p2);
    lemma_goes_on_with(a4, p5, p3);
    lemma_goes_on_with(a4, p5, p4);
    lemma_tells(a6, a5, p6);
    lemma_goes_on_with(a5, p6, p0);
    lemma_goes_on_with(a5, p6, p1);
    lemma_goes_on_with(a5, p6, p2);
    lemma_goes_on_with(a5, p6, p3);
    lemma_goes_on_with(a5, p6, p4);
    lemma_goes_on_with(a5, p6, p5);
    lemma_tells(a7, a6, p7);
    lemma_goes_on_with(a6, p7, p0);
    lemma_goes_on_with(a6, p7, p1);
    lemma_goes_on_with(a6, p7, p2);
    lemma_goes_on_with(a6, p7, p3);
    lemma_goes_on_with(a6, p7, p4);
    lemma_goes_on_with(a6, p7, p5);
    lemma_goes_on_with(a6, p7, p6);
}

proof fn lemma_six_told(
    p0: Seq<char>,
    p1: Seq<char>,
    p2: Seq<char>,
    p3: Seq<char>,
    p4: Seq<char>,
    p5: Seq<char>,
)
    ensures
        ({
            let line = p0 + p1 + p2 + p3 + p4 + p5;
            &&& tells(line, p0)
            &&& tells(line, p1)
            &&& tells(line, p2)
            &&& tells(line, p3)
            &&& tells(line, p4)
            &&& tells(line, p5)
        }),
{
    let a1 = p0 + p1;
    let a2 = a1 + p2;
    let a3 = a2 + p3;
    let a4 = a3 + p4;
    let a5 = a4 + p5;
    lemma_tells(p0, Seq::empty(), p0);
    lemma_tells(a1, p0, p1);
    lemma_goes_on_with(p0, p1, p0);
    lemma_tells(a2, a1, p2);
    lemma_goes_on_with(a1, p2, p0);
    lemma_goes_on_with(a1, p2, p1);
    lemma_tells(a3, a2, p3);
    lemma_goes_on_with(a2, p3, p0);
    lemma_goes_on_with(a2, p3, p1);
    lemma_goes_on_with(a2, p3, p2);
    lemma_tells(a4, a3, p4);
    lemma_goes_on_with(a3, p4, p0);
    lemma_goes_on_with(a3, p4, p1);
    lemma_goes_on_with(a3, p4, p2);
    lemma_goes_on_with(a3, p4, p3);
    lemma_tells(a5, a4, p5);
    lemma_goes_on_with(a4, p5, p0);
    lemma_goes_on_with(a4, p5, p1);
    lemma_goes_on_with(a4, p5, p2);
    lemma_goes_on_with(a4, p5, p3);
    lemma_goes_on_with(a4, p5, p4);
}

/// The line of a plan tells each of its counts by its name.
pub proof fn law_plan_lines_tell_every_count(s: PlanSummaryOutput)
    ensures
        tells(
            printing::plan_line(s),
            text::decimal(s.blocks_updated as nat) + " block"@ + (if s.blocks_updated == 1 {
            ""@
        } else {
            "s"@
        }) + " updated, "@,
        ),
        tells(
            printing::plan_line(s),
            text::decimal(s.blocks_replaced as nat) + " replaced, "@,
        ),
        tells(
            printing::plan_line(s),
            text::decimal(s.media_updated as nat) + " media updated, "@,
        ),
        tells(
            printing::plan_line(s),
            text::decimal(s.blocks_created as nat) + " block"@ + (if s.blocks_created == 1 {
            ""@
        } else {
            "s"@
        }) + " created, "@,
        ),
        tells(
            printing::plan_line(s),
            text::decimal(s.entities_created as nat) + " entit"@ + (if s.entities_created == 1 {
            "y"@
        } else {
            "ies"@
        }) + " created, "@,
        ),
        tells(
            printing::plan_line(s),
            text::decimal(s.blocks_moved as nat) + " moved, "@,
        ),
        tells(
            printing::plan_line(s),
            text::decimal(s.blocks_archived as nat) + " block"@ + (if s.blocks_archived == 1 {
            ""@
        } else {
            "s"@
        }) + " archived, "@,
        ),
        tells(
            printing::plan_line(s),
            text::decimal(s.entities_archived as nat) + " entit"@ + (if s.entities_archived == 1 {
            "y"@
        } else {
            "ies"@
        }) + " archived"@,
        ),
{
    let p0 = text::decimal(s.blocks_updated as nat) + " block"@ + (if s.blocks_updated == 1 {
            ""@
        } else {
            "s"@
        }) + " updated, "@;
    let p1 = text::decimal(s.blocks_replaced as nat) + " replaced, "@;
    let p2 = text::decimal(s.media_updated as nat) + " media updated, "@;
    let p3 = text::decimal(s.blocks_created as nat) + " block"@ + (if s.blocks_created == 1 {
            ""@
        } else {
            "s"@
        }) + " created, "@;
    let p4 = text::decimal(s.entities_created as nat) + " entit"@ + (if s.entities_created == 1 {
            "y"@
        } else {
            "ies"@
        }) + " created, "@;
    let p5 = text::decimal(s.blocks_moved as nat) + " moved, "@;
    let p6 = text::decimal(s.blocks_archived as nat) + " block"@ + (if s.blocks_archived == 1 {
            ""@
        } else {
            "s"@
        }) + " archived, "@;
    let p7 = text::decimal(s.entities_archived as nat) + " entit"@ + (if s.entities_archived == 1 {
            "y"@
        } else {
            "ies"@
        }) + " archived"@;
    lemma_two(p0, text::decimal(s.blocks_replaced as nat), " replaced, "@);
    lemma_two(p0 + p1, text::decimal(s.media_updated as nat), " media updated, "@);
    lemma_four(p0 + p1 + p2, text::decimal(s.blocks_created as nat), " block"@, (if s.blocks_created == 1 {
            ""@
        } else {
            "s"@
        }), " created, "@);
    lemma_four(p0 + p1 + p2 + p3, text::decimal(s.entities_created as nat), " entit"@, (if s.entities_created == 1 {
            "y"@
        } else {
            "ies"@
        }), " created, "@);
    lemma_two(p0 + p1 + p2 + p3 + p4, text::decimal(s.blocks_moved as nat), " moved, "@);
    lemma_four(p0 + p1 + p2 + p3 + p4 + p5, text::decimal(s.blocks_archived as nat), " block"@, (if s.blocks_archived == 1 {
            ""@
        } else {
            "s"@
        }), " archived, "@);
    lemma_four(p0 + p1 + p2 + p3 + p4 + p5 + p6, text::decimal(s.entities_archived as nat), " entit"@, (if s.entities_archived == 1 {
            "y"@
        } else {
            "ies"@
        }), " archived"@);
    lemma_eight_told(p0, p1, p2, p3, p4, p5, p6, p7);
}

/// The summary of a push in the journal tells each of its counts by its name.
pub proof fn law_journal_lines_tell_every_count(s: PlanSummaryOutput)
    ensures
        tells(
            printing::journal_summary(s),
            text::decimal(s.blocks_updated as nat) + " updated, "@,
        ),
        tells(
            printing::journal_summary(s),
            text::decimal(s.blocks_replaced as nat) + " replaced, "@,
        ),
        tells(
            printing::journal_summary(s),
            text::decimal(s.media_updated as nat) + " media updated, "@,
        ),
        tells(
            printing::journal_summary(s),
            text::decimal(s.blocks_created as nat) + " created, "@,
        ),
        tells(
            printing::journal_summary(s),
            text::decimal(s.blocks_moved as nat) + " moved, "@,
        ),
        tells(
            printing::journal_summary(s),
            text::decimal(s.blocks_archived as nat) + " archived"@,
        ),
{
    let p0 = "  summary: "@ + text::decimal(s.blocks_updated as nat) + " updated, "@;
    let p1 = text::decimal(s.blocks_replaced as nat) + " replaced, "@;
    let p2 = text::decimal(s.media_updated as nat) + " media updated, "@;
    let p3 = text::decimal(s.blocks_created as nat) + " created, "@;
    let p4 = text::decimal(s.blocks_moved as nat) + " moved, "@;
    let p5 = text::decimal(s.blocks_archived as nat) + " archived"@;
    lemma_two(p0, text::decimal(s.blocks_replaced as nat), " replaced, "@);
    lemma_two(p0 + p1, text::decimal(s.media_updated as nat), " media updated, "@);
    lemma_two(p0 + p1 + p2, text::decimal(s.blocks_created as nat), " created, "@);
    lemma_two(p0 + p1 + p2 + p3, text::decimal(s.blocks_moved as nat), " moved, "@);
    lemma_two(p0 + p1 + p2 + p3 + p4, text::decimal(s.blocks_archived as nat), " archived"@);
    lemma_six_told(p0, p1, p2, p3, p4, p5);
    lemma_two("  summary: "@, text::decimal(s.blocks_updated as nat), " updated, "@);
    lemma_told_within(
        printing::journal_summary(s),
        "  summary: "@,
        text::decimal(s.blocks_updated as nat) + " updated, "@,
    );
}

/// An entry of the log names its push, its state, its mount, its entities and what failed, with the
/// counts and the number of its operations.
pub proof fn law_log_entries_name_their_push(entry: JournalEntryOutput)
    ensures
        ({
            let lines = printing::entry_lines(entry);
            let n = lines.len() as int;
            &&& lines[0] == "push "@ + entry.push_id@
            &&& lines[1] == "  status: "@ + entry.status@
            &&& lines[2] == "  mount: "@ + entry.mount_id@
            &&& lines[3] == "  entities: "@ + text::joined(text::texts(entry.remote_ids@), ", "@)
            &&& entry.failure matches Some(why) ==> n == 7 && lines[4] == "  failure: "@ + why@
            &&& entry.failure is None ==> n == 6
            &&& lines[n - 2] == printing::journal_summary(entry.plan_summary)
            &&& lines[n - 1] == "  operations: "@ + text::decimal(entry.operation_count as nat)
        }),
{
}

/// The log shows each of its entries.
pub proof fn law_logs_show_every_entry(entries: Seq<JournalEntryOutput>, i: int)
    requires
        0 <= i < entries.len(),
    ensures
        shows(printing::entries_lines(entries), printing::entry_lines(entries[i])),
    decreases entries.len(),
{
    let front = entries.drop_last();
    let before = printing::entries_lines(front);
    let gap = printing::lines_if(entries.len() > 1, seq![""@]);
    let own = printing::entry_lines(entries.last());
    if i < entries.len() - 1 {
        law_logs_show_every_entry(front, i);
        lemma_shows_more(before, gap, printing::entry_lines(entries[i]));
        lemma_shows_more(before + gap, own, printing::entry_lines(entries[i]));
    } else {
        lemma_shows(before + gap + own, own, (before + gap).len() as int);
    }
}

/// An issue is told with its file, its line where it has one, its message and its code.
pub proof fn law_issues_are_told_with_their_place(issue: ValidationIssueOutput)
    ensures
        ({
            let line = printing::issue_line(issue);
            let end = issue.message@ + " ("@ + issue.code@ + ")"@;
            &&& issue.line is None ==> line == issue.file@ + ": "@ + end
            &&& issue.line matches Some(n) ==> line == issue.file@ + ":"@ + text::decimal(n as nat)
                + ": "@ + end
        }),
{
    let line = printing::issue_line(issue);
    let end = issue.message@ + " ("@ + issue.code@ + ")"@;
    match issue.line {
        Some(n) => {
            assert(line =~= issue.file@ + ":"@ + text::decimal(n as nat) + ": "@ + end);
        },
        None => {
            assert(line =~= issue.file@ + ": "@ + end);
        },
    }
}

/// A preview shows every issue; only where there is none it shows the plan.
pub proof fn law_previews_show_issues_before_the_plan(
    validation: Seq<ValidationIssueOutput>,
    plan: Option<PushPlanOutput>,
)
    ensures
        ({
            let lines = printing::preview_lines(validation, plan);
            &&& validation.len() > 0 ==> lines.len() == validation.len() && forall|i: int|
                0 <= i < lines.len() ==> #[trigger] lines[i] == printing::issue_line(validation[i])
            &&& validation.len() == 0 ==> lines.len() == 1
            &&& validation.len() == 0 && plan is Some ==> lines[0] == printing::plan_line(
                plan->0.summary,
            )
            &&& validation.len() == 0 && plan is None ==> lines[0] == "no plan"@
        }),
{
}

/// A push that was refused or failed is told by the reason that it gives, and with the way out that
/// it names.
pub proof fn law_failed_pushes_are_told_by_their_reason(report: PushReport, why: Seq<char>)
    requires
        text::opt_text(report.message) == Some(why),
        report.action@ == "unsupported_operations"@ || report.action@ == "apply_failed"@,
    ensures
        printing::push_lines(report)[0] == why,
        report.suggested_fix matches Some(fix) ==> printing::push_lines(report).len() == 2
            && printing::push_lines(report)[1] == "  suggested_fix: "@ + fix@,
        report.suggested_fix is None ==> printing::push_lines(report).len() == 1,
{
    lemma_actions_differ();
}

/// A push that went through is told with its number and the way that it took; one that has nothing
/// to do, that waits for a word or that is not let through is told as that.
pub proof fn law_pushes_are_told_by_their_action(report: PushReport)
    ensures
        ({
            let lines = printing::push_lines(report);
            let action = report.action@;
            &&& action == "noop"@ ==> lines == seq!["nothing to push"@]
            &&& action == "reconciled"@ && report.push_id is Some ==> lines == seq![
                "push "@ + report.push_id->0@ + " reconciled (via "@ + report.via@ + ")"@,
            ]
            &&& action == "fix_validation"@ ==> lines == printing::preview_lines(
                report.validation@,
                report.plan,
            )
            &&& action == "confirm_plan"@ ==> lines == seq![
                "push requires confirmation; rerun with -y or --yes"@,
            ]
            &&& action == "confirm_dangerous_plan"@ ==> lines == seq![
                "dangerous push requires --confirm"@,
            ]
            &&& action == "read_only_blocked"@ ==> lines == seq!["push blocked: mount is read-only"@]
        }),
{
    lemma_actions_differ();
}

proof fn lemma_actions_differ()
    ensures
        "noop"@.len() == 4,
        "reconciled"@.len() == 10,
        "fix_validation"@.len() == 14,
        "confirm_plan"@.len() == 12 && "confirm_plan"@[0] == 'c',
        "confirm_dangerous_plan"@.len() == 22 && "confirm_dangerous_plan"@[0] == 'c',
        "read_only_blocked"@.len() == 17,
        "apply_not_implemented"@.len() == 21,
        "unsupported_operations"@.len() == 22 && "unsupported_operations"@[0] == 'u',
        "apply_failed"@.len() == 12 && "apply_failed"@[0] == 'a',
{
    reveal_strlit("noop");
    reveal_strlit("reconciled");
    reveal_strlit("fix_validation");
    reveal_strlit("confirm_plan");
    reveal_strlit("confirm_dangerous_plan");
    reveal_strlit("read_only_blocked");
    reveal_strlit("apply_not_implemented");
    reveal_strlit("unsupported_operations");
    reveal_strlit("apply_failed");
}

/// Each push is told, below its path where there are several.
pub proof fn law_every_push_is_told(reports: Seq<PushReport>, named: bool, i: int)
    requires
        0 <= i < reports.len(),
    ensures
        shows(printing::reports_lines(reports, named), printing::push_lines(reports[i])),
        named ==> shows(
            printing::reports_lines(reports, named),
            seq!["pushing "@ + reports[i].path@] + printing::push_lines(reports[i]),
        ),
    decreases reports.len(),
{
    let front = reports.drop_last();
    let last = reports.last();
    let before = printing::reports_lines(front, named);
    let head = printing::lines_if(named, seq!["pushing "@ + last.path@]);
    let own = printing::push_lines(last);
    let all = printing::reports_lines(reports, named);
    assert(all == before + head + own);
    if i < reports.len() - 1 {
        law_every_push_is_told(front, named, i);
        let mine = printing::push_lines(reports[i]);
        let whole = seq!["pushing "@ + reports[i].path@] + mine;
        lemma_shows_more(before, head, mine);
        lemma_shows_more(before + head, own, mine);
        if named {
            lemma_shows_more(before, head, whole);
            lemma_shows_more(before + head, own, whole);
        }
    } else {
        lemma_shows(all, own, (before + head).len() as int);
        if named {
            lemma_shows(all, head + own, before.len() as int);
        }
    }
}

/// A connection is told with its profile, its connector, its state and its account: by the label
/// where it has one, else by the workspace.
pub proof fn law_connections_are_told_by_their_account(c: ConnectionSummary)
    requires
        c.profile_id is Some,
    ensures
        ({
            let head = c.connection_id@ + "  "@ + c.profile_id->0@ + "  "@ + c.connector@ + "  "@
                + c.status@ + "  "@;
            &&& c.account_label matches Some(label) ==> printing::connection_line(c) == head + label@
            &&& c.account_label is None && c.workspace_name is Some ==> printing::connection_line(c)
                == head + c.workspace_name->0@
            &&& c.account_label is None && c.workspace_name is None ==> printing::connection_line(c)
                == head + "-"@
        }),
{
}

/// A profile is told with its connector, the way that it signs in, its state and its version.
pub proof fn law_profiles_are_told_with_their_state(p: ConnectorProfileSummary)
    ensures
        printing::profile_line(p) == text::joined(
            seq![p.profile_id@, p.connector@, p.auth_kind@, p.status@, p.connector_version@],
            "  "@,
        ),
{
    reveal_with_fuel(text::joined, 6);
    let all = seq![p.profile_id@, p.connector@, p.auth_kind@, p.status@, p.connector_version@];
    assert(all.drop_last() =~= seq![p.profile_id@, p.connector@, p.auth_kind@, p.status@]);
    assert(all.drop_last().drop_last() =~= seq![p.profile_id@, p.connector@, p.auth_kind@]);
    assert(all.drop_last().drop_last().drop_last() =~= seq![p.profile_id@, p.connector@]);
    assert(all.drop_last().drop_last().drop_last().drop_last() =~= seq![p.profile_id@]);
}

/// A pull that met conflicts names each file that has one, and how a single one is pushed once it
/// is settled; a pull that met none tells no conflict.
pub proof fn law_pulls_name_every_conflict(report: PullReport)
    ensures
        ({
            let lines = printing::pull_lines(report);
            let n = report.conflicts@.len() as int;
            &&& forall|i: int|
                0 <= i < n ==> lines[2 + i] == "    "@ + (#[trigger] report.conflicts@[i]).path@
            &&& n > 0 ==> lines.len() == n + 4
            &&& n == 0 ==> lines.len() == 1
            &&& n == 1 ==> lines[4] == "  then: loc push "@ + quoting::shell_word(
                SafeSet::ShellWord,
                report.conflicts@[0].path@,
            ) + " -y"@
            &&& n == 0 && report.skipped_dirty == 0 ==> lines[0] == "pull complete: "@
                + printing::pulled(report)
            &&& n == 0 && report.skipped_dirty > 0 ==> lines[0] == "pull skipped "@ + text::decimal(
                report.skipped_dirty as nat,
            ) + " dirty file(s); "@ + printing::pulled(report)
        }),
{
}

/// The files that a pull skipped for other reasons are those that it skipped but for its conflicts.
pub proof fn law_conflicts_are_not_counted_twice(report: PullReport)
    ensures
        report.skipped_dirty >= report.conflicts@.len() ==> printing::skipped_beside(report)
            + report.conflicts@.len() == report.skipped_dirty,
        report.skipped_dirty < report.conflicts@.len() ==> printing::skipped_beside(report) == 0,
{
}

/// What is found is told with its title, its kind, its state and its path, where it comes from and
/// where it is; with a warning where it is not safe to read, and with what became of it in its
/// source.
pub proof fn law_findings_are_told_with_their_place(result: SearchResult)
    ensures
        ({
            let lines = printing::result_lines(result);
            let n = lines.len() as int;
            &&& lines[0] == result.title@ + "  "@ + result.kind@ + "  "@ + result.state@ + "  "@
                + result.path@
            &&& lines[1] == "  mount: "@ + result.mount_id@ + "  connector: "@ + result.connector@
                + "  remote: "@ + result.remote_id@
            &&& lines[2] == "  path: "@ + result.absolute_path@
            &&& !result.safety.agent_readable ==> lines[3] == "  safety: "@ + text::joined(
                text::texts(result.safety.labels@),
                ", "@,
            )
            &&& n == 3 + (if result.safety.agent_readable {
                0int
            } else {
                1int
            }) + (if result.remote.changed {
                1int
            } else {
                0int
            })
            &&& result.remote.changed && result.remote.deleted ==> lines[n - 1]
                == "  remote: "@ + "deleted"@
            &&& result.remote.changed && !result.remote.deleted ==> lines[n - 1]
                == "  remote: "@ + "changed"@
        }),
{
}

/// Every result of a search is shown; only a search that found nothing says so.
pub proof fn law_searches_show_every_result(report: SearchReport, query: Seq<char>, i: int)
    ensures
        0 <= i < report.results@.len() ==> shows(
            printing::search_lines(report, query),
            printing::result_lines(report.results@[i]),
        ),
        report.results@.len() == 0 ==> printing::search_lines(report, query) == seq![
            "no local matches for "@ + query,
        ],
{
    if 0 <= i < report.results@.len() {
        lemma_results_shown(report.results@, i);
    }
}

proof fn lemma_results_shown(results: Seq<SearchResult>, i: int)
    requires
        0 <= i < results.len(),
    ensures
        shows(printing::results_lines(results), printing::result_lines(results[i])),
    decreases results.len(),
{
    let before = printing::results_lines(results.drop_last());
    let own = printing::result_lines(results.last());
    if i < results.len() - 1 {
        lemma_results_shown(results.drop_last(), i);
        lemma_shows_more(before, own, printing::result_lines(results[i]));
    } else {
        lemma_shows(before + own, own, before.len() as int);
    }
}

/// A report on the daemon names its state, who runs it, and where it keeps and hears what it knows.
pub proof fn law_daemon_reports_name_its_places(report: DaemonControlReport)
    ensures
        ({
            let lines = printing::daemon_lines(report);
            let n = lines.len() as int;
            &&& lines[0] == report.message@
            &&& lines[1] == "  state: "@ + report.state.name()
            &&& lines[2] == "  manager: "@ + report.manager.name()
            &&& lines[3] == "  state root: "@ + report.state_root@
            &&& lines[4] == "  socket: "@ + report.socket@
            &&& report.reload matches Some(reload) ==> lines[5] == "  reload: +"@ + text::decimal(
                reload.added as nat,
            ) + " -"@ + text::decimal(reload.removed as nat) + " unchanged "@ + text::decimal(
                reload.unchanged as nat,
            )
            &&& report.stderr_log matches Some(log) ==> lines[n - 1] == "  log: "@ + log@
            &&& report.daemon_status matches Some(s) ==> shows(
                lines,
                printing::daemon_status_lines(s),
            )
        }),
{
    if let Some(s) = report.daemon_status {
        let own = printing::daemon_status_lines(s);
        let at = if report.reload is Some {
            6int
        } else {
            5int
        };
        lemma_shows(printing::daemon_lines(report), own, at);
    }
}

/// What runs in the daemon is told: its build, its mounts, what it works on and what waits, by
/// name.
pub proof fn law_daemon_statuses_tell_what_waits(s: DaemonStatusReport)
    ensures
        ({
            let lines = printing::daemon_status_lines(s);
            let n = lines.len() as int;
            &&& lines[0] == "  build: "@ + s.version@ + " ("@ + s.build_id@ + ")"@
            &&& lines[1] == "  watched mounts: "@ + text::decimal(s.watched_mounts as nat)
            &&& lines[2] == (if s.active_job {
                "  jobs: active="@ + "true"@
            } else {
                "  jobs: active="@ + "false"@
            }) + ", pending="@ + text::decimal(s.pending_requests as nat) + ", hydration="@
                + text::decimal(s.pending_hydrations as nat) + ", freshness="@ + text::decimal(
                s.pending_freshness as nat,
            )
            &&& lines[3] == "  freshness: ready="@ + text::decimal(s.ready_freshness as nat)
                + ", deferred="@ + text::decimal(s.deferred_freshness as nat) + ", ready_budget="@
                + text::decimal(s.ready_freshness_budget_units as nat) + ", total_budget="@
                + text::decimal(s.freshness_budget_units as nat)
            &&& s.active_job_detail matches Some(job) ==> n == 6 && (job.target matches Some(t)
                ==> lines[4] == "  active job: kind="@ + job.kind@ + " target="@ + t@ + " elapsed="@
                + text::decimal(job.elapsed_ms as nat) + "ms"@)
            &&& s.active_job_detail is None ==> n == 5
            &&& lines[n - 1] == "  scheduler: "@ + s.scheduler_mode@
        }),
{
}

/// A report of the doctor shows every connection, every mount and every finding, and says so where
/// nothing was found.
pub proof fn law_the_doctor_shows_all_that_is_reported(report: DoctorReport, i: int)
    ensures
        ({
            let lines = doctor::report_lines(report);
            &&& lines[0] == "Locality doctor: "@ + report.status.name()
            &&& lines[1] == "platform: "@ + report.platform@
            &&& lines[2] == "state: "@ + report.state_root@
            &&& lines[3] == (if report.state_store.exists {
                "state store: "@ + "present"@
            } else {
                "state store: "@ + "missing"@
            }) + " ("@ + report.state_store.compatibility_status@ + ")"@
            &&& report.daemon is None ==> lines[4] == "daemon: unavailable"@
            &&& report.daemon matches Some(d) ==> lines[4] == "daemon: "@ + d.state@ + " ("@
                + d.message@ + ")"@
            &&& 0 <= i < report.connections@.len() ==> shows(
                lines,
                seq![doctor::connection_line(report.connections@[i])],
            )
            &&& 0 <= i < report.mounts@.len() ==> shows(
                lines,
                doctor::mount_lines(report.mounts@[i]),
            )
            &&& 0 <= i < report.findings@.len() ==> shows(
                lines,
                doctor::finding_lines(report.findings@[i]),
            )
            &&& report.findings@.len() == 0 ==> lines.last() == "findings: none"@
        }),
{
    let lines = doctor::report_lines(report);
    let own = doctor::connections_lines(report.connections@);
    let c = report.connections@.len() as int;
    let mounts = doctor::mounts_lines(report.mounts@);
    let findings = doctor::findings_lines(report.findings@);
    if 0 <= i < c {
        lemma_shows(lines, seq![doctor::connection_line(report.connections@[i])], 6 + i);
    }
    if 0 <= i < report.mounts@.len() {
        lemma_mounts_shown(report.mounts@, i);
        let some = doctor::mount_lines(report.mounts@[i]);
        let k = choose|k: int| #[trigger] shows_at(mounts, some, k);
        assert(lines.subrange(7 + c, 7 + c + mounts.len()) =~= mounts);
        assert(lines.subrange(7 + c + k, 7 + c + k + some.len()) =~= mounts.subrange(
            k,
            k + some.len(),
        )) by {
            assert forall|j: int| 0 <= j < some.len() implies lines[7 + c + k + j]
                == #[trigger] mounts[k + j] by {
                assert(lines.subrange(7 + c, 7 + c + mounts.len())[k + j] == lines[7 + c + k + j]);
            }
        }
        lemma_shows(lines, some, 7 + c + k);
    }
    if 0 <= i < report.findings@.len() {
        lemma_findings_shown(report.findings@, i);
        let some = doctor::finding_lines(report.findings@[i]);
        let k = choose|k: int| #[trigger] shows_at(findings, some, k);
        let at = lines.len() - findings.len();
        assert(lines.subrange(at, lines.len() as int) =~= findings);
        assert(lines.subrange(at + k, at + k + some.len()) =~= findings.subrange(
            k,
            k + some.len(),
        )) by {
            assert forall|j: int| 0 <= j < some.len() implies lines[at + k + j]
                == #[trigger] findings[k + j] by {
                assert(lines.subrange(at, lines.len() as int)[k + j] == lines[at + k + j]);
            }
        }
        lemma_shows(lines, some, at + k);
    }
}

proof fn lemma_mounts_shown(mounts: Seq<DoctorMount>, i: int)
    requires
        0 <= i < mounts.len(),
    ensures
        shows(doctor::mounts_lines(mounts), doctor::mount_lines(mounts[i])),
    decreases mounts.len(),
{
    let before = doctor::mounts_lines(mounts.drop_last());
    let own = doctor::mount_lines(mounts.last());
    if i < mounts.len() - 1 {
        lemma_mounts_shown(mounts.drop_last(), i);
        lemma_shows_more(before, own, doctor::mount_lines(mounts[i]));
    } else {
        lemma_shows(before + own, own, before.len() as int);
    }
}

proof fn lemma_findings_shown(findings: Seq<DoctorFinding>, i: int)
    requires
        0 <= i < findings.len(),
    ensures
        shows(doctor::findings_lines(findings), doctor::finding_lines(findings[i])),
    decreases findings.len(),
{
    let before = doctor::findings_lines(findings.drop_last());
    let own = doctor::finding_lines(findings.last());
    if i < findings.len() - 1 {
        lemma_findings_shown(findings.drop_last(), i);
        lemma_shows_more(before, own, doctor::finding_lines(findings[i]));
    } else {
        lemma_shows(before + own, own, before.len() as int);
    }
}

/// A connection, a mount with its provider and a finding with its remedy are told by what is known
/// of each.
pub proof fn law_the_doctor_tells_what_is_known(
    connection: DoctorConnection,
    mount: DoctorMount,
    finding: DoctorFinding,
)
    ensures
        doctor::connection_line(connection) == "  "@ + connection.connection_id@ + ": "@
            + connection.connector@ + " "@ + connection.status@ + " profile="@
            + connection.profile_status.name() + " credential="@
            + connection.credential_status.name(),
        doctor::mount_lines(mount)[0] == "  "@ + mount.mount_id@ + ": "@ + mount.connector@ + " "@
            + mount.projection@ + " at "@ + mount.root@,
        mount.provider is None ==> doctor::mount_lines(mount).len() == 1,
        mount.provider matches Some(p) ==> {
            let line = doctor::mount_lines(mount)[1];
            let head = "    provider: "@ + p.kind@ + " state="@ + p.state@ + " registered="@;
            let known = match p.registered {
                Some(yes) => if yes {
                    "true"@
                } else {
                    "false"@
                },
                None => "unknown"@,
            };
            line == head + known + " helper="@ + (if p.helper_present {
                "present"@
            } else {
                "missing"@
            })
        },
        doctor::finding_lines(finding)[0] == "  ["@ + finding.severity.name() + "] "@
            + finding.code@ + ": "@ + finding.message@,
        finding.suggested_command matches Some(command) ==> doctor::finding_lines(finding)[1]
            == "        suggested: "@ + command@,
        finding.suggested_command is None ==> doctor::finding_lines(finding).len() == 1,
{
}

} // verus!
