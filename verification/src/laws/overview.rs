//! What the overviews leave out, and what they never do.
use crate::json::Json;
use crate::overview;
use crate::overview::{
    InfoChildren, InfoReport, InspectReport, InspectSide, StatusEntry, StatusMount, StatusSummary,
    TemplatePack,
};
use crate::printing;
use crate::text;
use vstd::prelude::*;

verus! {

/// Whether there is something to tell of an entry: it is not in sync, or a push of it waits or has
/// failed.
pub open spec fn is_worth_telling(entry: StatusEntry) -> bool {
    ||| entry.sync_state is RemoteUpdateAvailable
    ||| entry.sync_state is PendingLocalChanges
    ||| entry.sync_state is ReviewNeeded
    ||| entry.sync_state is Conflicted
    ||| entry.pending_journal_count > 0
    ||| entry.failed_journal_count > 0
}

/// Whether lines stand among others.
pub open spec fn shows(lines: Seq<Seq<char>>, line: Seq<char>) -> bool {
    exists|i: int| 0 <= i < lines.len() && #[trigger] lines[i] == line
}

proof fn lemma_shows_sum(a: Seq<Seq<char>>, b: Seq<Seq<char>>, line: Seq<char>)
    ensures
        shows(a + b, line) == (shows(a, line) || shows(b, line)),
{
    let all = a + b;
    if shows(a, line) {
        let i = choose|i: int| 0 <= i < a.len() && #[trigger] a[i] == line;
        assert(all[i] == line);
    }
    if shows(b, line) {
        let i = choose|i: int| 0 <= i < b.len() && #[trigger] b[i] == line;
        assert(all[a.len() + i] == line);
    }
    if shows(all, line) {
        let i = choose|i: int| 0 <= i < all.len() && #[trigger] all[i] == line;
        if i < a.len() {
            assert(a[i] == line);
        } else {
            assert(b[i - a.len()] == line);
        }
    }
}

/// Every entry of which there is something to tell is shown, with its state and each of its issues;
/// of all others nothing is.
pub proof fn law_entries_are_shown_where_it_is_worth_it(mount_id: Seq<char>, entry: StatusEntry)
    ensures
        ({
            let lines = overview::status_entry_lines(mount_id, entry);
            &&& !is_worth_telling(entry) ==> lines.len() == 0
            &&& is_worth_telling(entry) ==> {
                &&& lines.len() == 2 + entry.issues@.len()
                &&& lines[0] == mount_id + "  "@ + entry.path@
                &&& lines[1] == "  state: "@ + entry.state@ + "  sync: "@ + entry.sync@
                    + "  hydration: "@ + entry.hydration@
                &&& forall|i: int|
                    0 <= i < entry.issues@.len() ==> #[trigger] lines[2 + i] == (if (
                    entry.issues@[i]).code@ == "last_failure"@ {
                        "  last_failure: "@ + entry.issues@[i].message@
                    } else {
                        "  issue: "@ + entry.issues@[i].code@ + " - "@ + entry.issues@[i].message@
                    })
            }
        }),
{
}

proof fn lemma_entry_shown(mount_id: Seq<char>, entries: Seq<StatusEntry>, i: int)
    requires
        0 <= i < entries.len(),
        is_worth_telling(entries[i]),
    ensures
        shows(
            overview::status_entries_lines(mount_id, entries),
            mount_id + "  "@ + entries[i].path@,
        ),
        overview::loud_entries(entries) > 0,
    decreases entries.len(),
{
    let front = entries.drop_last();
    let before = overview::status_entries_lines(mount_id, front);
    let last = overview::status_entry_lines(mount_id, entries.last());
    let line = mount_id + "  "@ + entries[i].path@;
    lemma_shows_sum(before, last, line);
    if i < front.len() {
        assert(front[i] == entries[i]);
        lemma_entry_shown(mount_id, front, i);
    } else {
        law_entries_are_shown_where_it_is_worth_it(mount_id, entries.last());
        assert(last[0] == line);
    }
}

/// Every entry of every mount of which there is something to tell is in the status, and the status
/// is then not called clean.
pub proof fn law_the_status_hides_nothing(mounts: Seq<StatusMount>, m: int, i: int)
    requires
        0 <= m < mounts.len(),
        0 <= i < mounts[m].entries@.len(),
        is_worth_telling(mounts[m].entries@[i]),
    ensures
        shows(
            overview::status_mounts_lines(mounts),
            mounts[m].mount_id@ + "  "@ + mounts[m].entries@[i].path@,
        ),
        overview::some_loud(mounts),
    decreases mounts.len(),
{
    let front = mounts.drop_last();
    let before = overview::status_mounts_lines(front);
    let last = overview::status_mount_lines(mounts.last());
    let line = mounts[m].mount_id@ + "  "@ + mounts[m].entries@[i].path@;
    lemma_shows_sum(before, last, line);
    if m < front.len() {
        assert(front[m] == mounts[m]);
        law_the_status_hides_nothing(front, m, i);
    } else {
        let mount = mounts.last();
        lemma_entry_shown(mount.mount_id@, mount.entries@, i);
        let head = printing::lines_if(
            mount.live_mode.enabled || mount.live_mode.state@ != "off"@,
            seq![mount.mount_id@ + "  live_mode: "@ + mount.live_mode.state@] + printing::line_if(
                "  live_mode_reason: "@,
                text::opt_text(mount.live_mode.reason),
            ),
        );
        lemma_shows_sum(
            head,
            overview::status_entries_lines(mount.mount_id@, mount.entries@),
            line,
        );
    }
}

proof fn lemma_quiet_entries(entries: Seq<StatusEntry>)
    requires
        forall|i: int| 0 <= i < entries.len() ==> !is_worth_telling(#[trigger] entries[i]),
    ensures
        overview::loud_entries(entries) == 0,
    decreases entries.len(),
{
    if entries.len() > 0 {
        let front = entries.drop_last();
        assert forall|i: int| 0 <= i < front.len() implies !is_worth_telling(
            #[trigger] front[i],
        ) by {
            assert(front[i] == entries[i]);
        }
        assert(!is_worth_telling(entries[entries.len() - 1]));
        lemma_quiet_entries(front);
    }
}

/// The status is called clean exactly where there is nothing to tell of any entry.
pub proof fn law_the_status_is_clean_where_nothing_is_to_tell(mounts: Seq<StatusMount>)
    ensures
        overview::some_loud(mounts) <==> exists|m: int, i: int|
            0 <= m < mounts.len() && 0 <= i < mounts[m].entries@.len() && is_worth_telling(
                #[trigger] mounts[m].entries@[i],
            ),
    decreases mounts.len(),
{
    if exists|m: int, i: int|
        0 <= m < mounts.len() && 0 <= i < mounts[m].entries@.len() && is_worth_telling(
            #[trigger] mounts[m].entries@[i],
        ) {
        let (m, i) = choose|m: int, i: int|
            0 <= m < mounts.len() && 0 <= i < mounts[m].entries@.len() && is_worth_telling(
                #[trigger] mounts[m].entries@[i],
            );
        law_the_status_hides_nothing(mounts, m, i);
    } else if mounts.len() > 0 {
        let front = mounts.drop_last();
        law_the_status_is_clean_where_nothing_is_to_tell(front);
        assert forall|m: int, i: int|
            0 <= m < front.len() && 0 <= i < front[m].entries@.len() implies !is_worth_telling(
            #[trigger] front[m].entries@[i],
        ) by {
            assert(front[m] == mounts[m]);
            assert(!is_worth_telling(mounts[m].entries@[i]));
        }
        let last = mounts.last();
        assert forall|i: int| 0 <= i < last.entries@.len() implies !is_worth_telling(
            #[trigger] last.entries@[i],
        ) by {
            assert(!is_worth_telling(mounts[mounts.len() - 1].entries@[i]));
        }
        lemma_quiet_entries(last.entries@);
    }
}

/// The end of a status tells each count under its own name.
pub proof fn law_the_status_ends_with_its_counts(s: StatusSummary)
    ensures
        overview::status_end(true, s).len() == 2,
        overview::status_end(true, s)[0] == "summary: "@ + text::decimal(s.clean as nat)
            + " clean, "@ + text::decimal(s.stub as nat) + " stub, "@ + text::decimal(
            s.dirty as nat,
        ) + " dirty, "@ + text::decimal(s.conflicted as nat) + " conflicted, "@ + text::decimal(
            s.missing as nat,
        ) + " missing, "@ + text::decimal(s.error as nat) + " error"@,
        overview::status_end(true, s)[1] == "sync: "@ + text::decimal(
            s.remote_update_available as nat,
        ) + " remote updates, "@ + text::decimal(s.pending_local_changes as nat)
            + " pending local, "@ + text::decimal(s.review_needed as nat) + " review needed, "@
            + text::decimal(s.sync_conflicted as nat) + " conflicted, "@ + text::decimal(
            s.checking_freshness as nat,
        ) + " checking"@,
        overview::status_end(false, s).len() == 1,
{
}

/// A side that needs review is told to, with its issue; else it is told whether it changed and in
/// how many operations.
pub proof fn law_sides_are_told_as_they_are(side: InspectSide)
    ensures
        side.issue matches Some(issue) ==> overview::side_text(side) == "needs review ("@
            + issue.code@ + " - "@ + issue.message@ + ")"@,
        side.issue is None ==> ({
            let n = match side.operations {
                Some(n) => n as nat,
                None => 0,
            };
            overview::side_text(side) == (if side.changed {
                "changed"@
            } else {
                "unchanged"@
            }) + " ("@ + text::decimal(n) + " operation"@ + (if n == 1 {
                ""@
            } else {
                "s"@
            }) + ")"@
        }),
{
}

/// An inspection names its file, its entity, both versions where they are known, its state, what
/// comes next and what either side changed, and every issue.
pub proof fn law_inspections_tell_both_sides(report: InspectReport, i: int)
    ensures
        ({
            let lines = overview::inspect_lines(report);
            &&& shows(lines, "inspect "@ + report.path@)
            &&& shows(lines, "  mount: "@ + report.mount_id@ + "  entity: "@ + report.entity_id@)
            &&& shows(lines, "  title: "@ + report.title@)
            &&& report.synced_tree_version matches Some(v) ==> shows(
                lines,
                "  Synced Tree version: "@ + v@,
            )
            &&& report.remote_tree_version matches Some(v) ==> shows(
                lines,
                "  Remote Tree version: "@ + v@,
            )
            &&& report.local_read_path@ != report.path@ ==> shows(
                lines,
                "  local cache: "@ + report.local_read_path@,
            )
            &&& shows(lines, "  state: "@ + report.state@ + "  action: "@ + report.action@)
            &&& shows(lines, "  local: "@ + overview::side_text(report.local))
            &&& shows(lines, "  remote: "@ + overview::side_text(report.remote))
            &&& 0 <= i < report.issues@.len() ==> shows(
                lines,
                "  issue: "@ + report.issues@[i].code@ + " - "@ + report.issues@[i].message@,
            )
        }),
{
    let lines = overview::inspect_lines(report);
    let n = lines.len() - report.issues@.len();
    assert(lines[0] == "inspect "@ + report.path@);
    assert(lines[1] == "  mount: "@ + report.mount_id@ + "  entity: "@ + report.entity_id@);
    assert(lines[2] == "  title: "@ + report.title@);
    let a = if report.synced_tree_version is Some {
        4int
    } else {
        3int
    };
    let b = if report.remote_tree_version is Some {
        a + 1
    } else {
        a
    };
    assert(report.synced_tree_version matches Some(v) ==> lines[3] == "  Synced Tree version: "@
        + v@);
    assert(report.remote_tree_version matches Some(v) ==> lines[a] == "  Remote Tree version: "@
        + v@);
    assert(report.local_read_path@ != report.path@ ==> lines[b] == "  local cache: "@
        + report.local_read_path@);
    assert(lines[n - 3] == "  state: "@ + report.state@ + "  action: "@ + report.action@);
    assert(lines[n - 2] == "  local: "@ + overview::side_text(report.local));
    assert(lines[n - 1] == "  remote: "@ + overview::side_text(report.remote));
    if 0 <= i < report.issues@.len() {
        assert(lines[n + i] == "  issue: "@ + report.issues@[i].code@ + " - "@
            + report.issues@[i].message@);
    }
}

/// What is known of a path is told by name: where it belongs, what it stands for, what lies below
/// it and whether it can be written.
pub proof fn law_facts_are_told_by_name(report: InfoReport)
    ensures
        ({
            let lines = overview::info_lines(report);
            &&& lines[0] == "Path: "@ + report.target@
            &&& lines[1] == "Mount: "@ + report.mount_id@ + " ("@ + report.connector@ + ")"@
            &&& lines[2] == "Root: "@ + report.root@
            &&& lines[3] == "Role: "@ + report.role@
            &&& lines[4] == "Source: "@ + report.source@
            &&& report.remote_root_id matches Some(id) ==> lines[5] == "Remote root ID: "@ + id@
            &&& report.entity matches Some(e) ==> {
                &&& shows(lines, "Title: "@ + e.title@)
                &&& shows(lines, "Remote ID: "@ + e.entity_id@)
                &&& shows(lines, "Entity path: "@ + e.path@)
                &&& shows(lines, "Hydration: "@ + e.hydration@)
            }
            &&& report.schema_path matches Some(path) ==> shows(lines, "Schema: "@ + path@)
            &&& shows(lines, "Subtree entities: "@ + text::decimal(report.children.subtree as nat))
            &&& shows(
                lines,
                "Journals: "@ + text::decimal(report.pending_journals as nat) + " pending, "@
                    + text::decimal(report.failed_journals as nat) + " failed"@,
            )
            &&& report.read_only ==> shows(lines, "Write mode: "@ + "read-only"@)
            &&& !report.read_only ==> shows(lines, "Write mode: "@ + "read-write"@)
            &&& report.suggestions@.len() > 0 ==> lines.last() == "Next: "@ + text::joined(
                text::texts(report.suggestions@),
                "; "@,
            )
        }),
{
    let lines = overview::info_lines(report);
    let a = overview::info_head(report).len() as int;
    let b = a + overview::info_entity_lines(report.entity).len();
    let c = lines.len() - overview::info_end(report).len();
    if let Some(e) = report.entity {
        assert(lines[a] == "Title: "@ + e.title@);
        assert(lines[a + 1] == "Remote ID: "@ + e.entity_id@);
        assert(lines[a + 2] == "Entity path: "@ + e.path@);
        assert(lines[a + 3] == "Hydration: "@ + e.hydration@);
    }
    if let Some(path) = report.schema_path {
        assert(lines[b] == "Schema: "@ + path@);
    }
    assert(lines[c + 1] == "Subtree entities: "@ + text::decimal(report.children.subtree as nat));
    assert(lines[c + 2] == "Journals: "@ + text::decimal(report.pending_journals as nat)
        + " pending, "@ + text::decimal(report.failed_journals as nat) + " failed"@);
    assert(lines[c + 3] == "Write mode: "@ + (if report.read_only {
        "read-only"@
    } else {
        "read-write"@
    }));
}

/// The children of a folder are counted by their kinds.
pub proof fn law_children_are_counted_by_kind(c: InfoChildren)
    requires
        c.pages != 1 && c.databases != 1 && c.directories != 1 && c.assets != 1,
    ensures
        overview::children_line(c) == "Children: "@ + text::decimal(c.pages as nat) + " page"@
            + "s"@ + ", "@ + text::decimal(c.databases as nat) + " database"@ + "s"@ + ", "@
            + text::decimal(c.directories as nat) + " director"@ + "ies"@ + ", "@ + text::decimal(
            c.assets as nat,
        ) + " asset"@ + "s"@ + ", "@ + text::decimal(c.unknown as nat) + " unknown"@,
{
}

/// A template pack is told with its version and its name, and with what it describes, works with
/// and makes, where it says so.
pub proof fn law_packs_are_told_with_what_they_make(pack: TemplatePack)
    ensures
        ({
            let lines = overview::pack_lines(pack);
            &&& lines[0] == pack.id@ + "  "@ + pack.version@ + "  "@ + pack.name@
            &&& pack.description matches Some(words) ==> lines[1] == "  "@ + words@
            &&& pack.connectors@.len() > 0 ==> shows(
                lines,
                "  connectors: "@ + text::joined(text::texts(pack.connectors@), ", "@),
            )
            &&& pack.outputs@.len() > 0 ==> shows(
                lines,
                "  outputs: "@ + text::joined(text::texts(pack.outputs@), ", "@),
            )
        }),
{
    let lines = overview::pack_lines(pack);
    let a = if pack.description is Some {
        2int
    } else {
        1int
    };
    assert(pack.connectors@.len() > 0 ==> lines[a] == "  connectors: "@ + text::joined(
        text::texts(pack.connectors@),
        ", "@,
    ));
    assert(pack.outputs@.len() > 0 ==> lines[lines.len() - 1] == "  outputs: "@ + text::joined(
        text::texts(pack.outputs@),
        ", "@,
    ));
}

/// Every root or domain that a provider lists has its line, and stale units have theirs behind the
/// roots of FUSE.
pub proof fn law_every_root_is_listed(report: Json, i: int)
    ensures
        ({
            let lines = overview::provider_list(report);
            let roots = report.items_at("roots"@);
            let units = report.items_at("stale_units"@);
            let domains = report.items_at("domains"@);
            &&& roots matches Some(all) ==> (0 <= i < all.len() ==> i < lines.len() && lines[i] == (
            if overview::are_fuse_roots(all) {
                overview::fuse_root_line(all[i])
            } else {
                overview::sync_root_line(all[i])
            }))
            &&& roots is Some && units is Some && overview::are_fuse_roots(roots->0) && 0 <= i
                < units->0.len() ==> lines[roots->0.len() + i] == overview::stale_unit_line(
                units->0[i],
            )
            &&& roots is None && domains is Some && 0 <= i < domains->0.len() ==> lines[i]
                == overview::domain_line(domains->0[i])
            &&& roots is None && (domains is None || domains->0.len() == 0) ==> lines == seq![
                "no file provider domains"@,
            ]
        }),
{
}

/// Only roots of FUSE have mounts or a mount point.
pub proof fn law_fuse_roots_have_mount_points(roots: Seq<Json>, i: int)
    requires
        0 <= i < roots.len(),
    ensures
        roots[i].at("mountpoint"@) is Some || roots[i].at("mount_ids"@) is Some
            ==> overview::are_fuse_roots(roots),
{
}

/// A root of FUSE is listed with its mounts, its place, and whether it is registered and active.
pub proof fn law_fuse_roots_are_listed_with_their_state(root: Json, registered: bool, active: bool)
    requires
        root.bool_at("registered"@) == Some(registered),
        root.bool_at("active"@) == Some(active),
        root.text_at("mountpoint"@) is Some,
    ensures
        ({
            let head = "linux-fuse\t"@ + overview::root_mounts(root) + "\t"@ + root.text_at(
                "mountpoint"@,
            )->0 + "\tregistered="@;
            overview::fuse_root_line(root) == head + (if registered {
                "true"@
            } else {
                "false"@
            }) + "\tactive="@ + (if active {
                "true"@
            } else {
                "false"@
            })
        }),
{
}

} // verus!
