//! What a log of journaled pushes holds.
use crate::history;
use crate::history::{
    JournalApplyEffect, JournalEntry, JournalEntryOutput, JournalStatus, LogOptions, LogReport,
    PathFilter,
};
use crate::laws::preview;
use crate::sorting;
use crate::text;
use crate::sorting::Keyed;
use vstd::prelude::*;

verus! {

/// Whether a journaled push was on an entity: it names it, its plan affects it, or it
/// archived, updated, moved or created it.
pub open spec fn concerns(entry: JournalEntry, remote_id: Seq<char>) -> bool {
    ||| exists|i: int|
        0 <= i < entry.remote_ids@.len() && (#[trigger] entry.remote_ids@[i])@ == remote_id
    ||| exists|i: int|
        0 <= i < entry.plan.affected_entities@.len() && (
        #[trigger] entry.plan.affected_entities@[i])@ == remote_id
    ||| exists|i: int|
        0 <= i < entry.apply_effects@.len() && {
            ||| (#[trigger] entry.apply_effects@[i] matches JournalApplyEffect::ArchivedEntity {
                entity_id,
            } && entity_id@ == remote_id)
            ||| (entry.apply_effects@[i] matches JournalApplyEffect::UpdatedEntityBody {
                entity_id,
            } && entity_id@ == remote_id)
            ||| (entry.apply_effects@[i] matches JournalApplyEffect::UpdatedProperties {
                entity_id,
            } && entity_id@ == remote_id)
            ||| (entry.apply_effects@[i] matches JournalApplyEffect::MovedEntity { entity_id }
                && entity_id@ == remote_id)
            ||| (entry.apply_effects@[i] matches JournalApplyEffect::CreatedEntity {
                entity_id,
                ..
            } && entity_id@ == remote_id)
        }
}

/// Whether a log that is asked for an entity, a push, both or neither is to hold a
/// journaled push.
pub open spec fn is_wanted(
    entry: JournalEntry,
    filter: Option<PathFilter>,
    push_id: Option<String>,
) -> bool {
    &&& match filter {
        Some(f) => entry.mount_id@ == f.mount_id@ && concerns(entry, f.remote_id@),
        None => true,
    }
    &&& match push_id {
        Some(id) => entry.push_id@ == id@,
        None => true,
    }
}

/// Whether a report tells of a journaled push, with the status given, all that it is to
/// tell.
pub open spec fn tells_of(
    entry: JournalEntry,
    status: JournalStatus,
    include_diff: bool,
    shown: JournalEntryOutput,
) -> bool {
    &&& shown.push_id@ == entry.push_id@
    &&& shown.mount_id@ == entry.mount_id@
    &&& shown.remote_ids@ == entry.remote_ids@
    &&& shown.author@ == entry.author@
    &&& shown.previous_push_id == entry.previous_push_id
    &&& shown.created_at_unix_ms == entry.created_at_unix_ms
    &&& include_diff ==> shown.readable_diff == entry.readable_diff
    &&& !include_diff ==> shown.readable_diff is None
    &&& shown.preimage_count == entry.preimages@.len()
    &&& shown.apply_effect_count == entry.apply_effects@.len()
    &&& shown.operation_count == entry.plan.operations@.len()
    &&& preview::counts_the_same(entry.plan.summary, shown.plan_summary)
    &&& match status {
        JournalStatus::Failed(why) => shown.status@ == "failed"@ && shown.failure == Some(why),
        other => {
            &&& shown.failure is None
            &&& other is Prepared ==> shown.status@ == "prepared"@
            &&& other is Applying ==> shown.status@ == "applying"@
            &&& other is Applied ==> shown.status@ == "applied"@
            &&& other is Reconciled ==> shown.status@ == "reconciled"@
            &&& other is Reverted ==> shown.status@ == "reverted"@
        },
    }
}

proof fn lemma_concerns(entry: JournalEntry, filter: PathFilter)
    ensures
        history::touches(entry, filter) == (entry.mount_id@ == filter.mount_id@ && concerns(
            entry,
            filter.remote_id@,
        )),
{
    let id = filter.remote_id@;
    let named = text::texts(entry.remote_ids@);
    let affected = text::texts(entry.plan.affected_entities@);
    if history::touches(entry, filter) {
        if named.contains(id) {
            let i = choose|i: int| 0 <= i < named.len() && named[i] == id;
            assert(entry.remote_ids@[i]@ == id);
        } else if affected.contains(id) {
            let i = choose|i: int| 0 <= i < affected.len() && affected[i] == id;
            assert(entry.plan.affected_entities@[i]@ == id);
        } else {
            let i = choose|i: int|
                0 <= i < entry.apply_effects@.len() && history::effect_entity(
                    #[trigger] entry.apply_effects@[i],
                ) == Some(id);
            let effect = entry.apply_effects@[i];
        }
    }
    if concerns(entry, id) {
        if exists|i: int|
            0 <= i < entry.remote_ids@.len() && (#[trigger] entry.remote_ids@[i])@ == id {
            let i = choose|i: int|
                0 <= i < entry.remote_ids@.len() && (#[trigger] entry.remote_ids@[i])@ == id;
            assert(named[i] == id);
        } else if exists|i: int|
            0 <= i < entry.plan.affected_entities@.len() && (
            #[trigger] entry.plan.affected_entities@[i])@ == id {
            let i = choose|i: int|
                0 <= i < entry.plan.affected_entities@.len() && (
                #[trigger] entry.plan.affected_entities@[i])@ == id;
            assert(affected[i] == id);
        }
    }
}

proof fn lemma_wanted(entry: JournalEntry, filter: Option<PathFilter>, push_id: Option<String>)
    ensures
        history::is_asked_for(entry, filter, push_id) == is_wanted(entry, filter, push_id),
{
    if let Some(f) = filter {
        lemma_concerns(entry, f);
    }
}

proof fn lemma_asked_for(
    entries: Seq<JournalEntry>,
    filter: Option<PathFilter>,
    push_id: Option<String>,
)
    ensures
        history::asked_for(entries, filter, push_id) == entries.filter(
            |e: JournalEntry| is_wanted(e, filter, push_id),
        ),
    decreases entries.len(),
{
    reveal(Seq::filter);
    if entries.len() > 0 {
        lemma_wanted(entries.last(), filter, push_id);
        lemma_asked_for(entries.drop_last(), filter, push_id);
    }
}

/// The entries of a log are those that it is to hold, each as often as it is there, with
/// all that it is to tell of them, from the latest push to the earliest.
proof fn lemma_log(
    entries: Seq<JournalEntry>,
    filter: Option<PathFilter>,
    options: LogOptions,
    r: LogReport,
) -> (shown: Seq<JournalEntry>)
    requires
        history::is_log(entries, filter, options, r),
    ensures
        shown.to_multiset() == entries.filter(
            |e: JournalEntry| is_wanted(e, filter, options.push_id),
        ).to_multiset(),
        r.entries@.len() == shown.len(),
        forall|i: int|
            0 <= i < shown.len() ==> tells_of(
                #[trigger] shown[i],
                shown[i].status,
                options.include_diff,
                r.entries@[i],
            ),
        forall|i: int, j: int|
            0 <= i <= j < shown.len() ==> sorting::text_le(
                (#[trigger] shown[j]).push_id@,
                (#[trigger] shown[i]).push_id@,
            ),
{
    broadcast use vstd::seq_lib::group_to_multiset_ensures;

    lemma_asked_for(entries, filter, options.push_id);
    let kept = entries.filter(|e: JournalEntry| is_wanted(e, filter, options.push_id));
    let turned = kept.reverse();
    let ordered = sorting::sorted(turned);
    let shown = history::latest_first(kept);
    sorting::law_sorted_is_an_ordered_permutation(turned);
    kept.lemma_reverse_to_multiset();
    ordered.lemma_reverse_to_multiset();
    assert(shown == ordered.reverse());
    assert forall|i: int, j: int| 0 <= i <= j < shown.len() implies sorting::text_le(
        (#[trigger] shown[j]).push_id@,
        (#[trigger] shown[i]).push_id@,
    ) by {
        let n = ordered.len() as int;
        assert(shown[i] == ordered[n - 1 - i]);
        assert(shown[j] == ordered[n - 1 - j]);
        assert(sorting::text_le(ordered[n - 1 - j].key_text(), ordered[n - 1 - i].key_text()));
    }
    assert forall|i: int| 0 <= i < shown.len() implies tells_of(
        #[trigger] shown[i],
        shown[i].status,
        options.include_diff,
        r.entries@[i],
    ) by {
        assert(history::shows_entry(
            shown[i],
            shown[i].status,
            options.include_diff,
            r.entries@[i],
        ));
    }
    shown
}

proof fn lemma_same_members(a: Seq<JournalEntry>, b: Seq<JournalEntry>, e: JournalEntry)
    requires
        a.to_multiset() == b.to_multiset(),
    ensures
        a.contains(e) == b.contains(e),
        a.len() == b.len(),
{
    broadcast use vstd::seq_lib::group_to_multiset_ensures;

    assert(a.to_multiset().len() == a.len());
    assert(b.to_multiset().len() == b.len());
    assert(a.contains(e) <==> a.to_multiset().count(e) > 0);
    assert(b.contains(e) <==> b.to_multiset().count(e) > 0);
}

/// Every entry of a log is of a journaled push that was asked for: one of the mount
/// and on the entity that the log is of, and the one push where one is named.
pub proof fn law_logs_hold_nothing_else(
    entries: Seq<JournalEntry>,
    filter: Option<PathFilter>,
    options: LogOptions,
    r: LogReport,
    i: int,
)
    requires
        history::is_log(entries, filter, options, r),
        0 <= i < r.entries@.len(),
    ensures
        exists|k: int|
            0 <= k < entries.len() && is_wanted(
                #[trigger] entries[k],
                filter,
                options.push_id,
            ) && tells_of(entries[k], entries[k].status, options.include_diff, r.entries@[i]),
{
    broadcast use vstd::seq_lib::group_filter_ensures;

    let shown = lemma_log(entries, filter, options, r);
    let wanted = |e: JournalEntry| is_wanted(e, filter, options.push_id);
    let kept = entries.filter(wanted);
    lemma_same_members(shown, kept, shown[i]);
    assert(shown.contains(shown[i]));
    entries.lemma_filter_contains_rev(wanted, shown[i]);
    let k = choose|k: int| 0 <= k < entries.len() && entries[k] == shown[i];
    let m = choose|m: int| 0 <= m < kept.len() && kept[m] == shown[i];
    assert(wanted(kept[m]));
    assert(entries[k] == shown[i]);
}

/// Every journaled push that was asked for is in the log, and the log is as long as
/// there are such pushes.
pub proof fn law_logs_leave_nothing_out(
    entries: Seq<JournalEntry>,
    filter: Option<PathFilter>,
    options: LogOptions,
    r: LogReport,
    k: int,
)
    requires
        history::is_log(entries, filter, options, r),
        0 <= k < entries.len(),
        is_wanted(entries[k], filter, options.push_id),
    ensures
        exists|i: int|
            0 <= i < r.entries@.len() && tells_of(
                entries[k],
                entries[k].status,
                options.include_diff,
                #[trigger] r.entries@[i],
            ),
        r.entries@.len() == entries.filter(
            |e: JournalEntry| is_wanted(e, filter, options.push_id),
        ).len(),
{
    let shown = lemma_log(entries, filter, options, r);
    let wanted = |e: JournalEntry| is_wanted(e, filter, options.push_id);
    let kept = entries.filter(wanted);
    lemma_same_members(shown, kept, entries[k]);
    entries.lemma_filter_contains(wanted, k);
    let i = choose|i: int| 0 <= i < shown.len() && shown[i] == entries[k];
    assert(tells_of(entries[k], entries[k].status, options.include_diff, r.entries@[i]));
}

/// A journaled push that was not asked for, such as one of the same mount that is on
/// other entities alone, is not in the log.
pub proof fn law_logs_leave_other_pushes_out(
    entries: Seq<JournalEntry>,
    filter: Option<PathFilter>,
    options: LogOptions,
    r: LogReport,
    k: int,
)
    requires
        history::is_log(entries, filter, options, r),
        0 <= k < entries.len(),
        !is_wanted(entries[k], filter, options.push_id),
        forall|j: int|
            0 <= j < entries.len() && j != k ==> (#[trigger] entries[j]).push_id@
                != entries[k].push_id@,
    ensures
        forall|i: int|
            0 <= i < r.entries@.len() ==> (#[trigger] r.entries@[i]).push_id@
                != entries[k].push_id@,
{
    assert forall|i: int| 0 <= i < r.entries@.len() implies (#[trigger] r.entries@[i]).push_id@
        != entries[k].push_id@ by {
        law_logs_hold_nothing_else(entries, filter, options, r, i);
    }
}

/// A log runs from the latest push to the earliest.
pub proof fn law_logs_run_from_the_latest(
    entries: Seq<JournalEntry>,
    filter: Option<PathFilter>,
    options: LogOptions,
    r: LogReport,
    i: int,
    j: int,
)
    requires
        history::is_log(entries, filter, options, r),
        0 <= i <= j < r.entries@.len(),
    ensures
        r.ok,
        r.command@ == "log"@,
        sorting::text_le(r.entries@[j].push_id@, r.entries@[i].push_id@),
{
    let shown = lemma_log(entries, filter, options, r);
    assert(tells_of(shown[i], shown[i].status, options.include_diff, r.entries@[i]));
    assert(tells_of(shown[j], shown[j].status, options.include_diff, r.entries@[j]));
}

} // verus!
