//! What a preview of a push tells.
use crate::diff;
use crate::diff::{
    DiffError, DiffReport, GuardrailDecision, PlanSummary, PlanSummaryOutput, PreparedPush,
    PropertyEntry, PropertyUpdateOutput, PropertyValue, PropertyValueOutput, PushOperation,
    PushOperationOutput, PushPipelineAction, PushPrepareError, PushStage,
};
use crate::model;
use crate::text;
use vstd::prelude::*;

verus! {

/// Whether all eleven counts are the same.
pub open spec fn counts_the_same(a: PlanSummary, b: PlanSummaryOutput) -> bool {
    &&& a.blocks_created == b.blocks_created
    &&& a.blocks_updated == b.blocks_updated
    &&& a.blocks_replaced == b.blocks_replaced
    &&& a.blocks_moved == b.blocks_moved
    &&& a.media_updated == b.media_updated
    &&& a.blocks_archived == b.blocks_archived
    &&& a.entities_created == b.entities_created
    &&& a.entities_archived == b.entities_archived
    &&& a.entity_bodies_updated == b.entity_bodies_updated
    &&& a.entities_moved == b.entities_moved
    &&& a.properties_updated == b.properties_updated
}

/// Every count of a summary is told under its own name.
pub proof fn law_counts_are_told_under_their_names(summary: PlanSummary)
    ensures
        counts_the_same(summary, diff::summary_output(summary)),
{
}

/// Each of the counts in a preview is the count of the same name in the plan, and
/// there is a plan in the preview exactly where there is one.
pub proof fn law_previews_tell_the_counts_of_the_plan(
    prepared: PreparedPush,
    command: Seq<char>,
    report: DiffReport,
)
    requires
        diff::previews(prepared, command, report),
    ensures
        report.plan is Some <==> prepared.pipeline.plan is Some,
        report.plan matches Some(shown) ==> counts_the_same(
            prepared.pipeline.plan->0.summary,
            shown.summary,
        ),
        report.plan matches Some(shown) ==> shown.affected_entities@
            == prepared.pipeline.plan->0.affected_entities@,
{
}

/// A preview is of the file, the mount and the entity that were prepared, and has the
/// readable diff that came with them.
pub proof fn law_previews_name_what_was_prepared(
    prepared: PreparedPush,
    command: Seq<char>,
    report: DiffReport,
)
    requires
        diff::previews(prepared, command, report),
    ensures
        report.command@ == command,
        report.path@ == prepared.absolute_path@,
        report.mount_id@ == prepared.mount.mount_id@,
        report.entity_id@ == prepared.entity.remote_id@,
        report.readable_diff == prepared.readable_diff,
{
}

/// A preview is good exactly where validation has nothing to say and no operation is
/// unsupported.
pub proof fn law_previews_are_good_where_nothing_stands_against_them(
    prepared: PreparedPush,
    command: Seq<char>,
    report: DiffReport,
)
    requires
        diff::previews(prepared, command, report),
    ensures
        report.ok <==> prepared.pipeline.validation@.len() == 0 && !(
        prepared.pipeline.action matches PushPipelineAction::UnsupportedOperations {
            operations,
            ..
        } && operations@.len() > 0),
        report.ok ==> report.validation@.len() == 0 && report.unsupported@.len() == 0,
{
    assert(report.validation@.len() == prepared.pipeline.validation@.len());
}

/// A preview shows every issue of validation in its place, with all that it says.
pub proof fn law_previews_show_every_issue(
    prepared: PreparedPush,
    command: Seq<char>,
    report: DiffReport,
)
    requires
        diff::previews(prepared, command, report),
    ensures
        report.validation@.len() == prepared.pipeline.validation@.len(),
        forall|i: int|
            0 <= i < report.validation@.len() ==> {
                let shown = #[trigger] report.validation@[i];
                let issue = prepared.pipeline.validation@[i];
                &&& shown.code@ == issue.code@
                &&& shown.file@ == issue.file@
                &&& shown.line == issue.line
                &&& shown.message@ == issue.message@
                &&& shown.suggested_fix == issue.suggested_fix
            },
{
}

/// Whether two property values are the same, the second as a report shows it.
pub open spec fn same_value(a: PropertyValue, b: PropertyValueOutput) -> bool
    decreases a,
{
    match b {
        PropertyValueOutput::Null => a is Null,
        PropertyValueOutput::Bool(y) => a matches PropertyValue::Bool(x) && x == y,
        PropertyValueOutput::Number(y) => a matches PropertyValue::Number(x) && x@ == y@,
        PropertyValueOutput::String(y) => a matches PropertyValue::String(x) && x@ == y@,
        PropertyValueOutput::List(y) => a matches PropertyValue::List(x) && text::texts(x@)
            == text::texts(y@),
        PropertyValueOutput::Array(y) => a matches PropertyValue::Array(x) && x@.len() == y@.len()
            && forall|i: int| 0 <= i < x@.len() ==> same_value(#[trigger] x@[i], y@[i]),
        PropertyValueOutput::Object(y) => a matches PropertyValue::Object(x) && x@.len()
            == y@.len() && forall|i: int|
            0 <= i < x@.len() ==> (#[trigger] x@[i]).key@ == y@[i].key@ && same_value(
                x@[i].value,
                y@[i].value,
            ),
    }
}

proof fn lemma_same_value(a: PropertyValue, b: PropertyValueOutput)
    requires
        diff::shows_value(a, b),
    ensures
        same_value(a, b),
    decreases a,
{
    match (a, b) {
        (PropertyValue::Array(x), PropertyValueOutput::Array(y)) => {
            assert forall|i: int| 0 <= i < x@.len() implies same_value(#[trigger] x@[i], y@[i]) by {
                lemma_same_value(x@[i], y@[i]);
            }
        },
        (PropertyValue::Object(x), PropertyValueOutput::Object(y)) => {
            assert forall|i: int| 0 <= i < x@.len() implies (#[trigger] x@[i]).key@ == y@[i].key@
                && same_value(x@[i].value, y@[i].value) by {
                lemma_same_value(x@[i].value, y@[i].value);
            }
        },
        _ => {},
    }
}

/// Whether properties are told under their keys, with their values, in their order.
pub open spec fn same_properties(a: Seq<PropertyEntry>, b: Seq<PropertyUpdateOutput>) -> bool {
    &&& a.len() == b.len()
    &&& forall|i: int|
        0 <= i < a.len() ==> (#[trigger] a[i]).key@ == b[i].key@ && same_value(
            a[i].value,
            b[i].value,
        )
}

/// A report shows properties under their keys, with their values and in their order.
pub proof fn law_properties_are_shown_as_they_are(
    entries: Seq<PropertyEntry>,
    shown: Seq<PropertyUpdateOutput>,
)
    requires
        diff::shows_entries(entries, shown),
    ensures
        same_properties(entries, shown),
{
    assert forall|i: int| 0 <= i < entries.len() implies (#[trigger] entries[i]).key@
        == shown[i].key@ && same_value(entries[i].value, shown[i].value) by {
        lemma_same_value(entries[i].value, shown[i].value);
    }
}

/// Whether a list names the keys of properties.
pub open spec fn names_the_keys(entries: Seq<PropertyEntry>, keys: Seq<String>) -> bool {
    &&& keys.len() == entries.len()
    &&& forall|i: int| 0 <= i < keys.len() ==> (#[trigger] keys[i])@ == entries[i].key@
}

/// Whether what is shown is the operation, with all that it works on.
pub open spec fn same_operation(a: PushOperation, b: PushOperationOutput) -> bool {
    match b {
        PushOperationOutput::UpdateBlock { block_id: i, content: c } => a matches
            PushOperation::UpdateBlock { block_id, content } && i@ == block_id@ && c@ == content@,
        PushOperationOutput::ReplaceBlock { block_id: i, content: c } => a matches
            PushOperation::ReplaceBlock { block_id, content } && i@ == block_id@ && c@ == content@,
        PushOperationOutput::AppendBlock { parent_id: p, after: f, content: c } => a matches
            PushOperation::AppendBlock { parent_id, after, content } && p@ == parent_id@
            && text::opt_text(f) == text::opt_text(after) && c@ == content@,
        PushOperationOutput::MoveBlock { block_id: i, after: f } => a matches
            PushOperation::MoveBlock { block_id, after } && i@ == block_id@ && text::opt_text(f)
            == text::opt_text(after),
        PushOperationOutput::UpdateMedia { block_id: i, local_path: l, caption: c } => a matches
            PushOperation::UpdateMedia { block_id, local_path, caption } && i@ == block_id@ && l@
            == local_path@ && c@ == caption@,
        PushOperationOutput::ArchiveBlock { block_id: i } => a matches PushOperation::ArchiveBlock {
            block_id,
        } && i@ == block_id@,
        PushOperationOutput::ArchiveEntity { entity_id: i } => a matches
            PushOperation::ArchiveEntity { entity_id } && i@ == entity_id@,
        PushOperationOutput::UpdateEntityBody { entity_id: i, body: b } => a matches
            PushOperation::UpdateEntityBody { entity_id, body } && i@ == entity_id@ && b@ == body@,
        PushOperationOutput::UpdateProperties { entity_id: i, keys, properties: p } => a matches
            PushOperation::UpdateProperties { entity_id, properties } && i@ == entity_id@
            && names_the_keys(properties@, keys@) && same_properties(properties@, p@),
        PushOperationOutput::MoveEntity {
            entity_id: i,
            new_parent_id: p,
            new_parent_kind: k,
            new_title: t,
            projected_path: j,
        } => a matches PushOperation::MoveEntity {
            entity_id,
            new_parent_id,
            new_parent_kind,
            new_title,
            projected_path,
        } && i@ == entity_id@ && p@ == new_parent_id@ && model::same_kind(k, new_parent_kind) && t@
            == new_title@ && j@ == projected_path@,
        PushOperationOutput::CreateEntity {
            parent_id: p,
            parent_workspace: w,
            title: t,
            keys,
            properties: q,
            body: b,
            source_path: s,
        } => a matches PushOperation::CreateEntity {
            parent_id,
            parent_workspace,
            title,
            properties,
            body,
            source_path,
        } && p@ == parent_id@ && w == parent_workspace && t@ == title@ && b@ == body@ && s@
            == source_path@ && names_the_keys(properties@, keys@) && same_properties(
            properties@,
            q@,
        ),
        PushOperationOutput::CreateDatabase { parent_id: p, title: t, schema: c, source_path: s } =>
        a matches PushOperation::CreateDatabase { parent_id, title, schema, source_path } && p@
            == parent_id@ && t@ == title@ && c@ == schema@ && s@ == source_path@,
    }
}

pub proof fn lemma_same_operation(a: PushOperation, b: PushOperationOutput)
    requires
        diff::shows_operation(a, b),
    ensures
        same_operation(a, b),
{
    match (a, b) {
        (
            PushOperation::UpdateProperties { properties, .. },
            PushOperationOutput::UpdateProperties { properties: shown, .. },
        ) => {
            law_properties_are_shown_as_they_are(properties@, shown@);
        },
        (
            PushOperation::CreateEntity { properties, .. },
            PushOperationOutput::CreateEntity { properties: shown, .. },
        ) => {
            law_properties_are_shown_as_they_are(properties@, shown@);
        },
        _ => {},
    }
}

/// A preview shows every operation of the plan in its place, of the same kind and
/// with all that it works on.
pub proof fn law_previews_show_every_operation(
    prepared: PreparedPush,
    command: Seq<char>,
    report: DiffReport,
)
    requires
        diff::previews(prepared, command, report),
        report.plan is Some,
    ensures
        report.plan->0.operations@.len() == prepared.pipeline.plan->0.operations@.len(),
        forall|i: int|
            0 <= i < report.plan->0.operations@.len() ==> same_operation(
                prepared.pipeline.plan->0.operations@[i],
                #[trigger] report.plan->0.operations@[i],
            ),
        report.plan->0.degradations@.len() == prepared.pipeline.plan->0.degradations@.len(),
        forall|i: int|
            0 <= i < report.plan->0.degradations@.len() ==> {
                let shown = #[trigger] report.plan->0.degradations@[i];
                let told = prepared.pipeline.plan->0.degradations@[i];
                &&& shown.message@ == told.message@
                &&& told.kind is AmbiguousBlockAlignment ==> shown.kind@
                    == "ambiguous_block_alignment"@
            },
{
    let plan = prepared.pipeline.plan->0;
    let shown = report.plan->0;
    assert forall|i: int| 0 <= i < shown.operations@.len() implies same_operation(
        plan.operations@[i],
        #[trigger] shown.operations@[i],
    ) by {
        lemma_same_operation(plan.operations@[i], shown.operations@[i]);
    }
    assert forall|i: int| 0 <= i < shown.degradations@.len() implies ({
        let d = #[trigger] shown.degradations@[i];
        let told = plan.degradations@[i];
        &&& d.message@ == told.message@
        &&& told.kind is AmbiguousBlockAlignment ==> d.kind@ == "ambiguous_block_alignment"@
    }) by {
        assert(diff::shows_degradation(plan.degradations@[i], shown.degradations@[i]));
    }
}

/// A preview asks for confirmation exactly where the guardrail does, with its reasons.
pub proof fn law_previews_ask_for_confirmation_as_the_guardrail_does(
    prepared: PreparedPush,
    command: Seq<char>,
    report: DiffReport,
)
    requires
        diff::previews(prepared, command, report),
    ensures
        report.guardrail.decision@ == "confirm_required"@ <==> prepared.pipeline.guardrail
            is ConfirmRequired,
        report.guardrail.decision@ == "proceed"@ <==> prepared.pipeline.guardrail is Proceed,
        prepared.pipeline.guardrail is Proceed ==> report.guardrail.reasons@.len() == 0,
        prepared.pipeline.guardrail matches GuardrailDecision::ConfirmRequired { reasons }
            ==> report.guardrail.reasons@ == reasons@,
{
    reveal_strlit("confirm_required");
    reveal_strlit("proceed");
    assert("confirm_required"@.len() != "proceed"@.len());
}

/// A preview says what comes next under the name of the action, and tells what is
/// unsupported exactly where something is.
pub proof fn law_previews_say_what_comes_next(
    prepared: PreparedPush,
    command: Seq<char>,
    report: DiffReport,
)
    requires
        diff::previews(prepared, command, report),
    ensures
        match prepared.pipeline.action {
            PushPipelineAction::UnsupportedOperations { operations, message, suggested_fix } => {
                &&& report.action@ == "unsupported_operations"@
                &&& report.unsupported@ == operations@
                &&& report.message == Some(message)
                &&& report.suggested_fix == Some(suggested_fix)
            },
            other => {
                &&& report.unsupported@.len() == 0
                &&& report.message is None
                &&& report.suggested_fix is None
                &&& other is Noop ==> report.action@ == "noop"@
                &&& other is FixValidation ==> report.action@ == "fix_validation"@
                &&& other is ConfirmPlan ==> report.action@ == "confirm_plan"@
                &&& other is ConfirmDangerousPlan ==> report.action@ == "confirm_dangerous_plan"@
                &&& other is ProceedToApply ==> report.action@ == "proceed_to_apply"@
                &&& other is ReadOnlyBlocked ==> report.action@ == "read_only_blocked"@
            },
        },
{
}

/// A preview lists the stages that were completed, in their order and by their names.
pub proof fn law_previews_list_the_completed_stages(
    prepared: PreparedPush,
    command: Seq<char>,
    report: DiffReport,
)
    requires
        diff::previews(prepared, command, report),
    ensures
        report.completed_stages@.len() == prepared.pipeline.completed_stages@.len(),
        forall|i: int|
            0 <= i < report.completed_stages@.len() ==> (#[trigger] report.completed_stages@[i])@
                == (match prepared.pipeline.completed_stages@[i] {
                PushStage::ParseAndValidate => "parse_and_validate"@,
                PushStage::Diff => "diff"@,
                PushStage::PlanAndConfirm => "plan_and_confirm"@,
                PushStage::ConcurrencyCheckAndApply => "concurrency_check_and_apply"@,
                PushStage::JournalAndReconcile => "journal_and_reconcile"@,
            }),
{
    let shown = text::texts(report.completed_stages@);
    assert(shown.len() == prepared.pipeline.completed_stages@.len());
    assert forall|i: int| 0 <= i < report.completed_stages@.len() implies (
    #[trigger] report.completed_stages@[i])@ == diff::stage_text(
        prepared.pipeline.completed_stages@[i],
    ) by {
        assert(shown[i] == report.completed_stages@[i]@);
    }
}

/// Why a push could not be prepared is what a preview fails with, of the same kind and
/// with the same message.
pub proof fn law_previews_fail_as_preparing_did(error: PushPrepareError)
    ensures
        match (error, diff::preview_error(error)) {
            (PushPrepareError::MountNotFound(a), DiffError::MountNotFound(b)) => a@ == b@,
            (
                PushPrepareError::ReadFile { path: a, message: m },
                DiffError::ReadFile { path: b, message: n },
            ) => a@ == b@ && m@ == n@,
            (PushPrepareError::Store(a), DiffError::Store(b)) => a == b,
            (PushPrepareError::Core(a), DiffError::Prepare(b)) => a == b,
            _ => false,
        },
        diff::preview_error(error).message_text() == (match error {
            PushPrepareError::MountNotFound(path) => "no Locality mount contains `"@ + path@
                + "`"@,
            PushPrepareError::ReadFile { path, message } => "failed to read `"@ + path@ + "`: "@
                + message@,
            PushPrepareError::Store(why) => why.message@,
            PushPrepareError::Core(why) => why.message@,
        }),
{
}

} // verus!
