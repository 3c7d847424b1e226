//! Push plans and their preview reports.
use vstd::prelude::*;

use crate::model::{
    EntityRecord, LocalityError, LocalityErrorKind, MountConfig, ShadowDocument, StoreError,
    StoreErrorKind, clone_kind,
};
use crate::text;

verus! {

/// A property as a plan holds it: objects list their entries in key order.
#[derive(Debug, PartialEq, Eq)]
pub enum PropertyValue {
    Null,
    Bool(bool),
    Number(String),
    String(String),
    List(Vec<String>),
    Array(Vec<PropertyValue>),
    Object(Vec<PropertyEntry>),
}

/// One entry of a property object.
#[derive(Debug, PartialEq, Eq)]
pub struct PropertyEntry {
    pub key: String,
    pub value: PropertyValue,
}

/// A property as a report shows it.
#[derive(Debug, PartialEq, Eq)]
pub enum PropertyValueOutput {
    Null,
    Bool(bool),
    Number(String),
    String(String),
    List(Vec<String>),
    Array(Vec<PropertyValueOutput>),
    Object(Vec<PropertyUpdateOutput>),
}

/// One entry of a property object, as a report shows it.
#[derive(Debug, PartialEq, Eq)]
pub struct PropertyUpdateOutput {
    pub key: String,
    pub value: PropertyValueOutput,
}

/// Whether a report shows a property as it is.
pub open spec fn shows_value(value: PropertyValue, output: PropertyValueOutput) -> bool
    decreases value,
{
    match (value, output) {
        (PropertyValue::Null, PropertyValueOutput::Null) => true,
        (PropertyValue::Bool(a), PropertyValueOutput::Bool(b)) => a == b,
        (PropertyValue::Number(a), PropertyValueOutput::Number(b)) => a == b,
        (PropertyValue::String(a), PropertyValueOutput::String(b)) => a == b,
        (PropertyValue::List(a), PropertyValueOutput::List(b)) => a@ == b@,
        (PropertyValue::Array(a), PropertyValueOutput::Array(b)) => a@.len() == b@.len()
            && forall|i: int| 0 <= i < a@.len() ==> shows_value(#[trigger] a@[i], b@[i]),
        (PropertyValue::Object(a), PropertyValueOutput::Object(b)) => a@.len() == b@.len()
            && forall|i: int|
            0 <= i < a@.len() ==> (#[trigger] a@[i]).key == b@[i].key && shows_value(
                a@[i].value,
                b@[i].value,
            ),
        _ => false,
    }
}

/// Whether a report shows the entries of a property object as they are.
pub open spec fn shows_entries(entries: Seq<PropertyEntry>, output: Seq<PropertyUpdateOutput>) -> bool {
    entries.len() == output.len() && forall|i: int|
        0 <= i < entries.len() ==> (#[trigger] entries[i]).key == output[i].key && shows_value(
            entries[i].value,
            output[i].value,
        )
}

impl PropertyValueOutput {
    /// A property as a report shows it.
    pub fn from(value: PropertyValue) -> (r: Self)
        ensures
            shows_value(value, r),
    {
        PropertyValueOutput::shown(&value)
    }

    /// A property as a report shows it.
    pub fn shown(value: &PropertyValue) -> (r: Self)
        ensures
            shows_value(*value, r),
        decreases value,
    {
        match value {
            PropertyValue::Null => PropertyValueOutput::Null,
            PropertyValue::Bool(value) => PropertyValueOutput::Bool(*value),
            PropertyValue::Number(value) => PropertyValueOutput::Number(value.clone()),
            PropertyValue::String(value) => PropertyValueOutput::String(value.clone()),
            PropertyValue::List(value) => PropertyValueOutput::List(text::clone_strings(value)),
            PropertyValue::Array(items) => {
                let mut out: Vec<PropertyValueOutput> = Vec::new();
                let mut i: usize = 0;
                while i < items.len()
                    invariant
                        i <= items.len(),
                        decreases_to!(value => items),
                        out@.len() == i,
                        forall|k: int|
                            0 <= k < out@.len() ==> shows_value(#[trigger] items@[k], out@[k]),
                    decreases items.len() - i,
                {
                    assert(decreases_to!(items => items@));
                    assert(decreases_to!(items@ => items@[i as int]));
                    out.push(PropertyValueOutput::shown(&items[i]));
                    i += 1;
                }
                PropertyValueOutput::Array(out)
            },
            PropertyValue::Object(entries) => PropertyValueOutput::Object(shown_updates(entries)),
        }
    }
}

/// The entries of a property object as a report shows them.
pub fn property_updates(entries: Vec<PropertyEntry>) -> (r: Vec<PropertyUpdateOutput>)
    ensures
        shows_entries(entries@, r@),
{
    shown_updates(&entries)
}

/// The entries of a property object as a report shows them.
pub fn shown_updates(entries: &Vec<PropertyEntry>) -> (r: Vec<PropertyUpdateOutput>)
    ensures
        shows_entries(entries@, r@),
    decreases entries,
{
    let mut out: Vec<PropertyUpdateOutput> = Vec::new();
    let mut i: usize = 0;
    while i < entries.len()
        invariant
            i <= entries.len(),
            out@.len() == i,
            forall|k: int|
                0 <= k < out@.len() ==> (#[trigger] entries@[k]).key == out@[k].key && shows_value(
                    entries@[k].value,
                    out@[k].value,
                ),
        decreases entries.len() - i,
    {
        let entry = &entries[i];
        assert(decreases_to!(entries => entries@));
        assert(decreases_to!(entries@ => entries@[i as int]));
        assert(decreases_to!(entry => entry.value));
        out.push(
            PropertyUpdateOutput {
                key: entry.key.clone(),
                value: PropertyValueOutput::shown(&entry.value),
            },
        );
        i += 1;
    }
    out
}

/// What kind of thing a remote entity is.
#[derive(Debug, PartialEq, Eq)]
pub enum EntityKind {
    Page,
    Database,
    Directory,
    Asset,
    Unknown(String),
}

/// One step of a push plan. Paths are in their logical form, with `/` between
/// components.
#[allow(inconsistent_fields)]
#[derive(Debug, PartialEq, Eq)]
pub enum PushOperation {
    UpdateBlock { block_id: String, content: String },
    ReplaceBlock { block_id: String, content: String },
    AppendBlock { parent_id: String, after: Option<String>, content: String },
    MoveBlock { block_id: String, after: Option<String> },
    UpdateMedia { block_id: String, local_path: String, caption: String },
    ArchiveBlock { block_id: String },
    ArchiveEntity { entity_id: String },
    UpdateEntityBody { entity_id: String, body: String },
    UpdateProperties { entity_id: String, properties: Vec<PropertyEntry> },
    MoveEntity {
        entity_id: String,
        new_parent_id: String,
        new_parent_kind: EntityKind,
        new_title: String,
        projected_path: String,
    },
    CreateEntity {
        parent_id: String,
        parent_workspace: bool,
        title: String,
        properties: Vec<PropertyEntry>,
        body: String,
        source_path: String,
    },
    CreateDatabase { parent_id: String, title: String, schema: String, source_path: String },
}

/// One step of a push plan, as a report shows it.
#[allow(inconsistent_fields)]
#[derive(Debug, PartialEq, Eq)]
pub enum PushOperationOutput {
    UpdateBlock { block_id: String, content: String },
    ReplaceBlock { block_id: String, content: String },
    AppendBlock { parent_id: String, after: Option<String>, content: String },
    MoveBlock { block_id: String, after: Option<String> },
    UpdateMedia { block_id: String, local_path: String, caption: String },
    ArchiveBlock { block_id: String },
    ArchiveEntity { entity_id: String },
    UpdateEntityBody { entity_id: String, body: String },
    UpdateProperties {
        entity_id: String,
        keys: Vec<String>,
        properties: Vec<PropertyUpdateOutput>,
    },
    MoveEntity {
        entity_id: String,
        new_parent_id: String,
        new_parent_kind: EntityKind,
        new_title: String,
        projected_path: String,
    },
    CreateEntity {
        parent_id: String,
        parent_workspace: bool,
        title: String,
        keys: Vec<String>,
        properties: Vec<PropertyUpdateOutput>,
        body: String,
        source_path: String,
    },
    CreateDatabase { parent_id: String, title: String, schema: String, source_path: String },
}

/// The keys of a property object, in order.
pub open spec fn keys_of(entries: Seq<PropertyEntry>) -> Seq<String> {
    Seq::new(entries.len(), |i: int| entries[i].key)
}

/// Whether a report shows a step of a plan as it is, with the keys of its
/// properties listed besides.
pub open spec fn shows_operation(operation: PushOperation, output: PushOperationOutput) -> bool {
    match operation {
        PushOperation::UpdateBlock { block_id, content } => output == (
        PushOperationOutput::UpdateBlock { block_id, content }),
        PushOperation::ReplaceBlock { block_id, content } => output == (
        PushOperationOutput::ReplaceBlock { block_id, content }),
        PushOperation::AppendBlock { parent_id, after, content } => output == (
        PushOperationOutput::AppendBlock { parent_id, after, content }),
        PushOperation::MoveBlock { block_id, after } => output == (
        PushOperationOutput::MoveBlock { block_id, after }),
        PushOperation::UpdateMedia { block_id, local_path, caption } => output == (
        PushOperationOutput::UpdateMedia { block_id, local_path, caption }),
        PushOperation::ArchiveBlock { block_id } => output == (
        PushOperationOutput::ArchiveBlock { block_id }),
        PushOperation::ArchiveEntity { entity_id } => output == (
        PushOperationOutput::ArchiveEntity { entity_id }),
        PushOperation::UpdateEntityBody { entity_id, body } => output == (
        PushOperationOutput::UpdateEntityBody { entity_id, body }),
        PushOperation::UpdateProperties { entity_id: id, properties: entries } => output matches
            PushOperationOutput::UpdateProperties { entity_id, keys, properties } && entity_id == id
            && keys@ == keys_of(entries@) && shows_entries(entries@, properties@),
        PushOperation::MoveEntity {
            entity_id,
            new_parent_id,
            new_parent_kind,
            new_title,
            projected_path,
        } => output == (PushOperationOutput::MoveEntity {
            entity_id,
            new_parent_id,
            new_parent_kind,
            new_title,
            projected_path,
        }),
        PushOperation::CreateEntity {
            parent_id: parent,
            parent_workspace: workspace,
            title: named,
            properties: entries,
            body: text,
            source_path: source,
        } => output matches PushOperationOutput::CreateEntity {
            parent_id,
            parent_workspace,
            title,
            keys,
            properties,
            body,
            source_path,
        } && parent_id == parent && parent_workspace == workspace && title == named && body == text
            && source_path == source && keys@ == keys_of(entries@) && shows_entries(
            entries@,
            properties@,
        ),
        PushOperation::CreateDatabase { parent_id, title, schema, source_path } => output == (
        PushOperationOutput::CreateDatabase { parent_id, title, schema, source_path }),
    }
}

fn property_keys(entries: &Vec<PropertyEntry>) -> (r: Vec<String>)
    ensures
        r@ == keys_of(entries@),
{
    let mut keys: Vec<String> = Vec::new();
    let mut i: usize = 0;
    while i < entries.len()
        invariant
            i <= entries.len(),
            keys@ == keys_of(entries@).take(i as int),
        decreases entries.len() - i,
    {
        keys.push(entries[i].key.clone());
        i += 1;
    }
    keys
}

impl PushOperationOutput {
    /// A step of a plan as a report shows it.
    pub fn from(value: PushOperation) -> (r: Self)
        ensures
            shows_operation(value, r),
    {
        PushOperationOutput::shown(&value)
    }

    /// A step of a plan as a report shows it.
    pub fn shown(value: &PushOperation) -> (r: Self)
        ensures
            shows_operation(*value, r),
    {
        match value {
            PushOperation::UpdateBlock { block_id, content } => PushOperationOutput::UpdateBlock {
                block_id: block_id.clone(),
                content: content.clone(),
            },
            PushOperation::ReplaceBlock { block_id, content } => PushOperationOutput::ReplaceBlock {
                block_id: block_id.clone(),
                content: content.clone(),
            },
            PushOperation::AppendBlock { parent_id, after, content } =>
            PushOperationOutput::AppendBlock {
                parent_id: parent_id.clone(),
                after: text::clone_option(after),
                content: content.clone(),
            },
            PushOperation::MoveBlock { block_id, after } => PushOperationOutput::MoveBlock {
                block_id: block_id.clone(),
                after: text::clone_option(after),
            },
            PushOperation::UpdateMedia { block_id, local_path, caption } =>
            PushOperationOutput::UpdateMedia {
                block_id: block_id.clone(),
                local_path: local_path.clone(),
                caption: caption.clone(),
            },
            PushOperation::ArchiveBlock { block_id } => PushOperationOutput::ArchiveBlock {
                block_id: block_id.clone(),
            },
            PushOperation::ArchiveEntity { entity_id } => PushOperationOutput::ArchiveEntity {
                entity_id: entity_id.clone(),
            },
            PushOperation::UpdateEntityBody { entity_id, body } =>
            PushOperationOutput::UpdateEntityBody {
                entity_id: entity_id.clone(),
                body: body.clone(),
            },
            PushOperation::UpdateProperties { entity_id, properties } =>
            PushOperationOutput::UpdateProperties {
                entity_id: entity_id.clone(),
                keys: property_keys(properties),
                properties: shown_updates(properties),
            },
            PushOperation::MoveEntity {
                entity_id,
                new_parent_id,
                new_parent_kind,
                new_title,
                projected_path,
            } => PushOperationOutput::MoveEntity {
                entity_id: entity_id.clone(),
                new_parent_id: new_parent_id.clone(),
                new_parent_kind: clone_kind(new_parent_kind),
                new_title: new_title.clone(),
                projected_path: projected_path.clone(),
            },
            PushOperation::CreateEntity {
                parent_id,
                parent_workspace,
                title,
                properties,
                body,
                source_path,
            } => PushOperationOutput::CreateEntity {
                parent_id: parent_id.clone(),
                parent_workspace: *parent_workspace,
                title: title.clone(),
                keys: property_keys(properties),
                properties: shown_updates(properties),
                body: body.clone(),
                source_path: source_path.clone(),
            },
            PushOperation::CreateDatabase { parent_id, title, schema, source_path } =>
            PushOperationOutput::CreateDatabase {
                parent_id: parent_id.clone(),
                title: title.clone(),
                schema: schema.clone(),
                source_path: source_path.clone(),
            },
        }
    }
}

/// How much a plan changes.
#[derive(Clone, Copy, Debug, PartialEq, Eq, Structural)]
pub struct PlanSummary {
    pub blocks_created: usize,
    pub blocks_updated: usize,
    pub blocks_replaced: usize,
    pub blocks_moved: usize,
    pub media_updated: usize,
    pub blocks_archived: usize,
    pub entities_created: usize,
    pub entities_archived: usize,
    pub entity_bodies_updated: usize,
    pub entities_moved: usize,
    pub properties_updated: usize,
}

/// How much a plan changes, as a report shows it.
#[derive(Clone, Copy, Debug, PartialEq, Eq, Structural)]
pub struct PlanSummaryOutput {
    pub blocks_created: usize,
    pub blocks_updated: usize,
    pub blocks_replaced: usize,
    pub blocks_moved: usize,
    pub media_updated: usize,
    pub blocks_archived: usize,
    pub entities_created: usize,
    pub entities_archived: usize,
    pub entity_bodies_updated: usize,
    pub entities_moved: usize,
    pub properties_updated: usize,
}

/// The summary that a report shows.
pub open spec fn summary_output(s: PlanSummary) -> PlanSummaryOutput {
    PlanSummaryOutput {
        blocks_created: s.blocks_created,
        blocks_updated: s.blocks_updated,
        blocks_replaced: s.blocks_replaced,
        blocks_moved: s.blocks_moved,
        media_updated: s.media_updated,
        blocks_archived: s.blocks_archived,
        entities_created: s.entities_created,
        entities_archived: s.entities_archived,
        entity_bodies_updated: s.entity_bodies_updated,
        entities_moved: s.entities_moved,
        properties_updated: s.properties_updated,
    }
}

impl PlanSummaryOutput {
    /// The summary that a report shows.
    pub fn from(value: PlanSummary) -> (r: Self)
        ensures
            r == summary_output(value),
    {
        PlanSummaryOutput {
            blocks_created: value.blocks_created,
            blocks_updated: value.blocks_updated,
            blocks_replaced: value.blocks_replaced,
            blocks_moved: value.blocks_moved,
            media_updated: value.media_updated,
            blocks_archived: value.blocks_archived,
            entities_created: value.entities_created,
            entities_archived: value.entities_archived,
            entity_bodies_updated: value.entity_bodies_updated,
            entities_moved: value.entities_moved,
            properties_updated: value.properties_updated,
        }
    }
}

/// Why a plan does less than asked.
#[derive(Clone, Copy, Debug, PartialEq, Eq, Structural)]
pub enum PlanDegradationKind {
    AmbiguousBlockAlignment,
}

/// A place where a plan does less than asked.
#[derive(Debug, PartialEq, Eq)]
pub struct PlanDegradation {
    pub kind: PlanDegradationKind,
    pub message: String,
}

/// A place where a plan does less than asked, as a report shows it.
#[derive(Debug, PartialEq, Eq)]
pub struct PlanDegradationOutput {
    pub kind: String,
    pub message: String,
}

/// The name of a kind of degradation.
pub open spec fn degradation_name(kind: PlanDegradationKind) -> Seq<char> {
    match kind {
        PlanDegradationKind::AmbiguousBlockAlignment => "ambiguous_block_alignment"@,
    }
}

/// The name of a kind of degradation.
pub fn degradation_kind_name(kind: &PlanDegradationKind) -> (r: &'static str)
    ensures
        r@ == degradation_name(*kind),
{
    match kind {
        PlanDegradationKind::AmbiguousBlockAlignment => "ambiguous_block_alignment",
    }
}

/// Whether a report shows a degradation as it is.
pub open spec fn shows_degradation(value: PlanDegradation, output: PlanDegradationOutput) -> bool {
    output.kind@ == degradation_name(value.kind) && output.message == value.message
}

impl PlanDegradationOutput {
    /// A degradation as a report shows it.
    pub fn from(value: PlanDegradation) -> (r: Self)
        ensures
            shows_degradation(value, r),
    {
        PlanDegradationOutput::shown(&value)
    }

    /// A degradation as a report shows it.
    pub fn shown(value: &PlanDegradation) -> (r: Self)
        ensures
            shows_degradation(*value, r),
    {
        PlanDegradationOutput {
            kind: degradation_kind_name(&value.kind).to_string(),
            message: value.message.clone(),
        }
    }
}

/// What a push would do.
#[derive(Debug, PartialEq, Eq)]
pub struct PushPlan {
    pub summary: PlanSummary,
    pub affected_entities: Vec<String>,
    pub operations: Vec<PushOperation>,
    pub degradations: Vec<PlanDegradation>,
}

/// What a push would do, as a report shows it.
#[derive(Debug, PartialEq, Eq)]
pub struct PushPlanOutput {
    pub summary: PlanSummaryOutput,
    pub affected_entities: Vec<String>,
    pub operations: Vec<PushOperationOutput>,
    pub degradations: Vec<PlanDegradationOutput>,
}

/// Whether a report shows a plan as it is, step for step.
pub open spec fn shows_plan(plan: PushPlan, output: PushPlanOutput) -> bool {
    &&& output.summary == summary_output(plan.summary)
    &&& output.affected_entities@ == plan.affected_entities@
    &&& output.operations@.len() == plan.operations@.len()
    &&& forall|i: int|
        0 <= i < plan.operations@.len() ==> shows_operation(
            #[trigger] plan.operations@[i],
            output.operations@[i],
        )
    &&& output.degradations@.len() == plan.degradations@.len()
    &&& forall|i: int|
        0 <= i < plan.degradations@.len() ==> shows_degradation(
            #[trigger] plan.degradations@[i],
            output.degradations@[i],
        )
}

impl PushPlanOutput {
    /// A plan as a report shows it.
    pub fn from(value: PushPlan) -> (r: Self)
        ensures
            shows_plan(value, r),
    {
        PushPlanOutput::shown(&value)
    }

    /// A plan as a report shows it.
    pub fn shown(value: &PushPlan) -> (r: Self)
        ensures
            shows_plan(*value, r),
    {
        let mut operations: Vec<PushOperationOutput> = Vec::new();
        let mut i: usize = 0;
        while i < value.operations.len()
            invariant
                i <= value.operations.len(),
                operations@.len() == i,
                forall|k: int|
                    0 <= k < operations@.len() ==> shows_operation(
                        #[trigger] value.operations@[k],
                        operations@[k],
                    ),
            decreases value.operations.len() - i,
        {
            operations.push(PushOperationOutput::shown(&value.operations[i]));
            i += 1;
        }
        let mut degradations: Vec<PlanDegradationOutput> = Vec::new();
        let mut j: usize = 0;
        while j < value.degradations.len()
            invariant
                j <= value.degradations.len(),
                degradations@.len() == j,
                forall|k: int|
                    0 <= k < degradations@.len() ==> shows_degradation(
                        #[trigger] value.degradations@[k],
                        degradations@[k],
                    ),
            decreases value.degradations.len() - j,
        {
            degradations.push(PlanDegradationOutput::shown(&value.degradations[j]));
            j += 1;
        }
        PushPlanOutput {
            summary: PlanSummaryOutput::from(value.summary),
            affected_entities: text::clone_strings(&value.affected_entities),
            operations,
            degradations,
        }
    }
}

/// Whether a plan may go ahead without a further word.
#[derive(Debug, PartialEq, Eq)]
pub enum GuardrailDecision {
    Proceed,
    ConfirmRequired { reasons: Vec<String> },
}

/// The guardrail decision as a report shows it.
#[derive(Debug, PartialEq, Eq)]
pub struct GuardrailOutput {
    pub decision: String,
    pub reasons: Vec<String>,
}

/// Whether a report shows a guardrail decision as it is.
pub open spec fn shows_guardrail(value: GuardrailDecision, output: GuardrailOutput) -> bool {
    match value {
        GuardrailDecision::Proceed => output.decision@ == "proceed"@ && output.reasons@
            == Seq::<String>::empty(),
        GuardrailDecision::ConfirmRequired { reasons } => output.decision@ == "confirm_required"@
            && output.reasons@ == reasons@,
    }
}

impl GuardrailOutput {
    /// Nothing to confirm.
    pub fn proceed() -> (r: Self)
        ensures
            shows_guardrail(GuardrailDecision::Proceed, r),
    {
        GuardrailOutput { decision: "proceed".to_string(), reasons: Vec::new() }
    }

    /// The guardrail decision as a report shows it.
    pub fn from(value: GuardrailDecision) -> (r: Self)
        ensures
            shows_guardrail(value, r),
    {
        GuardrailOutput::shown(&value)
    }

    /// The guardrail decision as a report shows it.
    pub fn shown(value: &GuardrailDecision) -> (r: Self)
        ensures
            shows_guardrail(*value, r),
    {
        match value {
            GuardrailDecision::Proceed => GuardrailOutput::proceed(),
            GuardrailDecision::ConfirmRequired { reasons } => GuardrailOutput {
                decision: "confirm_required".to_string(),
                reasons: text::clone_strings(reasons),
            },
        }
    }
}

/// What a push pipeline came to.
#[derive(Debug, PartialEq, Eq)]
pub enum PushPipelineAction {
    Noop,
    FixValidation,
    ConfirmPlan,
    ConfirmDangerousPlan,
    ProceedToApply,
    ReadOnlyBlocked,
    UnsupportedOperations { operations: Vec<String>, message: String, suggested_fix: String },
}

/// The name of what a push pipeline came to.
pub open spec fn action_text(action: PushPipelineAction) -> Seq<char> {
    match action {
        PushPipelineAction::Noop => "noop"@,
        PushPipelineAction::FixValidation => "fix_validation"@,
        PushPipelineAction::ConfirmPlan => "confirm_plan"@,
        PushPipelineAction::ConfirmDangerousPlan => "confirm_dangerous_plan"@,
        PushPipelineAction::ProceedToApply => "proceed_to_apply"@,
        PushPipelineAction::ReadOnlyBlocked => "read_only_blocked"@,
        PushPipelineAction::UnsupportedOperations { .. } => "unsupported_operations"@,
    }
}

/// The name of what a push pipeline came to.
pub fn action_name(action: &PushPipelineAction) -> (r: &'static str)
    ensures
        r@ == action_text(*action),
{
    match action {
        PushPipelineAction::Noop => "noop",
        PushPipelineAction::FixValidation => "fix_validation",
        PushPipelineAction::ConfirmPlan => "confirm_plan",
        PushPipelineAction::ConfirmDangerousPlan => "confirm_dangerous_plan",
        PushPipelineAction::ProceedToApply => "proceed_to_apply",
        PushPipelineAction::ReadOnlyBlocked => "read_only_blocked",
        PushPipelineAction::UnsupportedOperations { .. } => "unsupported_operations",
    }
}

/// The operations, message and fix that a report shows for `action`.
pub open spec fn shows_unsupported(
    action: PushPipelineAction,
    operations: Seq<String>,
    message: Option<String>,
    suggested_fix: Option<String>,
) -> bool {
    match action {
        PushPipelineAction::UnsupportedOperations {
            operations: named,
            message: said,
            suggested_fix: fix,
        } => operations == named@ && message == Some(said) && suggested_fix == Some(fix),
        _ => operations.len() == 0 && message is None && suggested_fix is None,
    }
}

/// The operations, message and fix that a report shows for `action`.
pub fn unsupported_action_fields(action: &PushPipelineAction) -> (r: (
    Vec<String>,
    Option<String>,
    Option<String>,
))
    ensures
        shows_unsupported(*action, r.0@, r.1, r.2),
{
    match action {
        PushPipelineAction::UnsupportedOperations { operations, message, suggested_fix } => (
            text::clone_strings(operations),
            Some(message.clone()),
            Some(suggested_fix.clone()),
        ),
        _ => (Vec::new(), None, None),
    }
}

/// A stage of the push pipeline.
#[derive(Clone, Copy, Debug, PartialEq, Eq, Structural)]
pub enum PushStage {
    ParseAndValidate,
    Diff,
    PlanAndConfirm,
    ConcurrencyCheckAndApply,
    JournalAndReconcile,
}

/// The name of a stage.
pub open spec fn stage_text(stage: PushStage) -> Seq<char> {
    match stage {
        PushStage::ParseAndValidate => "parse_and_validate"@,
        PushStage::Diff => "diff"@,
        PushStage::PlanAndConfirm => "plan_and_confirm"@,
        PushStage::ConcurrencyCheckAndApply => "concurrency_check_and_apply"@,
        PushStage::JournalAndReconcile => "journal_and_reconcile"@,
    }
}

/// The name of a stage.
pub fn stage_name(stage: &PushStage) -> (r: &'static str)
    ensures
        r@ == stage_text(*stage),
{
    match stage {
        PushStage::ParseAndValidate => "parse_and_validate",
        PushStage::Diff => "diff",
        PushStage::PlanAndConfirm => "plan_and_confirm",
        PushStage::ConcurrencyCheckAndApply => "concurrency_check_and_apply",
        PushStage::JournalAndReconcile => "journal_and_reconcile",
    }
}

/// A validation finding; the file is in its logical form.
#[derive(Debug, PartialEq, Eq)]
pub struct ValidationIssue {
    pub code: String,
    pub file: String,
    pub line: Option<usize>,
    pub message: String,
    pub suggested_fix: Option<String>,
}

/// A validation finding as a report shows it.
#[derive(Debug, PartialEq, Eq)]
pub struct ValidationIssueOutput {
    pub code: String,
    pub file: String,
    pub line: Option<usize>,
    pub message: String,
    pub suggested_fix: Option<String>,
}

/// The finding that a report shows.
pub open spec fn issue_output(value: ValidationIssue) -> ValidationIssueOutput {
    ValidationIssueOutput {
        code: value.code,
        file: value.file,
        line: value.line,
        message: value.message,
        suggested_fix: value.suggested_fix,
    }
}

impl ValidationIssueOutput {
    /// The finding that a report shows.
    pub fn from(value: ValidationIssue) -> (r: Self)
        ensures
            r == issue_output(value),
    {
        ValidationIssueOutput::shown(&value)
    }

    /// The finding that a report shows.
    pub fn shown(value: &ValidationIssue) -> (r: Self)
        ensures
            r == issue_output(*value),
    {
        ValidationIssueOutput {
            code: value.code.clone(),
            file: value.file.clone(),
            line: value.line,
            message: value.message.clone(),
            suggested_fix: text::clone_option(&value.suggested_fix),
        }
    }
}

/// What the push pipeline found for a file.
#[derive(Debug, PartialEq, Eq)]
pub struct PushPipelineResult {
    pub validation: Vec<ValidationIssue>,
    pub plan: Option<PushPlan>,
    pub guardrail: GuardrailDecision,
    pub action: PushPipelineAction,
    pub completed_stages: Vec<PushStage>,
}

/// One file of a readable diff.
#[derive(Debug, PartialEq, Eq)]
pub struct ReadableDiffFileOutput {
    pub path: String,
    pub old_label: String,
    pub new_label: String,
    pub status: String,
    pub patch: String,
}

/// A diff as a person reads it.
#[derive(Debug, PartialEq, Eq)]
pub struct ReadableDiffOutput {
    pub files: Vec<ReadableDiffFileOutput>,
    pub text: String,
}

/// The preview of a push.
#[derive(Debug, PartialEq, Eq)]
pub struct DiffReport {
    pub ok: bool,
    pub command: &'static str,
    pub path: String,
    pub mount_id: String,
    pub entity_id: String,
    pub validation: Vec<ValidationIssueOutput>,
    pub plan: Option<PushPlanOutput>,
    pub guardrail: GuardrailOutput,
    pub action: String,
    pub unsupported: Vec<String>,
    pub message: Option<String>,
    pub suggested_fix: Option<String>,
    /// The changes as a person reads them, where they were worked out.
    pub readable_diff: Option<ReadableDiffOutput>,
    pub completed_stages: Vec<String>,
}

/// Whether a pipeline result names operations that cannot be pushed.
pub open spec fn names_unsupported(action: PushPipelineAction) -> bool {
    match action {
        PushPipelineAction::UnsupportedOperations { operations, .. } => operations@.len() > 0,
        _ => false,
    }
}

/// Whether a report shows a pipeline result: it is fine exactly where nothing
/// was found wrong and nothing is unsupported, and every part is shown as it is.
pub open spec fn shows_pipeline(result: PushPipelineResult, report: DiffReport) -> bool {
    &&& report.ok == (result.validation@.len() == 0 && !names_unsupported(result.action))
    &&& report.validation@ == Seq::new(
        result.validation@.len(),
        |i: int| issue_output(result.validation@[i]),
    )
    &&& match (result.plan, report.plan) {
        (Some(plan), Some(shown)) => shows_plan(plan, shown),
        (None, None) => true,
        _ => false,
    }
    &&& shows_guardrail(result.guardrail, report.guardrail)
    &&& report.action@ == action_text(result.action)
    &&& shows_unsupported(
        result.action,
        report.unsupported@,
        report.message,
        report.suggested_fix,
    )
    &&& text::texts(report.completed_stages@) == Seq::new(
        result.completed_stages@.len(),
        |i: int| stage_text(result.completed_stages@[i]),
    )
}

impl DiffReport {
    /// The report on a pipeline result for the entity at `absolute_path`.
    pub fn from_pipeline(
        command: &'static str,
        absolute_path: String,
        mount_id: &String,
        entity_id: String,
        result: &PushPipelineResult,
    ) -> (r: Self)
        ensures
            r.command == command,
            r.path == absolute_path,
            r.mount_id == mount_id,
            r.entity_id == entity_id,
            r.readable_diff is None,
            shows_pipeline(*result, r),
    {
        let (unsupported, message, suggested_fix) = unsupported_action_fields(&result.action);
        let ok = result.validation.len() == 0 && unsupported.len() == 0;
        let mut issues: Vec<ValidationIssueOutput> = Vec::new();
        let mut j: usize = 0;
        while j < result.validation.len()
            invariant
                j <= result.validation.len(),
                issues@ == Seq::new(j as nat, |i: int| issue_output(result.validation@[i])),
            decreases result.validation.len() - j,
        {
            issues.push(ValidationIssueOutput::shown(&result.validation[j]));
            j += 1;
        }
        let mut stages: Vec<String> = Vec::new();
        let mut i: usize = 0;
        while i < result.completed_stages.len()
            invariant
                i <= result.completed_stages.len(),
                text::texts(stages@) == Seq::new(
                    i as nat,
                    |k: int| stage_text(result.completed_stages@[k]),
                ),
            decreases result.completed_stages.len() - i,
        {
            let ghost before = text::texts(stages@);
            stages.push(stage_name(&result.completed_stages[i]).to_string());
            assert(text::texts(stages@) =~= before.push(
                stage_text(result.completed_stages@[i as int]),
            ));
            i += 1;
        }
        DiffReport {
            ok,
            command,
            path: absolute_path,
            mount_id: mount_id.clone(),
            entity_id,
            validation: issues,
            plan: match &result.plan {
                Some(plan) => Some(PushPlanOutput::shown(plan)),
                None => None,
            },
            guardrail: GuardrailOutput::shown(&result.guardrail),
            action: action_name(&result.action).to_string(),
            unsupported,
            message,
            suggested_fix,
            readable_diff: None,
            completed_stages: stages,
        }
    }
}

/// What a push was allowed beforehand.
#[derive(Clone, Copy, Debug, PartialEq, Eq, Structural)]
pub struct PushApproval {
    pub assume_yes: bool,
    pub confirm_dangerous: bool,
}

/// For which command a preview is made, and what was allowed beforehand.
#[derive(Clone, Copy, Debug, PartialEq, Eq)]
pub struct PreviewOptions {
    pub command: &'static str,
    pub approval: PushApproval,
}

impl PreviewOptions {
    /// A preview for a command, with nothing allowed beforehand.
    pub fn new(command: &'static str) -> (r: Self)
        ensures
            r.command == command,
            r.approval == (PushApproval { assume_yes: false, confirm_dangerous: false }),
    {
        PreviewOptions {
            command,
            approval: PushApproval { assume_yes: false, confirm_dangerous: false },
        }
    }

    /// The preview with something allowed beforehand.
    pub fn with_approval(self, approval: PushApproval) -> (r: Self)
        ensures
            r.command == self.command,
            r.approval == approval,
    {
        PreviewOptions { command: self.command, approval }
    }
}

/// What has to be prepared for a preview.
#[derive(Debug, PartialEq, Eq)]
pub struct PushJob {
    pub target_path: String,
    pub assume_yes: bool,
    pub confirm_dangerous: bool,
}

/// What has to be prepared for a preview of a path.
pub fn push_job(target_path: &str, options: &PreviewOptions) -> (r: PushJob)
    ensures
        r.target_path@ == target_path@,
        r.assume_yes == options.approval.assume_yes,
        r.confirm_dangerous == options.approval.confirm_dangerous,
{
    PushJob {
        target_path: target_path.to_string(),
        assume_yes: options.approval.assume_yes,
        confirm_dangerous: options.approval.confirm_dangerous,
    }
}

/// A push that was prepared: where it goes, what was last synced there, and
/// what the pipeline found.
#[derive(Debug, PartialEq, Eq)]
pub struct PreparedPush {
    pub absolute_path: String,
    pub mount: MountConfig,
    pub entity: EntityRecord,
    pub shadows: Vec<ShadowDocument>,
    pub pipeline: PushPipelineResult,
    pub readable_diff: Option<ReadableDiffOutput>,
}

/// Why a push could not be prepared.
#[derive(Debug, PartialEq, Eq)]
pub enum PushPrepareError {
    MountNotFound(String),
    ReadFile { path: String, message: String },
    Store(StoreError),
    Core(LocalityError),
}

/// Why there is no preview.
#[derive(Debug, PartialEq, Eq)]
pub enum DiffError {
    MountNotFound(String),
    ReadFile { path: String, message: String },
    Store(StoreError),
    Prepare(LocalityError),
}

/// The failure of a preview whose push could not be prepared.
pub open spec fn preview_error(error: PushPrepareError) -> DiffError {
    match error {
        PushPrepareError::MountNotFound(path) => DiffError::MountNotFound(path),
        PushPrepareError::ReadFile { path, message } => DiffError::ReadFile { path, message },
        PushPrepareError::Store(error) => DiffError::Store(error),
        PushPrepareError::Core(error) => DiffError::Prepare(error),
    }
}

impl DiffError {
    /// The failure of a preview whose push could not be prepared.
    pub fn from(value: PushPrepareError) -> (r: Self)
        ensures
            r == preview_error(value),
    {
        match value {
            PushPrepareError::MountNotFound(path) => DiffError::MountNotFound(path),
            PushPrepareError::ReadFile { path, message } => DiffError::ReadFile { path, message },
            PushPrepareError::Store(error) => DiffError::Store(error),
            PushPrepareError::Core(error) => DiffError::Prepare(error),
        }
    }

    /// The code of the failure.
    pub open spec fn code_text(self) -> Seq<char> {
        match self {
            DiffError::MountNotFound(_) => "mount_not_found"@,
            DiffError::ReadFile { .. } => "read_file_failed"@,
            DiffError::Store(e) => match e.kind {
                StoreErrorKind::NotImplemented => "not_implemented"@,
                StoreErrorKind::ShadowMissing => "shadow_missing"@,
                StoreErrorKind::EntityPathMissing => "entity_path_missing"@,
                _ => "store_error"@,
            },
            DiffError::Prepare(e) => match e.kind {
                LocalityErrorKind::NotImplemented => "not_implemented"@,
                LocalityErrorKind::Validation => "validation_failed"@,
                LocalityErrorKind::Conflict => "conflict"@,
                LocalityErrorKind::Guardrail => "guardrail"@,
                LocalityErrorKind::RemoteNotFound => "remote_not_found"@,
                LocalityErrorKind::RateLimited => "rate_limited"@,
                LocalityErrorKind::InvalidState => "invalid_state"@,
                LocalityErrorKind::UpdateRequired => "update_required"@,
                LocalityErrorKind::Unsupported => "unsupported"@,
                LocalityErrorKind::Io => "io_error"@,
            },
        }
    }

    /// The code of the failure.
    pub fn code(&self) -> (r: &'static str)
        ensures
            r@ == self.code_text(),
    {
        match self {
            DiffError::MountNotFound(_) => "mount_not_found",
            DiffError::ReadFile { .. } => "read_file_failed",
            DiffError::Store(e) => match e.kind {
                StoreErrorKind::NotImplemented => "not_implemented",
                StoreErrorKind::ShadowMissing => "shadow_missing",
                StoreErrorKind::EntityPathMissing => "entity_path_missing",
                _ => "store_error",
            },
            DiffError::Prepare(e) => match e.kind {
                LocalityErrorKind::NotImplemented => "not_implemented",
                LocalityErrorKind::Validation => "validation_failed",
                LocalityErrorKind::Conflict => "conflict",
                LocalityErrorKind::Guardrail => "guardrail",
                LocalityErrorKind::RemoteNotFound => "remote_not_found",
                LocalityErrorKind::RateLimited => "rate_limited",
                LocalityErrorKind::InvalidState => "invalid_state",
                LocalityErrorKind::UpdateRequired => "update_required",
                LocalityErrorKind::Unsupported => "unsupported",
                LocalityErrorKind::Io => "io_error",
            },
        }
    }

    /// What the failure says.
    pub open spec fn message_text(self) -> Seq<char> {
        match self {
            DiffError::MountNotFound(path) => "no Locality mount contains `"@ + path@ + "`"@,
            DiffError::ReadFile { path, message } => "failed to read `"@ + path@ + "`: "@
                + message@,
            DiffError::Store(e) => e.message@,
            DiffError::Prepare(e) => e.message@,
        }
    }

    /// What the failure says.
    pub fn message(&self) -> (r: String)
        ensures
            r@ == self.message_text(),
    {
        match self {
            DiffError::MountNotFound(path) => text::concat3(
                "no Locality mount contains `",
                path,
                "`",
            ),
            DiffError::ReadFile { path, message } => {
                let mut words = text::concat3("failed to read `", path, "`: ");
                words.append(message);
                words
            },
            DiffError::Store(e) => e.message.clone(),
            DiffError::Prepare(e) => e.message.clone(),
        }
    }
}

/// A preview and what it was made from.
#[derive(Debug, PartialEq, Eq)]
pub struct PreviewArtifacts {
    pub report: DiffReport,
    pub mount: Option<MountConfig>,
    pub entity_id: Option<String>,
    pub entity: Option<EntityRecord>,
    pub shadow: Option<ShadowDocument>,
    pub pipeline: Option<PushPipelineResult>,
}

/// Whether a report previews a prepared push.
pub open spec fn previews(prepared: PreparedPush, command: Seq<char>, report: DiffReport) -> bool {
    &&& report.command@ == command
    &&& report.path == prepared.absolute_path
    &&& report.mount_id == prepared.mount.mount_id
    &&& report.entity_id == prepared.entity.remote_id
    &&& report.readable_diff == prepared.readable_diff
    &&& shows_pipeline(prepared.pipeline, report)
}

/// The preview of a push, with what it was made from.
pub fn run_preview_artifacts(
    prepared: Result<PreparedPush, PushPrepareError>,
    options: PreviewOptions,
) -> (r: Result<PreviewArtifacts, DiffError>)
    ensures
        match prepared {
            Err(e) => r == Err::<PreviewArtifacts, _>(preview_error(e)),
            Ok(p) => r matches Ok(a) && previews(p, options.command@, a.report) && a.mount == Some(
                p.mount,
            ) && a.entity_id == Some(p.entity.remote_id) && a.entity == Some(p.entity)
                && a.shadow == (if p.shadows@.len() > 0 {
                Some(p.shadows@[0])
            } else {
                None
            }) && a.pipeline == Some(p.pipeline),
        },
{
    let prepared = match prepared {
        Ok(prepared) => prepared,
        Err(e) => {
            return Err(DiffError::from(e));
        },
    };
    let PreparedPush { absolute_path, mount, entity, shadows, pipeline, readable_diff } = prepared;
    let mut report = DiffReport::from_pipeline(
        options.command,
        absolute_path,
        &mount.mount_id,
        entity.remote_id.clone(),
        &pipeline,
    );
    report.readable_diff = readable_diff;
    let shadow = if shadows.len() > 0 {
        Some(shadows[0].duplicate())
    } else {
        None
    };
    Ok(
        PreviewArtifacts {
            report,
            mount: Some(mount),
            entity_id: Some(entity.remote_id.clone()),
            entity: Some(entity),
            shadow,
            pipeline: Some(pipeline),
        },
    )
}

/// The preview of a push.
pub fn run_preview(
    prepared: Result<PreparedPush, PushPrepareError>,
    options: PreviewOptions,
) -> (r: Result<DiffReport, DiffError>)
    ensures
        match prepared {
            Err(e) => r == Err::<DiffReport, _>(preview_error(e)),
            Ok(p) => r matches Ok(report) && previews(p, options.command@, report),
        },
{
    match run_preview_artifacts(prepared, options) {
        Ok(artifacts) => Ok(artifacts.report),
        Err(e) => Err(e),
    }
}

/// The preview that `diff` shows.
pub fn run_diff(prepared: Result<PreparedPush, PushPrepareError>) -> (r: Result<
    DiffReport,
    DiffError,
>)
    ensures
        match prepared {
            Err(e) => r == Err::<DiffReport, _>(preview_error(e)),
            Ok(p) => r matches Ok(report) && previews(p, "diff"@, report),
        },
{
    run_preview(prepared, PreviewOptions::new("diff"))
}

} // verus!
