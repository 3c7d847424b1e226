//! Whether two previews of a push show the same.
use vstd::prelude::*;

use crate::diff;
use crate::diff::{
    GuardrailOutput, PlanDegradationOutput, PropertyEntry, PropertyUpdateOutput, PropertyValue,
    PropertyValueOutput, PushOperation, PushOperationOutput, PushPlan, PushPlanOutput,
    ValidationIssueOutput,
};
use crate::model;
use crate::model::kinds_match;
use crate::text;

verus! {

/// Whether two lists hold the same texts.
pub fn same_strings(a: &Vec<String>, b: &Vec<String>) -> (r: bool)
    ensures
        r == (text::texts(a@) == text::texts(b@)),
{
    let ghost left = text::texts(a@);
    let ghost right = text::texts(b@);
    if a.len() != b.len() {
        assert(left.len() != right.len());
        return false;
    }
    let mut i: usize = 0;
    while i < a.len()
        invariant
            i <= a.len(),
            a.len() == b.len(),
            left == text::texts(a@),
            right == text::texts(b@),
            forall|k: int| 0 <= k < i ==> left[k] == right[k],
        decreases a.len() - i,
    {
        if !text::same_text(&a[i], &b[i]) {
            assert(left[i as int] != right[i as int]);
            return false;
        }
        i += 1;
    }
    assert(left =~= right);
    true
}

/// Whether two properties are the same.
pub open spec fn same_property(a: PropertyValueOutput, b: PropertyValueOutput) -> bool
    decreases a,
{
    match (a, b) {
        (PropertyValueOutput::Null, PropertyValueOutput::Null) => true,
        (PropertyValueOutput::Bool(x), PropertyValueOutput::Bool(y)) => x == y,
        (PropertyValueOutput::Number(x), PropertyValueOutput::Number(y)) => x@ == y@,
        (PropertyValueOutput::String(x), PropertyValueOutput::String(y)) => x@ == y@,
        (PropertyValueOutput::List(x), PropertyValueOutput::List(y)) => text::texts(x@)
            == text::texts(y@),
        (PropertyValueOutput::Array(x), PropertyValueOutput::Array(y)) => x@.len() == y@.len()
            && forall|i: int| 0 <= i < x@.len() ==> same_property(#[trigger] x@[i], y@[i]),
        (PropertyValueOutput::Object(x), PropertyValueOutput::Object(y)) => x@.len() == y@.len()
            && forall|i: int|
            0 <= i < x@.len() ==> (#[trigger] x@[i]).key@ == y@[i].key@ && same_property(
                x@[i].value,
                y@[i].value,
            ),
        _ => false,
    }
}

/// Whether two lists of entries are the same.
pub open spec fn same_entries(a: Seq<PropertyUpdateOutput>, b: Seq<PropertyUpdateOutput>) -> bool {
    a.len() == b.len() && forall|i: int|
        0 <= i < a.len() ==> (#[trigger] a[i]).key@ == b[i].key@ && same_property(
            a[i].value,
            b[i].value,
        )
}

/// Whether two properties are the same.
pub fn properties_match(a: &PropertyValueOutput, b: &PropertyValueOutput) -> (r: bool)
    ensures
        r == same_property(*a, *b),
    decreases a,
{
    match (a, b) {
        (PropertyValueOutput::Null, PropertyValueOutput::Null) => true,
        (PropertyValueOutput::Bool(x), PropertyValueOutput::Bool(y)) => *x == *y,
        (PropertyValueOutput::Number(x), PropertyValueOutput::Number(y)) => text::same_text(x, y),
        (PropertyValueOutput::String(x), PropertyValueOutput::String(y)) => text::same_text(x, y),
        (PropertyValueOutput::List(x), PropertyValueOutput::List(y)) => same_strings(x, y),
        (PropertyValueOutput::Array(x), PropertyValueOutput::Array(y)) => {
            if x.len() != y.len() {
                return false;
            }
            let mut i: usize = 0;
            while i < x.len()
                invariant
                    i <= x.len(),
                    x.len() == y.len(),
                    *a == PropertyValueOutput::Array(*x),
                    *b == PropertyValueOutput::Array(*y),
                    decreases_to!(a => x),
                    forall|k: int| 0 <= k < i ==> same_property(#[trigger] x@[k], y@[k]),
                decreases x.len() - i,
            {
                assert(decreases_to!(x => x@));
                assert(decreases_to!(x@ => x@[i as int]));
                if !properties_match(&x[i], &y[i]) {
                    return false;
                }
                i += 1;
            }
            true
        },
        (PropertyValueOutput::Object(x), PropertyValueOutput::Object(y)) => entries_match(x, y),
        _ => false,
    }
}

/// Whether two lists of entries are the same.
pub fn entries_match(a: &Vec<PropertyUpdateOutput>, b: &Vec<PropertyUpdateOutput>) -> (r: bool)
    ensures
        r == same_entries(a@, b@),
    decreases a,
{
    if a.len() != b.len() {
        return false;
    }
    let mut i: usize = 0;
    while i < a.len()
        invariant
            i <= a.len(),
            a.len() == b.len(),
            forall|k: int|
                0 <= k < i ==> (#[trigger] a@[k]).key@ == b@[k].key@ && same_property(
                    a@[k].value,
                    b@[k].value,
                ),
        decreases a.len() - i,
    {
        let left = &a[i];
        let right = &b[i];
        assert(decreases_to!(a => a@));
        assert(decreases_to!(a@ => a@[i as int]));
        assert(decreases_to!(left => left.value));
        if !text::same_text(&left.key, &right.key) || !properties_match(&left.value, &right.value) {
            return false;
        }
        i += 1;
    }
    true
}

/// Whether two steps of a plan are the same.
pub open spec fn same_operation(a: PushOperationOutput, b: PushOperationOutput) -> bool {
    match (a, b) {
        (
            PushOperationOutput::UpdateBlock { block_id, content },
            PushOperationOutput::UpdateBlock { block_id: id, content: new },
        ) => block_id@ == id@ && content@ == new@,
        (
            PushOperationOutput::ReplaceBlock { block_id, content },
            PushOperationOutput::ReplaceBlock { block_id: id, content: new },
        ) => block_id@ == id@ && content@ == new@,
        (
            PushOperationOutput::AppendBlock { parent_id, after, content },
            PushOperationOutput::AppendBlock { parent_id: id, after: behind, content: new },
        ) => parent_id@ == id@ && text::opt_text(after) == text::opt_text(behind) && content@
            == new@,
        (
            PushOperationOutput::MoveBlock { block_id, after },
            PushOperationOutput::MoveBlock { block_id: id, after: behind },
        ) => block_id@ == id@ && text::opt_text(after) == text::opt_text(behind),
        (
            PushOperationOutput::UpdateMedia { block_id, local_path, caption },
            PushOperationOutput::UpdateMedia { block_id: id, local_path: path, caption: words },
        ) => block_id@ == id@ && local_path@ == path@ && caption@ == words@,
        (
            PushOperationOutput::ArchiveBlock { block_id },
            PushOperationOutput::ArchiveBlock { block_id: id },
        ) => block_id@ == id@,
        (
            PushOperationOutput::ArchiveEntity { entity_id },
            PushOperationOutput::ArchiveEntity { entity_id: id },
        ) => entity_id@ == id@,
        (
            PushOperationOutput::UpdateEntityBody { entity_id, body },
            PushOperationOutput::UpdateEntityBody { entity_id: id, body: new },
        ) => entity_id@ == id@ && body@ == new@,
        (
            PushOperationOutput::UpdateProperties { entity_id, keys, properties },
            PushOperationOutput::UpdateProperties { entity_id: id, keys: named, properties: new },
        ) => entity_id@ == id@ && text::texts(keys@) == text::texts(named@) && same_entries(
            properties@,
            new@,
        ),
        (
            PushOperationOutput::MoveEntity {
                entity_id,
                new_parent_id,
                new_parent_kind,
                new_title,
                projected_path,
            },
            PushOperationOutput::MoveEntity {
                entity_id: id,
                new_parent_id: parent,
                new_parent_kind: kind,
                new_title: title,
                projected_path: path,
            },
        ) => entity_id@ == id@ && new_parent_id@ == parent@ && model::same_kind(
            new_parent_kind,
            kind,
        ) && new_title@ == title@ && projected_path@ == path@,
        (
            PushOperationOutput::CreateEntity {
                parent_id,
                parent_workspace,
                title,
                keys,
                properties,
                body,
                source_path,
            },
            PushOperationOutput::CreateEntity {
                parent_id: id,
                parent_workspace: workspace,
                title: name,
                keys: named,
                properties: new,
                body: words,
                source_path: source,
            },
        ) => parent_id@ == id@ && parent_workspace == workspace && title@ == name@ && text::texts(
            keys@,
        ) == text::texts(named@) && same_entries(properties@, new@) && body@ == words@
            && source_path@ == source@,
        (
            PushOperationOutput::CreateDatabase { parent_id, title, schema, source_path },
            PushOperationOutput::CreateDatabase {
                parent_id: id,
                title: name,
                schema: columns,
                source_path: source,
            },
        ) => parent_id@ == id@ && title@ == name@ && schema@ == columns@ && source_path@ == source@,
        _ => false,
    }
}

/// Whether two steps of a plan are the same.
pub fn operations_match(a: &PushOperationOutput, b: &PushOperationOutput) -> (r: bool)
    ensures
        r == same_operation(*a, *b),
{
    match (a, b) {
        (
            PushOperationOutput::UpdateBlock { block_id, content },
            PushOperationOutput::UpdateBlock { block_id: id, content: new },
        ) => text::same_text(block_id, id) && text::same_text(content, new),
        (
            PushOperationOutput::ReplaceBlock { block_id, content },
            PushOperationOutput::ReplaceBlock { block_id: id, content: new },
        ) => text::same_text(block_id, id) && text::same_text(content, new),
        (
            PushOperationOutput::AppendBlock { parent_id, after, content },
            PushOperationOutput::AppendBlock { parent_id: id, after: behind, content: new },
        ) => text::same_text(parent_id, id) && text::same_option(after, behind)
            && text::same_text(content, new),
        (
            PushOperationOutput::MoveBlock { block_id, after },
            PushOperationOutput::MoveBlock { block_id: id, after: behind },
        ) => text::same_text(block_id, id) && text::same_option(after, behind),
        (
            PushOperationOutput::UpdateMedia { block_id, local_path, caption },
            PushOperationOutput::UpdateMedia { block_id: id, local_path: path, caption: words },
        ) => text::same_text(block_id, id) && text::same_text(local_path, path)
            && text::same_text(caption, words),
        (
            PushOperationOutput::ArchiveBlock { block_id },
            PushOperationOutput::ArchiveBlock { block_id: id },
        ) => text::same_text(block_id, id),
        (
            PushOperationOutput::ArchiveEntity { entity_id },
            PushOperationOutput::ArchiveEntity { entity_id: id },
        ) => text::same_text(entity_id, id),
        (
            PushOperationOutput::UpdateEntityBody { entity_id, body },
            PushOperationOutput::UpdateEntityBody { entity_id: id, body: new },
        ) => text::same_text(entity_id, id) && text::same_text(body, new),
        (
            PushOperationOutput::UpdateProperties { entity_id, keys, properties },
            PushOperationOutput::UpdateProperties { entity_id: id, keys: named, properties: new },
        ) => text::same_text(entity_id, id) && same_strings(keys, named) && entries_match(
            properties,
            new,
        ),
        (
            PushOperationOutput::MoveEntity {
                entity_id,
                new_parent_id,
                new_parent_kind,
                new_title,
                projected_path,
            },
            PushOperationOutput::MoveEntity {
                entity_id: id,
                new_parent_id: parent,
                new_parent_kind: kind,
                new_title: title,
                projected_path: path,
            },
        ) => text::same_text(entity_id, id) && text::same_text(new_parent_id, parent)
            && kinds_match(new_parent_kind, kind) && text::same_text(new_title, title)
            && text::same_text(projected_path, path),
        (
            PushOperationOutput::CreateEntity {
                parent_id,
                parent_workspace,
                title,
                keys,
                properties,
                body,
                source_path,
            },
            PushOperationOutput::CreateEntity {
                parent_id: id,
                parent_workspace: workspace,
                title: name,
                keys: named,
                properties: new,
                body: words,
                source_path: source,
            },
        ) => text::same_text(parent_id, id) && *parent_workspace == *workspace && text::same_text(
            title,
            name,
        ) && same_strings(keys, named) && entries_match(properties, new) && text::same_text(
            body,
            words,
        ) && text::same_text(source_path, source),
        (
            PushOperationOutput::CreateDatabase { parent_id, title, schema, source_path },
            PushOperationOutput::CreateDatabase {
                parent_id: id,
                title: name,
                schema: columns,
                source_path: source,
            },
        ) => text::same_text(parent_id, id) && text::same_text(title, name) && text::same_text(
            schema,
            columns,
        ) && text::same_text(source_path, source),
        _ => false,
    }
}

/// Whether two degradations are the same.
pub open spec fn same_degradation(a: PlanDegradationOutput, b: PlanDegradationOutput) -> bool {
    a.kind@ == b.kind@ && a.message@ == b.message@
}

/// Whether two plans are the same.
pub open spec fn same_plan(a: PushPlanOutput, b: PushPlanOutput) -> bool {
    &&& a.summary == b.summary
    &&& text::texts(a.affected_entities@) == text::texts(b.affected_entities@)
    &&& a.operations@.len() == b.operations@.len()
    &&& forall|i: int|
        0 <= i < a.operations@.len() ==> same_operation(#[trigger] a.operations@[i], b.operations@[i])
    &&& a.degradations@.len() == b.degradations@.len()
    &&& forall|i: int|
        0 <= i < a.degradations@.len() ==> same_degradation(
            #[trigger] a.degradations@[i],
            b.degradations@[i],
        )
}

/// Whether two plans are the same.
pub fn plans_match(a: &PushPlanOutput, b: &PushPlanOutput) -> (r: bool)
    ensures
        r == same_plan(*a, *b),
{
    if a.summary != b.summary || !same_strings(&a.affected_entities, &b.affected_entities)
        || a.operations.len() != b.operations.len() || a.degradations.len()
        != b.degradations.len() {
        return false;
    }
    let mut i: usize = 0;
    while i < a.operations.len()
        invariant
            i <= a.operations.len(),
            a.operations.len() == b.operations.len(),
            forall|k: int|
                0 <= k < i ==> same_operation(#[trigger] a.operations@[k], b.operations@[k]),
        decreases a.operations.len() - i,
    {
        if !operations_match(&a.operations[i], &b.operations[i]) {
            return false;
        }
        i += 1;
    }
    let mut j: usize = 0;
    while j < a.degradations.len()
        invariant
            j <= a.degradations.len(),
            a.degradations.len() == b.degradations.len(),
            forall|k: int|
                0 <= k < j ==> same_degradation(#[trigger] a.degradations@[k], b.degradations@[k]),
        decreases a.degradations.len() - j,
    {
        let left = &a.degradations[j];
        let right = &b.degradations[j];
        if !text::same_text(&left.kind, &right.kind) || !text::same_text(
            &left.message,
            &right.message,
        ) {
            return false;
        }
        j += 1;
    }
    true
}

/// Whether two optional plans are the same.
pub open spec fn same_plans(a: Option<PushPlanOutput>, b: Option<PushPlanOutput>) -> bool {
    match (a, b) {
        (Some(x), Some(y)) => same_plan(x, y),
        (None, None) => true,
        _ => false,
    }
}

/// Whether two validation findings are the same.
pub open spec fn same_issue(a: ValidationIssueOutput, b: ValidationIssueOutput) -> bool {
    &&& a.code@ == b.code@
    &&& a.file@ == b.file@
    &&& a.line == b.line
    &&& a.message@ == b.message@
    &&& text::opt_text(a.suggested_fix) == text::opt_text(b.suggested_fix)
}

/// Whether two lists of validation findings are the same.
pub open spec fn same_issues(a: Seq<ValidationIssueOutput>, b: Seq<ValidationIssueOutput>) -> bool {
    a.len() == b.len() && forall|i: int| 0 <= i < a.len() ==> same_issue(#[trigger] a[i], b[i])
}

/// Whether two lists of validation findings are the same.
pub fn issues_match(a: &Vec<ValidationIssueOutput>, b: &Vec<ValidationIssueOutput>) -> (r: bool)
    ensures
        r == same_issues(a@, b@),
{
    if a.len() != b.len() {
        return false;
    }
    let mut i: usize = 0;
    while i < a.len()
        invariant
            i <= a.len(),
            a.len() == b.len(),
            forall|k: int| 0 <= k < i ==> same_issue(#[trigger] a@[k], b@[k]),
        decreases a.len() - i,
    {
        let left = &a[i];
        let right = &b[i];
        let same_line = match (left.line, right.line) {
            (Some(x), Some(y)) => x == y,
            (None, None) => true,
            _ => false,
        };
        if !same_line || !text::same_text(&left.code, &right.code) || !text::same_text(
            &left.file,
            &right.file,
        ) || !text::same_text(&left.message, &right.message) || !text::same_option(
            &left.suggested_fix,
            &right.suggested_fix,
        ) {
            return false;
        }
        i += 1;
    }
    true
}

/// Whether two guardrail decisions are the same.
pub open spec fn same_guardrail(a: GuardrailOutput, b: GuardrailOutput) -> bool {
    a.decision@ == b.decision@ && text::texts(a.reasons@) == text::texts(b.reasons@)
}

/// Whether two guardrail decisions are the same.
pub fn guardrails_match(a: &GuardrailOutput, b: &GuardrailOutput) -> (r: bool)
    ensures
        r == same_guardrail(*a, *b),
{
    text::same_text(&a.decision, &b.decision) && same_strings(&a.reasons, &b.reasons)
}

/// Two reports that show one property show the same.
pub proof fn lemma_shown_property_is_same(
    value: PropertyValue,
    a: PropertyValueOutput,
    b: PropertyValueOutput,
)
    requires
        diff::shows_value(value, a),
        diff::shows_value(value, b),
    ensures
        same_property(a, b),
    decreases value,
{
    match (value, a, b) {
        (
            PropertyValue::Array(v),
            PropertyValueOutput::Array(x),
            PropertyValueOutput::Array(y),
        ) => {
            assert forall|i: int| 0 <= i < x@.len() implies same_property(
                #[trigger] x@[i],
                y@[i],
            ) by {
                assert(diff::shows_value(v@[i], x@[i]));
                assert(decreases_to!(v => v@));
                assert(decreases_to!(v@ => v@[i]));
                lemma_shown_property_is_same(v@[i], x@[i], y@[i]);
            }
        },
        (
            PropertyValue::Object(v),
            PropertyValueOutput::Object(x),
            PropertyValueOutput::Object(y),
        ) => {
            assert forall|i: int| 0 <= i < x@.len() implies (#[trigger] x@[i]).key@ == y@[i].key@
                && same_property(x@[i].value, y@[i].value) by {
                let entry = v@[i];
                assert(decreases_to!(v => v@));
                assert(decreases_to!(v@ => v@[i]));
                assert(decreases_to!(entry => entry.value));
                lemma_shown_property_is_same(v@[i].value, x@[i].value, y@[i].value);
            }
        },
        _ => {},
    }
}

proof fn lemma_shown_entries_are_same(
    entries: Seq<PropertyEntry>,
    a: Seq<PropertyUpdateOutput>,
    b: Seq<PropertyUpdateOutput>,
)
    requires
        diff::shows_entries(entries, a),
        diff::shows_entries(entries, b),
    ensures
        same_entries(a, b),
{
    assert forall|i: int| 0 <= i < a.len() implies (#[trigger] a[i]).key@ == b[i].key@
        && same_property(a[i].value, b[i].value) by {
        assert(entries[i].key == a[i].key);
        lemma_shown_property_is_same(entries[i].value, a[i].value, b[i].value);
    }
}

proof fn lemma_shown_operation_is_same(
    operation: PushOperation,
    a: PushOperationOutput,
    b: PushOperationOutput,
)
    requires
        diff::shows_operation(operation, a),
        diff::shows_operation(operation, b),
    ensures
        same_operation(a, b),
{
    match (operation, a, b) {
        (
            PushOperation::UpdateProperties { properties, .. },
            PushOperationOutput::UpdateProperties { properties: x, .. },
            PushOperationOutput::UpdateProperties { properties: y, .. },
        ) => {
            lemma_shown_entries_are_same(properties@, x@, y@);
        },
        (
            PushOperation::CreateEntity { properties, .. },
            PushOperationOutput::CreateEntity { properties: x, .. },
            PushOperationOutput::CreateEntity { properties: y, .. },
        ) => {
            lemma_shown_entries_are_same(properties@, x@, y@);
        },
        _ => {},
    }
}

/// Two reports that show one plan show the same plan.
pub proof fn law_shown_plan_is_same(plan: PushPlan, a: PushPlanOutput, b: PushPlanOutput)
    requires
        diff::shows_plan(plan, a),
        diff::shows_plan(plan, b),
    ensures
        same_plan(a, b),
{
    assert forall|i: int| 0 <= i < a.operations@.len() implies same_operation(
        #[trigger] a.operations@[i],
        b.operations@[i],
    ) by {
        assert(diff::shows_operation(plan.operations@[i], a.operations@[i]));
        lemma_shown_operation_is_same(plan.operations@[i], a.operations@[i], b.operations@[i]);
    }
    assert forall|i: int| 0 <= i < a.degradations@.len() implies same_degradation(
        #[trigger] a.degradations@[i],
        b.degradations@[i],
    ) by {
        assert(diff::shows_degradation(plan.degradations@[i], a.degradations@[i]));
    }
}

} // verus!
