//! Changing a checkout link's label or success URL.
use vstd::prelude::*;
use crate::entities::CheckoutLink;
use crate::failure::{Failure, FailureReason, is_failure, id_message};
use crate::guards::require_found;
use crate::patch::{
    Assignment, FieldPatch, UpdateDecision, SqlValueView, assignments_view, column_after, modified_now, push_modified_now,
    push_text_patch, text_patch_assignments, text_value, lemma_column_after_concat, lemma_modified_now_effect,
    lemma_text_patch_effect, lemma_text_patch_elsewhere,
};

verus! {

/// The link, if it belongs to one of the requester's stores.
pub fn require_link(link: Option<CheckoutLink>, id: u128) -> (found: Result<CheckoutLink, Failure>)
    ensures
        match link {
            Some(l) => found == Ok::<CheckoutLink, Failure>(l),
            None => found matches Err(f) && is_failure(
                f,
                FailureReason::NOT_FOUND,
                id_message("The checkout link '"@, id, "' could not be found"@),
            ),
        },
{
    require_found(link, "The checkout link '", id, "' could not be found")
}

/// The assignments of an update that sets these fields.
pub open spec fn update_assignments(label: FieldPatch<String>, success_url: FieldPatch<String>) -> Seq<
    crate::patch::AssignmentView,
> {
    text_patch_assignments("label"@, label) + text_patch_assignments("success_url"@, success_url) + seq![
        modified_now(),
    ]
}

/// The update to run: none when the request changes nothing (the link is returned as
/// it is), otherwise the fields that are given, in order, and the modification time.
pub fn plan_update(label: FieldPatch<String>, success_url: FieldPatch<String>) -> (plan: Option<Vec<Assignment>>)
    ensures
        plan is None <==> (label is Undefined && success_url is Undefined),
        plan matches Some(a) ==> assignments_view(a@) == update_assignments(label, success_url),
{
    if label.is_undefined() && success_url.is_undefined() {
        return None;
    }
    let ghost (l, s) = (label, success_url);
    let mut assignments: Vec<Assignment> = Vec::new();
    assert(assignments_view(assignments@) =~= seq![]);
    push_text_patch(&mut assignments, "label", label);
    push_text_patch(&mut assignments, "success_url", success_url);
    push_modified_now(&mut assignments);
    assert(assignments_view(assignments@) =~= update_assignments(l, s));
    Some(assignments)
}

/// The whole decision once the link was looked up: a link not found (or not of the
/// requester's stores) fails first; a request that changes nothing gives the link
/// as it is; otherwise the assignments to run.
pub fn decide_update(
    link: Option<CheckoutLink>,
    id: u128,
    label: FieldPatch<String>,
    success_url: FieldPatch<String>,
) -> (decision: Result<UpdateDecision<CheckoutLink>, Failure>)
    ensures
        match link {
            None => decision matches Err(f) && is_failure(
                f,
                FailureReason::NOT_FOUND,
                id_message("The checkout link '"@, id, "' could not be found"@),
            ),
            Some(l) => if label is Undefined && success_url is Undefined {
                decision == Ok::<UpdateDecision<CheckoutLink>, Failure>(UpdateDecision::Unchanged(l))
            } else {
                decision matches Ok(UpdateDecision::Run(a)) && assignments_view(a@) == update_assignments(
                    label,
                    success_url,
                )
            },
        },
{
    let found = match require_link(link, id) {
        Ok(l) => l,
        Err(f) => return Err(f),
    };
    match plan_update(label, success_url) {
        None => Ok(UpdateDecision::Unchanged(found)),
        Some(a) => Ok(UpdateDecision::Run(a)),
    }
}

/// The label and success URL a link ends up with: each field takes the request's
/// value, or keeps the link's own where the request leaves it out or sets it null.
pub fn updated_fields(
    link: &CheckoutLink,
    label: FieldPatch<String>,
    success_url: FieldPatch<String>,
) -> (fields: (Option<String>, Option<String>))
    ensures
        fields.0 == label.apply(link.label),
        fields.1 == success_url.apply(link.success_url),
{
    let new_label = match label {
        FieldPatch::Undefined => link.label.clone(),
        FieldPatch::Null => link.label.clone(),
        FieldPatch::Value(v) => Some(v),
    };
    let new_success_url = match success_url {
        FieldPatch::Undefined => link.success_url.clone(),
        FieldPatch::Null => link.success_url.clone(),
        FieldPatch::Value(v) => Some(v),
    };
    (new_label, new_success_url)
}

/// An update of a link sets the label and the success URL where the request gives
/// them a value (null or leaving one out keeps it), stamps the modification time, and leaves
/// every other column as it was; the fields it ends up with are those that
/// `updated_fields` computes.
pub proof fn lemma_update_changes_requested_fields(
    label: FieldPatch<String>,
    success_url: FieldPatch<String>,
    link: CheckoutLink,
)
    ensures
        column_after(update_assignments(label, success_url), "label"@, text_value(link.label)) == text_value(
            label.apply(link.label),
        ),
        column_after(update_assignments(label, success_url), "success_url"@, text_value(link.success_url))
            == text_value(success_url.apply(link.success_url)),
        forall|before: SqlValueView|
            #[trigger] column_after(update_assignments(label, success_url), "modified_at"@, before) == SqlValueView::Now,
        forall|column: Seq<char>, before: SqlValueView|
            column != "label"@ && column != "success_url"@ && column != "modified_at"@ ==> #[trigger] column_after(
                update_assignments(label, success_url),
                column,
                before,
            ) == before,
{
    reveal_strlit("label");
    reveal_strlit("success_url");
    reveal_strlit("modified_at");
    assert("label"@.len() == 5 && "success_url"@.len() == 11 && "modified_at"@.len() == 11);
    assert("success_url"@[0] == 's');
    assert("modified_at"@[0] == 'm');
    assert("success_url"@ != "modified_at"@);
    let a = text_patch_assignments("label"@, label);
    let b = text_patch_assignments("success_url"@, success_url);
    let c = seq![modified_now()];
    assert(update_assignments(label, success_url) == (a + b) + c);
    assert forall|column: Seq<char>, before: SqlValueView| #[trigger]
        column_after(update_assignments(label, success_url), column, before) == column_after(
            c,
            column,
            column_after(b, column, column_after(a, column, before)),
        ) by {
        lemma_column_after_concat(a + b, c, column, before);
        lemma_column_after_concat(a, b, column, before);
    }
    lemma_text_patch_effect("label"@, label, link.label);
    let l1 = text_value(label.apply(link.label));
    lemma_text_patch_elsewhere("success_url"@, "label"@, success_url, l1);
    lemma_modified_now_effect("label"@, l1);
    let s0 = text_value(link.success_url);
    lemma_text_patch_elsewhere("label"@, "success_url"@, label, s0);
    lemma_text_patch_effect("success_url"@, success_url, link.success_url);
    lemma_modified_now_effect("success_url"@, text_value(success_url.apply(link.success_url)));
    assert forall|before: SqlValueView|
        #[trigger] column_after(update_assignments(label, success_url), "modified_at"@, before) == SqlValueView::Now by {
        let m = "modified_at"@;
        lemma_modified_now_effect(m, column_after(b, m, column_after(a, m, before)));
    }
    assert forall|column: Seq<char>, before: SqlValueView|
        column != "label"@ && column != "success_url"@ && column != "modified_at"@ implies #[trigger] column_after(
            update_assignments(label, success_url),
            column,
            before,
        ) == before by {
        lemma_text_patch_elsewhere("label"@, column, label, before);
        lemma_text_patch_elsewhere("success_url"@, column, success_url, before);
        lemma_modified_now_effect(column, before);
    }
}

} // verus!
