//! Changing a customer's email or name.
use vstd::prelude::*;
use crate::entities::Customer;
use crate::failure::{Failure, FailureReason, is_failure, id_message};
use crate::guards::require_found;
use crate::patch::{
    Assignment, AssignmentView, FieldPatch, UpdateDecision, SqlValueView, assignments_view, column_after, modified_now,
    push_modified_now, push_text_option, push_text_patch, text_option_assignments, text_patch_assignments,
    text_value, lemma_column_after_concat, lemma_modified_now_effect, lemma_text_option_effect,
    lemma_text_option_elsewhere, lemma_text_patch_effect, lemma_text_patch_elsewhere,
};

verus! {

/// The customer, if it belongs to one of the requester's stores.
pub fn require_customer(customer: Option<Customer>, id: u128) -> (found: Result<Customer, Failure>)
    ensures
        match customer {
            Some(c) => found == Ok::<Customer, Failure>(c),
            None => found matches Err(f) && is_failure(
                f,
                FailureReason::NOT_FOUND,
                id_message("The customer '"@, id, "' could not be found"@),
            ),
        },
{
    require_found(customer, "The customer '", id, "' could not be found")
}

/// The assignments of an update that sets these fields.
pub open spec fn update_assignments(email: Option<String>, name: FieldPatch<String>) -> Seq<AssignmentView> {
    text_option_assignments("email"@, email) + text_patch_assignments("name"@, name) + seq![modified_now()]
}

/// The update to run: none when the request changes nothing, otherwise the fields
/// that are given, in order, and the modification time. The email cannot be cleared.
pub fn plan_update(email: Option<String>, name: FieldPatch<String>) -> (plan: Option<Vec<Assignment>>)
    ensures
        plan is None <==> (email is None && name is Undefined),
        plan matches Some(a) ==> assignments_view(a@) == update_assignments(email, name),
{
    if email.is_none() && name.is_undefined() {
        return None;
    }
    let ghost (e, n) = (email, name);
    let mut assignments: Vec<Assignment> = Vec::new();
    assert(assignments_view(assignments@) =~= seq![]);
    push_text_option(&mut assignments, "email", email);
    push_text_patch(&mut assignments, "name", name);
    push_modified_now(&mut assignments);
    assert(assignments_view(assignments@) =~= update_assignments(e, n));
    Some(assignments)
}

/// The whole decision once the customer was looked up: a customer not found (or not
/// of the requester's stores) fails first; a request that changes nothing gives the
/// customer as it is; otherwise the assignments to run.
pub fn decide_update(
    customer: Option<Customer>,
    id: u128,
    email: Option<String>,
    name: FieldPatch<String>,
) -> (decision: Result<UpdateDecision<Customer>, Failure>)
    ensures
        match customer {
            None => decision matches Err(f) && is_failure(
                f,
                FailureReason::NOT_FOUND,
                id_message("The customer '"@, id, "' could not be found"@),
            ),
            Some(c) => if email is None && name is Undefined {
                decision == Ok::<UpdateDecision<Customer>, Failure>(UpdateDecision::Unchanged(c))
            } else {
                decision matches Ok(UpdateDecision::Run(a)) && assignments_view(a@) == update_assignments(email, name)
            },
        },
{
    let found = match require_customer(customer, id) {
        Ok(c) => c,
        Err(f) => return Err(f),
    };
    match plan_update(email, name) {
        None => Ok(UpdateDecision::Unchanged(found)),
        Some(a) => Ok(UpdateDecision::Run(a)),
    }
}

/// An update of a customer sets the email and the name where the request gives them a
/// value (a null name, like one left out, keeps it), stamps the modification time,
/// and leaves every other column as it was.
pub proof fn lemma_update_changes_requested_fields(email: Option<String>, name: FieldPatch<String>, customer: Customer)
    ensures
        column_after(update_assignments(email, name), "email"@, SqlValueView::Text(customer.email@))
            == SqlValueView::Text(
            match email {
                Some(e) => e@,
                None => customer.email@,
            },
        ),
        column_after(update_assignments(email, name), "name"@, text_value(customer.name)) == text_value(
            name.apply(customer.name),
        ),
        forall|before: SqlValueView|
            #[trigger] column_after(update_assignments(email, name), "modified_at"@, before) == SqlValueView::Now,
        forall|column: Seq<char>, before: SqlValueView|
            column != "email"@ && column != "name"@ && column != "modified_at"@ ==> #[trigger] column_after(
                update_assignments(email, name),
                column,
                before,
            ) == before,
{
    reveal_strlit("email");
    reveal_strlit("name");
    reveal_strlit("modified_at");
    assert("name"@.len() == 4 && "email"@.len() == 5 && "modified_at"@.len() == 11);
    assert("name"@ != "email"@);
    let a = text_option_assignments("email"@, email);
    let b = text_patch_assignments("name"@, name);
    let c = seq![modified_now()];
    assert(update_assignments(email, name) == (a + b) + c);
    assert forall|column: Seq<char>, before: SqlValueView| #[trigger]
        column_after(update_assignments(email, name), column, before) == column_after(
            c,
            column,
            column_after(b, column, column_after(a, column, before)),
        ) by {
        lemma_column_after_concat(a + b, c, column, before);
        lemma_column_after_concat(a, b, column, before);
    }
    let email_before = SqlValueView::Text(customer.email@);
    lemma_text_option_effect("email"@, email, customer.email@);
    lemma_text_patch_elsewhere("name"@, "email"@, name, column_after(a, "email"@, email_before));
    lemma_modified_now_effect("email"@, column_after(b, "email"@, column_after(a, "email"@, email_before)));
    let name_before = text_value(customer.name);
    lemma_text_option_elsewhere("email"@, "name"@, email, name_before);
    lemma_text_patch_effect("name"@, name, customer.name);
    lemma_modified_now_effect("name"@, column_after(b, "name"@, column_after(a, "name"@, name_before)));
    assert forall|before: SqlValueView|
        #[trigger] column_after(update_assignments(email, name), "modified_at"@, before) == SqlValueView::Now by {
        lemma_modified_now_effect("modified_at"@, column_after(b, "modified_at"@, column_after(a, "modified_at"@, before)));
    }
    assert forall|column: Seq<char>, before: SqlValueView|
        column != "email"@ && column != "name"@ && column != "modified_at"@ implies #[trigger] column_after(
            update_assignments(email, name),
            column,
            before,
        ) == before by {
        lemma_text_option_elsewhere("email"@, column, email, before);
        lemma_text_patch_elsewhere("name"@, column, name, before);
        lemma_modified_now_effect(column, before);
    }
}

} // verus!
