//! Changing a product's name, description, or archived flag.
use vstd::prelude::*;
use crate::entities::Product;
use crate::failure::{Failure, FailureReason, is_failure, id_message};
use crate::guards::require_found;
use crate::patch::{
    Assignment, AssignmentView, FieldPatch, UpdateDecision, SqlValueView, assignments_view, bool_option_assignments,
    column_after, modified_now, push_bool_option, push_modified_now, push_text_option, push_text_patch,
    text_option_assignments, text_patch_assignments, text_value, lemma_bool_option_effect,
    lemma_bool_option_elsewhere, lemma_column_after_concat, lemma_modified_now_effect,
    lemma_text_option_effect, lemma_text_option_elsewhere, lemma_text_patch_effect, lemma_text_patch_elsewhere,
};

verus! {

/// The product, if it belongs to one of the requester's stores.
pub fn require_product(product: Option<Product>, id: u128) -> (found: Result<Product, Failure>)
    ensures
        match product {
            Some(p) => found == Ok::<Product, Failure>(p),
            None => found matches Err(f) && is_failure(
                f,
                FailureReason::NOT_FOUND,
                id_message("The product '"@, id, "' could not be found"@),
            ),
        },
{
    require_found(product, "The product '", id, "' could not be found")
}

/// The assignments of an update that sets these fields.
pub open spec fn update_assignments(
    name: Option<String>,
    description: FieldPatch<String>,
    archived: Option<bool>,
) -> Seq<AssignmentView> {
    text_option_assignments("name"@, name) + text_patch_assignments("description"@, description)
        + bool_option_assignments("archived"@, archived) + seq![modified_now()]
}

/// The update to run: none when the request changes nothing, otherwise the fields
/// that are given, in order, and the modification time.
pub fn plan_update(name: Option<String>, description: FieldPatch<String>, archived: Option<bool>) -> (plan:
    Option<Vec<Assignment>>)
    ensures
        plan is None <==> (name is None && description is Undefined && archived is None),
        plan matches Some(a) ==> assignments_view(a@) == update_assignments(name, description, archived),
{
    if name.is_none() && description.is_undefined() && archived.is_none() {
        return None;
    }
    let ghost (n, d, r) = (name, description, archived);
    let mut assignments: Vec<Assignment> = Vec::new();
    assert(assignments_view(assignments@) =~= seq![]);
    push_text_option(&mut assignments, "name", name);
    push_text_patch(&mut assignments, "description", description);
    push_bool_option(&mut assignments, "archived", archived);
    push_modified_now(&mut assignments);
    assert(assignments_view(assignments@) =~= update_assignments(n, d, r));
    Some(assignments)
}

/// The whole decision once the product was looked up: a product not found (or not
/// the requester's) fails first; a request that changes nothing gives the product as
/// it is; otherwise the assignments to run.
pub fn decide_update(
    product: Option<Product>,
    id: u128,
    name: Option<String>,
    description: FieldPatch<String>,
    archived: Option<bool>,
) -> (decision: Result<UpdateDecision<Product>, Failure>)
    ensures
        match product {
            None => decision matches Err(f) && is_failure(
                f,
                FailureReason::NOT_FOUND,
                id_message("The product '"@, id, "' could not be found"@),
            ),
            Some(p) => if name is None && description is Undefined && archived is None {
                decision == Ok::<UpdateDecision<Product>, Failure>(UpdateDecision::Unchanged(p))
            } else {
                decision matches Ok(UpdateDecision::Run(a)) && assignments_view(a@) == update_assignments(
                    name,
                    description,
                    archived,
                )
            },
        },
{
    let found = match require_product(product, id) {
        Ok(p) => p,
        Err(f) => return Err(f),
    };
    match plan_update(name, description, archived) {
        None => Ok(UpdateDecision::Unchanged(found)),
        Some(a) => Ok(UpdateDecision::Run(a)),
    }
}

/// An update of a product sets the name and the archived flag where they are given,
/// sets the description where a value is given (null or leaving it out keeps it),
/// stamps the modification time, and leaves every other column as it was.
pub proof fn lemma_update_changes_requested_fields(
    name: Option<String>,
    description: FieldPatch<String>,
    archived: Option<bool>,
    product: Product,
)
    ensures
        column_after(update_assignments(name, description, archived), "name"@, SqlValueView::Text(product.name@))
            == SqlValueView::Text(
            match name {
                Some(n) => n@,
                None => product.name@,
            },
        ),
        column_after(update_assignments(name, description, archived), "description"@, text_value(product.description))
            == text_value(description.apply(product.description)),
        column_after(update_assignments(name, description, archived), "archived"@, SqlValueView::Bool(product.archived))
            == SqlValueView::Bool(
            match archived {
                Some(a) => a,
                None => product.archived,
            },
        ),
        forall|before: SqlValueView|
            #[trigger] column_after(update_assignments(name, description, archived), "modified_at"@, before)
                == SqlValueView::Now,
        forall|column: Seq<char>, before: SqlValueView|
            column != "name"@ && column != "description"@ && column != "archived"@ && column != "modified_at"@
                ==> #[trigger] column_after(update_assignments(name, description, archived), column, before) == before,
{
    reveal_strlit("name");
    reveal_strlit("description");
    reveal_strlit("archived");
    reveal_strlit("modified_at");
    assert("name"@.len() == 4 && "description"@.len() == 11 && "archived"@.len() == 8 && "modified_at"@.len() == 11);
    assert("description"@[0] == 'd');
    assert("modified_at"@[0] == 'm');
    assert("description"@ != "modified_at"@);
    let a = text_option_assignments("name"@, name);
    let b = text_patch_assignments("description"@, description);
    let c = bool_option_assignments("archived"@, archived);
    let d = seq![modified_now()];
    assert(update_assignments(name, description, archived) == ((a + b) + c) + d);
    assert forall|column: Seq<char>, before: SqlValueView| #[trigger]
        column_after(update_assignments(name, description, archived), column, before) == column_after(
            d,
            column,
            column_after(c, column, column_after(b, column, column_after(a, column, before))),
        ) by {
        lemma_column_after_concat((a + b) + c, d, column, before);
        lemma_column_after_concat(a + b, c, column, before);
        lemma_column_after_concat(a, b, column, before);
    }
    let n0 = SqlValueView::Text(product.name@);
    lemma_text_option_effect("name"@, name, product.name@);
    lemma_text_patch_elsewhere("description"@, "name"@, description, column_after(a, "name"@, n0));
    lemma_bool_option_elsewhere("archived"@, "name"@, archived, column_after(b, "name"@, column_after(a, "name"@, n0)));
    lemma_modified_now_effect("name"@, column_after(c, "name"@, column_after(b, "name"@, column_after(a, "name"@, n0))));
    let d0 = text_value(product.description);
    lemma_text_option_elsewhere("name"@, "description"@, name, d0);
    lemma_text_patch_effect("description"@, description, product.description);
    lemma_bool_option_elsewhere("archived"@, "description"@, archived, column_after(b, "description"@, column_after(a, "description"@, d0)));
    lemma_modified_now_effect("description"@, column_after(c, "description"@, column_after(b, "description"@, column_after(a, "description"@, d0))));
    let r0 = SqlValueView::Bool(product.archived);
    lemma_text_option_elsewhere("name"@, "archived"@, name, r0);
    lemma_text_patch_elsewhere("description"@, "archived"@, description, column_after(a, "archived"@, r0));
    lemma_bool_option_effect("archived"@, archived, product.archived);
    lemma_modified_now_effect("archived"@, column_after(c, "archived"@, column_after(b, "archived"@, column_after(a, "archived"@, r0))));
    assert forall|before: SqlValueView|
        #[trigger] column_after(update_assignments(name, description, archived), "modified_at"@, before)
            == SqlValueView::Now by {
        lemma_modified_now_effect(
            "modified_at"@,
            column_after(c, "modified_at"@, column_after(b, "modified_at"@, column_after(a, "modified_at"@, before))),
        );
    }
    assert forall|column: Seq<char>, before: SqlValueView|
        column != "name"@ && column != "description"@ && column != "archived"@ && column != "modified_at"@
            implies #[trigger] column_after(update_assignments(name, description, archived), column, before) == before by {
        lemma_text_option_elsewhere("name"@, column, name, before);
        lemma_text_patch_elsewhere("description"@, column, description, before);
        lemma_bool_option_elsewhere("archived"@, column, archived, before);
        lemma_modified_now_effect(column, before);
    }
}

} // verus!
