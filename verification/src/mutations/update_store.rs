//! Changing a store's name, email, website, or avatar.
use vstd::prelude::*;
use vstd::string::*;
use crate::failure::{Failure, FailureReason, is_failure};
use crate::guards::{not_member_message, require_member};
use crate::entities::Store;
use crate::patch::{
    Assignment, AssignmentView, FieldPatch, UpdateDecision, SqlValueView, assignments_view, column_after, modified_now,
    push_modified_now, push_text_option, push_text_patch, text_option_assignments, text_patch_assignments,
    text_value, lemma_column_after_concat, lemma_modified_now_effect, lemma_text_option_effect,
    lemma_text_option_elsewhere, lemma_text_patch_effect, lemma_text_patch_elsewhere,
};

verus! {

/// The message for a store that could not be found; it quotes the slug.
pub open spec fn store_not_found_message(slug: Seq<char>) -> Seq<char> {
    "The store '"@ + slug + "' could not be found"@
}

/// The store found by its slug (with whether the requester is a member), which the
/// requester must belong to.
pub fn check_store<T>(store: Option<T>, member_exists: Option<bool>, slug: &str) -> (found: Result<T, Failure>)
    ensures
        match store {
            None => found matches Err(f) && is_failure(f, FailureReason::NOT_FOUND, store_not_found_message(slug@)),
            Some(s) => if member_exists == Some(true) {
                found == Ok::<T, Failure>(s)
            } else {
                found matches Err(f) && is_failure(f, FailureReason::FORBIDDEN, not_member_message())
            },
        },
{
    match store {
        None => {
            let message = String::from_str("The store '").concat(slug).concat("' could not be found");
            Err(Failure::with_message(FailureReason::NOT_FOUND, message))
        },
        Some(s) => {
            require_member(member_exists)?;
            Ok(s)
        },
    }
}

/// The assignments of an update that sets these fields.
pub open spec fn update_assignments(
    name: Option<String>,
    email: FieldPatch<String>,
    website: FieldPatch<String>,
    avatar_url: FieldPatch<String>,
) -> Seq<AssignmentView> {
    text_option_assignments("name"@, name) + text_patch_assignments("email"@, email)
        + text_patch_assignments("website"@, website) + text_patch_assignments("avatar_url"@, avatar_url)
        + seq![modified_now()]
}

/// The update to run: none when the request changes nothing (the store is returned
/// as it is), otherwise the fields that are given, in order, and the modification time.
pub fn plan_update(
    name: Option<String>,
    email: FieldPatch<String>,
    website: FieldPatch<String>,
    avatar_url: FieldPatch<String>,
) -> (plan: Option<Vec<Assignment>>)
    ensures
        plan is None <==> (name is None && email is Undefined && website is Undefined && avatar_url is Undefined),
        plan matches Some(a) ==> assignments_view(a@) == update_assignments(name, email, website, avatar_url),
{
    if name.is_none() && email.is_undefined() && website.is_undefined() && avatar_url.is_undefined() {
        return None;
    }
    let ghost (n, e, w, a) = (name, email, website, avatar_url);
    let mut assignments: Vec<Assignment> = Vec::new();
    assert(assignments_view(assignments@) =~= seq![]);
    push_text_option(&mut assignments, "name", name);
    push_text_patch(&mut assignments, "email", email);
    push_text_patch(&mut assignments, "website", website);
    push_text_patch(&mut assignments, "avatar_url", avatar_url);
    push_modified_now(&mut assignments);
    assert(assignments_view(assignments@) =~= update_assignments(n, e, w, a));
    Some(assignments)
}

/// The whole decision once the store was looked up by its slug: a missing store fails
/// first, then a requester who is not a member; a request that changes nothing gives
/// the store as it is; otherwise the assignments to run.
pub fn decide_update<T>(
    store: Option<T>,
    member_exists: Option<bool>,
    slug: &str,
    name: Option<String>,
    email: FieldPatch<String>,
    website: FieldPatch<String>,
    avatar_url: FieldPatch<String>,
) -> (decision: Result<UpdateDecision<T>, Failure>)
    ensures
        match store {
            None => decision matches Err(f) && is_failure(f, FailureReason::NOT_FOUND, store_not_found_message(slug@)),
            Some(s) => if member_exists != Some(true) {
                decision matches Err(f) && is_failure(f, FailureReason::FORBIDDEN, not_member_message())
            } else if name is None && email is Undefined && website is Undefined && avatar_url is Undefined {
                decision == Ok::<UpdateDecision<T>, Failure>(UpdateDecision::Unchanged(s))
            } else {
                decision matches Ok(UpdateDecision::Run(a)) && assignments_view(a@) == update_assignments(
                    name,
                    email,
                    website,
                    avatar_url,
                )
            },
        },
{
    let found = match check_store(store, member_exists, slug) {
        Ok(s) => s,
        Err(f) => return Err(f),
    };
    match plan_update(name, email, website, avatar_url) {
        None => Ok(UpdateDecision::Unchanged(found)),
        Some(a) => Ok(UpdateDecision::Run(a)),
    }
}

/// An update of a store sets the name, email, website and avatar where the request
/// gives them a value (null or leaving one out keeps it), stamps the modification
/// time, and leaves every other column as it was.
pub proof fn lemma_update_changes_requested_fields(
    name: Option<String>,
    email: FieldPatch<String>,
    website: FieldPatch<String>,
    avatar_url: FieldPatch<String>,
    store: Store,
)
    ensures
        column_after(update_assignments(name, email, website, avatar_url), "name"@, SqlValueView::Text(store.name@))
            == SqlValueView::Text(
            match name {
                Some(n) => n@,
                None => store.name@,
            },
        ),
        column_after(update_assignments(name, email, website, avatar_url), "email"@, text_value(store.email))
            == text_value(email.apply(store.email)),
        column_after(update_assignments(name, email, website, avatar_url), "website"@, text_value(store.website))
            == text_value(website.apply(store.website)),
        column_after(update_assignments(name, email, website, avatar_url), "avatar_url"@, text_value(store.avatar_url))
            == text_value(avatar_url.apply(store.avatar_url)),
        forall|before: SqlValueView|
            #[trigger] column_after(update_assignments(name, email, website, avatar_url), "modified_at"@, before)
                == SqlValueView::Now,
        forall|column: Seq<char>, before: SqlValueView|
            column != "name"@ && column != "email"@ && column != "website"@ && column != "avatar_url"@ && column
                != "modified_at"@ ==> #[trigger] column_after(
                update_assignments(name, email, website, avatar_url),
                column,
                before,
            ) == before,
{
    reveal_strlit("name");
    reveal_strlit("email");
    reveal_strlit("website");
    reveal_strlit("avatar_url");
    reveal_strlit("modified_at");
    assert("name"@.len() == 4 && "email"@.len() == 5 && "website"@.len() == 7 && "avatar_url"@.len() == 10
        && "modified_at"@.len() == 11);
    let a = text_option_assignments("name"@, name);
    let b = text_patch_assignments("email"@, email);
    let c = text_patch_assignments("website"@, website);
    let d = text_patch_assignments("avatar_url"@, avatar_url);
    let e = seq![modified_now()];
    assert(update_assignments(name, email, website, avatar_url) == (((a + b) + c) + d) + e);
    assert forall|column: Seq<char>, before: SqlValueView| #[trigger]
        column_after(update_assignments(name, email, website, avatar_url), column, before) == column_after(
            e,
            column,
            column_after(d, column, column_after(c, column, column_after(b, column, column_after(a, column, before)))),
        ) by {
        lemma_column_after_concat(((a + b) + c) + d, e, column, before);
        lemma_column_after_concat((a + b) + c, d, column, before);
        lemma_column_after_concat(a + b, c, column, before);
        lemma_column_after_concat(a, b, column, before);
    }
    let n0 = SqlValueView::Text(store.name@);
    lemma_text_option_effect("name"@, name, store.name@);
    let n1 = column_after(a, "name"@, n0);
    lemma_text_patch_elsewhere("email"@, "name"@, email, n1);
    lemma_text_patch_elsewhere("website"@, "name"@, website, n1);
    lemma_text_patch_elsewhere("avatar_url"@, "name"@, avatar_url, n1);
    lemma_modified_now_effect("name"@, n1);
    let e0 = text_value(store.email);
    lemma_text_option_elsewhere("name"@, "email"@, name, e0);
    lemma_text_patch_effect("email"@, email, store.email);
    let e1 = text_value(email.apply(store.email));
    lemma_text_patch_elsewhere("website"@, "email"@, website, e1);
    lemma_text_patch_elsewhere("avatar_url"@, "email"@, avatar_url, e1);
    lemma_modified_now_effect("email"@, e1);
    let w0 = text_value(store.website);
    lemma_text_option_elsewhere("name"@, "website"@, name, w0);
    lemma_text_patch_elsewhere("email"@, "website"@, email, w0);
    lemma_text_patch_effect("website"@, website, store.website);
    let w1 = text_value(website.apply(store.website));
    lemma_text_patch_elsewhere("avatar_url"@, "website"@, avatar_url, w1);
    lemma_modified_now_effect("website"@, w1);
    let v0 = text_value(store.avatar_url);
    lemma_text_option_elsewhere("name"@, "avatar_url"@, name, v0);
    lemma_text_patch_elsewhere("email"@, "avatar_url"@, email, v0);
    lemma_text_patch_elsewhere("website"@, "avatar_url"@, website, v0);
    lemma_text_patch_effect("avatar_url"@, avatar_url, store.avatar_url);
    lemma_modified_now_effect("avatar_url"@, text_value(avatar_url.apply(store.avatar_url)));
    assert forall|before: SqlValueView|
        #[trigger] column_after(update_assignments(name, email, website, avatar_url), "modified_at"@, before)
            == SqlValueView::Now by {
        let m = "modified_at"@;
        lemma_modified_now_effect(m, column_after(d, m, column_after(c, m, column_after(b, m, column_after(a, m, before)))));
    }
    assert forall|column: Seq<char>, before: SqlValueView|
        column != "name"@ && column != "email"@ && column != "website"@ && column != "avatar_url"@ && column
            != "modified_at"@ implies #[trigger] column_after(
            update_assignments(name, email, website, avatar_url),
            column,
            before,
        ) == before by {
        lemma_text_option_elsewhere("name"@, column, name, before);
        lemma_text_patch_elsewhere("email"@, column, email, before);
        lemma_text_patch_elsewhere("website"@, column, website, before);
        lemma_text_patch_elsewhere("avatar_url"@, column, avatar_url, before);
        lemma_modified_now_effect(column, before);
    }
}

} // verus!
