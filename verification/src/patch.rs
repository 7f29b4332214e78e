//! Partial updates: which fields a request changes, and the column assignments
//! that carry the change to the database.
use vstd::prelude::*;
use vstd::string::*;

verus! {

/// A field of an update request: left out, set to null, or set to a value. Only a
/// value changes the column; null, like a field left out, leaves it as it was.
pub enum FieldPatch<T> {
    Undefined,
    Null,
    Value(T),
}

impl<T> FieldPatch<T> {
    /// The field's value after the patch, given its value before.
    pub open spec fn apply(self, current: Option<T>) -> Option<T> {
        match self {
            FieldPatch::Undefined => current,
            FieldPatch::Null => current,
            FieldPatch::Value(v) => Some(v),
        }
    }

    pub fn is_undefined(&self) -> (undefined: bool)
        ensures
            undefined == (*self is Undefined),
    {
        match self {
            FieldPatch::Undefined => true,
            _ => false,
        }
    }
}

/// A value written into a column.
pub enum SqlValue {
    Text(String),
    Bool(bool),
    /// The database's current time.
    Now,
}

/// The mathematical form of a column value.
pub enum SqlValueView {
    Null,
    Text(Seq<char>),
    Bool(bool),
    Now,
}

impl View for SqlValue {
    type V = SqlValueView;

    open spec fn view(&self) -> SqlValueView {
        match self {
            SqlValue::Text(s) => SqlValueView::Text(s@),
            SqlValue::Bool(b) => SqlValueView::Bool(*b),
            SqlValue::Now => SqlValueView::Now,
        }
    }
}

/// `column = value` in an update.
pub struct Assignment {
    pub column: String,
    pub value: SqlValue,
}

/// The mathematical form of an assignment.
pub struct AssignmentView {
    pub column: Seq<char>,
    pub value: SqlValueView,
}

impl View for Assignment {
    type V = AssignmentView;

    open spec fn view(&self) -> AssignmentView {
        AssignmentView { column: self.column@, value: self.value@ }
    }
}

/// What an update request leads to once its row is found: the row as it is, where
/// the request changes nothing, or the assignments to run on it.
pub enum UpdateDecision<T> {
    Unchanged(T),
    Run(Vec<Assignment>),
}

/// The assignments of a list, as mathematical values.
pub open spec fn assignments_view(assignments: Seq<Assignment>) -> Seq<AssignmentView> {
    assignments.map_values(|a: Assignment| a@)
}

/// The assignments a text field contributes: one when it is given a value, none
/// when it is left out or set to null.
pub open spec fn text_patch_assignments(column: Seq<char>, patch: FieldPatch<String>) -> Seq<AssignmentView> {
    match patch {
        FieldPatch::Undefined => seq![],
        FieldPatch::Null => seq![],
        FieldPatch::Value(v) => seq![AssignmentView { column, value: SqlValueView::Text(v@) }],
    }
}

/// The assignments a field that cannot be cleared contributes: none when absent.
pub open spec fn text_option_assignments(column: Seq<char>, value: Option<String>) -> Seq<AssignmentView> {
    match value {
        None => seq![],
        Some(v) => seq![AssignmentView { column, value: SqlValueView::Text(v@) }],
    }
}

/// The assignments a flag contributes: none when absent.
pub open spec fn bool_option_assignments(column: Seq<char>, value: Option<bool>) -> Seq<AssignmentView> {
    match value {
        None => seq![],
        Some(v) => seq![AssignmentView { column, value: SqlValueView::Bool(v) }],
    }
}

/// The assignment that stamps the row as modified now.
pub open spec fn modified_now() -> AssignmentView {
    AssignmentView { column: "modified_at"@, value: SqlValueView::Now }
}

/// Appends the assignment for a text field, if the request gives it a value.
pub fn push_text_patch(assignments: &mut Vec<Assignment>, column: &str, patch: FieldPatch<String>)
    ensures
        assignments_view(final(assignments)@) == assignments_view(old(assignments)@) + text_patch_assignments(
            column@,
            patch,
        ),
{
    let ghost before = old(assignments)@;
    match patch {
        FieldPatch::Undefined => {},
        FieldPatch::Null => {},
        FieldPatch::Value(v) => {
            assignments.push(Assignment { column: String::from_str(column), value: SqlValue::Text(v) });
        },
    }
    assert(assignments_view(assignments@) =~= assignments_view(before) + text_patch_assignments(column@, patch));
}

/// Appends the assignment for a field that cannot be cleared, if the request sets it.
pub fn push_text_option(assignments: &mut Vec<Assignment>, column: &str, value: Option<String>)
    ensures
        assignments_view(final(assignments)@) == assignments_view(old(assignments)@) + text_option_assignments(
            column@,
            value,
        ),
{
    let ghost before = old(assignments)@;
    match value {
        None => {},
        Some(v) => {
            assignments.push(Assignment { column: String::from_str(column), value: SqlValue::Text(v) });
        },
    }
    assert(assignments_view(assignments@) =~= assignments_view(before) + text_option_assignments(column@, value));
}

/// Appends the assignment for a flag, if the request sets it.
pub fn push_bool_option(assignments: &mut Vec<Assignment>, column: &str, value: Option<bool>)
    ensures
        assignments_view(final(assignments)@) == assignments_view(old(assignments)@) + bool_option_assignments(
            column@,
            value,
        ),
{
    let ghost before = old(assignments)@;
    match value {
        None => {},
        Some(v) => {
            assignments.push(Assignment { column: String::from_str(column), value: SqlValue::Bool(v) });
        },
    }
    assert(assignments_view(assignments@) =~= assignments_view(before) + bool_option_assignments(column@, value));
}

/// Appends the assignment that stamps the row as modified now.
pub fn push_modified_now(assignments: &mut Vec<Assignment>)
    ensures
        assignments_view(final(assignments)@) == assignments_view(old(assignments)@).push(modified_now()),
{
    let ghost before = old(assignments)@;
    assignments.push(Assignment { column: String::from_str("modified_at"), value: SqlValue::Now });
    assert(assignments_view(assignments@) =~= assignments_view(before).push(modified_now()));
}

} // verus!

verus! {

/// A column's value written as a column value: null or text.
pub open spec fn text_value(value: Option<String>) -> SqlValueView {
    match value {
        None => SqlValueView::Null,
        Some(s) => SqlValueView::Text(s@),
    }
}

/// The value a column holds after the assignments run in order, given its value before:
/// the last assignment to the column wins.
pub open spec fn column_after(assignments: Seq<AssignmentView>, column: Seq<char>, before: SqlValueView) -> SqlValueView
    decreases assignments.len(),
{
    if assignments.len() == 0 {
        before
    } else if assignments.last().column == column {
        assignments.last().value
    } else {
        column_after(assignments.drop_last(), column, before)
    }
}

/// Running two lists of assignments one after the other is running their concatenation.
pub proof fn lemma_column_after_concat(
    first: Seq<AssignmentView>,
    second: Seq<AssignmentView>,
    column: Seq<char>,
    before: SqlValueView,
)
    ensures
        column_after(first + second, column, before) == column_after(
            second,
            column,
            column_after(first, column, before),
        ),
    decreases second.len(),
{
    if second.len() == 0 {
        assert(first + second =~= first);
    } else {
        assert((first + second).drop_last() =~= first + second.drop_last());
        assert((first + second).last() == second.last());
        lemma_column_after_concat(first, second.drop_last(), column, before);
    }
}

/// A text field's assignments set its column to the value the patch gives, and leave
/// it alone when the field is left out or null.
pub proof fn lemma_text_patch_effect(column: Seq<char>, patch: FieldPatch<String>, before: Option<String>)
    ensures
        column_after(text_patch_assignments(column, patch), column, text_value(before)) == text_value(
            patch.apply(before),
        ),
{
    reveal_with_fuel(column_after, 2);
}

/// A field's assignments touch no other column.
pub proof fn lemma_text_patch_elsewhere(
    column: Seq<char>,
    other: Seq<char>,
    patch: FieldPatch<String>,
    before: SqlValueView,
)
    requires
        column != other,
    ensures
        column_after(text_patch_assignments(column, patch), other, before) == before,
{
    reveal_with_fuel(column_after, 2);
}

/// A field that cannot be cleared takes the given value, or keeps its own.
pub proof fn lemma_text_option_effect(column: Seq<char>, value: Option<String>, before: Seq<char>)
    ensures
        column_after(text_option_assignments(column, value), column, SqlValueView::Text(before))
            == SqlValueView::Text(
            match value {
                Some(v) => v@,
                None => before,
            },
        ),
{
    reveal_with_fuel(column_after, 2);
}

pub proof fn lemma_text_option_elsewhere(column: Seq<char>, other: Seq<char>, value: Option<String>, before: SqlValueView)
    requires
        column != other,
    ensures
        column_after(text_option_assignments(column, value), other, before) == before,
{
    reveal_with_fuel(column_after, 2);
}

/// A flag takes the given value, or keeps its own.
pub proof fn lemma_bool_option_effect(column: Seq<char>, value: Option<bool>, before: bool)
    ensures
        column_after(bool_option_assignments(column, value), column, SqlValueView::Bool(before))
            == SqlValueView::Bool(
            match value {
                Some(v) => v,
                None => before,
            },
        ),
{
    reveal_with_fuel(column_after, 2);
}

pub proof fn lemma_bool_option_elsewhere(column: Seq<char>, other: Seq<char>, value: Option<bool>, before: SqlValueView)
    requires
        column != other,
    ensures
        column_after(bool_option_assignments(column, value), other, before) == before,
{
    reveal_with_fuel(column_after, 2);
}

/// The modification stamp sets `modified_at` to now and nothing else.
pub proof fn lemma_modified_now_effect(column: Seq<char>, before: SqlValueView)
    ensures
        column == "modified_at"@ ==> column_after(seq![modified_now()], column, before) == SqlValueView::Now,
        column != "modified_at"@ ==> column_after(seq![modified_now()], column, before) == before,
{
    reveal_with_fuel(column_after, 2);
}

} // verus!
