//! What can go wrong while a dialog turns its buffers into a request.
use vstd::prelude::*;
use crate::text_util::{lit_then, chars_of, append_chars};

verus! {

/// A validation or service failure, shown in the dialog's error line.
#[derive(Clone, Debug)]
pub enum AppInputError {
    /// A date text that is neither a shortcut nor `YYYY-MM-DD`; holds the text.
    InvalidDate(Vec<char>),
    /// A number that does not parse or breaks a bound; holds the detail.
    InvalidNumber(Vec<char>),
    /// A required field left empty.
    InputEmpty,
    /// A field that needs a selection has none.
    SelectionRequired,
    /// A failure reported by the fitness service; holds its rendering.
    DbError(Vec<char>),
    /// An exercise name that is empty once trimmed.
    ExerciseNameEmpty,
}

/// The line a dialog shows for an error.
pub open spec fn error_text(e: AppInputError) -> Seq<char> {
    match e {
        AppInputError::InvalidDate(d) => "Invalid date format: "@ + d@
            + ". Use YYYY-MM-DD or shortcuts."@,
        AppInputError::InvalidNumber(d) => "Invalid number format: "@ + d@,
        AppInputError::InputEmpty => "Input field cannot be empty."@,
        AppInputError::SelectionRequired => "Field requires a selection."@,
        AppInputError::DbError(d) => "Database error: "@ + d@,
        AppInputError::ExerciseNameEmpty => "Exercise name cannot be empty."@,
    }
}

impl AppInputError {
    /// The line a dialog shows for this error.
    pub fn message(&self) -> (r: Vec<char>)
        ensures
            r@ == error_text(*self),
    {
        match self {
            AppInputError::InvalidDate(d) => {
                let mut r = lit_then("Invalid date format: ", d);
                let tail = chars_of(". Use YYYY-MM-DD or shortcuts.");
                append_chars(&mut r, &tail);
                r
            },
            AppInputError::InvalidNumber(d) => lit_then("Invalid number format: ", d),
            AppInputError::InputEmpty => chars_of("Input field cannot be empty."),
            AppInputError::SelectionRequired => chars_of("Field requires a selection."),
            AppInputError::DbError(d) => lit_then("Database error: ", d),
            AppInputError::ExerciseNameEmpty => chars_of("Exercise name cannot be empty."),
        }
    }
}

} // verus!
