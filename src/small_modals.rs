//! The smaller dialogs: logging a bodyweight, setting the target weight,
//! the two delete confirmations, the personal-best notice and help.
use vstd::prelude::*;
use crate::dates::{Date, date_choice, previous_day_of, ymd_parse_of, parse_modal_date};
use crate::errors::{AppInputError, error_text};
use crate::events::{FailureKind, Key, ModalStep, PersonalBests, ServiceFailure, ServiceRequest};
use crate::fields::{LogBodyweightField, PbModalField, SetTargetWeightField};
use crate::numeric::{is_digit, parse_decimal_spec, parse_modal_weight};
use crate::text_util::{chars_of, copy_chars, lit_then, lower_of, trim_of};
use crate::workout_modal::{error_is, popped};

verus! {

/// Whether a typed character is kept in a weight buffer.
pub open spec fn weight_char(c: char) -> bool {
    is_digit(c) || c == '.'
}

fn push_weight_char(s: &mut Vec<char>, c: char)
    ensures
        final(s)@ == if weight_char(c) {
            old(s)@.push(c)
        } else {
            old(s)@
        },
{
    if ('0' <= c && c <= '9') || c == '.' {
        s.push(c);
    }
}

fn pop_char(s: &mut Vec<char>)
    ensures
        final(s)@ == popped(old(s)@),
{
    if s.len() > 0 {
        s.pop();
    }
}

/// What a required weight text yields: a positive quantity in thousandths,
/// or the error line.
pub open spec fn weight_outcome(s: Seq<char>) -> Result<int, Seq<char>> {
    let t = trim_of(s);
    if t.len() == 0 {
        Err("Input field cannot be empty."@)
    } else {
        match parse_decimal_spec(t) {
            Some(v) => if v > 0 {
                Ok(v)
            } else {
                Err("Invalid number format: "@ + "Weight must be positive"@)
            },
            None => Err("Invalid number format: "@ + "invalid float literal"@),
        }
    }
}

proof fn lemma_weight_outcome(s: Seq<char>, r: Result<u64, AppInputError>)
    requires
        trim_of(s).len() == 0 ==> r matches Err(AppInputError::InputEmpty),
        trim_of(s).len() > 0 ==> match parse_decimal_spec(trim_of(s)) {
            Some(v) => if v > 0 {
                r == Ok::<u64, AppInputError>(v as u64)
            } else {
                r matches Err(AppInputError::InvalidNumber(d)) && d@ == "Weight must be positive"@
            },
            None => r matches Err(AppInputError::InvalidNumber(d)) && d@ == "invalid float literal"@,
        },
    ensures
        match weight_outcome(s) {
            Ok(v) => r matches Ok(w) && w as int == v,
            Err(m) => r matches Err(e) && error_text(e) == m,
        },
{
    crate::numeric::lemma_decimal_bounds(trim_of(s));
}

/// The log-bodyweight dialog.
#[derive(Clone, Debug)]
pub struct LogBodyweightModal {
    pub weight_input: Vec<char>,
    pub date_input: Vec<char>,
    pub focused_field: LogBodyweightField,
    pub error_message: Option<Vec<char>>,
}

/// Where a key moves focus in the bodyweight dialog, if it does.
pub open spec fn bodyweight_move(f: LogBodyweightField, key: Key) -> Option<LogBodyweightField> {
    match (f, key) {
        (LogBodyweightField::Weight, Key::Enter) | (LogBodyweightField::Weight, Key::Down) | (
            LogBodyweightField::Weight,
            Key::Tab,
        ) => Some(LogBodyweightField::Date),
        (LogBodyweightField::Weight, Key::Up) => Some(LogBodyweightField::Cancel),
        (LogBodyweightField::Date, Key::Enter) | (LogBodyweightField::Date, Key::Down) | (
            LogBodyweightField::Date,
            Key::Tab,
        ) => Some(LogBodyweightField::Confirm),
        (LogBodyweightField::Date, Key::Up) => Some(LogBodyweightField::Weight),
        (LogBodyweightField::Confirm, Key::Left) | (LogBodyweightField::Confirm, Key::Backspace) | (
            LogBodyweightField::Confirm,
            Key::Down,
        ) | (LogBodyweightField::Confirm, Key::Tab) => Some(LogBodyweightField::Cancel),
        (LogBodyweightField::Confirm, Key::Up) => Some(LogBodyweightField::Date),
        (LogBodyweightField::Cancel, Key::Right) => Some(LogBodyweightField::Confirm),
        (LogBodyweightField::Cancel, Key::Up) => Some(LogBodyweightField::Date),
        (LogBodyweightField::Cancel, Key::Down) | (LogBodyweightField::Cancel, Key::Tab) => Some(
            LogBodyweightField::Weight,
        ),
        _ => None,
    }
}

fn bodyweight_target(f: LogBodyweightField, key: Key) -> (r: Option<LogBodyweightField>)
    ensures
        r == bodyweight_move(f, key),
{
    match (f, key) {
        (LogBodyweightField::Weight, Key::Enter) | (LogBodyweightField::Weight, Key::Down) | (
            LogBodyweightField::Weight,
            Key::Tab,
        ) => Some(LogBodyweightField::Date),
        (LogBodyweightField::Weight, Key::Up) => Some(LogBodyweightField::Cancel),
        (LogBodyweightField::Date, Key::Enter) | (LogBodyweightField::Date, Key::Down) | (
            LogBodyweightField::Date,
            Key::Tab,
        ) => Some(LogBodyweightField::Confirm),
        (LogBodyweightField::Date, Key::Up) => Some(LogBodyweightField::Weight),
        (LogBodyweightField::Confirm, Key::Left) | (LogBodyweightField::Confirm, Key::Backspace) | (
            LogBodyweightField::Confirm,
            Key::Down,
        ) | (LogBodyweightField::Confirm, Key::Tab) => Some(LogBodyweightField::Cancel),
        (LogBodyweightField::Confirm, Key::Up) => Some(LogBodyweightField::Date),
        (LogBodyweightField::Cancel, Key::Right) => Some(LogBodyweightField::Confirm),
        (LogBodyweightField::Cancel, Key::Up) => Some(LogBodyweightField::Date),
        (LogBodyweightField::Cancel, Key::Down) | (LogBodyweightField::Cancel, Key::Tab) => Some(
            LogBodyweightField::Weight,
        ),
        _ => None,
    }
}

/// The date a bodyweight entry is logged for, relative to `today`.
pub open spec fn entry_date(s: Seq<char>, today: Date) -> Option<Date> {
    date_choice(lower_of(trim_of(s)), today, previous_day_of(today), ymd_parse_of(lower_of(trim_of(s))))
}

/// One key in the bodyweight dialog, after its error line was cleared.
pub open spec fn log_bodyweight_step(
    m: LogBodyweightModal,
    n: LogBodyweightModal,
    key: Key,
    today: Date,
    r: ModalStep,
) -> bool {
    let f = m.focused_field;
    if key == Key::Esc {
        r is Close
    } else if let Some(t) = bodyweight_move(f, key) {
        n == (LogBodyweightModal { focused_field: t, ..m }) && r is Stay
    } else {
        match (f, key) {
            (LogBodyweightField::Weight, Key::Char(c)) => n == (LogBodyweightModal {
                weight_input: n.weight_input,
                ..m
            }) && n.weight_input@ == (if weight_char(c) {
                m.weight_input@.push(c)
            } else {
                m.weight_input@
            }) && r is Stay,
            (LogBodyweightField::Weight, Key::Backspace) => n == (LogBodyweightModal {
                weight_input: n.weight_input,
                ..m
            }) && n.weight_input@ == popped(m.weight_input@) && r is Stay,
            (LogBodyweightField::Date, Key::Char(c)) => n == (LogBodyweightModal {
                date_input: n.date_input,
                ..m
            }) && n.date_input@ == m.date_input@.push(c) && r is Stay,
            (LogBodyweightField::Date, Key::Backspace) => n == (LogBodyweightModal {
                date_input: n.date_input,
                ..m
            }) && n.date_input@ == popped(m.date_input@) && r is Stay,
            (LogBodyweightField::Confirm, Key::Enter) => match weight_outcome(m.weight_input@) {
                Err(msg) => n == (LogBodyweightModal { error_message: n.error_message, ..m })
                    && error_is(n.error_message, msg) && r is Stay,
                Ok(w) => match entry_date(m.date_input@, today) {
                    None => n == (LogBodyweightModal { error_message: n.error_message, ..m })
                        && error_is(
                        n.error_message,
                        "Invalid date format: "@ + m.date_input@ + ". Use YYYY-MM-DD or shortcuts."@,
                    ) && r is Stay,
                    Some(d) => n == m && (r matches ModalStep::Request(
                        ServiceRequest::AddBodyweight(rd, rw),
                    ) && rd == d && rw as int == w),
                },
            },
            (LogBodyweightField::Cancel, Key::Enter) => r is Close,
            _ => n == m && r is Stay,
        }
    }
}

impl LogBodyweightModal {
    /// A dialog for today's weight, with focus on the weight.
    pub fn new() -> (m: LogBodyweightModal)
        ensures
            m.weight_input@.len() == 0,
            m.date_input@ == "today"@,
            m.focused_field == LogBodyweightField::Weight,
            m.error_message is None,
    {
        LogBodyweightModal {
            weight_input: Vec::new(),
            date_input: chars_of("today"),
            focused_field: LogBodyweightField::Weight,
            error_message: None,
        }
    }
}

/// Handles one key in the bodyweight dialog; `today` anchors the date
/// shortcuts. The error line is cleared first.
#[verifier::rlimit(50)]
pub fn handle_log_bodyweight_modal_input(m: &mut LogBodyweightModal, key: Key, today: Date) -> (r: ModalStep)
    ensures
        log_bodyweight_step(LogBodyweightModal { error_message: None, ..*old(m) }, *final(m), key, today, r),
{
    m.error_message = None;
    let f = m.focused_field;
    if key == Key::Esc {
        return ModalStep::Close;
    }
    if let Some(t) = bodyweight_target(f, key) {
        m.focused_field = t;
        return ModalStep::Stay;
    }
    match (f, key) {
        (LogBodyweightField::Weight, Key::Char(c)) => push_weight_char(&mut m.weight_input, c),
        (LogBodyweightField::Weight, Key::Backspace) => pop_char(&mut m.weight_input),
        (LogBodyweightField::Date, Key::Char(c)) => m.date_input.push(c),
        (LogBodyweightField::Date, Key::Backspace) => pop_char(&mut m.date_input),
        (LogBodyweightField::Confirm, Key::Enter) => {
            let w = parse_modal_weight(&m.weight_input);
            proof {
                lemma_weight_outcome(m.weight_input@, w);
            }
            let weight = match w {
                Ok(v) => v,
                Err(e) => {
                    m.error_message = Some(e.message());
                    return ModalStep::Stay;
                },
            };
            let date = match parse_modal_date(&m.date_input, today) {
                Ok(d) => d,
                Err(e) => {
                    m.error_message = Some(e.message());
                    return ModalStep::Stay;
                },
            };
            return ModalStep::Request(ServiceRequest::AddBodyweight(date, weight));
        },
        (LogBodyweightField::Cancel, Key::Enter) => {
            return ModalStep::Close;
        },
        _ => {},
    }
    ModalStep::Stay
}

/// The error line after logging a bodyweight failed: a second entry for
/// the date is named as such, other storage failures are shown as reported,
/// anything else prefixed.
pub open spec fn bodyweight_failure_text(f: ServiceFailure) -> Seq<char> {
    match f.kind {
        FailureKind::BodyweightEntryExists => "Invalid date format: "@
            + "Entry already exists for this date"@ + ". Use YYYY-MM-DD or shortcuts."@,
        FailureKind::Database | FailureKind::ExerciseNameNotUnique => "Database error: "@
            + f.detail@,
        _ => "Database error: "@ + ("DB Error: "@ + f.detail@),
    }
}

/// What logging a bodyweight failed with, as the dialog reports it.
pub fn log_bodyweight_failure(f: &ServiceFailure) -> (e: AppInputError)
    ensures
        error_text(e) == bodyweight_failure_text(*f),
{
    match f.kind {
        FailureKind::BodyweightEntryExists => AppInputError::InvalidDate(
            chars_of("Entry already exists for this date"),
        ),
        FailureKind::Database | FailureKind::ExerciseNameNotUnique => AppInputError::DbError(
            copy_chars(&f.detail),
        ),
        _ => AppInputError::DbError(lit_then("DB Error: ", &f.detail)),
    }
}

/// The target-weight dialog.
#[derive(Clone, Debug)]
pub struct SetTargetWeightModal {
    pub weight_input: Vec<char>,
    pub focused_field: SetTargetWeightField,
    pub error_message: Option<Vec<char>>,
}

/// Where a key moves focus in the target-weight dialog, if it does.
pub open spec fn target_move(f: SetTargetWeightField, key: Key) -> Option<SetTargetWeightField> {
    match (f, key) {
        (SetTargetWeightField::Weight, Key::Enter) | (SetTargetWeightField::Weight, Key::Down) | (
            SetTargetWeightField::Weight,
            Key::Tab,
        ) => Some(SetTargetWeightField::SetButton),
        (SetTargetWeightField::Weight, Key::Up) => Some(SetTargetWeightField::Cancel),
        (SetTargetWeightField::SetButton, Key::Right) | (SetTargetWeightField::SetButton, Key::Tab) | (
            SetTargetWeightField::SetButton,
            Key::Down,
        ) => Some(SetTargetWeightField::Clear),
        (SetTargetWeightField::SetButton, Key::Up) => Some(SetTargetWeightField::Weight),
        (SetTargetWeightField::Clear, Key::Left) => Some(SetTargetWeightField::SetButton),
        (SetTargetWeightField::Clear, Key::Right) | (SetTargetWeightField::Clear, Key::Tab) | (
            SetTargetWeightField::Clear,
            Key::Down,
        ) => Some(SetTargetWeightField::Cancel),
        (SetTargetWeightField::Clear, Key::Up) => Some(SetTargetWeightField::Weight),
        (SetTargetWeightField::Cancel, Key::Left) | (SetTargetWeightField::Cancel, Key::Up) => Some(
            SetTargetWeightField::Clear,
        ),
        (SetTargetWeightField::Cancel, Key::Tab) | (SetTargetWeightField::Cancel, Key::Down) => Some(
            SetTargetWeightField::Weight,
        ),
        _ => None,
    }
}

fn target_target(f: SetTargetWeightField, key: Key) -> (r: Option<SetTargetWeightField>)
    ensures
        r == target_move(f, key),
{
    match (f, key) {
        (SetTargetWeightField::Weight, Key::Enter) | (SetTargetWeightField::Weight, Key::Down) | (
            SetTargetWeightField::Weight,
            Key::Tab,
        ) => Some(SetTargetWeightField::SetButton),
        (SetTargetWeightField::Weight, Key::Up) => Some(SetTargetWeightField::Cancel),
        (SetTargetWeightField::SetButton, Key::Right) | (SetTargetWeightField::SetButton, Key::Tab) | (
            SetTargetWeightField::SetButton,
            Key::Down,
        ) => Some(SetTargetWeightField::Clear),
        (SetTargetWeightField::SetButton, Key::Up) => Some(SetTargetWeightField::Weight),
        (SetTargetWeightField::Clear, Key::Left) => Some(SetTargetWeightField::SetButton),
        (SetTargetWeightField::Clear, Key::Right) | (SetTargetWeightField::Clear, Key::Tab) | (
            SetTargetWeightField::Clear,
            Key::Down,
        ) => Some(SetTargetWeightField::Cancel),
        (SetTargetWeightField::Clear, Key::Up) => Some(SetTargetWeightField::Weight),
        (SetTargetWeightField::Cancel, Key::Left) | (SetTargetWeightField::Cancel, Key::Up) => Some(
            SetTargetWeightField::Clear,
        ),
        (SetTargetWeightField::Cancel, Key::Tab) | (SetTargetWeightField::Cancel, Key::Down) => Some(
            SetTargetWeightField::Weight,
        ),
        _ => None,
    }
}

/// One key in the target-weight dialog, after its error line was cleared.
pub open spec fn set_target_step(m: SetTargetWeightModal, n: SetTargetWeightModal, key: Key, r: ModalStep) -> bool {
    let f = m.focused_field;
    if key == Key::Esc {
        r is Close
    } else if let Some(t) = target_move(f, key) {
        n == (SetTargetWeightModal { focused_field: t, ..m }) && r is Stay
    } else {
        match (f, key) {
            (SetTargetWeightField::Weight, Key::Char(c)) => n == (SetTargetWeightModal {
                weight_input: n.weight_input,
                ..m
            }) && n.weight_input@ == (if weight_char(c) {
                m.weight_input@.push(c)
            } else {
                m.weight_input@
            }) && r is Stay,
            (SetTargetWeightField::Weight, Key::Backspace) => n == (SetTargetWeightModal {
                weight_input: n.weight_input,
                ..m
            }) && n.weight_input@ == popped(m.weight_input@) && r is Stay,
            (SetTargetWeightField::SetButton, Key::Enter) => match weight_outcome(m.weight_input@) {
                Err(msg) => n == (SetTargetWeightModal { error_message: n.error_message, ..m })
                    && error_is(n.error_message, msg) && r is Stay,
                Ok(w) => n == m && (r matches ModalStep::Request(ServiceRequest::SetTargetWeight(t))
                    && t matches Some(v) && v as int == w),
            },
            (SetTargetWeightField::Clear, Key::Enter) => n == m && (r matches ModalStep::Request(
                ServiceRequest::SetTargetWeight(t),
            ) && t is None),
            (SetTargetWeightField::Cancel, Key::Enter) => r is Close,
            _ => n == m && r is Stay,
        }
    }
}

impl SetTargetWeightModal {
    /// A dialog showing the current target, if any, to one decimal, with
    /// focus on the weight.
    pub fn new(target: Option<u64>) -> (m: SetTargetWeightModal)
        ensures
            m.weight_input@ == match target {
                Some(t) => crate::numeric::fixed_text(t as int, 1),
                None => Seq::<char>::empty(),
            },
            m.focused_field == SetTargetWeightField::Weight,
            m.error_message is None,
    {
        SetTargetWeightModal {
            weight_input: match target {
                Some(t) => crate::numeric::quantity_text(t, 1),
                None => Vec::new(),
            },
            focused_field: SetTargetWeightField::Weight,
            error_message: None,
        }
    }
}

/// Handles one key in the target-weight dialog: Set asks to store a valid
/// positive weight, Clear asks to remove the target without looking at the
/// weight. The error line is cleared first.
#[verifier::rlimit(50)]
pub fn handle_set_target_weight_modal_input(m: &mut SetTargetWeightModal, key: Key) -> (r: ModalStep)
    ensures
        set_target_step(SetTargetWeightModal { error_message: None, ..*old(m) }, *final(m), key, r),
{
    m.error_message = None;
    let f = m.focused_field;
    if key == Key::Esc {
        return ModalStep::Close;
    }
    if let Some(t) = target_target(f, key) {
        m.focused_field = t;
        return ModalStep::Stay;
    }
    match (f, key) {
        (SetTargetWeightField::Weight, Key::Char(c)) => push_weight_char(&mut m.weight_input, c),
        (SetTargetWeightField::Weight, Key::Backspace) => pop_char(&mut m.weight_input),
        (SetTargetWeightField::SetButton, Key::Enter) => {
            let w = parse_modal_weight(&m.weight_input);
            proof {
                lemma_weight_outcome(m.weight_input@, w);
            }
            return match w {
                Ok(v) => ModalStep::Request(ServiceRequest::SetTargetWeight(Some(v))),
                Err(e) => {
                    m.error_message = Some(e.message());
                    ModalStep::Stay
                },
            };
        },
        (SetTargetWeightField::Clear, Key::Enter) => {
            return ModalStep::Request(ServiceRequest::SetTargetWeight(None));
        },
        (SetTargetWeightField::Cancel, Key::Enter) => {
            return ModalStep::Close;
        },
        _ => {},
    }
    ModalStep::Stay
}

/// What storing or clearing the target failed with.
pub fn set_target_failure(clearing: bool, f: &ServiceFailure) -> (e: AppInputError)
    ensures
        e matches AppInputError::DbError(t) && t@ == (if clearing {
            "Error clearing target: "@
        } else {
            "Error setting target: "@
        }) + f.detail@,
{
    if clearing {
        AppInputError::DbError(lit_then("Error clearing target: ", &f.detail))
    } else {
        AppInputError::DbError(lit_then("Error setting target: ", &f.detail))
    }
}

/// What a yes/no confirmation makes of a key: yes, no, or nothing.
#[derive(Clone, Copy, Debug, PartialEq, Eq, Structural)]
pub enum Answer {
    Yes,
    No,
    Undecided,
}

/// `y`, `Y` and Enter confirm; `n`, `N`, Esc and Backspace decline.
pub open spec fn answer_of(key: Key) -> Answer {
    match key {
        Key::Char('y') | Key::Char('Y') | Key::Enter => Answer::Yes,
        Key::Char('n') | Key::Char('N') | Key::Esc | Key::Backspace => Answer::No,
        _ => Answer::Undecided,
    }
}

/// Reads a key in a confirmation dialog.
pub fn confirmation_answer(key: Key) -> (r: Answer)
    ensures
        r == answer_of(key),
{
    match key {
        Key::Char('y') | Key::Char('Y') | Key::Enter => Answer::Yes,
        Key::Char('n') | Key::Char('N') | Key::Esc | Key::Backspace => Answer::No,
        _ => Answer::Undecided,
    }
}

/// The confirmation before deleting a logged set.
#[derive(Clone, Debug)]
pub struct ConfirmDeleteWorkoutModal {
    pub workout_id: u64,
    pub exercise_name: Vec<char>,
    /// The set's position in its list, from one, for display.
    pub set_index: usize,
}

/// The confirmation before deleting a bodyweight entry.
#[derive(Clone, Copy, Debug)]
pub struct ConfirmDeleteBodyweightModal {
    pub body_weight_id: u64,
    /// The entry's position in its list, from one, for display.
    pub set_index: usize,
}

/// Handles one key in the set deletion confirmation: yes asks to delete
/// the set, no closes, anything else is ignored.
pub fn handle_confirm_delete_modal_input(m: &ConfirmDeleteWorkoutModal, key: Key) -> (r: ModalStep)
    ensures
        answer_of(key) == Answer::Yes ==> (r matches ModalStep::Request(ServiceRequest::DeleteWorkout(id))
            && id == m.workout_id),
        answer_of(key) == Answer::No ==> r is Close,
        answer_of(key) == Answer::Undecided ==> r is Stay,
{
    match confirmation_answer(key) {
        Answer::Yes => ModalStep::Request(ServiceRequest::DeleteWorkout(m.workout_id)),
        Answer::No => ModalStep::Close,
        Answer::Undecided => ModalStep::Stay,
    }
}

/// Handles one key in the bodyweight deletion confirmation: yes asks to
/// delete the entry, no closes, anything else is ignored.
pub fn handle_confirm_delete_body_weigth_input(m: &ConfirmDeleteBodyweightModal, key: Key) -> (r: ModalStep)
    ensures
        answer_of(key) == Answer::Yes ==> (r matches ModalStep::Request(ServiceRequest::DeleteBodyweight(id))
            && id == m.body_weight_id),
        answer_of(key) == Answer::No ==> r is Close,
        answer_of(key) == Answer::Undecided ==> r is Stay,
{
    match confirmation_answer(key) {
        Answer::Yes => ModalStep::Request(ServiceRequest::DeleteBodyweight(m.body_weight_id)),
        Answer::No => ModalStep::Close,
        Answer::Undecided => ModalStep::Stay,
    }
}

/// The status-bar error after a deletion failed.
pub fn delete_failure(bodyweight: bool, f: &ServiceFailure) -> (e: AppInputError)
    ensures
        e matches AppInputError::DbError(t) && t@ == (if bodyweight {
            "Error deleting bodyweight: "@
        } else {
            "Error deleting workout: "@
        }) + f.detail@,
{
    if bodyweight {
        AppInputError::DbError(lit_then("Error deleting bodyweight: ", &f.detail))
    } else {
        AppInputError::DbError(lit_then("Error deleting workout: ", &f.detail))
    }
}

/// The notice shown after a set beat a personal best.
#[derive(Clone, Debug)]
pub struct PersonalBestModal {
    pub exercise_name: Vec<char>,
    pub pb_info: PersonalBests,
    pub focused_field: PbModalField,
}

/// Enter, Esc and `q` close the personal-best notice.
pub open spec fn closes_notice(key: Key) -> bool {
    key == Key::Enter || key == Key::Esc || key == Key::Char('q')
}

/// Handles one key in the personal-best notice.
pub fn handle_pb_modal_input(key: Key) -> (r: ModalStep)
    ensures
        closes_notice(key) ==> r is Close,
        !closes_notice(key) ==> r is Stay,
{
    if key == Key::Enter || key == Key::Esc || key == Key::Char('q') {
        ModalStep::Close
    } else {
        ModalStep::Stay
    }
}

/// Esc, `q`, Enter and `?` close help; every other key is swallowed.
pub open spec fn closes_help(key: Key) -> bool {
    key == Key::Esc || key == Key::Char('q') || key == Key::Enter || key == Key::Char('?')
}

/// Handles one key on the help overlay.
pub fn handle_help_input(key: Key) -> (r: ModalStep)
    ensures
        closes_help(key) ==> r is Close,
        !closes_help(key) ==> r is Stay,
{
    if key == Key::Esc || key == Key::Char('q') || key == Key::Enter || key == Key::Char('?') {
        ModalStep::Close
    } else {
        ModalStep::Stay
    }
}

} // verus!
