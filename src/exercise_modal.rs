//! The create-exercise dialog: a name, the muscles worked, a kind whose
//! choice presets the measurements, and the measurement checkboxes, laid
//! out as a grid.
use vstd::prelude::*;
use crate::errors::AppInputError;
use crate::events::{
    CreateExerciseParams, ExerciseLogFlags, FailureKind, Key, ModalStep, ServiceFailure,
    ServiceRequest,
};
use crate::fields::{AddExerciseField, ExerciseType};
use crate::text_util::{chars_of, copy_chars, lit_then, append_chars, trim_chars, trim_of};
use crate::workout_modal::{error_is, popped, same_opt_text};

verus! {

/// The create-exercise dialog.
#[derive(Clone, Debug)]
pub struct CreateExerciseModal {
    pub name_input: Vec<char>,
    pub muscles_input: Vec<char>,
    pub selected_type: ExerciseType,
    pub focused_field: AddExerciseField,
    pub error_message: Option<Vec<char>>,
    pub log_weight: bool,
    pub log_reps: bool,
    pub log_duration: bool,
    pub log_distance: bool,
}

/// Where shift-tab goes from each field.
pub open spec fn back_of(f: AddExerciseField) -> AddExerciseField {
    match f {
        AddExerciseField::Name => AddExerciseField::Cancel,
        AddExerciseField::Muscles => AddExerciseField::Name,
        AddExerciseField::TypeResistance => AddExerciseField::Muscles,
        AddExerciseField::TypeCardio => AddExerciseField::TypeResistance,
        AddExerciseField::TypeBodyweight => AddExerciseField::TypeCardio,
        AddExerciseField::LogWeight => AddExerciseField::TypeBodyweight,
        AddExerciseField::LogReps => AddExerciseField::LogWeight,
        AddExerciseField::LogDuration => AddExerciseField::LogReps,
        AddExerciseField::LogDistance => AddExerciseField::LogDuration,
        AddExerciseField::Confirm => AddExerciseField::TypeBodyweight,
        AddExerciseField::Cancel => AddExerciseField::Confirm,
    }
}

/// Where a key moves focus in the grid, if it moves it: Left and Right
/// within a row of kinds or of checkboxes, Up and Down between rows.
pub open spec fn grid_move(f: AddExerciseField, key: Key) -> Option<AddExerciseField> {
    match (f, key) {
        (AddExerciseField::Name, Key::Enter) | (AddExerciseField::Name, Key::Down) | (
            AddExerciseField::Name,
            Key::Tab,
        ) => Some(AddExerciseField::Muscles),
        (AddExerciseField::Name, Key::Up) => Some(AddExerciseField::Cancel),
        (AddExerciseField::Muscles, Key::Enter) | (AddExerciseField::Muscles, Key::Down) | (
            AddExerciseField::Muscles,
            Key::Tab,
        ) => Some(AddExerciseField::TypeResistance),
        (AddExerciseField::Muscles, Key::Up) => Some(AddExerciseField::Name),
        (AddExerciseField::TypeResistance, Key::Right) | (AddExerciseField::TypeResistance, Key::Tab) => Some(
            AddExerciseField::TypeCardio,
        ),
        (AddExerciseField::TypeResistance, Key::Down) => Some(AddExerciseField::LogWeight),
        (AddExerciseField::TypeResistance, Key::Left) | (AddExerciseField::TypeResistance, Key::Up) => Some(
            AddExerciseField::Muscles,
        ),
        (AddExerciseField::TypeCardio, Key::Right) | (AddExerciseField::TypeCardio, Key::Tab) => Some(
            AddExerciseField::TypeBodyweight,
        ),
        (AddExerciseField::TypeCardio, Key::Down) => Some(AddExerciseField::LogWeight),
        (AddExerciseField::TypeCardio, Key::Left) | (AddExerciseField::TypeCardio, Key::Up) => Some(
            AddExerciseField::TypeResistance,
        ),
        (AddExerciseField::TypeBodyweight, Key::Right) | (AddExerciseField::TypeBodyweight, Key::Tab) | (
            AddExerciseField::TypeBodyweight,
            Key::Down,
        ) => Some(AddExerciseField::LogWeight),
        (AddExerciseField::TypeBodyweight, Key::Left) | (AddExerciseField::TypeBodyweight, Key::Up) => Some(
            AddExerciseField::TypeCardio,
        ),
        (AddExerciseField::LogWeight, Key::Right) | (AddExerciseField::LogWeight, Key::Tab) => Some(
            AddExerciseField::LogReps,
        ),
        (AddExerciseField::LogWeight, Key::Left) => Some(AddExerciseField::TypeBodyweight),
        (AddExerciseField::LogReps, Key::Right) | (AddExerciseField::LogReps, Key::Tab) => Some(
            AddExerciseField::LogDuration,
        ),
        (AddExerciseField::LogReps, Key::Left) => Some(AddExerciseField::LogWeight),
        (AddExerciseField::LogDuration, Key::Right) | (AddExerciseField::LogDuration, Key::Tab) => Some(
            AddExerciseField::LogDistance,
        ),
        (AddExerciseField::LogDuration, Key::Left) => Some(AddExerciseField::LogReps),
        (AddExerciseField::LogDistance, Key::Right) | (AddExerciseField::LogDistance, Key::Tab) => Some(
            AddExerciseField::Confirm,
        ),
        (AddExerciseField::LogDistance, Key::Left) => Some(AddExerciseField::LogDuration),
        (AddExerciseField::LogWeight, Key::Down) | (AddExerciseField::LogReps, Key::Down) | (
            AddExerciseField::LogDuration,
            Key::Down,
        ) | (AddExerciseField::LogDistance, Key::Down) => Some(AddExerciseField::Confirm),
        (AddExerciseField::LogWeight, Key::Up) | (AddExerciseField::LogReps, Key::Up) | (
            AddExerciseField::LogDuration,
            Key::Up,
        ) | (AddExerciseField::LogDistance, Key::Up) => Some(AddExerciseField::TypeBodyweight),
        (AddExerciseField::Confirm, Key::Left) => Some(AddExerciseField::Cancel),
        (AddExerciseField::Confirm, Key::Up) => Some(AddExerciseField::LogDistance),
        (AddExerciseField::Confirm, Key::Right) | (AddExerciseField::Confirm, Key::Tab) | (
            AddExerciseField::Confirm,
            Key::Down,
        ) => Some(AddExerciseField::Cancel),
        (AddExerciseField::Cancel, Key::Right) | (AddExerciseField::Cancel, Key::Tab) | (
            AddExerciseField::Cancel,
            Key::Left,
        ) | (AddExerciseField::Cancel, Key::Backspace) => Some(AddExerciseField::Confirm),
        (AddExerciseField::Cancel, Key::Up) => Some(AddExerciseField::TypeBodyweight),
        (AddExerciseField::Cancel, Key::Down) => Some(AddExerciseField::Name),
        _ => None,
    }
}

fn back_field(f: AddExerciseField) -> (r: AddExerciseField)
    ensures
        r == back_of(f),
{
    match f {
        AddExerciseField::Name => AddExerciseField::Cancel,
        AddExerciseField::Muscles => AddExerciseField::Name,
        AddExerciseField::TypeResistance => AddExerciseField::Muscles,
        AddExerciseField::TypeCardio => AddExerciseField::TypeResistance,
        AddExerciseField::TypeBodyweight => AddExerciseField::TypeCardio,
        AddExerciseField::LogWeight => AddExerciseField::TypeBodyweight,
        AddExerciseField::LogReps => AddExerciseField::LogWeight,
        AddExerciseField::LogDuration => AddExerciseField::LogReps,
        AddExerciseField::LogDistance => AddExerciseField::LogDuration,
        AddExerciseField::Confirm => AddExerciseField::TypeBodyweight,
        AddExerciseField::Cancel => AddExerciseField::Confirm,
    }
}

fn grid_target(f: AddExerciseField, key: Key) -> (r: Option<AddExerciseField>)
    ensures
        r == grid_move(f, key),
{
    match (f, key) {
        (AddExerciseField::Name, Key::Enter) | (AddExerciseField::Name, Key::Down) | (
            AddExerciseField::Name,
            Key::Tab,
        ) => Some(AddExerciseField::Muscles),
        (AddExerciseField::Name, Key::Up) => Some(AddExerciseField::Cancel),
        (AddExerciseField::Muscles, Key::Enter) | (AddExerciseField::Muscles, Key::Down) | (
            AddExerciseField::Muscles,
            Key::Tab,
        ) => Some(AddExerciseField::TypeResistance),
        (AddExerciseField::Muscles, Key::Up) => Some(AddExerciseField::Name),
        (AddExerciseField::TypeResistance, Key::Right) | (AddExerciseField::TypeResistance, Key::Tab) => Some(
            AddExerciseField::TypeCardio,
        ),
        (AddExerciseField::TypeResistance, Key::Down) => Some(AddExerciseField::LogWeight),
        (AddExerciseField::TypeResistance, Key::Left) | (AddExerciseField::TypeResistance, Key::Up) => Some(
            AddExerciseField::Muscles,
        ),
        (AddExerciseField::TypeCardio, Key::Right) | (AddExerciseField::TypeCardio, Key::Tab) => Some(
            AddExerciseField::TypeBodyweight,
        ),
        (AddExerciseField::TypeCardio, Key::Down) => Some(AddExerciseField::LogWeight),
        (AddExerciseField::TypeCardio, Key::Left) | (AddExerciseField::TypeCardio, Key::Up) => Some(
            AddExerciseField::TypeResistance,
        ),
        (AddExerciseField::TypeBodyweight, Key::Right) | (AddExerciseField::TypeBodyweight, Key::Tab) | (
            AddExerciseField::TypeBodyweight,
            Key::Down,
        ) => Some(AddExerciseField::LogWeight),
        (AddExerciseField::TypeBodyweight, Key::Left) | (AddExerciseField::TypeBodyweight, Key::Up) => Some(
            AddExerciseField::TypeCardio,
        ),
        (AddExerciseField::LogWeight, Key::Right) | (AddExerciseField::LogWeight, Key::Tab) => Some(
            AddExerciseField::LogReps,
        ),
        (AddExerciseField::LogWeight, Key::Left) => Some(AddExerciseField::TypeBodyweight),
        (AddExerciseField::LogReps, Key::Right) | (AddExerciseField::LogReps, Key::Tab) => Some(
            AddExerciseField::LogDuration,
        ),
        (AddExerciseField::LogReps, Key::Left) => Some(AddExerciseField::LogWeight),
        (AddExerciseField::LogDuration, Key::Right) | (AddExerciseField::LogDuration, Key::Tab) => Some(
            AddExerciseField::LogDistance,
        ),
        (AddExerciseField::LogDuration, Key::Left) => Some(AddExerciseField::LogReps),
        (AddExerciseField::LogDistance, Key::Right) | (AddExerciseField::LogDistance, Key::Tab) => Some(
            AddExerciseField::Confirm,
        ),
        (AddExerciseField::LogDistance, Key::Left) => Some(AddExerciseField::LogDuration),
        (AddExerciseField::LogWeight, Key::Down) | (AddExerciseField::LogReps, Key::Down) | (
            AddExerciseField::LogDuration,
            Key::Down,
        ) | (AddExerciseField::LogDistance, Key::Down) => Some(AddExerciseField::Confirm),
        (AddExerciseField::LogWeight, Key::Up) | (AddExerciseField::LogReps, Key::Up) | (
            AddExerciseField::LogDuration,
            Key::Up,
        ) | (AddExerciseField::LogDistance, Key::Up) => Some(AddExerciseField::TypeBodyweight),
        (AddExerciseField::Confirm, Key::Left) => Some(AddExerciseField::Cancel),
        (AddExerciseField::Confirm, Key::Up) => Some(AddExerciseField::LogDistance),
        (AddExerciseField::Confirm, Key::Right) | (AddExerciseField::Confirm, Key::Tab) | (
            AddExerciseField::Confirm,
            Key::Down,
        ) => Some(AddExerciseField::Cancel),
        (AddExerciseField::Cancel, Key::Right) | (AddExerciseField::Cancel, Key::Tab) | (
            AddExerciseField::Cancel,
            Key::Left,
        ) | (AddExerciseField::Cancel, Key::Backspace) => Some(AddExerciseField::Confirm),
        (AddExerciseField::Cancel, Key::Up) => Some(AddExerciseField::TypeBodyweight),
        (AddExerciseField::Cancel, Key::Down) => Some(AddExerciseField::Name),
        _ => None,
    }
}

/// The measurements a kind presets: weight and reps for resistance,
/// duration and distance for cardio, reps alone for bodyweight.
pub open spec fn preset_of(t: ExerciseType) -> (bool, bool, bool, bool) {
    match t {
        ExerciseType::Resistance => (true, true, false, false),
        ExerciseType::Cardio => (false, false, true, true),
        ExerciseType::BodyWeight => (false, true, false, false),
    }
}

/// The measurement flags a new exercise is created with: none at all where
/// no box is ticked, so that the service applies the kind's defaults.
pub open spec fn flags_spec(weight: bool, reps: bool, duration: bool, distance: bool) -> Option<ExerciseLogFlags> {
    if !weight && !reps && !duration && !distance {
        None
    } else {
        Some(ExerciseLogFlags { log_weight: weight, log_reps: reps, log_duration: duration, log_distance: distance })
    }
}

/// The measurement flags a new exercise is created with.
pub fn convert_flags(weight: bool, reps: bool, duration: bool, distance: bool) -> (r: Option<ExerciseLogFlags>)
    ensures
        r == flags_spec(weight, reps, duration, distance),
{
    if !weight && !reps && !duration && !distance {
        None
    } else {
        Some(ExerciseLogFlags { log_weight: weight, log_reps: reps, log_duration: duration, log_distance: distance })
    }
}

/// The muscles a new exercise lists: the trimmed text, or none when blank.
pub open spec fn muscles_value(s: Seq<char>) -> Option<Seq<char>> {
    if trim_of(s).len() == 0 {
        None
    } else {
        Some(trim_of(s))
    }
}

/// The parameters the dialog submits.
pub open spec fn create_params_match(p: CreateExerciseParams, m: CreateExerciseModal) -> bool {
    &&& p.name@ == trim_of(m.name_input@)
    &&& p.type_ == m.selected_type
    &&& p.log_flags == flags_spec(m.log_weight, m.log_reps, m.log_duration, m.log_distance)
    &&& same_opt_text(p.muscles, muscles_value(m.muscles_input@))
}

/// One key in the dialog, after its error line was cleared.
pub open spec fn create_exercise_step(m: CreateExerciseModal, n: CreateExerciseModal, key: Key, r: ModalStep) -> bool {
    let f = m.focused_field;
    if key == Key::BackTab {
        n == (CreateExerciseModal { focused_field: back_of(f), ..m }) && r is Stay
    } else if key == Key::Esc && f != AddExerciseField::Cancel {
        r is Close
    } else if let Some(t) = grid_move(f, key) {
        n == (CreateExerciseModal { focused_field: t, ..m }) && r is Stay
    } else {
        match (f, key) {
            (AddExerciseField::Name, Key::Char(c)) => n == (CreateExerciseModal {
                name_input: n.name_input,
                ..m
            }) && n.name_input@ == m.name_input@.push(c) && r is Stay,
            (AddExerciseField::Name, Key::Backspace) => n == (CreateExerciseModal {
                name_input: n.name_input,
                ..m
            }) && n.name_input@ == popped(m.name_input@) && r is Stay,
            (AddExerciseField::Muscles, Key::Char(c)) => n == (CreateExerciseModal {
                muscles_input: n.muscles_input,
                ..m
            }) && n.muscles_input@ == m.muscles_input@.push(c) && r is Stay,
            (AddExerciseField::Muscles, Key::Backspace) => n == (CreateExerciseModal {
                muscles_input: n.muscles_input,
                ..m
            }) && n.muscles_input@ == popped(m.muscles_input@) && r is Stay,
            (AddExerciseField::TypeResistance, Key::Enter) => kind_chosen(m, n, ExerciseType::Resistance)
                && r is Stay,
            (AddExerciseField::TypeCardio, Key::Enter) => kind_chosen(m, n, ExerciseType::Cardio)
                && r is Stay,
            (AddExerciseField::TypeBodyweight, Key::Enter) => kind_chosen(m, n, ExerciseType::BodyWeight)
                && r is Stay,
            (AddExerciseField::LogWeight, Key::Enter) | (AddExerciseField::LogWeight, Key::Char(' ')) => n
                == (CreateExerciseModal { log_weight: !m.log_weight, ..m }) && r is Stay,
            (AddExerciseField::LogReps, Key::Enter) | (AddExerciseField::LogReps, Key::Char(' ')) => n
                == (CreateExerciseModal { log_reps: !m.log_reps, ..m }) && r is Stay,
            (AddExerciseField::LogDuration, Key::Enter) | (AddExerciseField::LogDuration, Key::Char(' ')) => n
                == (CreateExerciseModal { log_duration: !m.log_duration, ..m }) && r is Stay,
            (AddExerciseField::LogDistance, Key::Enter) | (AddExerciseField::LogDistance, Key::Char(' ')) => n
                == (CreateExerciseModal { log_distance: !m.log_distance, ..m }) && r is Stay,
            (AddExerciseField::Confirm, Key::Enter) => if trim_of(m.name_input@).len() == 0 {
                n == (CreateExerciseModal { error_message: n.error_message, ..m }) && error_is(
                    n.error_message,
                    "Exercise name cannot be empty."@,
                ) && r is Stay
            } else {
                n == m && (r matches ModalStep::Request(ServiceRequest::CreateExercise(p))
                    && create_params_match(p, m))
            },
            (AddExerciseField::Cancel, Key::Enter) | (AddExerciseField::Cancel, Key::Esc) => r is Close,
            _ => n == m && r is Stay,
        }
    }
}

/// A kind was chosen: its preset replaces the checkboxes.
pub open spec fn kind_chosen(m: CreateExerciseModal, n: CreateExerciseModal, t: ExerciseType) -> bool {
    let (w, r, d, x) = preset_of(t);
    n == (CreateExerciseModal {
        selected_type: t,
        log_weight: w,
        log_reps: r,
        log_duration: d,
        log_distance: x,
        ..m
    })
}

impl CreateExerciseModal {
    /// A blank dialog: resistance chosen, every measurement ticked, focus
    /// on the name.
    pub fn new() -> (m: CreateExerciseModal)
        ensures
            m.name_input@.len() == 0,
            m.muscles_input@.len() == 0,
            m.selected_type == ExerciseType::Resistance,
            m.focused_field == AddExerciseField::Name,
            m.error_message is None,
            m.log_weight && m.log_reps && m.log_duration && m.log_distance,
    {
        CreateExerciseModal {
            name_input: Vec::new(),
            muscles_input: Vec::new(),
            selected_type: ExerciseType::Resistance,
            focused_field: AddExerciseField::Name,
            error_message: None,
            log_weight: true,
            log_reps: true,
            log_duration: true,
            log_distance: true,
        }
    }

    fn choose_kind(&mut self, t: ExerciseType)
        ensures
            kind_chosen(*old(self), *final(self), t),
    {
        self.selected_type = t;
        match t {
            ExerciseType::Resistance => {
                self.log_weight = true;
                self.log_reps = true;
                self.log_duration = false;
                self.log_distance = false;
            },
            ExerciseType::Cardio => {
                self.log_weight = false;
                self.log_reps = false;
                self.log_duration = true;
                self.log_distance = true;
            },
            ExerciseType::BodyWeight => {
                self.log_weight = false;
                self.log_reps = true;
                self.log_duration = false;
                self.log_distance = false;
            },
        }
    }

    /// The parameters to submit: refused with an empty-name error where the
    /// trimmed name is empty, before the service is asked anything.
    pub fn submit(&self) -> (r: Result<CreateExerciseParams, AppInputError>)
        ensures
            trim_of(self.name_input@).len() == 0 ==> r matches Err(AppInputError::ExerciseNameEmpty),
            trim_of(self.name_input@).len() > 0 ==> (r matches Ok(p) && create_params_match(p, *self)),
    {
        let name = trim_chars(&self.name_input);
        if name.len() == 0 {
            return Err(AppInputError::ExerciseNameEmpty);
        }
        let muscles_trimmed = trim_chars(&self.muscles_input);
        let muscles = if muscles_trimmed.len() == 0 {
            None
        } else {
            Some(muscles_trimmed)
        };
        Ok(
            CreateExerciseParams {
                name,
                type_: self.selected_type,
                log_flags: convert_flags(self.log_weight, self.log_reps, self.log_duration, self.log_distance),
                muscles,
            },
        )
    }
}

/// Handles one key in the create-exercise dialog (see
/// `create_exercise_step`). The error line is cleared first.
#[verifier::rlimit(50)]
pub fn handle_create_exercise_modal_input(m: &mut CreateExerciseModal, key: Key) -> (r: ModalStep)
    ensures
        create_exercise_step(CreateExerciseModal { error_message: None, ..*old(m) }, *final(m), key, r),
{
    m.error_message = None;
    let f = m.focused_field;
    if key == Key::BackTab {
        m.focused_field = back_field(f);
        return ModalStep::Stay;
    }
    if key == Key::Esc && f != AddExerciseField::Cancel {
        return ModalStep::Close;
    }
    if let Some(t) = grid_target(f, key) {
        m.focused_field = t;
        return ModalStep::Stay;
    }
    match (f, key) {
        (AddExerciseField::Name, Key::Char(c)) => m.name_input.push(c),
        (AddExerciseField::Name, Key::Backspace) => {
            if m.name_input.len() > 0 {
                m.name_input.pop();
            }
        },
        (AddExerciseField::Muscles, Key::Char(c)) => m.muscles_input.push(c),
        (AddExerciseField::Muscles, Key::Backspace) => {
            if m.muscles_input.len() > 0 {
                m.muscles_input.pop();
            }
        },
        (AddExerciseField::TypeResistance, Key::Enter) => m.choose_kind(ExerciseType::Resistance),
        (AddExerciseField::TypeCardio, Key::Enter) => m.choose_kind(ExerciseType::Cardio),
        (AddExerciseField::TypeBodyweight, Key::Enter) => m.choose_kind(ExerciseType::BodyWeight),
        (AddExerciseField::LogWeight, Key::Enter) | (AddExerciseField::LogWeight, Key::Char(' ')) => {
            m.log_weight = !m.log_weight;
        },
        (AddExerciseField::LogReps, Key::Enter) | (AddExerciseField::LogReps, Key::Char(' ')) => {
            m.log_reps = !m.log_reps;
        },
        (AddExerciseField::LogDuration, Key::Enter) | (AddExerciseField::LogDuration, Key::Char(' ')) => {
            m.log_duration = !m.log_duration;
        },
        (AddExerciseField::LogDistance, Key::Enter) | (AddExerciseField::LogDistance, Key::Char(' ')) => {
            m.log_distance = !m.log_distance;
        },
        (AddExerciseField::Confirm, Key::Enter) => {
            return match m.submit() {
                Ok(p) => ModalStep::Request(ServiceRequest::CreateExercise(p)),
                Err(e) => {
                    m.error_message = Some(e.message());
                    ModalStep::Stay
                },
            };
        },
        (AddExerciseField::Cancel, Key::Enter) | (AddExerciseField::Cancel, Key::Esc) => {
            return ModalStep::Close;
        },
        _ => {},
    }
    ModalStep::Stay
}

/// The error line after creating the exercise failed: a clash of names is
/// named, other storage failures shown as reported, anything else prefixed.
pub open spec fn create_failure_text(f: ServiceFailure) -> Seq<char> {
    match f.kind {
        FailureKind::ExerciseNameNotUnique => "Exercise '"@ + f.subject@ + "' already exists."@,
        FailureKind::Database | FailureKind::BodyweightEntryExists => f.detail@,
        _ => "Error creating exercise: "@ + f.detail@,
    }
}

/// What creating the exercise failed with, as the dialog reports it.
pub fn create_exercise_failure(f: &ServiceFailure) -> (e: AppInputError)
    ensures
        e matches AppInputError::DbError(t) && t@ == create_failure_text(*f),
{
    match f.kind {
        FailureKind::ExerciseNameNotUnique => {
            let mut t = lit_then("Exercise '", &f.subject);
            let tail = chars_of("' already exists.");
            append_chars(&mut t, &tail);
            AppInputError::DbError(t)
        },
        FailureKind::Database | FailureKind::BodyweightEntryExists => AppInputError::DbError(
            copy_chars(&f.detail),
        ),
        _ => AppInputError::DbError(lit_then("Error creating exercise: ", &f.detail)),
    }
}

} // verus!
