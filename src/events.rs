//! What flows between the dialogs and their caller: keys in, requests for
//! the fitness service out, and the service's replies back in.
use vstd::prelude::*;
use crate::dates::Date;
use crate::fields::{AddWorkoutField, ExerciseDefinition, ExerciseType};

verus! {

/// A key press, reduced to what the dialogs tell apart. `BackTab` is
/// shift-tab.
#[derive(Clone, Copy, Debug, PartialEq, Eq, Structural)]
pub enum Key {
    Char(char),
    Backspace,
    Enter,
    Esc,
    Tab,
    BackTab,
    Up,
    Down,
    Left,
    Right,
    Delete,
    F(u8),
    Other,
}

/// Why the add-workout dialog asked to resolve an identifier, which decides
/// what it does with the answer.
#[derive(Clone, Copy, Debug, PartialEq, Eq, Structural)]
pub enum ResolveCause {
    /// Enter on a highlighted suggestion.
    PickedSuggestion,
    /// Enter on the popup with nothing highlighted: the typed text.
    EnterOnPopup,
    /// Down on the identifier with no suggestions.
    DownFromIdentifier,
    /// Tab on an unresolved identifier.
    TabFromIdentifier,
    /// Focus is leaving the identifier for this field while unresolved.
    LeavingIdentifier(AddWorkoutField),
}

/// A logged set as the fitness service reports it. Weights and distances
/// are in thousandths (kilograms or pounds, kilometres).
#[derive(Clone, Debug)]
pub struct WorkoutRecord {
    pub id: u64,
    pub exercise_name: Vec<char>,
    pub sets: Option<i64>,
    pub reps: Option<i64>,
    pub weight: Option<u64>,
    pub duration_minutes: Option<i64>,
    pub distance: Option<u64>,
    pub notes: Option<Vec<char>>,
}

/// The user's settings that shape how a prior set is shown: the configured
/// bodyweight (thousandths) and whether distances are shown in miles.
#[derive(Clone, Copy, Debug, PartialEq, Eq, Structural)]
pub struct DisplayConfig {
    pub bodyweight: Option<u64>,
    pub imperial: bool,
}

/// The service's answer to a resolution: the definition with the most
/// recent set of it, no such exercise, or a failure's rendering.
#[derive(Clone, Debug)]
pub enum Resolution {
    Found(ExerciseDefinition, Option<WorkoutRecord>, DisplayConfig),
    NotFound,
    Failed(Vec<char>),
}

/// A new set to log.
#[derive(Clone, Debug)]
pub struct AddWorkoutParams {
    pub exercise_identifier: Vec<char>,
    pub sets: Option<i64>,
    pub reps: Option<i64>,
    pub weight: Option<u64>,
    pub duration: Option<i64>,
    pub distance: Option<u64>,
    pub notes: Option<Vec<char>>,
    /// Whether the configured bodyweight is added to the weight.
    pub use_bodyweight: bool,
}

/// New values for a logged set.
#[derive(Clone, Debug)]
pub struct EditWorkoutParams {
    pub id: u64,
    pub new_sets: Option<i64>,
    pub new_reps: Option<i64>,
    pub new_weight: Option<u64>,
    pub new_duration: Option<i64>,
    pub new_distance: Option<u64>,
    pub new_notes: Option<Vec<char>>,
}

/// Which measurements a new exercise records.
#[derive(Clone, Copy, Debug, PartialEq, Eq, Structural)]
pub struct ExerciseLogFlags {
    pub log_weight: bool,
    pub log_reps: bool,
    pub log_duration: bool,
    pub log_distance: bool,
}

/// A new exercise to define.
#[derive(Clone, Debug)]
pub struct CreateExerciseParams {
    pub name: Vec<char>,
    pub type_: ExerciseType,
    /// None where no measurement was ticked: the service then applies the
    /// kind's defaults.
    pub log_flags: Option<ExerciseLogFlags>,
    pub muscles: Option<Vec<char>>,
}

/// One call a dialog needs from the fitness service.
#[derive(Clone, Debug)]
pub enum ServiceRequest {
    ResolveExercise(Vec<char>, ResolveCause),
    AddWorkout(AddWorkoutParams),
    EditWorkout(EditWorkoutParams),
    CreateExercise(CreateExerciseParams),
    AddBodyweight(Date, u64),
    SetTargetWeight(Option<u64>),
    DeleteWorkout(u64),
    DeleteBodyweight(u64),
}

/// The kind of a failed service call.
#[derive(Clone, Copy, Debug, PartialEq, Eq, Structural)]
pub enum FailureKind {
    /// An exercise of that name exists already.
    ExerciseNameNotUnique,
    /// A bodyweight entry exists already for that date.
    BodyweightEntryExists,
    /// Any other storage failure.
    Database,
    /// A configuration failure.
    Config,
    /// Anything else.
    Other,
}

/// A failed service call: its kind, the name it concerns (the clashing
/// exercise name, else empty) and its rendering.
#[derive(Clone, Debug)]
pub struct ServiceFailure {
    pub kind: FailureKind,
    pub subject: Vec<char>,
    pub detail: Vec<char>,
}

/// The records that a new set beat.
#[derive(Clone, Copy, Debug, PartialEq, Eq, Structural)]
pub struct PersonalBests {
    pub weight: bool,
    pub reps: bool,
    pub duration: bool,
    pub distance: bool,
}

impl PersonalBests {
    /// Whether any record was beaten.
    pub fn any_pb(&self) -> (r: bool)
        ensures
            r == (self.weight || self.reps || self.duration || self.distance),
    {
        self.weight || self.reps || self.duration || self.distance
    }
}

/// What a service call answered.
#[derive(Debug)]
pub enum ServiceReply {
    Resolved(Resolution),
    WorkoutAdded(Result<Option<PersonalBests>, ServiceFailure>),
    Done(Result<(), ServiceFailure>),
}

/// What a key did to a dialog.
#[derive(Clone, Debug)]
pub enum ModalStep {
    /// The dialog stays open.
    Stay,
    /// The dialog closes.
    Close,
    /// The dialog stays open and waits for the service.
    Request(ServiceRequest),
}

} // verus!
