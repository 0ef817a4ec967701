//! The dialogs' field sets, the tabs and panes, and the exercise facts that
//! decide which optional workout fields a dialog shows.
use vstd::prelude::*;

verus! {

/// The tab shown in the main area.
#[derive(Clone, Copy, Debug, PartialEq, Eq, Structural)]
pub enum ActiveTab {
    Log,
    History,
    Graphs,
    Bodyweight,
}

/// The pane of the log tab that receives keys.
#[derive(Clone, Copy, Debug, PartialEq, Eq, Structural)]
pub enum LogFocus {
    ExerciseList,
    SetList,
}

/// The pane of the bodyweight tab that receives keys.
#[derive(Clone, Copy, Debug, PartialEq, Eq, Structural)]
pub enum BodyweightFocus {
    Graph,
    Actions,
    History,
}

/// The fields of the create-exercise dialog.
#[derive(Clone, Copy, Debug, PartialEq, Eq, Structural)]
pub enum AddExerciseField {
    Name,
    Muscles,
    TypeResistance,
    TypeCardio,
    TypeBodyweight,
    LogWeight,
    LogReps,
    LogDuration,
    LogDistance,
    Confirm,
    Cancel,
}

/// The fields of the log-bodyweight dialog.
#[derive(Clone, Copy, Debug, PartialEq, Eq, Structural)]
pub enum LogBodyweightField {
    Weight,
    Date,
    Confirm,
    Cancel,
}

/// The fields of the target-weight dialog.
#[derive(Clone, Copy, Debug, PartialEq, Eq, Structural)]
pub enum SetTargetWeightField {
    Weight,
    SetButton,
    Clear,
    Cancel,
}

/// The fields of the add- and edit-workout dialogs. `Exercise` is the
/// identifier field, `Suggestions` the autocomplete popup below it.
#[derive(Clone, Copy, Debug, PartialEq, Eq, Structural)]
pub enum AddWorkoutField {
    Exercise,
    Suggestions,
    Sets,
    Reps,
    Weight,
    Duration,
    Distance,
    Notes,
    Confirm,
    Cancel,
}

/// The pane of the graphs tab that receives keys.
#[derive(Clone, Copy, Debug, PartialEq, Eq, Structural)]
pub enum GraphsFocus {
    ExerciseList,
    GraphTypeList,
    History,
}

/// The pane of the history tab that receives keys.
#[derive(Clone, Copy, Debug, PartialEq, Eq, Structural)]
pub enum HistoryFocus {
    DayList,
}

/// The single button of the personal-best dialog.
#[derive(Clone, Copy, Debug, PartialEq, Eq, Structural)]
pub enum PbModalField {
    OkButton,
}

/// The kind of an exercise.
#[derive(Clone, Copy, Debug, PartialEq, Eq, Structural)]
pub enum ExerciseType {
    Resistance,
    Cardio,
    BodyWeight,
}

/// An exercise as the fitness service defines it: its canonical name, its
/// kind, and which measurements a set of it records.
#[derive(Clone, Debug)]
pub struct ExerciseDefinition {
    pub name: Vec<char>,
    pub type_: ExerciseType,
    pub log_weight: bool,
    pub log_reps: bool,
    pub log_duration: bool,
    pub log_distance: bool,
}

/// Which optional fields a workout dialog shows.
#[derive(Clone, Copy, Debug, PartialEq, Eq, Structural)]
pub struct WorkoutLogFlags {
    pub log_sets: bool,
    pub log_reps: bool,
    pub log_weight: bool,
    pub log_duration: bool,
    pub log_distance: bool,
    pub log_notes: bool,
}

/// The policy for an optional definition: everything is shown before an
/// exercise is resolved; afterwards sets and notes are always shown and the
/// four measurements follow the definition.
pub open spec fn flags_of(def: Option<ExerciseDefinition>) -> WorkoutLogFlags {
    match def {
        None => WorkoutLogFlags {
            log_sets: true,
            log_reps: true,
            log_weight: true,
            log_duration: true,
            log_distance: true,
            log_notes: true,
        },
        Some(d) => WorkoutLogFlags {
            log_sets: true,
            log_reps: d.log_reps,
            log_weight: d.log_weight,
            log_duration: d.log_duration,
            log_distance: d.log_distance,
            log_notes: true,
        },
    }
}

/// Whether two definitions agree in every field.
pub open spec fn same_definition(a: ExerciseDefinition, b: ExerciseDefinition) -> bool {
    &&& a.name@ == b.name@
    &&& a.type_ == b.type_
    &&& a.log_weight == b.log_weight
    &&& a.log_reps == b.log_reps
    &&& a.log_duration == b.log_duration
    &&& a.log_distance == b.log_distance
}

impl WorkoutLogFlags {
    /// The visibility policy of an optional definition.
    pub fn from_def(def: Option<&ExerciseDefinition>) -> (r: Self)
        ensures
            r == flags_of(
                match def {
                    Some(d) => Some(*d),
                    None => None,
                },
            ),
    {
        match def {
            None => WorkoutLogFlags {
                log_sets: true,
                log_reps: true,
                log_weight: true,
                log_duration: true,
                log_distance: true,
                log_notes: true,
            },
            Some(d) => WorkoutLogFlags {
                log_sets: true,
                log_reps: d.log_reps,
                log_weight: d.log_weight,
                log_duration: d.log_duration,
                log_distance: d.log_distance,
                log_notes: true,
            },
        }
    }
}

impl ExerciseDefinition {
    /// Whether this definition agrees with `other` in every field.
    pub fn same_as(&self, other: &ExerciseDefinition) -> (r: bool)
        ensures
            r == same_definition(*self, *other),
    {
        crate::text_util::same_chars(&self.name, &other.name) && self.type_ == other.type_
            && self.log_weight == other.log_weight && self.log_reps == other.log_reps
            && self.log_duration == other.log_duration && self.log_distance
            == other.log_distance
    }
}

} // verus!
