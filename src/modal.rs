//! The dialog that currently captures the keyboard, and the application
//! state the dialogs act on: which tab is shown, the selections the delete
//! dialogs adjust, and the status-bar error.
use vstd::prelude::*;
use crate::dates::Date;
use crate::events::{
    DisplayConfig, Key, ModalStep, PersonalBests, Resolution, ServiceReply, ServiceRequest,
    WorkoutRecord,
};
use crate::exercise_modal::{
    CreateExerciseModal, create_exercise_failure, create_exercise_step,
    handle_create_exercise_modal_input,
};
use crate::fields::{
    ActiveTab, BodyweightFocus, ExerciseDefinition, GraphsFocus, HistoryFocus, LogFocus, PbModalField,
};
use crate::selection::{selection_after_delete, selection_after_delete_spec};
use crate::small_modals::{
    ConfirmDeleteBodyweightModal, ConfirmDeleteWorkoutModal, LogBodyweightModal,
    PersonalBestModal, SetTargetWeightModal, Answer, answer_of, closes_help, closes_notice,
    delete_failure, handle_confirm_delete_body_weigth_input, handle_confirm_delete_modal_input,
    handle_help_input, handle_log_bodyweight_modal_input, handle_pb_modal_input,
    handle_set_target_weight_modal_input, log_bodyweight_failure, log_bodyweight_step,
    set_target_failure, set_target_step,
};
use crate::identifiers::{exercise_identifiers, has_case_twin, no_case_twins, sorted_by_fold};
use crate::suggest::views;
use crate::text_util::{copy_chars, lit_then};
use crate::workout_modal::{
    AddWorkoutModal, EditWorkoutModal, add_workout_failure, add_workout_step, edit_workout_failure,
    edit_workout_step, handle_add_workout_modal_input, handle_edit_workout_modal_input,
};

verus! {

/// The dialog that captures the keyboard, if any. Opening one replaces the
/// previous one.
#[derive(Clone, Debug)]
pub enum ActiveModal {
    Closed,
    Help,
    LogBodyweight(LogBodyweightModal),
    SetTargetWeight(SetTargetWeightModal),
    AddWorkout(AddWorkoutModal),
    CreateExercise(CreateExerciseModal),
    EditWorkout(EditWorkoutModal),
    ConfirmDeleteWorkout(ConfirmDeleteWorkoutModal),
    ConfirmDeleteBodyWeight(ConfirmDeleteBodyweightModal),
    PersonalBest(PersonalBestModal),
}

/// The step a dialog took, as its caller sees it: the request it made, if
/// any.
pub open spec fn step_for(req: Option<ServiceRequest>) -> ModalStep {
    match req {
        Some(q) => ModalStep::Request(q),
        None => ModalStep::Stay,
    }
}

/// The dialogs' invariants.
pub open spec fn modal_wf(m: ActiveModal) -> bool {
    match m {
        ActiveModal::AddWorkout(a) => a.wf(),
        ActiveModal::EditWorkout(e) => e.wf(),
        _ => true,
    }
}

/// One key in the open dialog: `n` is the dialog afterwards (closed, or the
/// same kind updated as its own step says) and `req` what it asks of the
/// service.
pub open spec fn modal_transition(
    m: ActiveModal,
    n: ActiveModal,
    key: Key,
    today: Date,
    req: Option<ServiceRequest>,
) -> bool {
    match m {
        ActiveModal::Closed => n is Closed && req is None,
        ActiveModal::Help => req is None && (if closes_help(key) {
            n is Closed
        } else {
            n is Help
        }),
        ActiveModal::AddWorkout(a) => {
            let a0 = AddWorkoutModal { error_message: None, ..a };
            (n is Closed && req is None && add_workout_step(a0, a0, key, ModalStep::Close)) || (
            n matches ActiveModal::AddWorkout(b) && add_workout_step(a0, b, key, step_for(req)))
        },
        ActiveModal::EditWorkout(e) => {
            let e0 = EditWorkoutModal { error_message: None, ..e };
            (n is Closed && req is None && edit_workout_step(e0, e0, key, ModalStep::Close)) || (
            n matches ActiveModal::EditWorkout(b) && edit_workout_step(e0, b, key, step_for(req)))
        },
        ActiveModal::CreateExercise(c) => {
            let c0 = CreateExerciseModal { error_message: None, ..c };
            (n is Closed && req is None && create_exercise_step(c0, c0, key, ModalStep::Close))
                || (n matches ActiveModal::CreateExercise(b) && create_exercise_step(
                c0,
                b,
                key,
                step_for(req),
            ))
        },
        ActiveModal::LogBodyweight(l) => {
            let l0 = LogBodyweightModal { error_message: None, ..l };
            (n is Closed && req is None && log_bodyweight_step(l0, l0, key, today, ModalStep::Close))
                || (n matches ActiveModal::LogBodyweight(b) && log_bodyweight_step(
                l0,
                b,
                key,
                today,
                step_for(req),
            ))
        },
        ActiveModal::SetTargetWeight(t) => {
            let t0 = SetTargetWeightModal { error_message: None, ..t };
            (n is Closed && req is None && set_target_step(t0, t0, key, ModalStep::Close)) || (
            n matches ActiveModal::SetTargetWeight(b) && set_target_step(t0, b, key, step_for(req)))
        },
        ActiveModal::ConfirmDeleteWorkout(c) => match answer_of(key) {
            Answer::Yes => n == m && (req matches Some(ServiceRequest::DeleteWorkout(id)) && id
                == c.workout_id),
            Answer::No => n is Closed && req is None,
            Answer::Undecided => n == m && req is None,
        },
        ActiveModal::ConfirmDeleteBodyWeight(c) => match answer_of(key) {
            Answer::Yes => n == m && (req matches Some(ServiceRequest::DeleteBodyweight(id)) && id
                == c.body_weight_id),
            Answer::No => n is Closed && req is None,
            Answer::Undecided => n == m && req is None,
        },
        ActiveModal::PersonalBest(_) => req is None && (if closes_notice(key) {
            n is Closed
        } else {
            n == m
        }),
    }
}

fn settle(step: ModalStep) -> (r: (bool, Option<ServiceRequest>))
    ensures
        step is Close ==> r.0 && r.1 is None,
        !(step is Close) ==> !r.0 && step == step_for(r.1),
{
    match step {
        ModalStep::Close => (true, None),
        ModalStep::Stay => (false, None),
        ModalStep::Request(q) => (false, Some(q)),
    }
}

/// Routes a key to the open dialog and returns the dialog afterwards with
/// what it asks of the service. `today` anchors the bodyweight dialog's date
/// shortcuts.
#[verifier::rlimit(50)]
pub fn handle_modal_input(m: ActiveModal, key: Key, today: Date) -> (r: (ActiveModal, Option<ServiceRequest>))
    requires
        modal_wf(m),
    ensures
        modal_transition(m, r.0, key, today, r.1),
        modal_wf(r.0),
{
    match m {
        ActiveModal::Closed => (ActiveModal::Closed, None),
        ActiveModal::Help => {
            let step = handle_help_input(key);
            if let ModalStep::Close = step {
                (ActiveModal::Closed, None)
            } else {
                (ActiveModal::Help, None)
            }
        },
        ActiveModal::AddWorkout(a) => {
            let mut a = a;
            let step = handle_add_workout_modal_input(&mut a, key);
            let (closed, req) = settle(step);
            if closed {
                (ActiveModal::Closed, None)
            } else {
                (ActiveModal::AddWorkout(a), req)
            }
        },
        ActiveModal::EditWorkout(e) => {
            let mut e = e;
            let step = handle_edit_workout_modal_input(&mut e, key);
            let (closed, req) = settle(step);
            if closed {
                (ActiveModal::Closed, None)
            } else {
                (ActiveModal::EditWorkout(e), req)
            }
        },
        ActiveModal::CreateExercise(c) => {
            let mut c = c;
            let step = handle_create_exercise_modal_input(&mut c, key);
            let (closed, req) = settle(step);
            if closed {
                (ActiveModal::Closed, None)
            } else {
                (ActiveModal::CreateExercise(c), req)
            }
        },
        ActiveModal::LogBodyweight(l) => {
            let mut l = l;
            let step = handle_log_bodyweight_modal_input(&mut l, key, today);
            let (closed, req) = settle(step);
            if closed {
                (ActiveModal::Closed, None)
            } else {
                (ActiveModal::LogBodyweight(l), req)
            }
        },
        ActiveModal::SetTargetWeight(t) => {
            let mut t = t;
            let step = handle_set_target_weight_modal_input(&mut t, key);
            let (closed, req) = settle(step);
            if closed {
                (ActiveModal::Closed, None)
            } else {
                (ActiveModal::SetTargetWeight(t), req)
            }
        },
        ActiveModal::ConfirmDeleteWorkout(c) => {
            let step = handle_confirm_delete_modal_input(&c, key);
            let (closed, req) = settle(step);
            if closed {
                (ActiveModal::Closed, None)
            } else {
                (ActiveModal::ConfirmDeleteWorkout(c), req)
            }
        },
        ActiveModal::ConfirmDeleteBodyWeight(c) => {
            let step = handle_confirm_delete_body_weigth_input(&c, key);
            let (closed, req) = settle(step);
            if closed {
                (ActiveModal::Closed, None)
            } else {
                (ActiveModal::ConfirmDeleteBodyWeight(c), req)
            }
        },
        ActiveModal::PersonalBest(p) => {
            let step = handle_pb_modal_input(key);
            if let ModalStep::Close = step {
                (ActiveModal::Closed, None)
            } else {
                (ActiveModal::PersonalBest(p), None)
            }
        },
    }
}


/// How long a status-bar error stays, in milliseconds.
pub const ERROR_DISPLAY_MS: u64 = 5000;

/// What became of a key given to the application.
#[derive(Clone, Debug)]
pub enum KeyOutcome {
    /// The key was used up.
    Handled,
    /// The key was used up and the dialog waits for this call.
    Request(ServiceRequest),
    /// No dialog is open and the key is not global: the shown tab takes it.
    TabKey,
}

/// The application state that the dialogs and the global keys act on.
/// Lists hold what the caller last fetched from the service.
#[derive(Clone, Debug)]
pub struct App {
    pub active_tab: ActiveTab,
    pub should_quit: bool,
    pub active_modal: ActiveModal,
    /// The status-bar error and when, in milliseconds, it expires.
    pub last_error: Option<Vec<char>>,
    pub error_clear_time: Option<u64>,
    /// The exercises logged on the viewed day, and the selected one.
    pub log_exercises_today: Vec<Vec<char>>,
    pub log_exercise_selection: Option<usize>,
    /// The sets of the selected exercise, and the selected one.
    pub log_sets_for_selected_exercise: Vec<WorkoutRecord>,
    pub log_set_selection: Option<usize>,
    /// The pane of the log tab with focus, and the day it shows.
    pub log_focus: LogFocus,
    pub log_viewed_date: Date,
    /// The days of the history tab, and the selected one.
    pub history_focus: HistoryFocus,
    pub history_dates: Vec<Date>,
    pub history_selection: Option<usize>,
    /// The graphs tab: its focus, the exercises and graph kinds offered, the
    /// selected rows, and what the graph shows.
    pub graph_focus: GraphsFocus,
    pub graph_exercises_all: Vec<Vec<char>>,
    pub graph_exercise_selection: Option<usize>,
    pub graph_type_selection: Option<usize>,
    pub graph_selected_exercise: Option<Vec<char>>,
    pub graph_selected_type: Option<GraphType>,
    /// The pane of the bodyweight tab with focus, and the target weight.
    pub bw_focus: BodyweightFocus,
    pub bw_target: Option<u64>,
    /// The bodyweight entries' identifiers, newest first, and the selected one.
    pub bw_history_ids: Vec<u64>,
    pub bw_history_selection: Option<usize>,
    /// The months the bodyweight graph covers; zero for all.
    pub bw_graph_range_months: u32,
}

/// The kinds of graph the graphs tab offers.
#[derive(Clone, Copy, Debug, PartialEq, Eq, Structural)]
pub enum GraphType {
    Estimated1RM,
    MaxWeight,
    MaxReps,
    WorkoutVolume,
    WorkoutReps,
    WorkoutDuration,
    WorkoutDistance,
}

/// The next range of the bodyweight graph: one, three, six and twelve
/// months, then everything, then one month again.
pub open spec fn next_range(months: u32) -> u32 {
    if months == 1 {
        3
    } else if months == 3 {
        6
    } else if months == 6 {
        12
    } else if months == 12 {
        0
    } else {
        1
    }
}

impl App {
    /// The dialog's invariant holds.
    pub open spec fn wf(&self) -> bool {
        modal_wf(self.active_modal)
    }

    /// The starting state on `today`: the log tab, no dialog, first rows
    /// selected, the exercises known for graphs and the target weight as
    /// the service has them.
    pub fn new(today: Date, graph_exercises_all: Vec<Vec<char>>, bw_target: Option<u64>) -> (app: App)
        ensures
            app.log_viewed_date == today,
            app.graph_exercises_all == graph_exercises_all,
            app.bw_target == bw_target,
            app.wf(),
            app.active_tab == ActiveTab::Log,
            !app.should_quit,
            app.active_modal is Closed,
            app.last_error is None,
            app.bw_graph_range_months == 3,
    {
        App {
            active_tab: ActiveTab::Log,
            should_quit: false,
            active_modal: ActiveModal::Closed,
            last_error: None,
            error_clear_time: None,
            log_exercises_today: Vec::new(),
            log_exercise_selection: Some(0),
            log_sets_for_selected_exercise: Vec::new(),
            log_set_selection: Some(0),
            log_focus: LogFocus::ExerciseList,
            log_viewed_date: today,
            history_focus: HistoryFocus::DayList,
            history_dates: Vec::new(),
            history_selection: Some(0),
            graph_focus: GraphsFocus::ExerciseList,
            graph_exercises_all,
            graph_exercise_selection: Some(0),
            graph_type_selection: Some(0),
            graph_selected_exercise: None,
            graph_selected_type: None,
            bw_focus: BodyweightFocus::History,
            bw_target,
            bw_history_ids: Vec::new(),
            bw_history_selection: Some(0),
            bw_graph_range_months: 3,
        }
    }

    /// Shows an error in the status bar until five seconds after `now_ms`.
    pub fn set_error(&mut self, msg: Vec<char>, now_ms: u64)
        ensures
            final(self).last_error == Some(msg),
            final(self).error_clear_time == Some(
                if now_ms as int + ERROR_DISPLAY_MS > u64::MAX {
                    u64::MAX
                } else {
                    (now_ms + ERROR_DISPLAY_MS) as u64
                },
            ),
            *final(self) == (App {
                last_error: final(self).last_error,
                error_clear_time: final(self).error_clear_time,
                ..*old(self)
            }),
    {
        self.last_error = Some(msg);
        self.error_clear_time = Some(
            if now_ms > u64::MAX - ERROR_DISPLAY_MS {
                u64::MAX
            } else {
                now_ms + ERROR_DISPLAY_MS
            },
        );
    }

    /// Drops the status-bar error once its time has come.
    pub fn clear_expired_error(&mut self, now_ms: u64)
        ensures
            (old(self).error_clear_time matches Some(t) && now_ms >= t) ==> final(self).last_error
                is None && final(self).error_clear_time is None,
            !(old(self).error_clear_time matches Some(t) && now_ms >= t) ==> *final(self)
                == *old(self),
            final(self).active_modal == old(self).active_modal,
    {
        if let Some(t) = self.error_clear_time {
            if now_ms >= t {
                self.last_error = None;
                self.error_clear_time = None;
            }
        }
    }

    /// Handles a key: the open dialog takes it; otherwise `q` quits, `?`
    /// opens help, F1 to F4 switch tabs, and any other key is left to the
    /// shown tab.
    #[verifier::rlimit(50)]
    pub fn handle_key_event(&mut self, key: Key, today: Date) -> (r: KeyOutcome)
        requires
            old(self).wf(),
        ensures
            final(self).wf(),
            !(old(self).active_modal is Closed) ==> modal_transition(
                old(self).active_modal,
                final(self).active_modal,
                key,
                today,
                match r {
                    KeyOutcome::Request(q) => Some(q),
                    _ => None,
                },
            ) && !(r is TabKey) && *final(self) == (App {
                active_modal: final(self).active_modal,
                ..*old(self)
            }),
            old(self).active_modal is Closed ==> r !is Request && match key {
                Key::Char('q') => final(self).should_quit && r is Handled,
                Key::Char('?') => final(self).active_modal is Help && r is Handled,
                Key::F(1) => final(self).active_tab == ActiveTab::Log && r is Handled,
                Key::F(2) => final(self).active_tab == ActiveTab::History && r is Handled,
                Key::F(3) => final(self).active_tab == ActiveTab::Graphs && r is Handled,
                Key::F(4) => final(self).active_tab == ActiveTab::Bodyweight && r is Handled,
                _ => r is TabKey && *final(self) == *old(self),
            },
    {
        if let ActiveModal::Closed = self.active_modal {
            match key {
                Key::Char('q') => {
                    self.should_quit = true;
                },
                Key::Char('?') => {
                    self.active_modal = ActiveModal::Help;
                },
                Key::F(1) => {
                    self.active_tab = ActiveTab::Log;
                },
                Key::F(2) => {
                    self.active_tab = ActiveTab::History;
                },
                Key::F(3) => {
                    self.active_tab = ActiveTab::Graphs;
                },
                Key::F(4) => {
                    self.active_tab = ActiveTab::Bodyweight;
                },
                _ => {
                    return KeyOutcome::TabKey;
                },
            }
            return KeyOutcome::Handled;
        }
        let mut modal = ActiveModal::Closed;
        core::mem::swap(&mut modal, &mut self.active_modal);
        let (next, req) = handle_modal_input(modal, key, today);
        self.active_modal = next;
        match req {
            Some(q) => KeyOutcome::Request(q),
            None => KeyOutcome::Handled,
        }
    }

    /// Cycles the bodyweight graph's range.
    pub fn bw_cycle_graph_range(&mut self)
        ensures
            final(self).bw_graph_range_months == next_range(old(self).bw_graph_range_months),
            *final(self) == (App {
                bw_graph_range_months: final(self).bw_graph_range_months,
                ..*old(self)
            }),
    {
        self.bw_graph_range_months = if self.bw_graph_range_months == 1 {
            3
        } else if self.bw_graph_range_months == 3 {
            6
        } else if self.bw_graph_range_months == 6 {
            12
        } else if self.bw_graph_range_months == 12 {
            0
        } else {
            1
        };
    }
}


/// The dialog after the service answered `request` with `reply`; a reply
/// that does not belong to the open dialog changes nothing.
pub open spec fn reply_applied(m: ActiveModal, n: ActiveModal, request: ServiceRequest, reply: ServiceReply) -> bool {
    match (m, request, reply) {
        (ActiveModal::AddWorkout(a), ServiceRequest::ResolveExercise(text, cause), ServiceReply::Resolved(res)) => n matches ActiveModal::AddWorkout(b)
            && crate::workout_modal::resolution_applied(a, b, text@, cause, res),
        (ActiveModal::AddWorkout(a), ServiceRequest::AddWorkout(_), ServiceReply::WorkoutAdded(out)) => match out {
            Ok(Some(pb)) => if pb.weight || pb.reps || pb.duration || pb.distance {
                n matches ActiveModal::PersonalBest(p) && p.pb_info == pb && p.exercise_name@
                    == match a.resolved_exercise {
                    Some(d) => d.name@,
                    None => a.exercise_input@,
                }
            } else {
                n is Closed
            },
            Ok(None) => n is Closed,
            Err(f) => n matches ActiveModal::AddWorkout(b) && b == (AddWorkoutModal {
                error_message: b.error_message,
                ..a
            }) && crate::workout_modal::error_is(
                b.error_message,
                "Database error: "@ + crate::workout_modal::add_failure_text(f),
            ),
        },
        (ActiveModal::EditWorkout(e), ServiceRequest::EditWorkout(_), ServiceReply::Done(out)) => match out {
            Ok(()) => n is Closed,
            Err(f) => n matches ActiveModal::EditWorkout(b) && b == (EditWorkoutModal {
                error_message: b.error_message,
                ..e
            }) && crate::workout_modal::error_is(
                b.error_message,
                "Database error: "@ + ("Error editing workout: "@ + f.detail@),
            ),
        },
        (ActiveModal::CreateExercise(c), ServiceRequest::CreateExercise(_), ServiceReply::Done(out)) => match out {
            Ok(()) => n is Closed,
            Err(f) => n matches ActiveModal::CreateExercise(b) && b == (CreateExerciseModal {
                error_message: b.error_message,
                ..c
            }) && crate::workout_modal::error_is(
                b.error_message,
                "Database error: "@ + crate::exercise_modal::create_failure_text(f),
            ),
        },
        (ActiveModal::LogBodyweight(l), ServiceRequest::AddBodyweight(_, _), ServiceReply::Done(out)) => match out {
            Ok(()) => n is Closed,
            Err(f) => n matches ActiveModal::LogBodyweight(b) && b == (LogBodyweightModal {
                error_message: b.error_message,
                ..l
            }) && crate::workout_modal::error_is(
                b.error_message,
                crate::small_modals::bodyweight_failure_text(f),
            ),
        },
        (ActiveModal::SetTargetWeight(t), ServiceRequest::SetTargetWeight(w), ServiceReply::Done(out)) => match out {
            Ok(()) => n is Closed,
            Err(f) => n matches ActiveModal::SetTargetWeight(b) && b == (SetTargetWeightModal {
                error_message: b.error_message,
                ..t
            }) && crate::workout_modal::error_is(
                b.error_message,
                "Database error: "@ + ((if w is None {
                    "Error clearing target: "@
                } else {
                    "Error setting target: "@
                }) + f.detail@),
            ),
        },
        (ActiveModal::ConfirmDeleteWorkout(_), ServiceRequest::DeleteWorkout(_), ServiceReply::Done(_)) => n is Closed,
        (ActiveModal::ConfirmDeleteBodyWeight(_), ServiceRequest::DeleteBodyweight(_), ServiceReply::Done(_)) => n is Closed,
        _ => n == m,
    }
}

impl App {
    /// The identifiers the add-workout dialog suggests from: the exercise
    /// names and aliases the service lists, sorted by lowercase form, each
    /// kept once up to ASCII case.
    pub fn get_all_exercise_identifiers(names: &Vec<Vec<char>>, aliases: &Vec<Vec<char>>) -> (r: Vec<Vec<char>>)
        ensures
            sorted_by_fold(views(r@)),
            no_case_twins(views(r@)),
            forall|x: Seq<char>| (views(names@).contains(x) || views(aliases@).contains(x))
                ==> has_case_twin(views(r@), x),
            forall|y: Seq<char>| views(r@).contains(y) ==> views(names@).contains(y)
                || views(aliases@).contains(y),
    {
        exercise_identifiers(names, aliases)
    }

    /// The name of the exercise selected in the log, if any.
    pub fn selected_log_exercise(&self) -> (r: Option<Vec<char>>)
        ensures
            match self.log_exercise_selection {
                Some(i) => if i < self.log_exercises_today@.len() {
                    r matches Some(t) && t@ == self.log_exercises_today@[i as int]@
                } else {
                    r is None
                },
                None => r is None,
            },
    {
        match self.log_exercise_selection {
            Some(i) => if i < self.log_exercises_today.len() {
                Some(copy_chars(&self.log_exercises_today[i]))
            } else {
                None
            },
            None => None,
        }
    }

    /// The exercise of the set selected in the log, if any.
    pub fn selected_set_exercise(&self) -> (r: Option<Vec<char>>)
        ensures
            match self.log_set_selection {
                Some(i) => if i < self.log_sets_for_selected_exercise@.len() {
                    r matches Some(t) && t@ == self.log_sets_for_selected_exercise@[i as int].exercise_name@
                } else {
                    r is None
                },
                None => r is None,
            },
    {
        match self.log_set_selection {
            Some(i) => if i < self.log_sets_for_selected_exercise.len() {
                Some(copy_chars(&self.log_sets_for_selected_exercise[i].exercise_name))
            } else {
                None
            },
            None => None,
        }
    }

    /// Opens the add-workout dialog with the exercise selected in the log
    /// typed in. `preset` is the service's answer to resolving that name:
    /// where it was found the measurements are seeded from its latest set;
    /// where resolving failed the status bar says so and the dialog opens
    /// unresolved.
    pub fn open_add_workout_modal(
        &mut self,
        all_exercise_identifiers: Vec<Vec<char>>,
        preset: Option<Resolution>,
        now_ms: u64,
    )
        ensures
            final(self).wf(),
            final(self).active_modal matches ActiveModal::AddWorkout(m) && m.focused_field
                == crate::fields::AddWorkoutField::Exercise && m.error_message is None
                && m.exercise_suggestions@.len() == 0 && m.all_exercise_identifiers
                == all_exercise_identifiers && m.exercise_input@ == (match old(self).log_exercise_selection {
                Some(i) => if i < old(self).log_exercises_today@.len() {
                    old(self).log_exercises_today@[i as int]@
                } else {
                    Seq::<char>::empty()
                },
                None => Seq::<char>::empty(),
            }) && (match preset {
                Some(Resolution::Found(def, _, _)) => m.resolved_exercise == Some(def),
                _ => m.resolved_exercise is None,
            }),
            match preset {
                Some(Resolution::Failed(e)) => final(self).last_error matches Some(t) && t@
                    == "Error resolving exercise: "@ + e@,
                _ => true,
            },
    {
        let name = self.selected_log_exercise();
        let seeded = match preset {
            Some(Resolution::Found(def, last, cfg)) => Some((def, last, cfg)),
            Some(Resolution::Failed(e)) => {
                self.set_error(lit_then("Error resolving exercise: ", &e), now_ms);
                None
            },
            _ => None,
        };
        self.active_modal = ActiveModal::AddWorkout(
            AddWorkoutModal::new(all_exercise_identifiers, name, seeded),
        );
    }

    /// Opens the edit dialog on the selected set, given its exercise's
    /// definition, or the reason it could not be had, which goes to the
    /// status bar instead. Without a selected set nothing happens.
    pub fn open_edit_workout_modal(
        &mut self,
        details: Result<(ExerciseDefinition, DisplayConfig), Vec<char>>,
        now_ms: u64,
    )
        requires
            old(self).wf(),
        ensures
            final(self).wf(),
            match old(self).log_set_selection {
                Some(i) => if i < old(self).log_sets_for_selected_exercise@.len() {
                    match details {
                        Ok((def, _)) => final(self).active_modal matches ActiveModal::EditWorkout(e)
                            && e.workout_id == old(self).log_sets_for_selected_exercise@[i as int].id
                            && e.resolved_exercise == Some(def) && e.focused_field
                            == crate::fields::AddWorkoutField::Sets,
                        Err(msg) => final(self).active_modal == old(self).active_modal && (final(self).last_error matches Some(t) && t@ == "Error getting exercise details: "@
                            + msg@),
                    }
                } else {
                    *final(self) == *old(self)
                },
                None => *final(self) == *old(self),
            },
    {
        let i = match self.log_set_selection {
            Some(i) => i,
            None => return ,
        };
        if i >= self.log_sets_for_selected_exercise.len() {
            return ;
        }
        match details {
            Ok((def, cfg)) => {
                let m = EditWorkoutModal::new(&self.log_sets_for_selected_exercise[i], def, cfg);
                self.active_modal = ActiveModal::EditWorkout(m);
            },
            Err(msg) => {
                self.set_error(lit_then("Error getting exercise details: ", &msg), now_ms);
            },
        }
    }

    /// Asks to confirm deleting the selected set, if one is selected.
    pub fn open_delete_confirmation_modal(&mut self)
        ensures
            match old(self).log_set_selection {
                Some(i) => if i < old(self).log_sets_for_selected_exercise@.len() {
                    final(self).active_modal matches ActiveModal::ConfirmDeleteWorkout(c) && c.workout_id
                        == old(self).log_sets_for_selected_exercise@[i as int].id && c.set_index == i
                        + 1 && c.exercise_name@ == old(self).log_sets_for_selected_exercise@[i as int].exercise_name@
                } else {
                    *final(self) == *old(self)
                },
                None => *final(self) == *old(self),
            },
            *final(self) == (App { active_modal: final(self).active_modal, ..*old(self) }),
    {
        if let Some(i) = self.log_set_selection {
            if i < self.log_sets_for_selected_exercise.len() && i < usize::MAX {
                let w = &self.log_sets_for_selected_exercise[i];
                self.active_modal = ActiveModal::ConfirmDeleteWorkout(
                    ConfirmDeleteWorkoutModal {
                        workout_id: w.id,
                        exercise_name: copy_chars(&w.exercise_name),
                        set_index: i + 1,
                    },
                );
            }
        }
    }

    /// Asks to confirm deleting the selected bodyweight entry, if any.
    pub fn open_delete_bodyweight_confirmation_modal(&mut self)
        ensures
            match old(self).bw_history_selection {
                Some(i) => if i < old(self).bw_history_ids@.len() {
                    final(self).active_modal matches ActiveModal::ConfirmDeleteBodyWeight(c)
                        && c.body_weight_id == old(self).bw_history_ids@[i as int] && c.set_index
                        == i + 1
                } else {
                    *final(self) == *old(self)
                },
                None => *final(self) == *old(self),
            },
            *final(self) == (App { active_modal: final(self).active_modal, ..*old(self) }),
    {
        if let Some(i) = self.bw_history_selection {
            if i < self.bw_history_ids.len() && i < usize::MAX {
                self.active_modal = ActiveModal::ConfirmDeleteBodyWeight(
                    ConfirmDeleteBodyweightModal {
                        body_weight_id: self.bw_history_ids[i],
                        set_index: i + 1,
                    },
                );
            }
        }
    }

    /// Opens a blank create-exercise dialog.
    pub fn open_create_exercise_modal(&mut self)
        ensures
            final(self).active_modal matches ActiveModal::CreateExercise(c) && c.focused_field
                == crate::fields::AddExerciseField::Name && c.name_input@.len() == 0,
            *final(self) == (App { active_modal: final(self).active_modal, ..*old(self) }),
    {
        self.active_modal = ActiveModal::CreateExercise(CreateExerciseModal::new());
    }

    /// Opens the log-bodyweight dialog for today.
    pub fn open_log_bodyweight_modal(&mut self)
        ensures
            final(self).active_modal matches ActiveModal::LogBodyweight(l) && l.focused_field
                == crate::fields::LogBodyweightField::Weight && l.weight_input@.len() == 0
                && l.date_input@ == "today"@,
            *final(self) == (App { active_modal: final(self).active_modal, ..*old(self) }),
    {
        self.active_modal = ActiveModal::LogBodyweight(LogBodyweightModal::new());
    }

    /// Opens the target-weight dialog on the current target.
    pub fn open_set_target_weight_modal(&mut self, target: Option<u64>)
        ensures
            final(self).active_modal matches ActiveModal::SetTargetWeight(t) && t.focused_field
                == crate::fields::SetTargetWeightField::Weight && t.weight_input@ == match target {
                Some(w) => crate::numeric::fixed_text(w as int, 1),
                None => Seq::<char>::empty(),
            },
            *final(self) == (App { active_modal: final(self).active_modal, ..*old(self) }),
    {
        self.active_modal = ActiveModal::SetTargetWeight(SetTargetWeightModal::new(target));
    }

    /// Shows the personal bests a new set of `exercise_name` achieved.
    pub fn open_pb_modal(&mut self, exercise_name: Vec<char>, pb_info: PersonalBests)
        ensures
            final(self).active_modal matches ActiveModal::PersonalBest(p) && p.exercise_name
                == exercise_name && p.pb_info == pb_info,
            *final(self) == (App { active_modal: final(self).active_modal, ..*old(self) }),
    {
        self.active_modal = ActiveModal::PersonalBest(
            PersonalBestModal { exercise_name, pb_info, focused_field: PbModalField::OkButton },
        );
    }

    /// Takes the service's reply to a request the open dialog made. A
    /// success closes the dialog, or chains into the personal-best notice
    /// after a set that beat a record; a failure keeps the dialog and its
    /// buffers and shows why. A deletion closes its confirmation either way;
    /// once it succeeded the selection is moved off the deleted row, and a
    /// failure goes to the status bar.
    #[verifier::rlimit(50)]
    pub fn apply_reply(&mut self, request: ServiceRequest, reply: ServiceReply, now_ms: u64)
        requires
            old(self).wf(),
        ensures
            final(self).wf(),
            reply_applied(old(self).active_modal, final(self).active_modal, request, reply),
            (old(self).active_modal is ConfirmDeleteWorkout && request is DeleteWorkout && (reply matches ServiceReply::Done(Ok(_)))) ==> final(self).log_set_selection == selection_after_delete_spec(
                old(self).log_set_selection,
                old(self).log_sets_for_selected_exercise@.len(),
            ),
            (old(self).active_modal is ConfirmDeleteBodyWeight && request is DeleteBodyweight && (reply matches ServiceReply::Done(Ok(_)))) ==> final(self).bw_history_selection == selection_after_delete_spec(
                old(self).bw_history_selection,
                old(self).bw_history_ids@.len(),
            ),
            match reply {
                ServiceReply::Done(Err(f)) => {
                    &&& (old(self).active_modal is ConfirmDeleteWorkout && request is DeleteWorkout)
                        ==> (final(self).last_error matches Some(t) && t@ == "Database error: "@ + (
                    "Error deleting workout: "@ + f.detail@))
                    &&& (old(self).active_modal is ConfirmDeleteBodyWeight
                        && request is DeleteBodyweight) ==> (final(self).last_error matches Some(t)
                        && t@ == "Database error: "@ + ("Error deleting bodyweight: "@ + f.detail@))
                },
                _ => true,
            },
    {
        let mut modal = ActiveModal::Closed;
        core::mem::swap(&mut modal, &mut self.active_modal);
        let next = match (modal, request, reply) {
            (ActiveModal::AddWorkout(a), ServiceRequest::ResolveExercise(text, cause), ServiceReply::Resolved(res)) => {
                let mut a = a;
                a.apply_resolution(&text, cause, res);
                ActiveModal::AddWorkout(a)
            },
            (ActiveModal::AddWorkout(a), ServiceRequest::AddWorkout(_), ServiceReply::WorkoutAdded(out)) => match out {
                Ok(Some(pb)) => if pb.any_pb() {
                    let name = match &a.resolved_exercise {
                        Some(d) => copy_chars(&d.name),
                        None => copy_chars(&a.exercise_input),
                    };
                    ActiveModal::PersonalBest(
                        PersonalBestModal { exercise_name: name, pb_info: pb, focused_field: PbModalField::OkButton },
                    )
                } else {
                    ActiveModal::Closed
                },
                Ok(None) => ActiveModal::Closed,
                Err(f) => {
                    let mut a = a;
                    a.error_message = Some(add_workout_failure(&f).message());
                    ActiveModal::AddWorkout(a)
                },
            },
            (ActiveModal::EditWorkout(e), ServiceRequest::EditWorkout(_), ServiceReply::Done(out)) => match out {
                Ok(()) => ActiveModal::Closed,
                Err(f) => {
                    let mut e = e;
                    e.error_message = Some(edit_workout_failure(&f).message());
                    ActiveModal::EditWorkout(e)
                },
            },
            (ActiveModal::CreateExercise(c), ServiceRequest::CreateExercise(_), ServiceReply::Done(out)) => match out {
                Ok(()) => ActiveModal::Closed,
                Err(f) => {
                    let mut c = c;
                    c.error_message = Some(create_exercise_failure(&f).message());
                    ActiveModal::CreateExercise(c)
                },
            },
            (ActiveModal::LogBodyweight(l), ServiceRequest::AddBodyweight(_, _), ServiceReply::Done(out)) => match out {
                Ok(()) => ActiveModal::Closed,
                Err(f) => {
                    let mut l = l;
                    l.error_message = Some(log_bodyweight_failure(&f).message());
                    ActiveModal::LogBodyweight(l)
                },
            },
            (ActiveModal::SetTargetWeight(t), ServiceRequest::SetTargetWeight(w), ServiceReply::Done(out)) => match out {
                Ok(()) => ActiveModal::Closed,
                Err(f) => {
                    let mut t = t;
                    t.error_message = Some(set_target_failure(w.is_none(), &f).message());
                    ActiveModal::SetTargetWeight(t)
                },
            },
            (ActiveModal::ConfirmDeleteWorkout(_), ServiceRequest::DeleteWorkout(_), ServiceReply::Done(out)) => {
                match out {
                    Ok(()) => {
                        self.log_set_selection = selection_after_delete(
                            self.log_set_selection,
                            self.log_sets_for_selected_exercise.len(),
                        );
                    },
                    Err(f) => {
                        self.set_error(delete_failure(false, &f).message(), now_ms);
                    },
                }
                ActiveModal::Closed
            },
            (ActiveModal::ConfirmDeleteBodyWeight(_), ServiceRequest::DeleteBodyweight(_), ServiceReply::Done(out)) => {
                match out {
                    Ok(()) => {
                        self.bw_history_selection = selection_after_delete(
                            self.bw_history_selection,
                            self.bw_history_ids.len(),
                        );
                    },
                    Err(f) => {
                        self.set_error(delete_failure(true, &f).message(), now_ms);
                    },
                }
                ActiveModal::Closed
            },
            (m, _, _) => m,
        };
        self.active_modal = next;
    }
}

} // verus!
