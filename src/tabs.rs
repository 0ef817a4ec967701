//! Keys on the tabs while no dialog is open: list movement, pane focus,
//! day changes, and the keys that open dialogs. What needs the fitness
//! service afterwards is returned as an action for the caller.
use vstd::prelude::*;
use crate::dates::{Date, date_before, is_before, shift_date, shifted_date_of};
use crate::events::Key;
use crate::fields::{ActiveTab, BodyweightFocus, GraphsFocus, LogFocus};
use crate::modal::{App, GraphType};
use crate::selection::{list_next, list_previous};
use crate::text_util::{chars_of, copy_chars, same_chars};

verus! {

/// What the caller must do after a tab key.
#[derive(Clone, Copy, Debug, PartialEq, Eq, Structural)]
pub enum TabAction {
    /// Nothing more.
    Nothing,
    /// Reload the sets of the exercise now selected in the log.
    RefreshLogSets,
    /// Reload the log for the day now shown.
    RefreshLog,
    /// Resolve the exercise selected in the log and open the add dialog.
    OpenAddWorkout,
    /// Fetch the definition of the selected set's exercise and open the
    /// edit dialog.
    OpenEditWorkout,
    /// Fetch the days with logged sets and move to the previous one
    /// (`false`) or the next one (`true`).
    JumpToExercisedDay(bool),
    /// Recompute the graph for the selected exercise and kind.
    UpdateGraph,
    /// Recompute the bodyweight graph for its range.
    UpdateBodyweightGraph,
}

/// The kinds of graph, in the order the graphs tab lists them.
pub open spec fn graph_type_at(i: int) -> GraphType {
    if i == 0 {
        GraphType::Estimated1RM
    } else if i == 1 {
        GraphType::MaxWeight
    } else if i == 2 {
        GraphType::MaxReps
    } else if i == 3 {
        GraphType::WorkoutVolume
    } else if i == 4 {
        GraphType::WorkoutReps
    } else if i == 5 {
        GraphType::WorkoutDuration
    } else {
        GraphType::WorkoutDistance
    }
}

/// Number of graph kinds.
pub const GRAPH_TYPE_COUNT: usize = 7;

fn graph_type_of(i: usize) -> (g: GraphType)
    requires
        i < 7,
    ensures
        g == graph_type_at(i as int),
{
    if i == 0 {
        GraphType::Estimated1RM
    } else if i == 1 {
        GraphType::MaxWeight
    } else if i == 2 {
        GraphType::MaxReps
    } else if i == 3 {
        GraphType::WorkoutVolume
    } else if i == 4 {
        GraphType::WorkoutReps
    } else if i == 5 {
        GraphType::WorkoutDuration
    } else {
        GraphType::WorkoutDistance
    }
}

/// The title of a graph kind.
pub open spec fn graph_title(g: GraphType) -> Seq<char> {
    match g {
        GraphType::Estimated1RM => "Estimated 1RM"@,
        GraphType::MaxWeight => "Max Weight Lifted"@,
        GraphType::MaxReps => "Max Reps Per Set"@,
        GraphType::WorkoutVolume => "Workout Volume"@,
        GraphType::WorkoutReps => "Total Reps Per Workout"@,
        GraphType::WorkoutDuration => "Workout Duration (min)"@,
        GraphType::WorkoutDistance => "Workout Distance"@,
    }
}

/// The title of a graph kind.
pub fn graph_type_to_string(g: GraphType) -> (r: Vec<char>)
    ensures
        r@ == graph_title(g),
{
    match g {
        GraphType::Estimated1RM => chars_of("Estimated 1RM"),
        GraphType::MaxWeight => chars_of("Max Weight Lifted"),
        GraphType::MaxReps => chars_of("Max Reps Per Set"),
        GraphType::WorkoutVolume => chars_of("Workout Volume"),
        GraphType::WorkoutReps => chars_of("Total Reps Per Workout"),
        GraphType::WorkoutDuration => chars_of("Workout Duration (min)"),
        GraphType::WorkoutDistance => chars_of("Workout Distance"),
    }
}

/// The selection reset for a list: the first row, or none when empty.
pub open spec fn first_row(len: nat) -> Option<usize> {
    if len == 0 {
        None
    } else {
        Some(0usize)
    }
}

/// The log shows another day: both selections go back to the first row.
pub open spec fn log_moved_to(a: App, b: App, d: Date) -> bool {
    b == (App {
        log_viewed_date: d,
        log_exercise_selection: first_row(a.log_exercises_today@.len()),
        log_set_selection: first_row(a.log_sets_for_selected_exercise@.len()),
        ..a
    })
}

/// The last index of a day before `d` in `dates`, if any.
pub open spec fn last_before(dates: Seq<Date>, d: Date, n: int) -> Option<int>
    decreases n,
{
    if n <= 0 {
        None
    } else if date_before(dates[n - 1], d) {
        Some(n - 1)
    } else {
        last_before(dates, d, n - 1)
    }
}

/// The first index at or after `i` of a day after `d` in `dates`, if any.
pub open spec fn first_after(dates: Seq<Date>, d: Date, i: int) -> Option<int>
    decreases dates.len() - i,
{
    if i >= dates.len() || i < 0 {
        None
    } else if date_before(d, dates[i]) {
        Some(i)
    } else {
        first_after(dates, d, i + 1)
    }
}

/// The index of the first identifier equal to `name`, if any.
pub open spec fn index_of(names: Seq<Vec<char>>, name: Seq<char>, i: int) -> Option<int>
    decreases names.len() - i,
{
    if i >= names.len() || i < 0 {
        None
    } else if names[i]@ == name {
        Some(i)
    } else {
        index_of(names, name, i + 1)
    }
}

fn find_name(names: &Vec<Vec<char>>, name: &Vec<char>) -> (r: Option<usize>)
    ensures
        match index_of(names@, name@, 0) {
            Some(i) => r == Some(i as usize),
            None => r is None,
        },
{
    let mut i: usize = 0;
    while i < names.len()
        invariant
            i <= names@.len(),
            index_of(names@, name@, 0) == index_of(names@, name@, i as int),
        decreases names@.len() - i,
    {
        if same_chars(&names[i], name) {
            return Some(i);
        }
        i = i + 1;
    }
    None
}

impl App {
    /// Shows the day `days` days away in the log, both selections back on
    /// their first rows; a day out of the calendar's range changes nothing.
    pub fn log_change_date(&mut self, days: i64) -> (moved: bool)
        ensures
            match shifted_date_of(old(self).log_viewed_date, days as int) {
                Some(d) => moved && log_moved_to(*old(self), *final(self), d),
                None => !moved && *final(self) == *old(self),
            },
    {
        match shift_date(self.log_viewed_date, days) {
            Some(d) => {
                self.log_viewed_date = d;
                self.log_exercise_selection = if self.log_exercises_today.len() == 0 {
                    None
                } else {
                    Some(0)
                };
                self.log_set_selection = if self.log_sets_for_selected_exercise.len() == 0 {
                    None
                } else {
                    Some(0)
                };
                true
            },
            None => false,
        }
    }

    /// Moves the log to the day before the shown one that comes last in
    /// `exercised_dates` (the days with logged sets, in the service's order).
    pub fn log_set_previous_exercised_date(&mut self, exercised_dates: &Vec<Date>) -> (moved: bool)
        ensures
            match last_before(exercised_dates@, old(self).log_viewed_date, exercised_dates@.len() as int) {
                Some(i) => moved && log_moved_to(*old(self), *final(self), exercised_dates@[i]),
                None => !moved && *final(self) == *old(self),
            },
    {
        let current = self.log_viewed_date;
        let mut n = exercised_dates.len();
        while n > 0
            invariant
                n <= exercised_dates@.len(),
                current == old(self).log_viewed_date,
                *self == *old(self),
                last_before(exercised_dates@, current, exercised_dates@.len() as int) == last_before(
                    exercised_dates@,
                    current,
                    n as int,
                ),
            decreases n,
        {
            let d = exercised_dates[n - 1];
            if is_before(d, current) {
                self.log_moved(d);
                return true;
            }
            n = n - 1;
        }
        false
    }

    /// Moves the log to the first day after the shown one in
    /// `exercised_dates`.
    pub fn log_set_next_exercised_date(&mut self, exercised_dates: &Vec<Date>) -> (moved: bool)
        ensures
            match first_after(exercised_dates@, old(self).log_viewed_date, 0) {
                Some(i) => moved && log_moved_to(*old(self), *final(self), exercised_dates@[i]),
                None => !moved && *final(self) == *old(self),
            },
    {
        let current = self.log_viewed_date;
        let mut i: usize = 0;
        while i < exercised_dates.len()
            invariant
                i <= exercised_dates@.len(),
                current == old(self).log_viewed_date,
                *self == *old(self),
                first_after(exercised_dates@, current, 0) == first_after(exercised_dates@, current, i as int),
            decreases exercised_dates@.len() - i,
        {
            let d = exercised_dates[i];
            if is_before(current, d) {
                self.log_moved(d);
                return true;
            }
            i = i + 1;
        }
        false
    }

    fn log_moved(&mut self, d: Date)
        ensures
            log_moved_to(*old(self), *final(self), d),
    {
        self.log_viewed_date = d;
        self.log_exercise_selection = if self.log_exercises_today.len() == 0 {
            None
        } else {
            Some(0)
        };
        self.log_set_selection = if self.log_sets_for_selected_exercise.len() == 0 {
            None
        } else {
            Some(0)
        };
    }
}

/// The selection after moving one row down a list, wrapping around.
pub open spec fn row_after(sel: Option<usize>, len: nat) -> Option<usize> {
    if len == 0 {
        sel
    } else {
        Some(
            match sel {
                Some(i) => if i >= len - 1 {
                    0
                } else {
                    (i + 1) as usize
                },
                None => 0,
            },
        )
    }
}

/// The selection after moving one row up a list, wrapping around.
pub open spec fn row_before(sel: Option<usize>, len: nat) -> Option<usize> {
    if len == 0 {
        sel
    } else {
        Some(
            match sel {
                Some(i) => if i == 0 {
                    (len - 1) as usize
                } else {
                    (i - 1) as usize
                },
                None => (len - 1) as usize,
            },
        )
    }
}

impl App {
    /// Selects the next exercise of the log, wrapping around.
    pub fn log_list_next(&mut self)
        ensures
            *final(self) == (App {
                log_exercise_selection: row_after(old(self).log_exercise_selection, old(self).log_exercises_today@.len()),
                ..*old(self)
            }),
    {
        list_next(&mut self.log_exercise_selection, self.log_exercises_today.len());
    }

    /// Selects the previous exercise of the log, wrapping around.
    pub fn log_list_previous(&mut self)
        ensures
            *final(self) == (App {
                log_exercise_selection: row_before(old(self).log_exercise_selection, old(self).log_exercises_today@.len()),
                ..*old(self)
            }),
    {
        list_previous(&mut self.log_exercise_selection, self.log_exercises_today.len());
    }

    /// Selects the next set of the log, wrapping around.
    pub fn log_table_next(&mut self)
        ensures
            *final(self) == (App {
                log_set_selection: row_after(old(self).log_set_selection, old(self).log_sets_for_selected_exercise@.len()),
                ..*old(self)
            }),
    {
        list_next(&mut self.log_set_selection, self.log_sets_for_selected_exercise.len());
    }

    /// Selects the previous set of the log, wrapping around.
    pub fn log_table_previous(&mut self)
        ensures
            *final(self) == (App {
                log_set_selection: row_before(old(self).log_set_selection, old(self).log_sets_for_selected_exercise@.len()),
                ..*old(self)
            }),
    {
        list_previous(&mut self.log_set_selection, self.log_sets_for_selected_exercise.len());
    }

    /// Selects the next bodyweight entry, wrapping around.
    pub fn bw_table_next(&mut self)
        ensures
            *final(self) == (App {
                bw_history_selection: row_after(old(self).bw_history_selection, old(self).bw_history_ids@.len()),
                ..*old(self)
            }),
    {
        list_next(&mut self.bw_history_selection, self.bw_history_ids.len());
    }

    /// Selects the previous bodyweight entry, wrapping around.
    pub fn bw_table_previous(&mut self)
        ensures
            *final(self) == (App {
                bw_history_selection: row_before(old(self).bw_history_selection, old(self).bw_history_ids@.len()),
                ..*old(self)
            }),
    {
        list_previous(&mut self.bw_history_selection, self.bw_history_ids.len());
    }

    /// Selects the next day of the history, wrapping around.
    pub fn history_list_next(&mut self)
        ensures
            *final(self) == (App {
                history_selection: row_after(old(self).history_selection, old(self).history_dates@.len()),
                ..*old(self)
            }),
    {
        list_next(&mut self.history_selection, self.history_dates.len());
    }

    /// Selects the previous day of the history, wrapping around.
    pub fn history_list_previous(&mut self)
        ensures
            *final(self) == (App {
                history_selection: row_before(old(self).history_selection, old(self).history_dates@.len()),
                ..*old(self)
            }),
    {
        list_previous(&mut self.history_selection, self.history_dates.len());
    }

    /// Selects the next exercise of the graphs tab, wrapping around.
    pub fn graphs_exercise_list_next(&mut self)
        ensures
            *final(self) == (App {
                graph_exercise_selection: row_after(old(self).graph_exercise_selection, old(self).graph_exercises_all@.len()),
                ..*old(self)
            }),
    {
        list_next(&mut self.graph_exercise_selection, self.graph_exercises_all.len());
    }

    /// Selects the previous exercise of the graphs tab, wrapping around.
    pub fn graphs_exercise_list_previous(&mut self)
        ensures
            *final(self) == (App {
                graph_exercise_selection: row_before(old(self).graph_exercise_selection, old(self).graph_exercises_all@.len()),
                ..*old(self)
            }),
    {
        list_previous(&mut self.graph_exercise_selection, self.graph_exercises_all.len());
    }

    /// Selects the next graph kind, wrapping around.
    pub fn graphs_type_list_next(&mut self)
        ensures
            *final(self) == (App {
                graph_type_selection: row_after(old(self).graph_type_selection, 7),
                ..*old(self)
            }),
    {
        list_next(&mut self.graph_type_selection, GRAPH_TYPE_COUNT);
    }

    /// Selects the previous graph kind, wrapping around.
    pub fn graphs_type_list_previous(&mut self)
        ensures
            *final(self) == (App {
                graph_type_selection: row_before(old(self).graph_type_selection, 7),
                ..*old(self)
            }),
    {
        list_previous(&mut self.graph_type_selection, GRAPH_TYPE_COUNT);
    }
}

/// A key on the log tab, which keys on the day: j/k or the arrows move
/// through the focused list, Tab switches lists, h/l or Left/Right change
/// the day, H/L jump to the previous or next day with sets. On the exercise
/// list `a` adds a set, `c` creates an exercise and `g` shows its graph; on
/// the set list `e` or Enter edits the set and `d` or Delete deletes it.
pub open spec fn log_step(a: App, b: App, key: Key, now_ms: u64, r: TabAction) -> bool {
    match key {
        Key::Char('h') | Key::Left => r == TabAction::RefreshLog && match shifted_date_of(a.log_viewed_date, -1) {
            Some(d) => log_moved_to(a, b, d),
            None => b == a,
        },
        Key::Char('l') | Key::Right => r == TabAction::RefreshLog && match shifted_date_of(a.log_viewed_date, 1) {
            Some(d) => log_moved_to(a, b, d),
            None => b == a,
        },
        Key::Char('H') => b == a && r == TabAction::JumpToExercisedDay(false),
        Key::Char('L') => b == a && r == TabAction::JumpToExercisedDay(true),
        _ => match a.log_focus {
            LogFocus::ExerciseList => match key {
                Key::Char('k') | Key::Up => r == TabAction::RefreshLogSets && b == (App {
                    log_exercise_selection: b.log_exercise_selection,
                    ..a
                }) && (a.log_exercises_today@.len() > 0 ==> b.log_exercise_selection == Some(
                    match a.log_exercise_selection {
                        Some(i) => if i == 0 {
                            (a.log_exercises_today@.len() - 1) as usize
                        } else {
                            (i - 1) as usize
                        },
                        None => (a.log_exercises_today@.len() - 1) as usize,
                    },
                )) && (a.log_exercises_today@.len() == 0 ==> b == a),
                Key::Char('j') | Key::Down => r == TabAction::RefreshLogSets && b == (App {
                    log_exercise_selection: b.log_exercise_selection,
                    ..a
                }) && (a.log_exercises_today@.len() > 0 ==> b.log_exercise_selection == Some(
                    match a.log_exercise_selection {
                        Some(i) => if i >= a.log_exercises_today@.len() - 1 {
                            0
                        } else {
                            (i + 1) as usize
                        },
                        None => 0,
                    },
                )) && (a.log_exercises_today@.len() == 0 ==> b == a),
                Key::Tab => b == (App { log_focus: LogFocus::SetList, ..a }) && r
                    == TabAction::Nothing,
                Key::Char('a') => b == a && r == TabAction::OpenAddWorkout,
                Key::Char('c') => r == TabAction::Nothing && b.active_modal is CreateExercise,
                Key::Char('g') => match a.log_exercise_selection {
                    Some(i) => if i < a.log_exercises_today@.len() {
                        match index_of(a.graph_exercises_all@, a.log_exercises_today@[i as int]@, 0) {
                            Some(gi) => r == TabAction::UpdateGraph && b.active_tab
                                == ActiveTab::Graphs && b.graph_focus == GraphsFocus::GraphTypeList
                                && b.graph_exercise_selection == Some(gi as usize)
                                && (b.graph_selected_exercise matches Some(t) && t@
                                == a.log_exercises_today@[i as int]@),
                            None => r == TabAction::Nothing && (b.last_error matches Some(t) && t@
                                == "Selected exercise not found in graph list."@),
                        }
                    } else {
                        b == a && r == TabAction::Nothing
                    },
                    None => b == a && r == TabAction::Nothing,
                },
                _ => b == a && r == TabAction::Nothing,
            },
            LogFocus::SetList => match key {
                Key::Char('k') | Key::Up => r == TabAction::Nothing && b == (App {
                    log_set_selection: b.log_set_selection,
                    ..a
                }),
                Key::Char('j') | Key::Down => r == TabAction::Nothing && b == (App {
                    log_set_selection: b.log_set_selection,
                    ..a
                }),
                Key::Tab => b == (App { log_focus: LogFocus::ExerciseList, ..a }) && r
                    == TabAction::Nothing,
                Key::Char('e') | Key::Enter => b == a && r == TabAction::OpenEditWorkout,
                Key::Char('d') | Key::Delete => r == TabAction::Nothing,
                _ => b == a && r == TabAction::Nothing,
            },
        },
    }
}

impl App {
    #[verifier::rlimit(50)]
    fn log_tab_key(&mut self, key: Key, now_ms: u64) -> (r: TabAction)
        requires
            old(self).active_modal is Closed,
        ensures
            final(self).wf(),
            log_step(*old(self), *final(self), key, now_ms, r),
    {
        match key {
            Key::Char('h') | Key::Left => {
                self.log_change_date(-1);
                return TabAction::RefreshLog;
            },
            Key::Char('l') | Key::Right => {
                self.log_change_date(1);
                return TabAction::RefreshLog;
            },
            Key::Char('H') => {
                return TabAction::JumpToExercisedDay(false);
            },
            Key::Char('L') => {
                return TabAction::JumpToExercisedDay(true);
            },
            _ => {},
        }
        match self.log_focus {
            LogFocus::ExerciseList => match key {
                Key::Char('k') | Key::Up => {
                    self.log_list_previous();
                    TabAction::RefreshLogSets
                },
                Key::Char('j') | Key::Down => {
                    self.log_list_next();
                    TabAction::RefreshLogSets
                },
                Key::Tab => {
                    self.log_focus = LogFocus::SetList;
                    TabAction::Nothing
                },
                Key::Char('a') => TabAction::OpenAddWorkout,
                Key::Char('c') => {
                    self.open_create_exercise_modal();
                    TabAction::Nothing
                },
                Key::Char('g') => self.graph_selected_log_exercise(now_ms),
                _ => TabAction::Nothing,
            },
            LogFocus::SetList => match key {
                Key::Char('k') | Key::Up => {
                    self.log_table_previous();
                    TabAction::Nothing
                },
                Key::Char('j') | Key::Down => {
                    self.log_table_next();
                    TabAction::Nothing
                },
                Key::Tab => {
                    self.log_focus = LogFocus::ExerciseList;
                    TabAction::Nothing
                },
                Key::Char('e') | Key::Enter => TabAction::OpenEditWorkout,
                Key::Char('d') | Key::Delete => {
                    self.open_delete_confirmation_modal();
                    TabAction::Nothing
                },
                _ => TabAction::Nothing,
            },
        }
    }

    fn graph_selected_log_exercise(&mut self, now_ms: u64) -> (r: TabAction)
        requires
            old(self).log_focus == LogFocus::ExerciseList,
            old(self).active_modal is Closed,
        ensures
            final(self).wf(),
            log_step(*old(self), *final(self), Key::Char('g'), now_ms, r),
    {
        let i = match self.log_exercise_selection {
            Some(i) => i,
            None => return TabAction::Nothing,
        };
        if i >= self.log_exercises_today.len() {
            return TabAction::Nothing;
        }
        let name = copy_chars(&self.log_exercises_today[i]);
        match find_name(&self.graph_exercises_all, &name) {
            Some(gi) => {
                self.graph_selected_exercise = Some(name);
                self.graph_exercise_selection = Some(gi);
                self.active_tab = ActiveTab::Graphs;
                self.graph_focus = GraphsFocus::GraphTypeList;
                TabAction::UpdateGraph
            },
            None => {
                self.set_error(chars_of("Selected exercise not found in graph list."), now_ms);
                TabAction::Nothing
            },
        }
    }
}

/// A key on the history tab: j/k or the arrows move through the days, and
/// `l` shows the selected day in the log.
pub open spec fn history_step(a: App, b: App, key: Key, r: TabAction) -> bool {
    match key {
        Key::Char('k') | Key::Up | Key::Char('j') | Key::Down => r == TabAction::Nothing && b == (
        App { history_selection: b.history_selection, ..a }),
        Key::Char('l') => match a.history_selection {
            Some(i) => if i < a.history_dates@.len() {
                r == TabAction::RefreshLog && b == (App {
                    active_tab: ActiveTab::Log,
                    log_viewed_date: a.history_dates@[i as int],
                    log_focus: LogFocus::ExerciseList,
                    log_exercise_selection: Some(0usize),
                    log_set_selection: Some(0usize),
                    ..a
                })
            } else {
                b == a && r == TabAction::Nothing
            },
            None => b == a && r == TabAction::Nothing,
        },
        _ => b == a && r == TabAction::Nothing,
    }
}

/// A key on the graphs tab: j/k or the arrows move through the focused list,
/// Tab switches lists, Enter picks the exercise (and moves on to the kinds)
/// or the kind.
pub open spec fn graphs_step(a: App, b: App, key: Key, r: TabAction) -> bool {
    match a.graph_focus {
        GraphsFocus::ExerciseList => match key {
            Key::Char('k') | Key::Up | Key::Char('j') | Key::Down => r == TabAction::Nothing && b
                == (App { graph_exercise_selection: b.graph_exercise_selection, ..a }),
            Key::Tab => r == TabAction::Nothing && b == (App {
                graph_focus: GraphsFocus::GraphTypeList,
                ..a
            }),
            Key::Enter => match a.graph_exercise_selection {
                Some(i) => if i < a.graph_exercises_all@.len() {
                    r == TabAction::UpdateGraph && b.graph_focus == GraphsFocus::GraphTypeList && (
                    b.graph_selected_exercise matches Some(t) && t@
                        == a.graph_exercises_all@[i as int]@)
                } else {
                    b == a && r == TabAction::Nothing
                },
                None => b == a && r == TabAction::Nothing,
            },
            _ => b == a && r == TabAction::Nothing,
        },
        GraphsFocus::GraphTypeList => match key {
            Key::Char('k') | Key::Up | Key::Char('j') | Key::Down => r == TabAction::Nothing && b
                == (App { graph_type_selection: b.graph_type_selection, ..a }),
            Key::Tab => r == TabAction::Nothing && b == (App {
                graph_focus: GraphsFocus::ExerciseList,
                ..a
            }),
            Key::Enter => match a.graph_type_selection {
                Some(i) => if i < 7 {
                    r == TabAction::UpdateGraph && b == (App {
                        graph_selected_type: Some(graph_type_at(i as int)),
                        ..a
                    })
                } else {
                    b == a && r == TabAction::Nothing
                },
                None => b == a && r == TabAction::Nothing,
            },
            _ => b == a && r == TabAction::Nothing,
        },
        GraphsFocus::History => b == a && r == TabAction::Nothing,
    }
}

/// A key on the bodyweight tab: `l` logs a weight, `t` sets the target,
/// `r` cycles the graph's range; in the history j/k move, `d` deletes and
/// Tab moves to the actions; Tab moves on from the other panes.
pub open spec fn bodyweight_step(a: App, b: App, key: Key, r: TabAction) -> bool {
    match key {
        Key::Char('l') => r == TabAction::Nothing && b.active_modal is LogBodyweight,
        Key::Char('t') => r == TabAction::Nothing && b.active_modal is SetTargetWeight,
        Key::Char('r') => r == TabAction::UpdateBodyweightGraph && b == (App {
            bw_graph_range_months: crate::modal::next_range(a.bw_graph_range_months),
            ..a
        }),
        _ => match a.bw_focus {
            BodyweightFocus::History => match key {
                Key::Char('k') | Key::Up | Key::Char('j') | Key::Down => r == TabAction::Nothing
                    && b == (App { bw_history_selection: b.bw_history_selection, ..a }),
                Key::Char('d') => r == TabAction::Nothing,
                Key::Tab => r == TabAction::Nothing && b == (App {
                    bw_focus: BodyweightFocus::Actions,
                    ..a
                }),
                _ => b == a && r == TabAction::Nothing,
            },
            BodyweightFocus::Actions => r == TabAction::Nothing && if key == Key::Tab {
                b == (App { bw_focus: BodyweightFocus::History, ..a })
            } else {
                b == a
            },
            BodyweightFocus::Graph => r == TabAction::Nothing && if key == Key::Tab {
                b == (App { bw_focus: BodyweightFocus::Actions, ..a })
            } else {
                b == a
            },
        },
    }
}

impl App {
    /// Handles a key that no dialog and no global binding took, on the tab
    /// shown; returns what the caller must fetch or reload afterwards.
    #[verifier::rlimit(50)]
    pub fn handle_tab_key(&mut self, key: Key, now_ms: u64) -> (r: TabAction)
        requires
            old(self).active_modal is Closed,
        ensures
            final(self).wf(),
            match old(self).active_tab {
                ActiveTab::Log => log_step(*old(self), *final(self), key, now_ms, r),
                ActiveTab::History => history_step(*old(self), *final(self), key, r),
                ActiveTab::Graphs => graphs_step(*old(self), *final(self), key, r),
                ActiveTab::Bodyweight => bodyweight_step(*old(self), *final(self), key, r),
            },
    {
        match self.active_tab {
            ActiveTab::Log => self.log_tab_key(key, now_ms),
            ActiveTab::History => match key {
                Key::Char('k') | Key::Up => {
                    self.history_list_previous();
                    TabAction::Nothing
                },
                Key::Char('j') | Key::Down => {
                    self.history_list_next();
                    TabAction::Nothing
                },
                Key::Char('l') => {
                    if let Some(i) = self.history_selection {
                        if i < self.history_dates.len() {
                            self.active_tab = ActiveTab::Log;
                            self.log_viewed_date = self.history_dates[i];
                            self.log_focus = LogFocus::ExerciseList;
                            self.log_exercise_selection = Some(0);
                            self.log_set_selection = Some(0);
                            return TabAction::RefreshLog;
                        }
                    }
                    TabAction::Nothing
                },
                _ => TabAction::Nothing,
            },
            ActiveTab::Graphs => match self.graph_focus {
                GraphsFocus::ExerciseList => match key {
                    Key::Char('k') | Key::Up => {
                        self.graphs_exercise_list_previous();
                        TabAction::Nothing
                    },
                    Key::Char('j') | Key::Down => {
                        self.graphs_exercise_list_next();
                        TabAction::Nothing
                    },
                    Key::Tab => {
                        self.graph_focus = GraphsFocus::GraphTypeList;
                        TabAction::Nothing
                    },
                    Key::Enter => {
                        if let Some(i) = self.graph_exercise_selection {
                            if i < self.graph_exercises_all.len() {
                                self.graph_selected_exercise = Some(copy_chars(&self.graph_exercises_all[i]));
                                self.graph_focus = GraphsFocus::GraphTypeList;
                                return TabAction::UpdateGraph;
                            }
                        }
                        TabAction::Nothing
                    },
                    _ => TabAction::Nothing,
                },
                GraphsFocus::GraphTypeList => match key {
                    Key::Char('k') | Key::Up => {
                        self.graphs_type_list_previous();
                        TabAction::Nothing
                    },
                    Key::Char('j') | Key::Down => {
                        self.graphs_type_list_next();
                        TabAction::Nothing
                    },
                    Key::Tab => {
                        self.graph_focus = GraphsFocus::ExerciseList;
                        TabAction::Nothing
                    },
                    Key::Enter => {
                        if let Some(i) = self.graph_type_selection {
                            if i < GRAPH_TYPE_COUNT {
                                self.graph_selected_type = Some(graph_type_of(i));
                                return TabAction::UpdateGraph;
                            }
                        }
                        TabAction::Nothing
                    },
                    _ => TabAction::Nothing,
                },
                GraphsFocus::History => TabAction::Nothing,
            },
            ActiveTab::Bodyweight => match key {
                Key::Char('l') => {
                    self.open_log_bodyweight_modal();
                    TabAction::Nothing
                },
                Key::Char('t') => {
                    self.open_set_target_weight_modal(self.bw_target);
                    TabAction::Nothing
                },
                Key::Char('r') => {
                    self.bw_cycle_graph_range();
                    TabAction::UpdateBodyweightGraph
                },
                _ => match self.bw_focus {
                    BodyweightFocus::History => match key {
                        Key::Char('k') | Key::Up => {
                            self.bw_table_previous();
                            TabAction::Nothing
                        },
                        Key::Char('j') | Key::Down => {
                            self.bw_table_next();
                            TabAction::Nothing
                        },
                        Key::Char('d') => {
                            self.open_delete_bodyweight_confirmation_modal();
                            TabAction::Nothing
                        },
                        Key::Tab => {
                            self.bw_focus = BodyweightFocus::Actions;
                            TabAction::Nothing
                        },
                        _ => TabAction::Nothing,
                    },
                    BodyweightFocus::Actions => {
                        if key == Key::Tab {
                            self.bw_focus = BodyweightFocus::History;
                        }
                        TabAction::Nothing
                    },
                    BodyweightFocus::Graph => {
                        if key == Key::Tab {
                            self.bw_focus = BodyweightFocus::Actions;
                        }
                        TabAction::Nothing
                    },
                },
            },
        }
    }
}

} // verus!
