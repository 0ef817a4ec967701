use task_athlete_tui::dates::{format_date_with_ordinal, Date};
use task_athlete_tui::events::{Key, PersonalBests, WorkoutRecord};
use task_athlete_tui::fields::{ActiveTab, BodyweightFocus, GraphsFocus, LogFocus, WorkoutLogFlags};
use task_athlete_tui::modal::{ActiveModal, App, GraphType};
use task_athlete_tui::tabs::{graph_type_to_string, TabAction};
use task_athlete_tui::workout_modal::calculate_workout_modal_height;

fn text(s: &str) -> Vec<char> {
    s.chars().collect()
}

fn show(v: &[char]) -> String {
    v.iter().collect()
}

fn day(year: i32, month: u32, d: u32) -> Date {
    Date { year, month, day: d }
}

#[test]
fn identifiers_are_sorted_and_deduplicated() {
    let names = vec![text("Squat"), text("bench press"), text("Deadlift")];
    let aliases = vec![text("BENCH PRESS"), text("dl"), text("squat")];
    let ids = App::get_all_exercise_identifiers(&names, &aliases);
    let shown: Vec<String> = ids.iter().map(|s| show(s)).collect();
    assert_eq!(shown, vec!["bench press", "Deadlift", "dl", "Squat"]);
}

#[test]
fn identifiers_of_nothing_are_empty() {
    assert!(App::get_all_exercise_identifiers(&vec![], &vec![]).is_empty());
}

#[test]
fn log_day_moves_and_resets_selection() {
    let mut app = App::new(day(2024, 3, 1), vec![], None);
    app.log_exercises_today = vec![text("Squat"), text("Row")];
    app.log_exercise_selection = Some(1);
    assert!(app.log_change_date(-1));
    assert_eq!(app.log_viewed_date, day(2024, 2, 29));
    assert_eq!(app.log_exercise_selection, Some(0));
    assert_eq!(app.log_set_selection, None);
    assert_eq!(app.handle_tab_key(Key::Char('l'), 0), TabAction::RefreshLog);
    assert_eq!(app.log_viewed_date, day(2024, 3, 1));
}

#[test]
fn exercised_day_jumps() {
    let mut app = App::new(day(2024, 3, 10), vec![], None);
    let dates = vec![day(2024, 1, 5), day(2024, 3, 2), day(2024, 3, 12), day(2024, 4, 1)];
    assert!(app.log_set_previous_exercised_date(&dates));
    assert_eq!(app.log_viewed_date, day(2024, 3, 2));
    assert!(app.log_set_next_exercised_date(&dates));
    assert_eq!(app.log_viewed_date, day(2024, 3, 12));
    let mut early = App::new(day(2023, 1, 1), vec![], None);
    assert!(!early.log_set_previous_exercised_date(&dates));
    assert_eq!(early.log_viewed_date, day(2023, 1, 1));
}

#[test]
fn log_tab_keys_route() {
    let mut app = App::new(day(2024, 3, 1), vec![text("Row"), text("Squat")], None);
    app.log_exercises_today = vec![text("Squat")];
    assert_eq!(app.handle_tab_key(Key::Char('a'), 0), TabAction::OpenAddWorkout);
    assert_eq!(app.handle_tab_key(Key::Char('H'), 0), TabAction::JumpToExercisedDay(false));
    assert_eq!(app.handle_tab_key(Key::Char('g'), 0), TabAction::UpdateGraph);
    assert_eq!(app.active_tab, ActiveTab::Graphs);
    assert_eq!(app.graph_exercise_selection, Some(1));
    assert_eq!(app.graph_focus, GraphsFocus::GraphTypeList);
    assert_eq!(show(app.graph_selected_exercise.as_ref().unwrap()), "Squat");
}

#[test]
fn graph_jump_reports_unknown_exercise() {
    let mut app = App::new(day(2024, 3, 1), vec![text("Row")], None);
    app.log_exercises_today = vec![text("Squat")];
    assert_eq!(app.handle_tab_key(Key::Char('g'), 100), TabAction::Nothing);
    assert_eq!(show(app.last_error.as_ref().unwrap()), "Selected exercise not found in graph list.");
    assert_eq!(app.active_tab, ActiveTab::Log);
}

#[test]
fn set_list_keys_edit_and_delete() {
    let mut app = App::new(day(2024, 3, 1), vec![], None);
    app.log_sets_for_selected_exercise = vec![WorkoutRecord {
        id: 9,
        exercise_name: text("Squat"),
        sets: Some(1),
        reps: Some(5),
        weight: None,
        duration_minutes: None,
        distance: None,
        notes: None,
    }];
    assert_eq!(app.handle_tab_key(Key::Tab, 0), TabAction::Nothing);
    assert_eq!(app.log_focus, LogFocus::SetList);
    assert_eq!(app.handle_tab_key(Key::Char('e'), 0), TabAction::OpenEditWorkout);
    assert_eq!(app.handle_tab_key(Key::Char('d'), 0), TabAction::Nothing);
    match &app.active_modal {
        ActiveModal::ConfirmDeleteWorkout(c) => {
            assert_eq!(c.workout_id, 9);
            assert_eq!(c.set_index, 1);
        },
        other => panic!("expected a confirmation, got {:?}", other),
    }
}

#[test]
fn history_day_opens_in_log() {
    let mut app = App::new(day(2024, 3, 1), vec![], None);
    app.active_tab = ActiveTab::History;
    app.history_dates = vec![day(2024, 2, 1), day(2024, 1, 1)];
    assert_eq!(app.handle_tab_key(Key::Down, 0), TabAction::Nothing);
    assert_eq!(app.history_selection, Some(1));
    assert_eq!(app.handle_tab_key(Key::Char('l'), 0), TabAction::RefreshLog);
    assert_eq!(app.active_tab, ActiveTab::Log);
    assert_eq!(app.log_viewed_date, day(2024, 1, 1));
}

#[test]
fn graph_type_pick() {
    let mut app = App::new(day(2024, 3, 1), vec![text("Row")], None);
    app.active_tab = ActiveTab::Graphs;
    app.handle_tab_key(Key::Tab, 0);
    app.handle_tab_key(Key::Up, 0);
    assert_eq!(app.graph_type_selection, Some(6));
    assert_eq!(app.handle_tab_key(Key::Enter, 0), TabAction::UpdateGraph);
    assert_eq!(app.graph_selected_type, Some(GraphType::WorkoutDistance));
    assert_eq!(show(&graph_type_to_string(GraphType::WorkoutReps)), "Total Reps Per Workout");
}

#[test]
fn bodyweight_tab_keys() {
    let mut app = App::new(day(2024, 3, 1), vec![], Some(75500));
    app.active_tab = ActiveTab::Bodyweight;
    assert_eq!(app.handle_tab_key(Key::Char('r'), 0), TabAction::UpdateBodyweightGraph);
    assert_eq!(app.bw_graph_range_months, 6);
    app.handle_tab_key(Key::Char('t'), 0);
    match &app.active_modal {
        ActiveModal::SetTargetWeight(t) => assert_eq!(show(&t.weight_input), "75.5"),
        other => panic!("expected the target dialog, got {:?}", other),
    }
    app.active_modal = ActiveModal::Closed;
    app.handle_tab_key(Key::Char('l'), 0);
    match &app.active_modal {
        ActiveModal::LogBodyweight(l) => assert_eq!(show(&l.date_input), "today"),
        other => panic!("expected the bodyweight dialog, got {:?}", other),
    }
    app.active_modal = ActiveModal::Closed;
    app.handle_tab_key(Key::Tab, 0);
    assert_eq!(app.bw_focus, BodyweightFocus::Actions);
}

#[test]
fn dates_with_ordinals() {
    assert_eq!(show(&format_date_with_ordinal(day(2025, 4, 12)).unwrap()), "Saturday 12th April 2025");
    assert_eq!(show(&format_date_with_ordinal(day(2024, 3, 1)).unwrap()), "Friday 1st March 2024");
    assert_eq!(show(&format_date_with_ordinal(day(2024, 3, 22)).unwrap()), "Friday 22nd March 2024");
    assert!(format_date_with_ordinal(day(2024, 2, 30)).is_none());
}

#[test]
fn modal_height_follows_policy() {
    let all = WorkoutLogFlags {
        log_sets: true,
        log_reps: true,
        log_weight: true,
        log_duration: true,
        log_distance: true,
        log_notes: true,
    };
    assert_eq!(calculate_workout_modal_height(&all, false), 16);
    assert_eq!(calculate_workout_modal_height(&all, true), 17);
    let bare = WorkoutLogFlags {
        log_sets: false,
        log_reps: false,
        log_weight: false,
        log_duration: false,
        log_distance: false,
        log_notes: false,
    };
    assert_eq!(calculate_workout_modal_height(&bare, false), 6);
}

fn set(id: u64, name: &str) -> WorkoutRecord {
    WorkoutRecord {
        id,
        exercise_name: text(name),
        sets: Some(1),
        reps: Some(id as i64),
        weight: None,
        duration_minutes: None,
        distance: None,
        notes: Some(text("n")),
    }
}

#[test]
fn day_reload_lists_exercises_once_in_order() {
    let mut app = App::new(day(2024, 3, 1), vec![], None);
    app.log_exercise_selection = Some(5);
    app.log_set_selection = None;
    let day_sets = vec![set(1, "Squat"), set(2, "Bench"), set(3, "Squat"), set(4, "Bench"), set(5, "Row")];
    app.apply_log_workouts(&day_sets);
    let names: Vec<String> = app.log_exercises_today.iter().map(|s| show(s)).collect();
    assert_eq!(names, vec!["Bench", "Row", "Squat"]);
    assert_eq!(app.log_exercise_selection, Some(2));
    let ids: Vec<u64> = app.log_sets_for_selected_exercise.iter().map(|w| w.id).collect();
    assert_eq!(ids, vec![1, 3]);
    assert_eq!(app.log_set_selection, Some(0));
    assert_eq!(show(app.log_sets_for_selected_exercise[1].notes.as_ref().unwrap()), "n");
}

#[test]
fn empty_day_clears_lists() {
    let mut app = App::new(day(2024, 3, 1), vec![], None);
    app.apply_log_workouts(&vec![]);
    assert!(app.log_exercises_today.is_empty());
    assert_eq!(app.log_exercise_selection, None);
    assert!(app.log_sets_for_selected_exercise.is_empty());
    assert_eq!(app.log_set_selection, None);
}

#[test]
fn bodyweight_reload_keeps_selection_in_range() {
    let mut app = App::new(day(2024, 3, 1), vec![], None);
    app.bw_history_selection = Some(4);
    app.apply_bodyweight_entries(vec![10, 11], Some(70000));
    assert_eq!(app.bw_history_selection, Some(1));
    assert_eq!(app.bw_target, Some(70000));
    app.bw_history_selection = None;
    app.apply_bodyweight_entries(vec![10], None);
    assert_eq!(app.bw_history_selection, Some(0));
}

#[test]
fn personal_best_notice_closes_on_its_keys() {
    let mut app = App::new(day(2024, 3, 1), vec![], None);
    let pb = PersonalBests { weight: false, reps: true, duration: false, distance: false };
    app.open_pb_modal(text("Dips"), pb);
    assert!(pb.any_pb());
    app.handle_key_event(Key::Char('x'), day(2024, 3, 1));
    assert!(matches!(app.active_modal, ActiveModal::PersonalBest(_)));
    app.handle_key_event(Key::Enter, day(2024, 3, 1));
    assert!(matches!(app.active_modal, ActiveModal::Closed));
}

#[test]
fn history_lines_join_present_parts() {
    let w = WorkoutRecord {
        id: 1,
        exercise_name: text("Run"),
        sets: None,
        reps: Some(10),
        weight: None,
        duration_minutes: Some(25),
        distance: Some(5000),
        notes: Some(text("  easy ")),
    };
    let metric = task_athlete_tui::data::format_set_line(&w, Some(80000), false);
    assert_eq!(show(&metric), "10 reps x 80.0 kg x 25 min x 5.0 km x (easy)");
    let imperial = task_athlete_tui::data::format_set_line(&w, Some(80000), true);
    assert_eq!(show(&imperial), "10 reps x 176.4 lbs x 25 min x 3.1 mi x (easy)");
    let bare = WorkoutRecord { reps: None, duration_minutes: None, distance: None, notes: Some(text("  ")), ..w };
    assert_eq!(show(&task_athlete_tui::data::format_set_line(&bare, None, false)), "");
}
