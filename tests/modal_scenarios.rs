use task_athlete_tui::events::{
    DisplayConfig, FailureKind, Key, ModalStep, PersonalBests, Resolution, ResolveCause,
    ServiceFailure, ServiceReply, ServiceRequest, WorkoutRecord,
};
use task_athlete_tui::exercise_modal::{handle_create_exercise_modal_input, CreateExerciseModal};
use task_athlete_tui::fields::{
    AddExerciseField, AddWorkoutField, ExerciseDefinition, ExerciseType, WorkoutLogFlags,
};
use task_athlete_tui::focus::focusable;
use task_athlete_tui::modal::{ActiveModal, App, KeyOutcome};
use task_athlete_tui::dates::Date;
use task_athlete_tui::workout_modal::{
    collect_measurements, handle_add_workout_modal_input, AddWorkoutModal, WorkoutInputs,
};

fn text(s: &str) -> Vec<char> {
    s.chars().collect()
}

fn show(v: &[char]) -> String {
    v.iter().collect()
}

fn today() -> Date {
    Date { year: 2024, month: 3, day: 1 }
}

fn bench_press() -> ExerciseDefinition {
    ExerciseDefinition {
        name: text("Bench Press"),
        type_: ExerciseType::Resistance,
        log_weight: true,
        log_reps: true,
        log_duration: false,
        log_distance: false,
    }
}

fn identifiers() -> Vec<Vec<char>> {
    vec![text("Bench Press"), text("Bench Row"), text("Squat")]
}

fn no_config() -> DisplayConfig {
    DisplayConfig { bodyweight: None, imperial: false }
}

#[test]
fn typing_bench_suggests_both_bench_exercises() {
    let mut m = AddWorkoutModal::new(identifiers(), None, None);
    for c in "Bench".chars() {
        let step = handle_add_workout_modal_input(&mut m, Key::Char(c));
        assert!(matches!(step, ModalStep::Stay));
    }
    let names: Vec<String> = m.exercise_suggestions.iter().map(|s| show(s)).collect();
    assert_eq!(names, vec!["Bench Press".to_string(), "Bench Row".to_string()]);
    assert_eq!(m.suggestion_selection, Some(0));
    assert_eq!(m.focused_field, AddWorkoutField::Exercise);
}

#[test]
fn resolving_bench_press_prefills_and_hides_cardio_fields() {
    let mut m = AddWorkoutModal::new(identifiers(), Some(text("Bench Press")), None);
    m.inputs.reps = text("12");
    let step = handle_add_workout_modal_input(&mut m, Key::Tab);
    let (sent, cause) = match step {
        ModalStep::Request(ServiceRequest::ResolveExercise(t, c)) => (t, c),
        other => panic!("expected a resolution request, got {:?}", other),
    };
    assert_eq!(show(&sent), "Bench Press");
    assert_eq!(cause, ResolveCause::TabFromIdentifier);
    m.apply_resolution(&sent, cause, Resolution::Found(bench_press(), None, no_config()));
    assert_eq!(show(&m.inputs.sets), "1");
    assert_eq!(show(&m.inputs.reps), "");
    assert_eq!(show(&m.inputs.weight), "");
    assert_eq!(show(&m.inputs.duration), "");
    assert_eq!(show(&m.inputs.distance), "");
    assert_eq!(m.focused_field, AddWorkoutField::Sets);
    let flags = WorkoutLogFlags::from_def(m.resolved_exercise.as_ref());
    assert!(!focusable(AddWorkoutField::Duration, &flags, true));
    assert!(!focusable(AddWorkoutField::Distance, &flags, true));
    assert!(focusable(AddWorkoutField::Weight, &flags, true));
}

#[test]
fn resolving_clears_suggestions() {
    let mut m = AddWorkoutModal::new(identifiers(), None, None);
    for c in "Ben".chars() {
        handle_add_workout_modal_input(&mut m, Key::Char(c));
    }
    assert_eq!(m.exercise_suggestions.len(), 2);
    handle_add_workout_modal_input(&mut m, Key::Down);
    assert_eq!(m.focused_field, AddWorkoutField::Suggestions);
    handle_add_workout_modal_input(&mut m, Key::Down);
    assert_eq!(m.suggestion_selection, Some(1));
    let step = handle_add_workout_modal_input(&mut m, Key::Enter);
    let (sent, cause) = match step {
        ModalStep::Request(ServiceRequest::ResolveExercise(t, c)) => (t, c),
        other => panic!("expected a resolution request, got {:?}", other),
    };
    assert_eq!(show(&sent), "Bench Row");
    assert_eq!(cause, ResolveCause::PickedSuggestion);
    let mut row = bench_press();
    row.name = text("Bench Row");
    m.apply_resolution(&sent, cause, Resolution::Found(row, None, no_config()));
    assert!(m.exercise_suggestions.is_empty());
    assert_eq!(m.suggestion_selection, None);
    assert_eq!(show(&m.exercise_input), "Bench Row");
}

#[test]
fn submitting_unresolved_identifier_returns_to_it_with_error() {
    let mut m = AddWorkoutModal::new(identifiers(), None, None);
    m.exercise_input = text("Bnch");
    m.focused_field = AddWorkoutField::Confirm;
    let step = handle_add_workout_modal_input(&mut m, Key::Enter);
    assert!(matches!(step, ModalStep::Stay));
    assert_eq!(m.focused_field, AddWorkoutField::Exercise);
    assert_eq!(show(m.error_message.as_ref().unwrap()), "Cannot submit: Exercise not resolved.");
}

#[test]
fn leaving_unresolved_identifier_asks_for_resolution() {
    let mut m = AddWorkoutModal::new(identifiers(), None, None);
    m.exercise_input = text("Squat");
    m.focused_field = AddWorkoutField::Sets;
    let step = handle_add_workout_modal_input(&mut m, Key::Tab);
    match step {
        ModalStep::Request(ServiceRequest::ResolveExercise(t, ResolveCause::LeavingIdentifier(f))) => {
            assert_eq!(show(&t), "Squat");
            assert_eq!(f, AddWorkoutField::Reps);
        },
        other => panic!("expected a resolution request, got {:?}", other),
    }
    assert_eq!(m.focused_field, AddWorkoutField::Sets);
    m.apply_resolution(
        &text("Squat"),
        ResolveCause::LeavingIdentifier(AddWorkoutField::Reps),
        Resolution::NotFound,
    );
    assert_eq!(m.focused_field, AddWorkoutField::Reps);
    assert!(m.resolved_exercise.is_none());
}

#[test]
fn unknown_identifier_on_tab_reports_and_stays() {
    let mut m = AddWorkoutModal::new(identifiers(), None, None);
    m.exercise_input = text("Curl");
    m.apply_resolution(&text("Curl"), ResolveCause::TabFromIdentifier, Resolution::NotFound);
    assert_eq!(m.focused_field, AddWorkoutField::Exercise);
    assert_eq!(show(m.error_message.as_ref().unwrap()), "Exercise 'Curl' not found. Cannot move.");
}

#[test]
fn resolved_submission_carries_visible_fields_only() {
    let cardio = ExerciseDefinition {
        name: text("Running"),
        type_: ExerciseType::Cardio,
        log_weight: false,
        log_reps: false,
        log_duration: true,
        log_distance: true,
    };
    let mut m = AddWorkoutModal::new(identifiers(), None, Some((cardio, None, no_config())));
    m.inputs.reps = text("garbage");
    m.inputs.weight = text("x.y.z");
    m.inputs.duration = text("30");
    m.inputs.distance = text("5.25");
    m.inputs.notes = text("  easy  ");
    m.focused_field = AddWorkoutField::Confirm;
    let step = handle_add_workout_modal_input(&mut m, Key::Enter);
    let p = match step {
        ModalStep::Request(ServiceRequest::AddWorkout(p)) => p,
        other => panic!("expected a submission, got {:?}", other),
    };
    assert_eq!(show(&p.exercise_identifier), "Running");
    assert_eq!(p.sets, Some(1));
    assert_eq!(p.reps, None);
    assert_eq!(p.weight, None);
    assert_eq!(p.duration, Some(30));
    assert_eq!(p.distance, Some(5250));
    assert_eq!(show(p.notes.as_ref().unwrap()), "easy");
    assert!(!p.use_bodyweight);
}

#[test]
fn hidden_garbage_is_not_read() {
    let inputs = WorkoutInputs {
        sets: text("3"),
        reps: text("abc"),
        weight: text("1.2.3"),
        duration: text("20"),
        distance: text(""),
        notes: text(""),
    };
    let flags = WorkoutLogFlags {
        log_sets: true,
        log_reps: false,
        log_weight: false,
        log_duration: true,
        log_distance: true,
        log_notes: true,
    };
    let m = collect_measurements(&inputs, &flags).unwrap();
    assert_eq!(m.sets, Some(3));
    assert_eq!(m.reps, None);
    assert_eq!(m.weight, None);
    assert_eq!(m.duration, Some(20));
    assert_eq!(m.distance, None);
    let shown = WorkoutLogFlags { log_reps: true, ..flags };
    let e = collect_measurements(&inputs, &shown).unwrap_err();
    assert_eq!(show(&e.message()), "Invalid number format: abc");
}

#[test]
fn personal_best_chains_after_add() {
    let mut app = App::new(today(), vec![], None);
    app.open_add_workout_modal(identifiers(), None, 0);
    if let ActiveModal::AddWorkout(m) = &mut app.active_modal {
        m.resolved_exercise = Some(bench_press());
        m.exercise_input = text("Bench Press");
        m.focused_field = AddWorkoutField::Confirm;
    }
    let out = app.handle_key_event(Key::Enter, today());
    let req = match out {
        KeyOutcome::Request(r) => r,
        other => panic!("expected a request, got {:?}", other),
    };
    let pb = PersonalBests { weight: true, reps: false, duration: false, distance: false };
    app.apply_reply(req, ServiceReply::WorkoutAdded(Ok(Some(pb))), 0);
    match &app.active_modal {
        ActiveModal::PersonalBest(p) => {
            assert_eq!(show(&p.exercise_name), "Bench Press");
            assert!(p.pb_info.weight);
        },
        other => panic!("expected the personal-best notice, got {:?}", other),
    }
    app.handle_key_event(Key::Char('q'), today());
    assert!(matches!(app.active_modal, ActiveModal::Closed));
}

#[test]
fn add_failure_keeps_buffers_and_shows_error() {
    let mut app = App::new(today(), vec![], None);
    app.open_add_workout_modal(identifiers(), None, 0);
    if let ActiveModal::AddWorkout(m) = &mut app.active_modal {
        m.resolved_exercise = Some(bench_press());
        m.inputs.reps = text("8");
        m.focused_field = AddWorkoutField::Confirm;
    }
    let req = match app.handle_key_event(Key::Enter, today()) {
        KeyOutcome::Request(r) => r,
        other => panic!("expected a request, got {:?}", other),
    };
    let failure = ServiceFailure { kind: FailureKind::Other, subject: vec![], detail: text("disk full") };
    app.apply_reply(req, ServiceReply::WorkoutAdded(Err(failure)), 0);
    match &app.active_modal {
        ActiveModal::AddWorkout(m) => {
            assert_eq!(show(&m.inputs.reps), "8");
            assert_eq!(
                show(m.error_message.as_ref().unwrap()),
                "Database error: Error adding workout: disk full"
            );
        },
        other => panic!("expected the dialog to stay, got {:?}", other),
    }
}

#[test]
fn deleting_only_bodyweight_entry_closes_and_clears_selection() {
    let mut app = App::new(today(), vec![], None);
    app.bw_history_ids = vec![7];
    app.bw_history_selection = Some(0);
    app.open_delete_bodyweight_confirmation_modal();
    assert!(matches!(app.active_modal, ActiveModal::ConfirmDeleteBodyWeight(_)));
    let req = match app.handle_key_event(Key::Char('y'), today()) {
        KeyOutcome::Request(r) => r,
        other => panic!("expected a request, got {:?}", other),
    };
    assert!(matches!(req, ServiceRequest::DeleteBodyweight(7)));
    app.apply_reply(req, ServiceReply::Done(Ok(())), 0);
    assert!(matches!(app.active_modal, ActiveModal::Closed));
    assert_eq!(app.bw_history_selection, None);
}

#[test]
fn deleting_last_set_moves_selection_up() {
    let mut app = App::new(today(), vec![], None);
    let set = |id: u64| WorkoutRecord {
        id,
        exercise_name: text("Squat"),
        sets: Some(1),
        reps: Some(5),
        weight: Some(100000),
        duration_minutes: None,
        distance: None,
        notes: None,
    };
    app.log_sets_for_selected_exercise = vec![set(1), set(2), set(3)];
    app.log_set_selection = Some(2);
    app.open_delete_confirmation_modal();
    let req = match app.handle_key_event(Key::Enter, today()) {
        KeyOutcome::Request(r) => r,
        other => panic!("expected a request, got {:?}", other),
    };
    assert!(matches!(req, ServiceRequest::DeleteWorkout(3)));
    app.apply_reply(req, ServiceReply::Done(Ok(())), 0);
    assert_eq!(app.log_set_selection, Some(1));
    assert!(matches!(app.active_modal, ActiveModal::Closed));
}

#[test]
fn failed_delete_goes_to_status_bar() {
    let mut app = App::new(today(), vec![], None);
    app.bw_history_ids = vec![4, 5];
    app.bw_history_selection = Some(1);
    app.open_delete_bodyweight_confirmation_modal();
    let req = match app.handle_key_event(Key::Char('Y'), today()) {
        KeyOutcome::Request(r) => r,
        other => panic!("expected a request, got {:?}", other),
    };
    let failure = ServiceFailure { kind: FailureKind::Database, subject: vec![], detail: text("locked") };
    app.apply_reply(req, ServiceReply::Done(Err(failure)), 1000);
    assert!(matches!(app.active_modal, ActiveModal::Closed));
    assert_eq!(show(app.last_error.as_ref().unwrap()), "Database error: Error deleting bodyweight: locked");
    assert_eq!(app.error_clear_time, Some(6000));
    app.clear_expired_error(5999);
    assert!(app.last_error.is_some());
    app.clear_expired_error(6000);
    assert!(app.last_error.is_none());
}

#[test]
fn empty_exercise_name_is_rejected_locally() {
    let mut m = CreateExerciseModal::new();
    m.name_input = text("   ");
    m.focused_field = AddExerciseField::Confirm;
    let step = handle_create_exercise_modal_input(&mut m, Key::Enter);
    assert!(matches!(step, ModalStep::Stay));
    assert_eq!(show(m.error_message.as_ref().unwrap()), "Exercise name cannot be empty.");
}

#[test]
fn create_exercise_presets_and_submits() {
    let mut m = CreateExerciseModal::new();
    for c in " Plank ".chars() {
        handle_create_exercise_modal_input(&mut m, Key::Char(c));
    }
    handle_create_exercise_modal_input(&mut m, Key::Tab);
    assert_eq!(m.focused_field, AddExerciseField::Muscles);
    handle_create_exercise_modal_input(&mut m, Key::Tab);
    handle_create_exercise_modal_input(&mut m, Key::Right);
    handle_create_exercise_modal_input(&mut m, Key::Right);
    assert_eq!(m.focused_field, AddExerciseField::TypeBodyweight);
    handle_create_exercise_modal_input(&mut m, Key::Enter);
    assert_eq!(m.selected_type, ExerciseType::BodyWeight);
    assert!(!m.log_weight && m.log_reps && !m.log_duration && !m.log_distance);
    handle_create_exercise_modal_input(&mut m, Key::Down);
    assert_eq!(m.focused_field, AddExerciseField::LogWeight);
    handle_create_exercise_modal_input(&mut m, Key::Char(' '));
    assert!(m.log_weight);
    handle_create_exercise_modal_input(&mut m, Key::Down);
    assert_eq!(m.focused_field, AddExerciseField::Confirm);
    let p = match handle_create_exercise_modal_input(&mut m, Key::Enter) {
        ModalStep::Request(ServiceRequest::CreateExercise(p)) => p,
        other => panic!("expected a submission, got {:?}", other),
    };
    assert_eq!(show(&p.name), "Plank");
    assert!(p.muscles.is_none());
    let flags = p.log_flags.unwrap();
    assert!(flags.log_weight && flags.log_reps && !flags.log_duration && !flags.log_distance);
}

#[test]
fn duplicate_exercise_name_is_named() {
    let mut app = App::new(today(), vec![], None);
    app.open_create_exercise_modal();
    let failure = ServiceFailure {
        kind: FailureKind::ExerciseNameNotUnique,
        subject: text("Plank"),
        detail: text("unique constraint"),
    };
    let request = ServiceRequest::CreateExercise(task_athlete_tui::events::CreateExerciseParams {
        name: text("Plank"),
        type_: ExerciseType::BodyWeight,
        log_flags: None,
        muscles: None,
    });
    app.apply_reply(request, ServiceReply::Done(Err(failure)), 0);
    match &app.active_modal {
        ActiveModal::CreateExercise(c) => assert_eq!(
            show(c.error_message.as_ref().unwrap()),
            "Database error: Exercise 'Plank' already exists."
        ),
        other => panic!("expected the dialog to stay, got {:?}", other),
    }
}

#[test]
fn global_keys_switch_tabs_and_quit() {
    let mut app = App::new(today(), vec![], None);
    assert!(matches!(app.handle_key_event(Key::F(4), today()), KeyOutcome::Handled));
    assert_eq!(app.active_tab, task_athlete_tui::fields::ActiveTab::Bodyweight);
    assert!(matches!(app.handle_key_event(Key::Char('j'), today()), KeyOutcome::TabKey));
    app.handle_key_event(Key::Char('?'), today());
    assert!(matches!(app.active_modal, ActiveModal::Help));
    app.handle_key_event(Key::Char('x'), today());
    assert!(matches!(app.active_modal, ActiveModal::Help));
    app.handle_key_event(Key::Esc, today());
    assert!(matches!(app.active_modal, ActiveModal::Closed));
    app.handle_key_event(Key::Char('q'), today());
    assert!(app.should_quit);
}

#[test]
fn graph_range_cycles() {
    let mut app = App::new(today(), vec![], None);
    let mut seen = vec![];
    for _ in 0..5 {
        app.bw_cycle_graph_range();
        seen.push(app.bw_graph_range_months);
    }
    assert_eq!(seen, vec![6, 12, 0, 1, 3]);
}
