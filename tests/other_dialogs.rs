use task_athlete_tui::dates::Date;
use task_athlete_tui::events::{
    DisplayConfig, FailureKind, Key, ModalStep, ServiceFailure, ServiceReply, ServiceRequest,
    WorkoutRecord,
};
use task_athlete_tui::fields::{
    AddWorkoutField, ExerciseDefinition, ExerciseType, LogBodyweightField, SetTargetWeightField,
};
use task_athlete_tui::modal::{ActiveModal, App, KeyOutcome};
use task_athlete_tui::small_modals::{
    handle_log_bodyweight_modal_input, handle_set_target_weight_modal_input, LogBodyweightModal,
    SetTargetWeightModal,
};
use task_athlete_tui::workout_modal::{handle_edit_workout_modal_input, EditWorkoutModal};

fn text(s: &str) -> Vec<char> {
    s.chars().collect()
}

fn show(v: &[char]) -> String {
    v.iter().collect()
}

fn today() -> Date {
    Date { year: 2024, month: 3, day: 1 }
}

fn running() -> ExerciseDefinition {
    ExerciseDefinition {
        name: text("Running"),
        type_: ExerciseType::Cardio,
        log_weight: false,
        log_reps: false,
        log_duration: true,
        log_distance: true,
    }
}

fn run_record() -> WorkoutRecord {
    WorkoutRecord {
        id: 42,
        exercise_name: text("Running"),
        sets: None,
        reps: None,
        weight: None,
        duration_minutes: Some(30),
        distance: Some(5000),
        notes: Some(text("windy")),
    }
}

#[test]
fn edit_dialog_seeds_and_skips_hidden_fields() {
    let mut m = EditWorkoutModal::new(&run_record(), running(), DisplayConfig { bodyweight: None, imperial: false });
    assert_eq!(show(&m.inputs.sets), "1");
    assert_eq!(show(&m.inputs.duration), "30");
    assert_eq!(show(&m.inputs.distance), "5.0");
    assert_eq!(show(&m.inputs.notes), "windy");
    assert_eq!(m.focused_field, AddWorkoutField::Sets);
    handle_edit_workout_modal_input(&mut m, Key::Tab);
    assert_eq!(m.focused_field, AddWorkoutField::Duration);
    handle_edit_workout_modal_input(&mut m, Key::Up);
    assert_eq!(show(&m.inputs.duration), "31");
    handle_edit_workout_modal_input(&mut m, Key::BackTab);
    assert_eq!(m.focused_field, AddWorkoutField::Sets);
    handle_edit_workout_modal_input(&mut m, Key::BackTab);
    assert_eq!(m.focused_field, AddWorkoutField::Cancel);
    handle_edit_workout_modal_input(&mut m, Key::Left);
    assert_eq!(m.focused_field, AddWorkoutField::Confirm);
    let p = match handle_edit_workout_modal_input(&mut m, Key::Enter) {
        ModalStep::Request(ServiceRequest::EditWorkout(p)) => p,
        other => panic!("expected a submission, got {:?}", other),
    };
    assert_eq!(p.id, 42);
    assert_eq!(p.new_duration, Some(31));
    assert_eq!(p.new_distance, Some(5000));
    assert_eq!(p.new_reps, None);
    assert_eq!(show(p.new_notes.as_ref().unwrap()), "windy");
}

#[test]
fn edit_dialog_reports_bad_numbers() {
    let mut m = EditWorkoutModal::new(&run_record(), running(), DisplayConfig { bodyweight: None, imperial: false });
    m.inputs.distance = text("5.x");
    m.focused_field = AddWorkoutField::Confirm;
    assert!(matches!(handle_edit_workout_modal_input(&mut m, Key::Enter), ModalStep::Stay));
    assert_eq!(show(m.error_message.as_ref().unwrap()), "Invalid number format: 5.x");
    assert!(matches!(handle_edit_workout_modal_input(&mut m, Key::Esc), ModalStep::Close));
}

#[test]
fn bodyweight_dialog_submits_weight_and_date() {
    let mut m = LogBodyweightModal::new();
    for c in "81.5x".chars() {
        handle_log_bodyweight_modal_input(&mut m, Key::Char(c), today());
    }
    assert_eq!(show(&m.weight_input), "81.5");
    handle_log_bodyweight_modal_input(&mut m, Key::Tab, today());
    assert_eq!(m.focused_field, LogBodyweightField::Date);
    for _ in 0..5 {
        handle_log_bodyweight_modal_input(&mut m, Key::Backspace, today());
    }
    handle_log_bodyweight_modal_input(&mut m, Key::Char('y'), today());
    handle_log_bodyweight_modal_input(&mut m, Key::Enter, today());
    assert_eq!(m.focused_field, LogBodyweightField::Confirm);
    match handle_log_bodyweight_modal_input(&mut m, Key::Enter, today()) {
        ModalStep::Request(ServiceRequest::AddBodyweight(d, w)) => {
            assert_eq!(d, Date { year: 2024, month: 2, day: 29 });
            assert_eq!(w, 81500);
        },
        other => panic!("expected a submission, got {:?}", other),
    }
}

#[test]
fn bodyweight_dialog_rejects_bad_input() {
    let mut m = LogBodyweightModal::new();
    m.focused_field = LogBodyweightField::Confirm;
    handle_log_bodyweight_modal_input(&mut m, Key::Enter, today());
    assert_eq!(show(m.error_message.as_ref().unwrap()), "Input field cannot be empty.");
    m.weight_input = text("70");
    m.date_input = text("someday");
    handle_log_bodyweight_modal_input(&mut m, Key::Enter, today());
    assert_eq!(
        show(m.error_message.as_ref().unwrap()),
        "Invalid date format: someday. Use YYYY-MM-DD or shortcuts."
    );
}

#[test]
fn duplicate_bodyweight_entry_is_named() {
    let mut app = App::new(today(), vec![], None);
    app.open_log_bodyweight_modal();
    let failure = ServiceFailure { kind: FailureKind::BodyweightEntryExists, subject: vec![], detail: text("exists") };
    app.apply_reply(ServiceRequest::AddBodyweight(today(), 70000), ServiceReply::Done(Err(failure)), 0);
    match &app.active_modal {
        ActiveModal::LogBodyweight(l) => assert_eq!(
            show(l.error_message.as_ref().unwrap()),
            "Invalid date format: Entry already exists for this date. Use YYYY-MM-DD or shortcuts."
        ),
        other => panic!("expected the dialog to stay, got {:?}", other),
    }
    app.apply_reply(ServiceRequest::AddBodyweight(today(), 70000), ServiceReply::Done(Ok(())), 0);
    assert!(matches!(app.active_modal, ActiveModal::Closed));
}

#[test]
fn target_dialog_sets_and_clears() {
    let mut m = SetTargetWeightModal::new(None);
    for c in "72".chars() {
        handle_set_target_weight_modal_input(&mut m, Key::Char(c));
    }
    handle_set_target_weight_modal_input(&mut m, Key::Enter);
    assert_eq!(m.focused_field, SetTargetWeightField::SetButton);
    match handle_set_target_weight_modal_input(&mut m, Key::Enter) {
        ModalStep::Request(ServiceRequest::SetTargetWeight(Some(w))) => assert_eq!(w, 72000),
        other => panic!("expected a submission, got {:?}", other),
    }
    handle_set_target_weight_modal_input(&mut m, Key::Tab);
    assert_eq!(m.focused_field, SetTargetWeightField::Clear);
    m.weight_input = text("junk");
    assert!(matches!(
        handle_set_target_weight_modal_input(&mut m, Key::Enter),
        ModalStep::Request(ServiceRequest::SetTargetWeight(None))
    ));
    m.focused_field = SetTargetWeightField::SetButton;
    handle_set_target_weight_modal_input(&mut m, Key::Enter);
    assert_eq!(show(m.error_message.as_ref().unwrap()), "Invalid number format: invalid float literal");
}

#[test]
fn target_failure_names_the_action() {
    let mut app = App::new(today(), vec![], Some(70000));
    app.open_set_target_weight_modal(app.bw_target);
    let failure = ServiceFailure { kind: FailureKind::Config, subject: vec![], detail: text("read-only") };
    app.apply_reply(ServiceRequest::SetTargetWeight(None), ServiceReply::Done(Err(failure)), 0);
    match &app.active_modal {
        ActiveModal::SetTargetWeight(t) => {
            assert_eq!(show(&t.weight_input), "70.0");
            assert_eq!(show(t.error_message.as_ref().unwrap()), "Database error: Error clearing target: read-only");
        },
        other => panic!("expected the dialog to stay, got {:?}", other),
    }
}

#[test]
fn edit_opens_on_selected_set() {
    let mut app = App::new(today(), vec![], None);
    app.log_sets_for_selected_exercise = vec![run_record()];
    app.log_set_selection = Some(0);
    assert_eq!(show(&app.selected_set_exercise().unwrap()), "Running");
    app.open_edit_workout_modal(Ok((running(), DisplayConfig { bodyweight: None, imperial: true })), 0);
    match &app.active_modal {
        ActiveModal::EditWorkout(e) => {
            assert_eq!(e.workout_id, 42);
            assert_eq!(show(&e.inputs.distance), "3.1");
        },
        other => panic!("expected the edit dialog, got {:?}", other),
    }
    let mut other = App::new(today(), vec![], None);
    other.log_sets_for_selected_exercise = vec![run_record()];
    other.open_edit_workout_modal(Err(text("Exercise 'Running' not found.")), 0);
    assert!(matches!(other.active_modal, ActiveModal::Closed));
    assert_eq!(
        show(other.last_error.as_ref().unwrap()),
        "Error getting exercise details: Exercise 'Running' not found."
    );
    assert!(matches!(other.handle_key_event(Key::Char('x'), today()), KeyOutcome::TabKey));
}
