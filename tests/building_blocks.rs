use task_athlete_tui::chars_of;
use task_athlete_tui::dates::{parse_modal_date, Date};
use task_athlete_tui::errors::AppInputError;
use task_athlete_tui::events::{DisplayConfig, WorkoutRecord};
use task_athlete_tui::exercise_modal::convert_flags;
use task_athlete_tui::fields::{AddWorkoutField, ExerciseDefinition, ExerciseType, WorkoutLogFlags};
use task_athlete_tui::focus::{focusable, get_next_focusable_field, NavigationDirection};
use task_athlete_tui::numeric::{
    modify_decimal_input, modify_numeric_input, parse_modal_weight, parse_option_to_input,
    parse_optional_float, parse_optional_int,
};
use task_athlete_tui::selection::{
    ensure_selection_is_valid, list_next, list_previous, selection_after_delete,
};
use task_athlete_tui::suggest::filter_suggestions;
use task_athlete_tui::workout_modal::{
    populate_workout_inputs_from_def_and_last_workout, WorkoutInputs,
};

fn text(s: &str) -> Vec<char> {
    s.chars().collect()
}

fn show(v: &[char]) -> String {
    v.iter().collect()
}

const ORDER: [AddWorkoutField; 9] = [
    AddWorkoutField::Exercise,
    AddWorkoutField::Sets,
    AddWorkoutField::Reps,
    AddWorkoutField::Weight,
    AddWorkoutField::Duration,
    AddWorkoutField::Distance,
    AddWorkoutField::Notes,
    AddWorkoutField::Confirm,
    AddWorkoutField::Cancel,
];

fn all_policies() -> Vec<(WorkoutLogFlags, bool)> {
    let mut out = vec![];
    for bits in 0..128u32 {
        let b = |i: u32| bits & (1 << i) != 0;
        out.push((
            WorkoutLogFlags {
                log_sets: b(0),
                log_reps: b(1),
                log_weight: b(2),
                log_duration: b(3),
                log_distance: b(4),
                log_notes: b(5),
            },
            b(6),
        ));
    }
    out
}

#[test]
fn navigator_never_lands_on_hidden_fields() {
    for (flags, allow) in all_policies() {
        for &f in ORDER.iter() {
            for dir in [NavigationDirection::Forward, NavigationDirection::Backward] {
                let next = get_next_focusable_field(f, &flags, dir, allow);
                assert!(focusable(next, &flags, allow));
                if !allow {
                    assert_ne!(next, AddWorkoutField::Exercise);
                }
            }
        }
    }
}

#[test]
fn navigator_cycles_through_visible_fields() {
    for (flags, allow) in all_policies() {
        let visible: Vec<AddWorkoutField> =
            ORDER.iter().copied().filter(|&f| focusable(f, &flags, allow)).collect();
        for &start in visible.iter() {
            for dir in [NavigationDirection::Forward, NavigationDirection::Backward] {
                let mut cur = start;
                for step in 0..visible.len() {
                    cur = get_next_focusable_field(cur, &flags, dir, allow);
                    if step + 1 < visible.len() {
                        assert_ne!(cur, start);
                    }
                }
                assert_eq!(cur, start);
            }
        }
    }
}

#[test]
fn edit_mode_skips_identifier_and_hidden_fields() {
    let cardio = WorkoutLogFlags {
        log_sets: true,
        log_reps: false,
        log_weight: false,
        log_duration: true,
        log_distance: true,
        log_notes: true,
    };
    let fwd = NavigationDirection::Forward;
    assert_eq!(get_next_focusable_field(AddWorkoutField::Sets, &cardio, fwd, false), AddWorkoutField::Duration);
    assert_eq!(get_next_focusable_field(AddWorkoutField::Cancel, &cardio, fwd, false), AddWorkoutField::Sets);
    assert_eq!(get_next_focusable_field(AddWorkoutField::Cancel, &cardio, fwd, true), AddWorkoutField::Exercise);
    assert_eq!(
        get_next_focusable_field(AddWorkoutField::Sets, &cardio, NavigationDirection::Backward, false),
        AddWorkoutField::Cancel
    );
}

#[test]
fn integer_nudge_steps_and_floors() {
    let mut s = text("5");
    modify_numeric_input(&mut s, 1, Some(1));
    assert_eq!(show(&s), "6");
    let mut s = text("1");
    modify_numeric_input(&mut s, -1, Some(1));
    assert_eq!(show(&s), "1");
    modify_numeric_input(&mut s, -1, Some(1));
    assert_eq!(show(&s), "1");
    let mut s = text("");
    modify_numeric_input(&mut s, 1, Some(0));
    assert_eq!(show(&s), "1");
    let mut s = text("abc");
    modify_numeric_input(&mut s, -1, None);
    assert_eq!(show(&s), "-1");
    let mut s = text("9223372036854775807");
    modify_numeric_input(&mut s, 1, None);
    assert_eq!(show(&s), "9223372036854775807");
}

#[test]
fn zero_nudge_settles() {
    for start in ["", "x", "007", "-4", "12"] {
        let mut once = text(start);
        modify_numeric_input(&mut once, 0, Some(0));
        let mut twice = once.clone();
        modify_numeric_input(&mut twice, 0, Some(0));
        assert_eq!(once, twice);
        let mut d1 = text(start);
        modify_decimal_input(&mut d1, 0, Some(0));
        let mut d2 = d1.clone();
        modify_decimal_input(&mut d2, 0, Some(0));
        assert_eq!(d1, d2);
    }
}

#[test]
fn repeated_decrements_stop_at_the_floor() {
    let mut s = text("3");
    let mut seen = vec![];
    for _ in 0..5 {
        modify_numeric_input(&mut s, -1, Some(0));
        seen.push(show(&s));
    }
    assert_eq!(seen, vec!["2", "1", "0", "0", "0"]);
    let mut w = text("1");
    let mut seen = vec![];
    for _ in 0..4 {
        modify_decimal_input(&mut w, -500, Some(0));
        seen.push(show(&w));
    }
    assert_eq!(seen, vec!["0.5", "0.0", "0.0", "0.0"]);
}

#[test]
fn decimal_nudge_formats_with_step_precision() {
    let mut w = text("72.5");
    modify_decimal_input(&mut w, 500, Some(0));
    assert_eq!(show(&w), "73.0");
    let mut d = text("");
    modify_decimal_input(&mut d, 100, Some(0));
    assert_eq!(show(&d), "0.1");
    let mut d = text("1.25");
    modify_decimal_input(&mut d, 250, Some(0));
    assert_eq!(show(&d), "1.50");
    let mut d = text("2");
    modify_decimal_input(&mut d, 1000, None);
    assert_eq!(show(&d), "3.0");
    let mut d = text("72.25");
    modify_decimal_input(&mut d, 500, Some(0));
    assert_eq!(show(&d), "72.8");
}

#[test]
fn optional_int_parsing() {
    assert_eq!(parse_optional_int(&text("  12 ")).unwrap(), Some(12));
    assert_eq!(parse_optional_int(&text("   ")).unwrap(), None);
    assert_eq!(parse_optional_int(&text("-7")).unwrap(), Some(-7));
    match parse_optional_int(&text(" 1x ")) {
        Err(AppInputError::InvalidNumber(t)) => assert_eq!(show(&t), "1x"),
        other => panic!("unexpected {:?}", other),
    }
    assert!(parse_optional_int(&text("99999999999999999999")).is_err());
}

#[test]
fn optional_decimal_parsing() {
    assert_eq!(parse_optional_float(&text(" 2.5 ")).unwrap(), Some(2500));
    assert_eq!(parse_optional_float(&text(".5")).unwrap(), Some(500));
    assert_eq!(parse_optional_float(&text("")).unwrap(), None);
    match parse_optional_float(&text("-1")) {
        Err(e) => assert_eq!(show(&e.message()), "Invalid number format: Value cannot be negative"),
        other => panic!("unexpected {:?}", other),
    }
    match parse_optional_float(&text("1.2.3")) {
        Err(e) => assert_eq!(show(&e.message()), "Invalid number format: 1.2.3"),
        other => panic!("unexpected {:?}", other),
    }
}

#[test]
fn modal_weight_parsing() {
    assert_eq!(parse_modal_weight(&text("80")).unwrap(), 80000);
    assert!(matches!(parse_modal_weight(&text("  ")), Err(AppInputError::InputEmpty)));
    match parse_modal_weight(&text("0")) {
        Err(e) => assert_eq!(show(&e.message()), "Invalid number format: Weight must be positive"),
        other => panic!("unexpected {:?}", other),
    }
    assert!(parse_modal_weight(&text("abc")).is_err());
}

#[test]
fn option_to_input_renders_integers() {
    assert_eq!(show(&parse_option_to_input(Some(-42))), "-42");
    assert_eq!(show(&parse_option_to_input(Some(0))), "0");
    assert_eq!(show(&parse_option_to_input(None)), "");
}

#[test]
fn suggestions_are_prefix_and_case_insensitive() {
    let ids = vec![text("Bench Press"), text("Incline Bench"), text("bent row")];
    let found = filter_suggestions(&text("BEN"), &ids);
    let names: Vec<String> = found.iter().map(|s| show(s)).collect();
    assert_eq!(names, vec!["Bench Press".to_string(), "bent row".to_string()]);
    let found = filter_suggestions(&text("ben"), &vec![text("Bench Press"), text("Incline Bench")]);
    assert_eq!(found.len(), 1);
    assert!(filter_suggestions(&text(""), &ids).is_empty());
}

#[test]
fn suggestions_are_capped_at_five() {
    let ids: Vec<Vec<char>> = (0..9).map(|i| text(&format!("Squat {}", i))).collect();
    let found = filter_suggestions(&text("sq"), &ids);
    assert_eq!(found.len(), 5);
    assert_eq!(show(&found[4]), "Squat 4");
}

#[test]
fn selection_helpers_wrap_and_repair() {
    let mut s = Some(2);
    list_next(&mut s, 3);
    assert_eq!(s, Some(0));
    list_previous(&mut s, 3);
    assert_eq!(s, Some(2));
    let mut none = None;
    list_previous(&mut none, 4);
    assert_eq!(none, Some(3));
    let mut s = Some(5);
    ensure_selection_is_valid(&mut s, 2);
    assert_eq!(s, Some(1));
    ensure_selection_is_valid(&mut s, 0);
    assert_eq!(s, None);
}

#[test]
fn deleting_rows_adjusts_selection() {
    assert_eq!(selection_after_delete(Some(2), 3), Some(1));
    assert_eq!(selection_after_delete(Some(1), 2), Some(0));
    assert_eq!(selection_after_delete(Some(0), 1), None);
    assert_eq!(selection_after_delete(Some(0), 3), Some(0));
    assert_eq!(selection_after_delete(Some(1), 3), Some(1));
}

#[test]
fn date_shortcuts_and_strict_dates() {
    let today = Date { year: 2024, month: 3, day: 1 };
    assert_eq!(parse_modal_date(&text(""), today).unwrap(), today);
    assert_eq!(parse_modal_date(&text(" Today "), today).unwrap(), today);
    assert_eq!(parse_modal_date(&text("y"), today).unwrap(), Date { year: 2024, month: 2, day: 29 });
    assert_eq!(
        parse_modal_date(&text("YESTERDAY"), Date { year: 2023, month: 1, day: 1 }).unwrap(),
        Date { year: 2022, month: 12, day: 31 }
    );
    assert_eq!(parse_modal_date(&text("2023-07-14"), today).unwrap(), Date { year: 2023, month: 7, day: 14 });
    match parse_modal_date(&text("14/07/2023"), today) {
        Err(e) => assert_eq!(
            show(&e.message()),
            "Invalid date format: 14/07/2023. Use YYYY-MM-DD or shortcuts."
        ),
        other => panic!("unexpected {:?}", other),
    }
    assert!(parse_modal_date(&text("2023-02-30"), today).is_err());
}

#[test]
fn prefill_uses_added_weight_and_miles() {
    let def = ExerciseDefinition {
        name: text("Pull Up"),
        type_: ExerciseType::BodyWeight,
        log_weight: true,
        log_reps: true,
        log_duration: false,
        log_distance: true,
    };
    let last = WorkoutRecord {
        id: 1,
        exercise_name: text("Pull Up"),
        sets: None,
        reps: Some(8),
        weight: Some(80000),
        duration_minutes: None,
        distance: Some(10000),
        notes: None,
    };
    let mut inputs = WorkoutInputs {
        sets: vec![],
        reps: vec![],
        weight: vec![],
        duration: vec![],
        distance: vec![],
        notes: text("keep"),
    };
    let cfg = DisplayConfig { bodyweight: Some(70000), imperial: true };
    populate_workout_inputs_from_def_and_last_workout(&mut inputs, &def, Some(&last), cfg);
    assert_eq!(show(&inputs.sets), "1");
    assert_eq!(show(&inputs.reps), "8");
    assert_eq!(show(&inputs.weight), "10.0");
    assert_eq!(show(&inputs.duration), "");
    assert_eq!(show(&inputs.distance), "6.2");
    assert_eq!(show(&inputs.notes), "keep");
    let cfg = DisplayConfig { bodyweight: Some(90000), imperial: false };
    populate_workout_inputs_from_def_and_last_workout(&mut inputs, &def, Some(&last), cfg);
    assert_eq!(show(&inputs.weight), "");
    assert_eq!(show(&inputs.distance), "10.0");
}

#[test]
fn visibility_policy_follows_definition() {
    assert!(WorkoutLogFlags::from_def(None).log_distance);
    let def = ExerciseDefinition {
        name: text("Row"),
        type_: ExerciseType::Cardio,
        log_weight: false,
        log_reps: false,
        log_duration: true,
        log_distance: true,
    };
    let f = WorkoutLogFlags::from_def(Some(&def));
    assert!(f.log_sets && f.log_notes && !f.log_reps && !f.log_weight && f.log_duration);
}

#[test]
fn flags_for_new_exercise() {
    assert!(convert_flags(false, false, false, false).is_none());
    let f = convert_flags(true, false, false, true).unwrap();
    assert!(f.log_weight && !f.log_reps && !f.log_duration && f.log_distance);
}

#[test]
fn error_messages_render() {
    assert_eq!(show(&AppInputError::InputEmpty.message()), "Input field cannot be empty.");
    assert_eq!(show(&AppInputError::SelectionRequired.message()), "Field requires a selection.");
    assert_eq!(show(&AppInputError::DbError(text("x")).message()), "Database error: x");
    assert_eq!(show(&chars_of("abc")), "abc");
}
