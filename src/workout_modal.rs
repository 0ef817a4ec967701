//! The add- and edit-workout dialogs: their buffers, the prefill from a
//! prior set, key handling, and the parameters they submit.
use vstd::prelude::*;
use crate::errors::{AppInputError, error_text};
use crate::events::{
    AddWorkoutParams, DisplayConfig, EditWorkoutParams, Key, ModalStep, Resolution, ResolveCause,
    ServiceFailure, FailureKind, ServiceRequest, WorkoutRecord,
};
use crate::fields::{
    AddWorkoutField, ExerciseDefinition, ExerciseType, WorkoutLogFlags, flags_of, same_definition,
};
use crate::focus::{get_next_focusable_field, is_focusable, next_field_spec, NavigationDirection};
use crate::numeric::{
    fixed_text, int_text, is_digit, modify_decimal_input, modify_numeric_input, nudged_decimal,
    nudged_int, parse_decimal_spec, parse_int_spec, parse_optional_float, parse_optional_int,
    quantity_text, i64_text, step_decimals,
};
use crate::suggest::{filter_suggestions, fold_all, suggestions_spec, views};
use crate::text_util::{
    append_chars, chars_of, copy_chars, lit_then, lower_of, trim_chars, trim_of,
};

verus! {

/// The six editable buffers of a workout dialog.
#[derive(Clone, Debug)]
pub struct WorkoutInputs {
    pub sets: Vec<char>,
    pub reps: Vec<char>,
    pub weight: Vec<char>,
    pub duration: Vec<char>,
    pub distance: Vec<char>,
    pub notes: Vec<char>,
}

/// The buffer behind a field; the buttons and the identifier have none here.
pub open spec fn buffer_of(inputs: WorkoutInputs, f: AddWorkoutField) -> Seq<char> {
    match f {
        AddWorkoutField::Sets => inputs.sets@,
        AddWorkoutField::Reps => inputs.reps@,
        AddWorkoutField::Weight => inputs.weight@,
        AddWorkoutField::Duration => inputs.duration@,
        AddWorkoutField::Distance => inputs.distance@,
        AddWorkoutField::Notes => inputs.notes@,
        _ => Seq::empty(),
    }
}

/// Whether a field holds a buffer of its own.
pub open spec fn is_buffer_field(f: AddWorkoutField) -> bool {
    f == AddWorkoutField::Sets || f == AddWorkoutField::Reps || f == AddWorkoutField::Weight || f
        == AddWorkoutField::Duration || f == AddWorkoutField::Distance || f == AddWorkoutField::Notes
}

/// Whether a typed character is kept in a field: digits in the integer
/// fields, digits and points in the decimal ones, anything in the notes.
pub open spec fn accepts_char(f: AddWorkoutField, c: char) -> bool {
    match f {
        AddWorkoutField::Sets | AddWorkoutField::Reps | AddWorkoutField::Duration => is_digit(c),
        AddWorkoutField::Weight | AddWorkoutField::Distance => is_digit(c) || c == '.',
        _ => true,
    }
}

/// A buffer after backspace.
pub open spec fn popped(s: Seq<char>) -> Seq<char> {
    if s.len() > 0 {
        s.drop_last()
    } else {
        s
    }
}

/// A buffer after an arrow nudge upwards (`up`) or downwards: sets step by
/// one down to one, reps and minutes by one down to zero, weight by half a
/// unit and distance by a tenth, both down to zero.
pub open spec fn nudged_text(f: AddWorkoutField, s: Seq<char>, up: bool) -> Seq<char> {
    let sign: int = if up {
        1
    } else {
        -1
    };
    match f {
        AddWorkoutField::Sets => int_text(nudged_int(s, sign, Some(1i64))),
        AddWorkoutField::Reps | AddWorkoutField::Duration => int_text(
            nudged_int(s, sign, Some(0i64)),
        ),
        AddWorkoutField::Weight => fixed_text(
            nudged_decimal(s, 500 * sign, Some(0i64)),
            step_decimals(500 * sign),
        ),
        AddWorkoutField::Distance => fixed_text(
            nudged_decimal(s, 100 * sign, Some(0i64)),
            step_decimals(100 * sign),
        ),
        _ => s,
    }
}

/// A field's buffer after an editing key; keys that do not edit leave it.
pub open spec fn edited_text(f: AddWorkoutField, s: Seq<char>, key: Key) -> Seq<char> {
    match key {
        Key::Char(c) => if accepts_char(f, c) {
            s.push(c)
        } else {
            s
        },
        Key::Backspace => popped(s),
        Key::Up => nudged_text(f, s, true),
        Key::Down => nudged_text(f, s, false),
        _ => s,
    }
}

/// The buffers after an editing key on field `f`: only its buffer changes.
pub open spec fn inputs_after_key(old: WorkoutInputs, new: WorkoutInputs, f: AddWorkoutField, key: Key) -> bool {
    forall|g: AddWorkoutField|
        is_buffer_field(g) ==> #[trigger] buffer_of(new, g) == if g == f {
            edited_text(f, buffer_of(old, f), key)
        } else {
            buffer_of(old, g)
        }
}

fn pop_char(s: &mut Vec<char>)
    ensures
        final(s)@ == popped(old(s)@),
{
    if s.len() > 0 {
        s.pop();
    }
}

fn edit_int(s: &mut Vec<char>, key: Key, min: i64)
    ensures
        final(s)@ == match key {
            Key::Char(c) => if is_digit(c) {
                old(s)@.push(c)
            } else {
                old(s)@
            },
            Key::Backspace => popped(old(s)@),
            Key::Up => int_text(nudged_int(old(s)@, 1, Some(min))),
            Key::Down => int_text(nudged_int(old(s)@, -1, Some(min))),
            _ => old(s)@,
        },
{
    match key {
        Key::Char(c) => {
            if '0' <= c && c <= '9' {
                s.push(c);
            }
        },
        Key::Backspace => pop_char(s),
        Key::Up => modify_numeric_input(s, 1, Some(min)),
        Key::Down => modify_numeric_input(s, -1, Some(min)),
        _ => {},
    }
}

fn edit_decimal(s: &mut Vec<char>, key: Key, step: i64)
    requires
        0 < step <= 1000000,
    ensures
        final(s)@ == match key {
            Key::Char(c) => if is_digit(c) || c == '.' {
                old(s)@.push(c)
            } else {
                old(s)@
            },
            Key::Backspace => popped(old(s)@),
            Key::Up => fixed_text(
                nudged_decimal(old(s)@, step as int, Some(0i64)),
                step_decimals(step as int),
            ),
            Key::Down => fixed_text(
                nudged_decimal(old(s)@, -step, Some(0i64)),
                step_decimals(-step),
            ),
            _ => old(s)@,
        },
{
    match key {
        Key::Char(c) => {
            if ('0' <= c && c <= '9') || c == '.' {
                s.push(c);
            }
        },
        Key::Backspace => pop_char(s),
        Key::Up => modify_decimal_input(s, step, Some(0)),
        Key::Down => modify_decimal_input(s, -step, Some(0)),
        _ => {},
    }
}

fn edit_text(s: &mut Vec<char>, key: Key)
    ensures
        final(s)@ == match key {
            Key::Char(c) => old(s)@.push(c),
            Key::Backspace => popped(old(s)@),
            _ => old(s)@,
        },
{
    match key {
        Key::Char(c) => s.push(c),
        Key::Backspace => pop_char(s),
        _ => {},
    }
}

impl WorkoutInputs {
    /// Applies an editing key to the buffer of field `f`.
    #[verifier::rlimit(50)]
    pub fn edit_field(&mut self, f: AddWorkoutField, key: Key)
        requires
            is_buffer_field(f),
        ensures
            inputs_after_key(*old(self), *final(self), f, key),
    {
        match f {
            AddWorkoutField::Sets => edit_int(&mut self.sets, key, 1),
            AddWorkoutField::Reps => edit_int(&mut self.reps, key, 0),
            AddWorkoutField::Duration => edit_int(&mut self.duration, key, 0),
            AddWorkoutField::Weight => edit_decimal(&mut self.weight, key, 500),
            AddWorkoutField::Distance => edit_decimal(&mut self.distance, key, 100),
            _ => edit_text(&mut self.notes, key),
        }
        proof {
            assert forall|g: AddWorkoutField| is_buffer_field(g) implies #[trigger] buffer_of(
                *final(self),
                g,
            ) == if g == f {
                edited_text(f, buffer_of(*old(self), f), key)
            } else {
                buffer_of(*old(self), g)
            } by {
                if g == f {
                    match key {
                        Key::Up => {
                            assert(500 * 1int == 500);
                            assert(100 * 1int == 100);
                        },
                        Key::Down => {
                            assert(500 * -1int == -500);
                            assert(100 * -1int == -100);
                        },
                        _ => {},
                    }
                }
            }
        }
    }
}


/// An optional integer as a buffer: its digits, or nothing.
pub open spec fn opt_int_text(v: Option<i64>) -> Seq<char> {
    match v {
        Some(x) => int_text(x as int),
        None => Seq::empty(),
    }
}

/// Miles in thousandths for kilometres in thousandths.
pub open spec fn miles_of(km: int) -> int {
    km * 621371 / 1000000
}

/// The sets buffer seeded from a prior set: its sets, else one.
pub open spec fn prefill_sets(w: WorkoutRecord) -> Seq<char> {
    match w.sets {
        Some(v) => int_text(v as int),
        None => "1"@,
    }
}

/// The weight buffer seeded from a prior set, to one decimal. For a
/// bodyweight exercise it is the weight added to the configured bodyweight,
/// empty where nothing was added.
pub open spec fn prefill_weight(def: ExerciseDefinition, w: WorkoutRecord, cfg: DisplayConfig) -> Seq<char> {
    if def.type_ == ExerciseType::BodyWeight {
        let body: int = match cfg.bodyweight {
            Some(b) => b as int,
            None => 0,
        };
        let added: int = match w.weight {
            Some(x) => if x > body {
                x - body
            } else {
                0
            },
            None => 0,
        };
        if added > 0 {
            fixed_text(added, 1)
        } else {
            Seq::empty()
        }
    } else {
        match w.weight {
            Some(x) => fixed_text(x as int, 1),
            None => Seq::empty(),
        }
    }
}

/// The distance buffer seeded from a prior set, in the configured unit, to
/// one decimal.
pub open spec fn prefill_distance(w: WorkoutRecord, cfg: DisplayConfig) -> Seq<char> {
    match w.distance {
        Some(km) => fixed_text(
            if cfg.imperial {
                miles_of(km as int)
            } else {
                km as int
            },
            1,
        ),
        None => Seq::empty(),
    }
}

/// The sets buffer seeded from an optional prior set.
pub open spec fn sets_prefill(last: Option<WorkoutRecord>) -> Seq<char> {
    match last {
        Some(w) => prefill_sets(w),
        None => "1"@,
    }
}

pub open spec fn reps_prefill(last: Option<WorkoutRecord>) -> Seq<char> {
    match last {
        Some(w) => opt_int_text(w.reps),
        None => Seq::empty(),
    }
}

pub open spec fn weight_prefill_text(
    def: ExerciseDefinition,
    last: Option<WorkoutRecord>,
    cfg: DisplayConfig,
) -> Seq<char> {
    match last {
        Some(w) => prefill_weight(def, w, cfg),
        None => Seq::empty(),
    }
}

pub open spec fn duration_prefill(last: Option<WorkoutRecord>) -> Seq<char> {
    match last {
        Some(w) => opt_int_text(w.duration_minutes),
        None => Seq::empty(),
    }
}

pub open spec fn distance_prefill_text(last: Option<WorkoutRecord>, cfg: DisplayConfig) -> Seq<char> {
    match last {
        Some(w) => prefill_distance(w, cfg),
        None => Seq::empty(),
    }
}

/// The five measurement buffers seeded for an exercise: from its most recent
/// set where there is one, else sets at one and the rest empty.
pub open spec fn prefilled(
    inputs: WorkoutInputs,
    def: ExerciseDefinition,
    last: Option<WorkoutRecord>,
    cfg: DisplayConfig,
) -> bool {
    &&& inputs.sets@ == sets_prefill(last)
    &&& inputs.reps@ == reps_prefill(last)
    &&& inputs.weight@ == weight_prefill_text(def, last, cfg)
    &&& inputs.duration@ == duration_prefill(last)
    &&& inputs.distance@ == distance_prefill_text(last, cfg)
}

/// A text where the field is shown, else nothing.
pub open spec fn shown_or_empty(show: bool, t: Seq<char>) -> Seq<char> {
    if show {
        t
    } else {
        Seq::empty()
    }
}

/// The measurement buffers seeded for a newly resolved exercise: the
/// prefill where the exercise's policy shows the field, empty where it
/// hides it.
pub open spec fn prefilled_for(
    inputs: WorkoutInputs,
    def: ExerciseDefinition,
    last: Option<WorkoutRecord>,
    cfg: DisplayConfig,
) -> bool {
    let f = flags_of(Some(def));
    &&& inputs.sets@ == shown_or_empty(f.log_sets, sets_prefill(last))
    &&& inputs.reps@ == shown_or_empty(f.log_reps, reps_prefill(last))
    &&& inputs.weight@ == shown_or_empty(f.log_weight, weight_prefill_text(def, last, cfg))
    &&& inputs.duration@ == shown_or_empty(f.log_duration, duration_prefill(last))
    &&& inputs.distance@ == shown_or_empty(f.log_distance, distance_prefill_text(last, cfg))
}

fn opt_i64_text(v: Option<i64>) -> (r: Vec<char>)
    ensures
        r@ == opt_int_text(v),
{
    match v {
        Some(x) => i64_text(x),
        None => Vec::new(),
    }
}

fn weight_prefill(def: &ExerciseDefinition, w: &WorkoutRecord, cfg: DisplayConfig) -> (r: Vec<char>)
    ensures
        r@ == prefill_weight(*def, *w, cfg),
{
    if def.type_ == ExerciseType::BodyWeight {
        let body: u64 = match cfg.bodyweight {
            Some(b) => b,
            None => 0,
        };
        let added: u64 = match w.weight {
            Some(x) => if x > body {
                x - body
            } else {
                0
            },
            None => 0,
        };
        if added > 0 {
            quantity_text(added, 1)
        } else {
            Vec::new()
        }
    } else {
        match w.weight {
            Some(x) => quantity_text(x, 1),
            None => Vec::new(),
        }
    }
}

fn distance_prefill(w: &WorkoutRecord, cfg: DisplayConfig) -> (r: Vec<char>)
    ensures
        r@ == prefill_distance(*w, cfg),
{
    match w.distance {
        Some(km) => {
            let shown: u64 = if cfg.imperial {
                assert(km as int * 621371 / 1000000 <= km) by (nonlinear_arith)
                    requires
                        km >= 0,
                ;
                ((km as u128 * 621371) / 1000000) as u64
            } else {
                km
            };
            quantity_text(shown, 1)
        },
        None => Vec::new(),
    }
}

/// Seeds the five measurement buffers for an exercise from its most recent
/// set; the notes buffer is left as it was.
pub fn populate_workout_inputs_from_def_and_last_workout(
    inputs: &mut WorkoutInputs,
    def: &ExerciseDefinition,
    last: Option<&WorkoutRecord>,
    cfg: DisplayConfig,
)
    ensures
        prefilled(
            *final(inputs),
            *def,
            match last {
                Some(w) => Some(*w),
                None => None,
            },
            cfg,
        ),
        final(inputs).notes@ == old(inputs).notes@,
{
    match last {
        Some(w) => {
            inputs.sets = match w.sets {
                Some(v) => i64_text(v),
                None => chars_of("1"),
            };
            inputs.reps = opt_i64_text(w.reps);
            inputs.weight = weight_prefill(def, w, cfg);
            inputs.duration = opt_i64_text(w.duration_minutes);
            inputs.distance = distance_prefill(w, cfg);
        },
        None => {
            inputs.sets = chars_of("1");
            inputs.reps = Vec::new();
            inputs.weight = Vec::new();
            inputs.duration = Vec::new();
            inputs.distance = Vec::new();
        },
    }
}

/// Seeds all six buffers from the very set being edited.
pub fn populate_workout_inputs_from_def_and_workout(
    inputs: &mut WorkoutInputs,
    def: &ExerciseDefinition,
    workout: &WorkoutRecord,
    cfg: DisplayConfig,
)
    ensures
        prefilled(*final(inputs), *def, Some(*workout), cfg),
        final(inputs).notes@ == match workout.notes {
            Some(n) => n@,
            None => Seq::<char>::empty(),
        },
{
    populate_workout_inputs_from_def_and_last_workout(inputs, def, Some(workout), cfg);
    inputs.notes = match &workout.notes {
        Some(n) => copy_chars(n),
        None => Vec::new(),
    };
}

/// Empties the measurement buffers that a policy hides.
pub fn clear_hidden_inputs(inputs: &mut WorkoutInputs, flags: &WorkoutLogFlags)
    ensures
        final(inputs).sets@ == (if flags.log_sets {
            old(inputs).sets@
        } else {
            Seq::empty()
        }),
        final(inputs).reps@ == (if flags.log_reps {
            old(inputs).reps@
        } else {
            Seq::empty()
        }),
        final(inputs).weight@ == (if flags.log_weight {
            old(inputs).weight@
        } else {
            Seq::empty()
        }),
        final(inputs).duration@ == (if flags.log_duration {
            old(inputs).duration@
        } else {
            Seq::empty()
        }),
        final(inputs).distance@ == (if flags.log_distance {
            old(inputs).distance@
        } else {
            Seq::empty()
        }),
        final(inputs).notes@ == old(inputs).notes@,
{
    if !flags.log_sets {
        inputs.sets = Vec::new();
    }
    if !flags.log_reps {
        inputs.reps = Vec::new();
    }
    if !flags.log_weight {
        inputs.weight = Vec::new();
    }
    if !flags.log_duration {
        inputs.duration = Vec::new();
    }
    if !flags.log_distance {
        inputs.distance = Vec::new();
    }
}


/// What an integer field contributes to a submission: nothing where the
/// policy hides it or it is blank, else the integer it spells; the error
/// line where it spells none.
pub open spec fn int_field(show: bool, s: Seq<char>) -> Result<Option<int>, Seq<char>> {
    if !show || trim_of(s).len() == 0 {
        Ok(None)
    } else {
        match parse_int_spec(trim_of(s)) {
            Some(v) => Ok(Some(v)),
            None => Err("Invalid number format: "@ + trim_of(s)),
        }
    }
}

/// What a decimal field contributes, in thousandths: nothing where the
/// policy hides it or it is blank, else its non-negative value; the error
/// line otherwise.
pub open spec fn decimal_field(show: bool, s: Seq<char>) -> Result<Option<int>, Seq<char>> {
    if !show || trim_of(s).len() == 0 {
        Ok(None)
    } else {
        match parse_decimal_spec(trim_of(s)) {
            Some(v) => if v >= 0 {
                Ok(Some(v))
            } else {
                Err("Invalid number format: "@ + "Value cannot be negative"@)
            },
            None => Err("Invalid number format: "@ + trim_of(s)),
        }
    }
}

/// The five measurements a submission carries, or the error line of the
/// first field, in dialog order, that does not read.
pub open spec fn measurements_spec(flags: WorkoutLogFlags, inputs: WorkoutInputs) -> Result<
    (Option<int>, Option<int>, Option<int>, Option<int>, Option<int>),
    Seq<char>,
> {
    let a = int_field(flags.log_sets, inputs.sets@);
    let b = int_field(flags.log_reps, inputs.reps@);
    let c = decimal_field(flags.log_weight, inputs.weight@);
    let d = int_field(flags.log_duration, inputs.duration@);
    let e = decimal_field(flags.log_distance, inputs.distance@);
    match (a, b, c, d, e) {
        (Err(m), _, _, _, _) => Err(m),
        (Ok(_), Err(m), _, _, _) => Err(m),
        (Ok(_), Ok(_), Err(m), _, _) => Err(m),
        (Ok(_), Ok(_), Ok(_), Err(m), _) => Err(m),
        (Ok(_), Ok(_), Ok(_), Ok(_), Err(m)) => Err(m),
        (Ok(x1), Ok(x2), Ok(x3), Ok(x4), Ok(x5)) => Ok((x1, x2, x3, x4, x5)),
    }
}

/// Whether an optional machine integer holds an optional integer.
pub open spec fn same_opt_i64(x: Option<i64>, v: Option<int>) -> bool {
    match (x, v) {
        (Some(a), Some(b)) => a as int == b,
        (None, None) => true,
        _ => false,
    }
}

pub open spec fn same_opt_u64(x: Option<u64>, v: Option<int>) -> bool {
    match (x, v) {
        (Some(a), Some(b)) => a as int == b,
        (None, None) => true,
        _ => false,
    }
}

/// The notes a submission carries: the trimmed text, or nothing when blank.
pub open spec fn notes_value(s: Seq<char>) -> Option<Seq<char>> {
    if trim_of(s).len() == 0 {
        None
    } else {
        Some(trim_of(s))
    }
}

pub open spec fn same_opt_text(x: Option<Vec<char>>, v: Option<Seq<char>>) -> bool {
    match (x, v) {
        (Some(a), Some(b)) => a@ == b,
        (None, None) => true,
        _ => false,
    }
}

/// The five measurements of a workout dialog, read from its buffers.
#[derive(Clone, Copy, Debug)]
pub struct Measurements {
    pub sets: Option<i64>,
    pub reps: Option<i64>,
    pub weight: Option<u64>,
    pub duration: Option<i64>,
    pub distance: Option<u64>,
}

fn read_int_field(show: bool, s: &Vec<char>) -> (r: Result<Option<i64>, AppInputError>)
    ensures
        match int_field(show, s@) {
            Ok(v) => r matches Ok(x) && same_opt_i64(x, v),
            Err(m) => r matches Err(e) && error_text(e) == m,
        },
{
    if !show {
        return Ok(None);
    }
    parse_optional_int(s)
}

fn read_decimal_field(show: bool, s: &Vec<char>) -> (r: Result<Option<u64>, AppInputError>)
    ensures
        match decimal_field(show, s@) {
            Ok(v) => r matches Ok(x) && same_opt_u64(x, v),
            Err(m) => r matches Err(e) && error_text(e) == m,
        },
{
    if !show {
        return Ok(None);
    }
    proof {
        crate::numeric::lemma_decimal_bounds(trim_of(s@));
    }
    parse_optional_float(s)
}

/// Reads the measurement buffers that the policy shows; hidden ones are
/// not looked at and contribute nothing.
pub fn collect_measurements(inputs: &WorkoutInputs, flags: &WorkoutLogFlags) -> (r: Result<
    Measurements,
    AppInputError,
>)
    ensures
        match measurements_spec(*flags, *inputs) {
            Ok((a, b, c, d, e)) => r matches Ok(m) && same_opt_i64(m.sets, a) && same_opt_i64(
                m.reps,
                b,
            ) && same_opt_u64(m.weight, c) && same_opt_i64(m.duration, d) && same_opt_u64(
                m.distance,
                e,
            ),
            Err(msg) => r matches Err(e) && error_text(e) == msg,
        },
{
    let sets = match read_int_field(flags.log_sets, &inputs.sets) {
        Ok(v) => v,
        Err(e) => return Err(e),
    };
    let reps = match read_int_field(flags.log_reps, &inputs.reps) {
        Ok(v) => v,
        Err(e) => return Err(e),
    };
    let weight = match read_decimal_field(flags.log_weight, &inputs.weight) {
        Ok(v) => v,
        Err(e) => return Err(e),
    };
    let duration = match read_int_field(flags.log_duration, &inputs.duration) {
        Ok(v) => v,
        Err(e) => return Err(e),
    };
    let distance = match read_decimal_field(flags.log_distance, &inputs.distance) {
        Ok(v) => v,
        Err(e) => return Err(e),
    };
    Ok(Measurements { sets, reps, weight, duration, distance })
}

/// The trimmed notes, or nothing when blank.
pub fn read_notes(s: &Vec<char>) -> (r: Option<Vec<char>>)
    ensures
        same_opt_text(r, notes_value(s@)),
{
    let t = trim_chars(s);
    if t.len() == 0 {
        None
    } else {
        Some(t)
    }
}

/// A submission never looks at a buffer the policy hides: two dialogs that
/// agree on every shown buffer submit the same measurements, whatever their
/// hidden buffers hold, and a hidden field contributes nothing.
pub proof fn lemma_hidden_buffers_ignored(flags: WorkoutLogFlags, a: WorkoutInputs, b: WorkoutInputs)
    requires
        flags.log_sets ==> a.sets@ == b.sets@,
        flags.log_reps ==> a.reps@ == b.reps@,
        flags.log_weight ==> a.weight@ == b.weight@,
        flags.log_duration ==> a.duration@ == b.duration@,
        flags.log_distance ==> a.distance@ == b.distance@,
    ensures
        measurements_spec(flags, a) == measurements_spec(flags, b),
        measurements_spec(flags, a) matches Ok((s, r, w, d, x)) ==> (!flags.log_sets ==> s is None)
            && (!flags.log_reps ==> r is None) && (!flags.log_weight ==> w is None) && (
        !flags.log_duration ==> d is None) && (!flags.log_distance ==> x is None),
{
}


/// The add-workout dialog.
#[derive(Clone, Debug)]
pub struct AddWorkoutModal {
    /// The identifier typed so far: an exercise name or alias.
    pub exercise_input: Vec<char>,
    pub inputs: WorkoutInputs,
    pub focused_field: AddWorkoutField,
    pub error_message: Option<Vec<char>>,
    /// Every exercise name and alias, for the suggestions.
    pub all_exercise_identifiers: Vec<Vec<char>>,
    /// The identifiers offered for the typed text.
    pub exercise_suggestions: Vec<Vec<char>>,
    /// The highlighted suggestion.
    pub suggestion_selection: Option<usize>,
    /// The exercise the identifier resolved to, if it has.
    pub resolved_exercise: Option<ExerciseDefinition>,
}

/// The dialog with focus on another field.
pub open spec fn with_focus(m: AddWorkoutModal, f: AddWorkoutField) -> AddWorkoutModal {
    AddWorkoutModal { focused_field: f, ..m }
}

/// Whether an error line holds a text.
pub open spec fn error_is(e: Option<Vec<char>>, t: Seq<char>) -> bool {
    e matches Some(v) && v@ == t
}

/// The dialog `m` with its suggestions emptied, as `n` holds them.
pub open spec fn unsuggested(m: AddWorkoutModal, n: AddWorkoutModal) -> AddWorkoutModal {
    AddWorkoutModal { exercise_suggestions: n.exercise_suggestions, suggestion_selection: None, ..m }
}

/// Focus leaves for `target`. Where the identifier is typed but not
/// resolved and the target is past it, the dialog first asks to resolve the
/// typed text and keeps its focus until the answer comes.
pub open spec fn leaves_for(m: AddWorkoutModal, n: AddWorkoutModal, target: AddWorkoutField, r: ModalStep) -> bool {
    if needs_fallback(m, target) {
        &&& n == m
        &&& r matches ModalStep::Request(ServiceRequest::ResolveExercise(t, c)) && t@
            == m.exercise_input@ && c == ResolveCause::LeavingIdentifier(target)
    } else {
        &&& n == with_focus(m, target)
        &&& r is Stay
    }
}

/// Whether moving to `target` first needs the typed identifier resolved.
pub open spec fn needs_fallback(m: AddWorkoutModal, target: AddWorkoutField) -> bool {
    &&& target != AddWorkoutField::Exercise
    &&& target != AddWorkoutField::Suggestions
    &&& m.resolved_exercise is None
    &&& m.exercise_input@.len() > 0
}

/// The suggestions for the dialog's typed text.
pub open spec fn suggestions_for(m: AddWorkoutModal) -> Seq<Seq<char>> {
    suggestions_spec(
        lower_of(m.exercise_input@),
        fold_all(views(m.all_exercise_identifiers@)),
        views(m.all_exercise_identifiers@),
    )
}

/// The typed identifier changed to `text`: any resolution is dropped and the
/// suggestions are worked out afresh, the first one highlighted.
pub open spec fn retyped(m: AddWorkoutModal, n: AddWorkoutModal, text: Seq<char>) -> bool {
    &&& n.exercise_input@ == text
    &&& n.resolved_exercise is None
    &&& n.inputs == m.inputs
    &&& n.all_exercise_identifiers == m.all_exercise_identifiers
    &&& views(n.exercise_suggestions@) == suggestions_for(n)
    &&& n.suggestion_selection == if n.exercise_suggestions@.len() == 0 {
        None::<usize>
    } else {
        Some(0usize)
    }
}

/// The text after a key on the identifier: a character appended, or the
/// last one removed.
pub open spec fn typed_text(s: Seq<char>, key: Key) -> Seq<char> {
    match key {
        Key::Char(c) => s.push(c),
        _ => popped(s),
    }
}

/// The highlight after Up (`up`) or Down in the popup, wrapping around.
pub open spec fn moved_selection(sel: Option<usize>, len: int, up: bool) -> Option<usize> {
    if len == 0 {
        sel
    } else {
        let cur: int = match sel {
            Some(i) => i as int,
            None => 0,
        };
        Some(
            (if up {
                if cur == 0 {
                    len - 1
                } else {
                    cur - 1
                }
            } else {
                if cur >= len - 1 {
                    0
                } else {
                    cur + 1
                }
            }) as usize,
        )
    }
}

/// The parameters a resolved dialog submits.
pub open spec fn add_params_match(p: AddWorkoutParams, def: ExerciseDefinition, inputs: WorkoutInputs) -> bool {
    &&& p.exercise_identifier@ == def.name@
    &&& measurements_spec(flags_of(Some(def)), inputs) matches Ok((a, b, c, d, e)) && same_opt_i64(
        p.sets,
        a,
    ) && same_opt_i64(p.reps, b) && same_opt_u64(p.weight, c) && same_opt_i64(p.duration, d)
        && same_opt_u64(p.distance, e)
    &&& same_opt_text(p.notes, notes_value(inputs.notes@))
    &&& p.use_bodyweight == (def.type_ == ExerciseType::BodyWeight)
}

impl AddWorkoutModal {
    /// The visibility policy of the dialog's current resolution.
    pub open spec fn flags(&self) -> WorkoutLogFlags {
        flags_of(self.resolved_exercise)
    }

    /// The dialog's invariant: focus is on a field the policy shows (or on
    /// the popup), and the highlight is none exactly when there are no
    /// suggestions, else points at one of at most five.
    pub open spec fn wf(&self) -> bool {
        &&& is_focusable(self.focused_field, self.flags(), true) || self.focused_field
            == AddWorkoutField::Suggestions
        &&& self.exercise_suggestions@.len() <= 5
        &&& match self.suggestion_selection {
            None => self.exercise_suggestions@.len() == 0,
            Some(i) => i < self.exercise_suggestions@.len(),
        }
    }

    /// Works the suggestions out afresh for the typed text and highlights
    /// the first, if any.
    pub fn filter_exercise_suggestions(&mut self)
        ensures
            views(final(self).exercise_suggestions@) == suggestions_for(*final(self)),
            final(self).suggestion_selection == if final(self).exercise_suggestions@.len() == 0 {
                None::<usize>
            } else {
                Some(0usize)
            },
            final(self).exercise_suggestions@.len() <= 5,
            *final(self) == (AddWorkoutModal {
                exercise_suggestions: final(self).exercise_suggestions,
                suggestion_selection: final(self).suggestion_selection,
                ..*old(self)
            }),
    {
        let found = filter_suggestions(&self.exercise_input, &self.all_exercise_identifiers);
        proof {
            crate::suggest::lemma_suggestions_are_prefix_matches(
                lower_of(self.exercise_input@),
                views(self.all_exercise_identifiers@),
            );
            assert(found@.len() == views(found@).len());
        }
        self.exercise_suggestions = found;
        self.suggestion_selection = if self.exercise_suggestions.len() == 0 {
            None
        } else {
            Some(0)
        };
    }

    fn clear_suggestions(&mut self)
        ensures
            *final(self) == (AddWorkoutModal {
                exercise_suggestions: final(self).exercise_suggestions,
                suggestion_selection: None,
                ..*old(self)
            }),
            final(self).exercise_suggestions@.len() == 0,
    {
        self.exercise_suggestions = Vec::new();
        self.suggestion_selection = None;
    }

    fn retype(&mut self, key: Key)
        ensures
            retyped(*old(self), *final(self), typed_text(old(self).exercise_input@, key)),
            final(self).focused_field == old(self).focused_field,
            final(self).error_message == old(self).error_message,
            final(self).exercise_suggestions@.len() <= 5,
    {
        match key {
            Key::Char(c) => self.exercise_input.push(c),
            _ => pop_char(&mut self.exercise_input),
        }
        self.resolved_exercise = None;
        self.filter_exercise_suggestions();
    }

    fn leave_for(&mut self, target: AddWorkoutField) -> (r: ModalStep)
        ensures
            leaves_for(*old(self), *final(self), target, r),
    {
        if target != AddWorkoutField::Exercise && target != AddWorkoutField::Suggestions
            && self.resolved_exercise.is_none() && self.exercise_input.len() > 0 {
            ModalStep::Request(
                ServiceRequest::ResolveExercise(
                    copy_chars(&self.exercise_input),
                    ResolveCause::LeavingIdentifier(target),
                ),
            )
        } else {
            self.focused_field = target;
            ModalStep::Stay
        }
    }
}


/// A key while the popup has focus: typing edits the identifier and
/// returns focus to it; Up and Down move the highlight; Enter asks to
/// resolve the highlighted suggestion, or the typed text where none is
/// highlighted; Tab and Esc return to the identifier.
pub open spec fn popup_step(m: AddWorkoutModal, n: AddWorkoutModal, key: Key, r: ModalStep) -> bool {
    match key {
        Key::Char(_) | Key::Backspace => retyped(m, n, typed_text(m.exercise_input@, key))
            && n.focused_field == AddWorkoutField::Exercise && n.error_message == m.error_message
            && r is Stay,
        Key::Up | Key::Down => n == (AddWorkoutModal {
            suggestion_selection: moved_selection(
                m.suggestion_selection,
                m.exercise_suggestions@.len() as int,
                key == Key::Up,
            ),
            ..m
        }) && r is Stay,
        Key::Enter => n == m && (match m.suggestion_selection {
            Some(i) => r matches ModalStep::Request(ServiceRequest::ResolveExercise(t, c)) && t@
                == m.exercise_suggestions@[i as int]@ && c == ResolveCause::PickedSuggestion,
            None => r matches ModalStep::Request(ServiceRequest::ResolveExercise(t, c)) && t@
                == m.exercise_input@ && c == ResolveCause::EnterOnPopup,
        }),
        Key::Tab | Key::Esc => n == with_focus(m, AddWorkoutField::Exercise) && r is Stay,
        _ => n == m && r is Stay,
    }
}

/// A key on the identifier: typing edits it; Down enters the popup where
/// there are suggestions, else asks to resolve the text; Tab and Enter ask
/// to resolve an unresolved text, else move on; Up moves back; Esc closes.
pub open spec fn identifier_step(m: AddWorkoutModal, n: AddWorkoutModal, key: Key, r: ModalStep) -> bool {
    let flags = m.flags();
    match key {
        Key::Char(_) | Key::Backspace => retyped(m, n, typed_text(m.exercise_input@, key))
            && n.focused_field == AddWorkoutField::Exercise && n.error_message == m.error_message
            && r is Stay,
        Key::Down => if m.exercise_suggestions@.len() > 0 {
            n == (AddWorkoutModal {
                focused_field: AddWorkoutField::Suggestions,
                suggestion_selection: Some(0usize),
                ..m
            }) && r is Stay
        } else {
            n == m && (r matches ModalStep::Request(ServiceRequest::ResolveExercise(t, c)) && t@
                == m.exercise_input@ && c == ResolveCause::DownFromIdentifier)
        },
        Key::Tab | Key::Enter => if m.resolved_exercise is None && m.exercise_input@.len() > 0 {
            n == m && (r matches ModalStep::Request(ServiceRequest::ResolveExercise(t, c)) && t@
                == m.exercise_input@ && c == ResolveCause::TabFromIdentifier)
        } else {
            n == with_focus(
                unsuggested(m, n),
                next_field_spec(AddWorkoutField::Exercise, flags, NavigationDirection::Forward, true),
            ) && n.exercise_suggestions@.len() == 0 && r is Stay
        },
        Key::Up => leaves_for(
            m,
            n,
            next_field_spec(AddWorkoutField::Exercise, flags, NavigationDirection::Backward, true),
            r,
        ),
        Key::Esc => r is Close,
        _ => n == m && r is Stay,
    }
}

/// A key on a measurement or the notes: the suggestions are dropped; Enter
/// and Tab move on, shift-tab moves back, Esc closes, and any other key
/// edits the field's buffer.
pub open spec fn measurement_step(
    m: AddWorkoutModal,
    n: AddWorkoutModal,
    f: AddWorkoutField,
    key: Key,
    r: ModalStep,
) -> bool {
    let flags = m.flags();
    let m1 = unsuggested(m, n);
    &&& (r is Close || n.exercise_suggestions@.len() == 0)
    &&& match key {
        Key::Enter | Key::Tab => leaves_for(
            m1,
            n,
            next_field_spec(f, flags, NavigationDirection::Forward, true),
            r,
        ),
        Key::BackTab => leaves_for(m1, n, next_field_spec(f, flags, NavigationDirection::Backward, true), r),
        Key::Esc => r is Close,
        _ => n == (AddWorkoutModal { inputs: n.inputs, ..m1 }) && inputs_after_key(
            m.inputs,
            n.inputs,
            f,
            key,
        ) && r is Stay,
    }
}

/// A key on Confirm: Enter submits a resolved dialog whose shown fields
/// read, shows the first error otherwise, and sends focus back to the
/// identifier with an error while it is unresolved; the arrows and tabs
/// move focus; Esc closes.
pub open spec fn confirm_step(m: AddWorkoutModal, n: AddWorkoutModal, key: Key, r: ModalStep) -> bool {
    let flags = m.flags();
    let m1 = unsuggested(m, n);
    &&& (r is Close || n.exercise_suggestions@.len() == 0)
    &&& match key {
        Key::Enter => match m.resolved_exercise {
            None => n == (AddWorkoutModal {
                focused_field: AddWorkoutField::Exercise,
                error_message: n.error_message,
                ..m1
            }) && error_is(n.error_message, "Cannot submit: Exercise not resolved."@) && r is Stay,
            Some(def) => match measurements_spec(flags, m.inputs) {
                Ok(_) => n == m1 && (r matches ModalStep::Request(ServiceRequest::AddWorkout(p))
                    && add_params_match(p, def, m.inputs)),
                Err(msg) => n == (AddWorkoutModal { error_message: n.error_message, ..m1 })
                    && error_is(n.error_message, msg) && r is Stay,
            },
        },
        Key::Left | Key::Backspace | Key::BackTab | Key::Up => leaves_for(
            m1,
            n,
            next_field_spec(AddWorkoutField::Confirm, flags, NavigationDirection::Backward, true),
            r,
        ),
        Key::Down | Key::Tab | Key::Right => leaves_for(
            m1,
            n,
            next_field_spec(AddWorkoutField::Confirm, flags, NavigationDirection::Forward, true),
            r,
        ),
        Key::Esc => r is Close,
        _ => n == m1 && r is Stay,
    }
}

/// A key on Cancel: Enter and Esc close; the arrows and tabs move focus.
pub open spec fn cancel_step(m: AddWorkoutModal, n: AddWorkoutModal, key: Key, r: ModalStep) -> bool {
    let flags = m.flags();
    let m1 = unsuggested(m, n);
    &&& (r is Close || n.exercise_suggestions@.len() == 0)
    &&& match key {
        Key::Enter | Key::Esc => r is Close,
        Key::Right | Key::Tab | Key::Down => leaves_for(
            m1,
            n,
            next_field_spec(AddWorkoutField::Cancel, flags, NavigationDirection::Forward, true),
            r,
        ),
        Key::Left | Key::Backspace | Key::BackTab | Key::Up => leaves_for(
            m1,
            n,
            next_field_spec(AddWorkoutField::Cancel, flags, NavigationDirection::Backward, true),
            r,
        ),
        _ => n == m1 && r is Stay,
    }
}

/// One key in the add-workout dialog, after its error line was cleared.
pub open spec fn add_workout_step(m: AddWorkoutModal, n: AddWorkoutModal, key: Key, r: ModalStep) -> bool {
    match m.focused_field {
        AddWorkoutField::Suggestions => popup_step(m, n, key, r),
        AddWorkoutField::Exercise => identifier_step(m, n, key, r),
        AddWorkoutField::Confirm => confirm_step(m, n, key, r),
        AddWorkoutField::Cancel => cancel_step(m, n, key, r),
        f => measurement_step(m, n, f, key, r),
    }
}

impl AddWorkoutModal {
    #[verifier::rlimit(50)]
    fn popup_key(&mut self, key: Key) -> (r: ModalStep)
        requires
            old(self).wf(),
            old(self).focused_field == AddWorkoutField::Suggestions,
        ensures
            final(self).wf(),
            popup_step(*old(self), *final(self), key, r),
    {
        match key {
            Key::Char(_) | Key::Backspace => {
                self.retype(key);
                self.focused_field = AddWorkoutField::Exercise;
                ModalStep::Stay
            },
            Key::Up | Key::Down => {
                let len = self.exercise_suggestions.len();
                if len > 0 {
                    let cur: usize = match self.suggestion_selection {
                        Some(i) => i,
                        None => 0,
                    };
                    let next: usize = if key == Key::Up {
                        if cur == 0 {
                            len - 1
                        } else {
                            cur - 1
                        }
                    } else {
                        if cur >= len - 1 {
                            0
                        } else {
                            cur + 1
                        }
                    };
                    self.suggestion_selection = Some(next);
                }
                ModalStep::Stay
            },
            Key::Enter => match self.suggestion_selection {
                Some(i) => ModalStep::Request(
                    ServiceRequest::ResolveExercise(
                        copy_chars(&self.exercise_suggestions[i]),
                        ResolveCause::PickedSuggestion,
                    ),
                ),
                None => ModalStep::Request(
                    ServiceRequest::ResolveExercise(
                        copy_chars(&self.exercise_input),
                        ResolveCause::EnterOnPopup,
                    ),
                ),
            },
            Key::Tab | Key::Esc => {
                self.focused_field = AddWorkoutField::Exercise;
                ModalStep::Stay
            },
            _ => ModalStep::Stay,
        }
    }

    #[verifier::rlimit(50)]
    fn identifier_key(&mut self, key: Key) -> (r: ModalStep)
        requires
            old(self).wf(),
            old(self).focused_field == AddWorkoutField::Exercise,
        ensures
            final(self).wf(),
            identifier_step(*old(self), *final(self), key, r),
    {
        let flags = WorkoutLogFlags::from_def(self.resolved_exercise.as_ref());
        match key {
            Key::Char(_) | Key::Backspace => {
                self.retype(key);
                ModalStep::Stay
            },
            Key::Down => {
                if self.exercise_suggestions.len() > 0 {
                    self.focused_field = AddWorkoutField::Suggestions;
                    self.suggestion_selection = Some(0);
                    ModalStep::Stay
                } else {
                    ModalStep::Request(
                        ServiceRequest::ResolveExercise(
                            copy_chars(&self.exercise_input),
                            ResolveCause::DownFromIdentifier,
                        ),
                    )
                }
            },
            Key::Tab | Key::Enter => {
                if self.resolved_exercise.is_none() && self.exercise_input.len() > 0 {
                    ModalStep::Request(
                        ServiceRequest::ResolveExercise(
                            copy_chars(&self.exercise_input),
                            ResolveCause::TabFromIdentifier,
                        ),
                    )
                } else {
                    self.clear_suggestions();
                    self.focused_field = get_next_focusable_field(
                        AddWorkoutField::Exercise,
                        &flags,
                        NavigationDirection::Forward,
                        true,
                    );
                    ModalStep::Stay
                }
            },
            Key::Up => {
                let target = get_next_focusable_field(
                    AddWorkoutField::Exercise,
                    &flags,
                    NavigationDirection::Backward,
                    true,
                );
                self.leave_for(target)
            },
            Key::Esc => ModalStep::Close,
            _ => ModalStep::Stay,
        }
    }

    #[verifier::rlimit(50)]
    fn measurement_key(&mut self, key: Key) -> (r: ModalStep)
        requires
            old(self).wf(),
            is_buffer_field(old(self).focused_field),
        ensures
            final(self).wf(),
            measurement_step(*old(self), *final(self), old(self).focused_field, key, r),
    {
        let f = self.focused_field;
        let flags = WorkoutLogFlags::from_def(self.resolved_exercise.as_ref());
        self.clear_suggestions();
        match key {
            Key::Enter | Key::Tab => {
                let target = get_next_focusable_field(f, &flags, NavigationDirection::Forward, true);
                self.leave_for(target)
            },
            Key::BackTab => {
                let target = get_next_focusable_field(f, &flags, NavigationDirection::Backward, true);
                self.leave_for(target)
            },
            Key::Esc => ModalStep::Close,
            _ => {
                self.inputs.edit_field(f, key);
                ModalStep::Stay
            },
        }
    }

    #[verifier::rlimit(50)]
    fn confirm_key(&mut self, key: Key) -> (r: ModalStep)
        requires
            old(self).wf(),
            old(self).focused_field == AddWorkoutField::Confirm,
        ensures
            final(self).wf(),
            confirm_step(*old(self), *final(self), key, r),
    {
        let flags = WorkoutLogFlags::from_def(self.resolved_exercise.as_ref());
        self.clear_suggestions();
        match key {
            Key::Enter => match &self.resolved_exercise {
                None => {
                    self.error_message = Some(chars_of("Cannot submit: Exercise not resolved."));
                    self.focused_field = AddWorkoutField::Exercise;
                    ModalStep::Stay
                },
                Some(def) => match collect_measurements(&self.inputs, &flags) {
                    Ok(v) => {
                        let params = AddWorkoutParams {
                            exercise_identifier: copy_chars(&def.name),
                            sets: v.sets,
                            reps: v.reps,
                            weight: v.weight,
                            duration: v.duration,
                            distance: v.distance,
                            notes: read_notes(&self.inputs.notes),
                            use_bodyweight: def.type_ == ExerciseType::BodyWeight,
                        };
                        ModalStep::Request(ServiceRequest::AddWorkout(params))
                    },
                    Err(e) => {
                        self.error_message = Some(e.message());
                        ModalStep::Stay
                    },
                },
            },
            Key::Left | Key::Backspace | Key::BackTab | Key::Up => {
                let target = get_next_focusable_field(
                    AddWorkoutField::Confirm,
                    &flags,
                    NavigationDirection::Backward,
                    true,
                );
                self.leave_for(target)
            },
            Key::Down | Key::Tab | Key::Right => {
                let target = get_next_focusable_field(
                    AddWorkoutField::Confirm,
                    &flags,
                    NavigationDirection::Forward,
                    true,
                );
                self.leave_for(target)
            },
            Key::Esc => ModalStep::Close,
            _ => ModalStep::Stay,
        }
    }

    #[verifier::rlimit(50)]
    fn cancel_key(&mut self, key: Key) -> (r: ModalStep)
        requires
            old(self).wf(),
            old(self).focused_field == AddWorkoutField::Cancel,
        ensures
            final(self).wf(),
            cancel_step(*old(self), *final(self), key, r),
    {
        let flags = WorkoutLogFlags::from_def(self.resolved_exercise.as_ref());
        self.clear_suggestions();
        match key {
            Key::Enter | Key::Esc => ModalStep::Close,
            Key::Right | Key::Tab | Key::Down => {
                let target = get_next_focusable_field(
                    AddWorkoutField::Cancel,
                    &flags,
                    NavigationDirection::Forward,
                    true,
                );
                self.leave_for(target)
            },
            Key::Left | Key::Backspace | Key::BackTab | Key::Up => {
                let target = get_next_focusable_field(
                    AddWorkoutField::Cancel,
                    &flags,
                    NavigationDirection::Backward,
                    true,
                );
                self.leave_for(target)
            },
            _ => ModalStep::Stay,
        }
    }
}

/// Handles one key in the add-workout dialog. The error line is cleared
/// first; what the key then does depends on the focused field (see
/// `add_workout_step`). The dialog's invariant is kept.
#[verifier::rlimit(50)]
pub fn handle_add_workout_modal_input(m: &mut AddWorkoutModal, key: Key) -> (r: ModalStep)
    requires
        old(m).wf(),
    ensures
        add_workout_step(AddWorkoutModal { error_message: None, ..*old(m) }, *final(m), key, r),
        final(m).wf(),
{
    m.error_message = None;
    match m.focused_field {
        AddWorkoutField::Suggestions => m.popup_key(key),
        AddWorkoutField::Exercise => m.identifier_key(key),
        AddWorkoutField::Confirm => m.confirm_key(key),
        AddWorkoutField::Cancel => m.cancel_key(key),
        _ => m.measurement_key(key),
    }
}


/// A message made of a literal, a text, and a literal.
fn quoted(head: &str, text: &Vec<char>, tail: &str) -> (r: Vec<char>)
    ensures
        r@ == head@ + text@ + tail@,
{
    let mut r = lit_then(head, text);
    let t = chars_of(tail);
    append_chars(&mut r, &t);
    r
}

/// Where focus lands after the identifier resolved on the way to `target`:
/// the target, or the next field on where the new policy hides it.
pub open spec fn landing(target: AddWorkoutField, flags: WorkoutLogFlags) -> AddWorkoutField {
    if is_focusable(target, flags, true) {
        target
    } else {
        next_field_spec(target, flags, NavigationDirection::Forward, true)
    }
}

/// The identifier resolved to `def`: the text becomes its canonical name,
/// the suggestions go, and the measurements are seeded afresh unless the
/// same exercise was resolved already.
pub open spec fn accepted(
    m: AddWorkoutModal,
    n: AddWorkoutModal,
    def: ExerciseDefinition,
    last: Option<WorkoutRecord>,
    cfg: DisplayConfig,
) -> bool {
    &&& n.exercise_input@ == def.name@
    &&& n.resolved_exercise == Some(def)
    &&& n.exercise_suggestions@.len() == 0
    &&& n.suggestion_selection is None
    &&& n.all_exercise_identifiers == m.all_exercise_identifiers
    &&& n.error_message == m.error_message
    &&& if m.resolved_exercise matches Some(d0) && same_definition(d0, def) {
        n.inputs == m.inputs
    } else {
        prefilled_for(n.inputs, def, last, cfg) && n.inputs.notes@ == m.inputs.notes@
    }
}

/// The dialog after the service answered a resolution of `text` asked for
/// `cause`.
pub open spec fn resolution_applied(
    m: AddWorkoutModal,
    n: AddWorkoutModal,
    text: Seq<char>,
    cause: ResolveCause,
    res: Resolution,
) -> bool {
    match res {
        Resolution::Found(def, last, cfg) => accepted(m, n, def, last, cfg) && n.focused_field == (
        match cause {
            ResolveCause::LeavingIdentifier(t) => landing(t, flags_of(Some(def))),
            _ => next_field_spec(
                AddWorkoutField::Exercise,
                flags_of(Some(def)),
                NavigationDirection::Forward,
                true,
            ),
        }),
        Resolution::NotFound => match cause {
            ResolveCause::PickedSuggestion => n == (AddWorkoutModal {
                focused_field: AddWorkoutField::Exercise,
                error_message: n.error_message,
                ..m
            }) && error_is(n.error_message, "Could not resolve selected '"@ + text + "'."@),
            ResolveCause::EnterOnPopup => n == with_focus(m, AddWorkoutField::Exercise),
            ResolveCause::DownFromIdentifier => n == (AddWorkoutModal {
                error_message: n.error_message,
                ..m
            }) && error_is(n.error_message, "Exercise '"@ + text + "' not found."@),
            ResolveCause::TabFromIdentifier => n == (AddWorkoutModal {
                error_message: n.error_message,
                ..m
            }) && error_is(n.error_message, "Exercise '"@ + text + "' not found. Cannot move."@),
            ResolveCause::LeavingIdentifier(t) => n == (AddWorkoutModal {
                resolved_exercise: None,
                focused_field: if t == AddWorkoutField::Suggestions {
                    AddWorkoutField::Exercise
                } else {
                    t
                },
                ..m
            }),
        },
        Resolution::Failed(e) => match cause {
            ResolveCause::PickedSuggestion => n == (AddWorkoutModal {
                focused_field: AddWorkoutField::Exercise,
                error_message: n.error_message,
                ..m
            }) && error_is(n.error_message, "Error resolving selected: "@ + e@ + ""@),
            ResolveCause::EnterOnPopup => n == (AddWorkoutModal {
                focused_field: AddWorkoutField::Exercise,
                error_message: n.error_message,
                ..m
            }) && error_is(n.error_message, "Error resolving input: "@ + e@ + ""@),
            ResolveCause::DownFromIdentifier => n == (AddWorkoutModal {
                error_message: n.error_message,
                ..m
            }) && error_is(n.error_message, "Error: "@ + e@ + ""@),
            ResolveCause::TabFromIdentifier => n == (AddWorkoutModal {
                error_message: n.error_message,
                ..m
            }) && error_is(n.error_message, "Error resolving: "@ + e@ + ". Cannot move."@),
            ResolveCause::LeavingIdentifier(t) => n == (AddWorkoutModal {
                resolved_exercise: None,
                focused_field: if t == AddWorkoutField::Suggestions {
                    AddWorkoutField::Exercise
                } else {
                    t
                },
                error_message: n.error_message,
                ..m
            }) && error_is(n.error_message, "Error resolving '"@ + text + "': "@ + e@),
        },
    }
}

impl AddWorkoutModal {
    #[verifier::rlimit(50)]
    fn accept(&mut self, def: ExerciseDefinition, last: Option<WorkoutRecord>, cfg: DisplayConfig)
        ensures
            accepted(*old(self), *final(self), def, last, cfg),
            final(self).focused_field == old(self).focused_field,
    {
        let repopulate = match &self.resolved_exercise {
            Some(d0) => !d0.same_as(&def),
            None => true,
        };
        if repopulate {
            populate_workout_inputs_from_def_and_last_workout(
                &mut self.inputs,
                &def,
                last.as_ref(),
                cfg,
            );
            let flags = WorkoutLogFlags::from_def(Some(&def));
            clear_hidden_inputs(&mut self.inputs, &flags);
        }
        self.exercise_input = copy_chars(&def.name);
        self.resolved_exercise = Some(def);
        self.clear_suggestions();
    }

    /// Takes the service's answer to a resolution this dialog asked for:
    /// the text it sent and why. A found exercise is accepted (canonical
    /// name, fresh measurements, no suggestions) and focus moves on; a
    /// missing one or a failure shows why and, where focus was leaving the
    /// identifier, lets it leave unresolved.
    #[verifier::rlimit(50)]
    pub fn apply_resolution(&mut self, text: &Vec<char>, cause: ResolveCause, res: Resolution)
        requires
            old(self).wf(),
        ensures
            resolution_applied(*old(self), *final(self), text@, cause, res),
            final(self).wf(),
            res is Found ==> final(self).exercise_suggestions@.len() == 0
                && final(self).suggestion_selection is None,
    {
        match res {
            Resolution::Found(def, last, cfg) => {
                let flags = WorkoutLogFlags::from_def(Some(&def));
                let focus = match cause {
                    ResolveCause::LeavingIdentifier(t) => {
                        if crate::focus::focusable(t, &flags, true) {
                            t
                        } else {
                            get_next_focusable_field(t, &flags, NavigationDirection::Forward, true)
                        }
                    },
                    _ => get_next_focusable_field(
                        AddWorkoutField::Exercise,
                        &flags,
                        NavigationDirection::Forward,
                        true,
                    ),
                };
                self.accept(def, last, cfg);
                self.focused_field = focus;
            },
            Resolution::NotFound => match cause {
                ResolveCause::PickedSuggestion => {
                    self.error_message = Some(quoted("Could not resolve selected '", text, "'."));
                    self.focused_field = AddWorkoutField::Exercise;
                },
                ResolveCause::EnterOnPopup => {
                    self.focused_field = AddWorkoutField::Exercise;
                },
                ResolveCause::DownFromIdentifier => {
                    self.error_message = Some(quoted("Exercise '", text, "' not found."));
                },
                ResolveCause::TabFromIdentifier => {
                    self.error_message = Some(
                        quoted("Exercise '", text, "' not found. Cannot move."),
                    );
                },
                ResolveCause::LeavingIdentifier(t) => {
                    self.resolved_exercise = None;
                    self.focused_field = if t == AddWorkoutField::Suggestions {
                        AddWorkoutField::Exercise
                    } else {
                        t
                    };
                },
            },
            Resolution::Failed(e) => match cause {
                ResolveCause::PickedSuggestion => {
                    self.error_message = Some(quoted("Error resolving selected: ", &e, ""));
                    self.focused_field = AddWorkoutField::Exercise;
                },
                ResolveCause::EnterOnPopup => {
                    self.error_message = Some(quoted("Error resolving input: ", &e, ""));
                    self.focused_field = AddWorkoutField::Exercise;
                },
                ResolveCause::DownFromIdentifier => {
                    self.error_message = Some(quoted("Error: ", &e, ""));
                },
                ResolveCause::TabFromIdentifier => {
                    self.error_message = Some(quoted("Error resolving: ", &e, ". Cannot move."));
                },
                ResolveCause::LeavingIdentifier(t) => {
                    let mut msg = quoted("Error resolving '", text, "': ");
                    append_chars(&mut msg, &e);
                    self.error_message = Some(msg);
                    self.resolved_exercise = None;
                    self.focused_field = if t == AddWorkoutField::Suggestions {
                        AddWorkoutField::Exercise
                    } else {
                        t
                    };
                },
            },
        }
    }
}


impl AddWorkoutModal {
    /// A fresh dialog. Where an exercise is preset (the one selected in the
    /// log), its name is typed in and, if it resolved, the measurements are
    /// seeded from its most recent set.
    pub fn new(
        all_exercise_identifiers: Vec<Vec<char>>,
        preset_name: Option<Vec<char>>,
        preset: Option<(ExerciseDefinition, Option<WorkoutRecord>, DisplayConfig)>,
    ) -> (m: AddWorkoutModal)
        ensures
            m.wf(),
            m.focused_field == AddWorkoutField::Exercise,
            m.error_message is None,
            m.exercise_suggestions@.len() == 0,
            m.all_exercise_identifiers == all_exercise_identifiers,
            m.exercise_input@ == match preset_name {
                Some(t) => t@,
                None => Seq::<char>::empty(),
            },
            m.inputs.notes@.len() == 0,
            match preset {
                Some((def, last, cfg)) => m.resolved_exercise == Some(def) && prefilled_for(
                    m.inputs,
                    def,
                    last,
                    cfg,
                ),
                None => m.resolved_exercise is None && m.inputs.sets@ == "1"@
                    && m.inputs.reps@.len() == 0 && m.inputs.weight@.len() == 0
                    && m.inputs.duration@.len() == 0 && m.inputs.distance@.len() == 0,
            },
    {
        let mut inputs = WorkoutInputs {
            sets: chars_of("1"),
            reps: Vec::new(),
            weight: Vec::new(),
            duration: Vec::new(),
            distance: Vec::new(),
            notes: Vec::new(),
        };
        let resolved = match preset {
            Some((def, last, cfg)) => {
                populate_workout_inputs_from_def_and_last_workout(&mut inputs, &def, last.as_ref(), cfg);
                let flags = WorkoutLogFlags::from_def(Some(&def));
                clear_hidden_inputs(&mut inputs, &flags);
                Some(def)
            },
            None => None,
        };
        AddWorkoutModal {
            exercise_input: match preset_name {
                Some(t) => t,
                None => Vec::new(),
            },
            inputs,
            focused_field: AddWorkoutField::Exercise,
            error_message: None,
            all_exercise_identifiers,
            exercise_suggestions: Vec::new(),
            suggestion_selection: None,
            resolved_exercise: resolved,
        }
    }
}

/// The error line after adding a set failed: the service's rendering,
/// prefixed for failures outside storage and configuration.
pub open spec fn add_failure_text(f: ServiceFailure) -> Seq<char> {
    if f.kind == FailureKind::Other {
        "Error adding workout: "@ + f.detail@
    } else {
        f.detail@
    }
}

/// What adding a set failed with, as the dialog reports it.
pub fn add_workout_failure(f: &ServiceFailure) -> (e: AppInputError)
    ensures
        e matches AppInputError::DbError(t) && t@ == add_failure_text(*f),
{
    if f.kind == FailureKind::Other {
        AppInputError::DbError(lit_then("Error adding workout: ", &f.detail))
    } else {
        AppInputError::DbError(copy_chars(&f.detail))
    }
}

/// The edit-workout dialog: the exercise is fixed, the measurements and
/// notes of one logged set are edited.
#[derive(Clone, Debug)]
pub struct EditWorkoutModal {
    pub workout_id: u64,
    /// The exercise's name, shown but not editable.
    pub exercise_name: Vec<char>,
    pub inputs: WorkoutInputs,
    pub focused_field: AddWorkoutField,
    pub error_message: Option<Vec<char>>,
    /// The exercise's definition, which decides the fields shown.
    pub resolved_exercise: Option<ExerciseDefinition>,
}

impl EditWorkoutModal {
    pub open spec fn flags(&self) -> WorkoutLogFlags {
        flags_of(self.resolved_exercise)
    }

    /// Focus is on a field the dialog shows.
    pub open spec fn wf(&self) -> bool {
        is_focusable(self.focused_field, self.flags(), false)
    }
}

/// The parameters an edited set is saved with.
pub open spec fn edit_params_match(p: EditWorkoutParams, m: EditWorkoutModal) -> bool {
    &&& p.id == m.workout_id
    &&& measurements_spec(m.flags(), m.inputs) matches Ok((a, b, c, d, e)) && same_opt_i64(
        p.new_sets,
        a,
    ) && same_opt_i64(p.new_reps, b) && same_opt_u64(p.new_weight, c) && same_opt_i64(
        p.new_duration,
        d,
    ) && same_opt_u64(p.new_distance, e)
    &&& same_opt_text(
        p.new_notes,
        if m.flags().log_notes {
            notes_value(m.inputs.notes@)
        } else {
            None
        },
    )
}

/// The error line an edit submission stops at, if any: an identifier the
/// service cannot take, a missing definition, or the first field that does
/// not read.
pub open spec fn edit_submit_error(m: EditWorkoutModal) -> Option<Seq<char>> {
    if m.workout_id > i64::MAX {
        Some("Invalid number format: "@ + "out of range integral type conversion attempted"@)
    } else if m.resolved_exercise is None {
        Some("Database error: "@ + "Internal error: Exercise context missing for edit."@)
    } else {
        match measurements_spec(m.flags(), m.inputs) {
            Ok(_) => None,
            Err(msg) => Some(msg),
        }
    }
}

/// One key in the edit-workout dialog, after its error line was cleared.
pub open spec fn edit_workout_step(m: EditWorkoutModal, n: EditWorkoutModal, key: Key, r: ModalStep) -> bool {
    let flags = m.flags();
    let f = m.focused_field;
    let fwd = EditWorkoutModal {
        focused_field: next_field_spec(f, flags, NavigationDirection::Forward, false),
        ..m
    };
    let back = EditWorkoutModal {
        focused_field: next_field_spec(f, flags, NavigationDirection::Backward, false),
        ..m
    };
    if key == Key::BackTab {
        n == back && r is Stay
    } else if f == AddWorkoutField::Exercise || f == AddWorkoutField::Suggestions {
        n == fwd && r is Stay
    } else if f == AddWorkoutField::Confirm {
        match key {
            Key::Enter => match edit_submit_error(m) {
                None => n == m && (r matches ModalStep::Request(ServiceRequest::EditWorkout(p))
                    && edit_params_match(p, m)),
                Some(msg) => n == (EditWorkoutModal { error_message: n.error_message, ..m })
                    && error_is(n.error_message, msg) && r is Stay,
            },
            Key::Left | Key::Backspace | Key::Up => n == back && r is Stay,
            Key::Down | Key::Tab | Key::Right => n == fwd && r is Stay,
            Key::Esc => r is Close,
            _ => n == m && r is Stay,
        }
    } else if f == AddWorkoutField::Cancel {
        match key {
            Key::Enter | Key::Esc => r is Close,
            Key::Right | Key::Tab | Key::Down => n == fwd && r is Stay,
            Key::Left | Key::Backspace | Key::Up => n == back && r is Stay,
            _ => n == m && r is Stay,
        }
    } else {
        match key {
            Key::Enter | Key::Tab => n == fwd && r is Stay,
            Key::Esc => r is Close,
            _ => n == (EditWorkoutModal { inputs: n.inputs, ..m }) && inputs_after_key(
                m.inputs,
                n.inputs,
                f,
                key,
            ) && r is Stay,
        }
    }
}

impl EditWorkoutModal {
    /// Opens the dialog on a logged set, its buffers seeded from that set.
    pub fn new(workout: &WorkoutRecord, def: ExerciseDefinition, cfg: DisplayConfig) -> (m: EditWorkoutModal)
        ensures
            m.wf(),
            m.workout_id == workout.id,
            m.exercise_name@ == workout.exercise_name@,
            m.focused_field == AddWorkoutField::Sets,
            m.error_message is None,
            m.resolved_exercise == Some(def),
            prefilled(m.inputs, def, Some(*workout), cfg),
            m.inputs.notes@ == match workout.notes {
                Some(n) => n@,
                None => Seq::<char>::empty(),
            },
    {
        let mut inputs = WorkoutInputs {
            sets: Vec::new(),
            reps: Vec::new(),
            weight: Vec::new(),
            duration: Vec::new(),
            distance: Vec::new(),
            notes: Vec::new(),
        };
        populate_workout_inputs_from_def_and_workout(&mut inputs, &def, workout, cfg);
        EditWorkoutModal {
            workout_id: workout.id,
            exercise_name: copy_chars(&workout.exercise_name),
            inputs,
            focused_field: AddWorkoutField::Sets,
            error_message: None,
            resolved_exercise: Some(def),
        }
    }

    fn submit(&self) -> (r: Result<EditWorkoutParams, AppInputError>)
        ensures
            match edit_submit_error(*self) {
                None => r matches Ok(p) && edit_params_match(p, *self),
                Some(msg) => r matches Err(e) && error_text(e) == msg,
            },
    {
        if self.workout_id > i64::MAX as u64 {
            return Err(
                AppInputError::InvalidNumber(
                    chars_of("out of range integral type conversion attempted"),
                ),
            );
        }
        if self.resolved_exercise.is_none() {
            return Err(
                AppInputError::DbError(chars_of("Internal error: Exercise context missing for edit.")),
            );
        }
        let flags = WorkoutLogFlags::from_def(self.resolved_exercise.as_ref());
        let v = match collect_measurements(&self.inputs, &flags) {
            Ok(v) => v,
            Err(e) => return Err(e),
        };
        let notes = if flags.log_notes {
            read_notes(&self.inputs.notes)
        } else {
            None
        };
        Ok(
            EditWorkoutParams {
                id: self.workout_id,
                new_sets: v.sets,
                new_reps: v.reps,
                new_weight: v.weight,
                new_duration: v.duration,
                new_distance: v.distance,
                new_notes: notes,
            },
        )
    }
}

/// Handles one key in the edit-workout dialog: shift-tab moves back from
/// anywhere; the buffers edit as in the add dialog; Confirm submits, Cancel
/// and Esc close. The error line is cleared first.
#[verifier::rlimit(50)]
pub fn handle_edit_workout_modal_input(m: &mut EditWorkoutModal, key: Key) -> (r: ModalStep)
    requires
        old(m).wf(),
    ensures
        edit_workout_step(EditWorkoutModal { error_message: None, ..*old(m) }, *final(m), key, r),
        final(m).wf(),
{
    m.error_message = None;
    let flags = WorkoutLogFlags::from_def(m.resolved_exercise.as_ref());
    let f = m.focused_field;
    if key == Key::BackTab {
        m.focused_field = get_next_focusable_field(f, &flags, NavigationDirection::Backward, false);
        return ModalStep::Stay;
    }
    let fwd = get_next_focusable_field(f, &flags, NavigationDirection::Forward, false);
    let back = get_next_focusable_field(f, &flags, NavigationDirection::Backward, false);
    match f {
        AddWorkoutField::Exercise | AddWorkoutField::Suggestions => {
            m.focused_field = fwd;
            ModalStep::Stay
        },
        AddWorkoutField::Confirm => match key {
            Key::Enter => match m.submit() {
                Ok(p) => ModalStep::Request(ServiceRequest::EditWorkout(p)),
                Err(e) => {
                    m.error_message = Some(e.message());
                    ModalStep::Stay
                },
            },
            Key::Left | Key::Backspace | Key::Up => {
                m.focused_field = back;
                ModalStep::Stay
            },
            Key::Down | Key::Tab | Key::Right => {
                m.focused_field = fwd;
                ModalStep::Stay
            },
            Key::Esc => ModalStep::Close,
            _ => ModalStep::Stay,
        },
        AddWorkoutField::Cancel => match key {
            Key::Enter | Key::Esc => ModalStep::Close,
            Key::Right | Key::Tab | Key::Down => {
                m.focused_field = fwd;
                ModalStep::Stay
            },
            Key::Left | Key::Backspace | Key::Up => {
                m.focused_field = back;
                ModalStep::Stay
            },
            _ => ModalStep::Stay,
        },
        _ => match key {
            Key::Enter | Key::Tab => {
                m.focused_field = fwd;
                ModalStep::Stay
            },
            Key::Esc => ModalStep::Close,
            _ => {
                m.inputs.edit_field(f, key);
                ModalStep::Stay
            },
        },
    }
}

/// The error line after saving an edited set failed.
pub fn edit_workout_failure(f: &ServiceFailure) -> (e: AppInputError)
    ensures
        e matches AppInputError::DbError(t) && t@ == "Error editing workout: "@ + f.detail@,
{
    AppInputError::DbError(lit_then("Error editing workout: ", &f.detail))
}


/// Rows the workout dialog needs: title and identifier, a row pair for
/// sets/reps, one for weight/duration and one for distance where any of
/// them shows, four for the notes, a spacer, the buttons, an error line
/// where there is an error, and the two borders.
pub open spec fn modal_height(flags: WorkoutLogFlags, has_error: bool) -> int {
    2 + (if flags.log_sets || flags.log_reps {
        2int
    } else {
        0
    }) + (if flags.log_weight || flags.log_duration {
        2int
    } else {
        0
    }) + (if flags.log_distance {
        2int
    } else {
        0
    }) + (if flags.log_notes {
        4int
    } else {
        0
    }) + 2 + (if has_error {
        1int
    } else {
        0
    }) + 2
}

/// The height of the workout dialog for a policy.
pub fn calculate_workout_modal_height(flags: &WorkoutLogFlags, has_error: bool) -> (h: u16)
    ensures
        h as int == modal_height(*flags, has_error),
{
    let mut height: u16 = 0;
    height += 1;
    height += 1;
    if flags.log_sets || flags.log_reps {
        height += 2;
    }
    if flags.log_weight || flags.log_duration {
        height += 2;
    }
    if flags.log_distance {
        height += 2;
    }
    if flags.log_notes {
        height += 1;
        height += 3;
    }
    height += 1;
    height += 1;
    if has_error {
        height += 1;
    }
    height += 2;
    height
}

} // verus!
