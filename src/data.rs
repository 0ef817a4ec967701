//! Fitting freshly fetched lists into the tab state: the day's exercises,
//! the sets of the selected one, and the selections over them.
use vstd::prelude::*;
use crate::events::WorkoutRecord;
use crate::identifiers::{text_le, lemma_text_le_refl, lemma_text_le_total};
use crate::modal::App;
use crate::suggest::views;
use crate::text_util::{copy_chars, same_chars};

verus! {

/// A logged set as plain values.
pub open spec fn record_view(w: WorkoutRecord) -> (
    u64,
    Seq<char>,
    Option<i64>,
    Option<i64>,
    Option<u64>,
    Option<i64>,
    Option<u64>,
    Option<Seq<char>>,
) {
    (
        w.id,
        w.exercise_name@,
        w.sets,
        w.reps,
        w.weight,
        w.duration_minutes,
        w.distance,
        match w.notes {
            Some(n) => Some(n@),
            None => None,
        },
    )
}

pub open spec fn record_views(ws: Seq<WorkoutRecord>) -> Seq<(
    u64,
    Seq<char>,
    Option<i64>,
    Option<i64>,
    Option<u64>,
    Option<i64>,
    Option<u64>,
    Option<Seq<char>>,
)> {
    Seq::new(ws.len(), |i: int| record_view(ws[i]))
}

/// The sets among the first `n` whose exercise is `name`, in order.
pub open spec fn sets_named(ws: Seq<WorkoutRecord>, name: Seq<char>, n: int) -> Seq<(
    u64,
    Seq<char>,
    Option<i64>,
    Option<i64>,
    Option<u64>,
    Option<i64>,
    Option<u64>,
    Option<Seq<char>>,
)>
    decreases n,
{
    if n <= 0 {
        Seq::empty()
    } else if ws[n - 1].exercise_name@ == name {
        sets_named(ws, name, n - 1).push(record_view(ws[n - 1]))
    } else {
        sets_named(ws, name, n - 1)
    }
}

/// Strict order of texts.
pub open spec fn text_lt(a: Seq<char>, b: Seq<char>) -> bool {
    text_le(a, b) && a != b
}

/// Strictly increasing, hence free of repeats.
pub open spec fn strictly_sorted(s: Seq<Seq<char>>) -> bool {
    forall|i: int| 0 <= i < s.len() - 1 ==> text_lt(#[trigger] s[i], s[i + 1])
}

/// The selection after its list was reloaded with `len` rows: past the
/// end it moves to the last row (none for an empty list); none becomes the
/// first row where there is one; otherwise it stays.
pub open spec fn reloaded_selection(sel: Option<usize>, len: nat) -> Option<usize> {
    let cur: int = match sel {
        Some(i) => i as int,
        None => 0,
    };
    if cur >= len {
        if len == 0 {
            None
        } else {
            Some((len - 1) as usize)
        }
    } else if sel is None && len > 0 {
        Some(0usize)
    } else {
        sel
    }
}

/// Repairs a selection after its list was reloaded.
pub fn reload_selection(sel: Option<usize>, len: usize) -> (r: Option<usize>)
    ensures
        r == reloaded_selection(sel, len as nat),
{
    let cur: usize = match sel {
        Some(i) => i,
        None => 0,
    };
    if cur >= len {
        if len == 0 {
            None
        } else {
            Some(len - 1)
        }
    } else if sel.is_none() && len > 0 {
        Some(0)
    } else {
        sel
    }
}

/// A copy of a logged set.
pub fn copy_record(w: &WorkoutRecord) -> (r: WorkoutRecord)
    ensures
        record_view(r) == record_view(*w),
{
    WorkoutRecord {
        id: w.id,
        exercise_name: copy_chars(&w.exercise_name),
        sets: w.sets,
        reps: w.reps,
        weight: w.weight,
        duration_minutes: w.duration_minutes,
        distance: w.distance,
        notes: match &w.notes {
            Some(n) => Some(copy_chars(n)),
            None => None,
        },
    }
}

/// The sets of one exercise among a day's sets, in order.
pub fn sets_of_exercise(all: &Vec<WorkoutRecord>, name: &Vec<char>) -> (r: Vec<WorkoutRecord>)
    ensures
        record_views(r@) == sets_named(all@, name@, all@.len() as int),
{
    let mut out: Vec<WorkoutRecord> = Vec::new();
    let mut i: usize = 0;
    proof {
        assert(record_views(out@) =~= Seq::empty());
    }
    while i < all.len()
        invariant
            i <= all@.len(),
            record_views(out@) == sets_named(all@, name@, i as int),
        decreases all@.len() - i,
    {
        if same_chars(&all[i].exercise_name, name) {
            let ghost before = record_views(out@);
            let copy = copy_record(&all[i]);
            out.push(copy);
            proof {
                assert(record_views(out@) =~= before.push(record_view(all@[i as int])));
            }
        }
        i = i + 1;
    }
    out
}

/// What a sequence holds after an insertion: the new element and the old
/// ones.
pub proof fn lemma_insert_contains(before: Seq<Seq<char>>, p: int, x: Seq<char>, y: Seq<char>)
    requires
        0 <= p <= before.len(),
    ensures
        before.insert(p, x).contains(y) <==> (y == x || before.contains(y)),
{
    let now = before.insert(p, x);
    if now.contains(y) {
        let k = choose|k: int| 0 <= k < now.len() && now[k] == y;
        if k < p {
            assert(before[k] == y);
        } else if k > p {
            assert(before[k - 1] == y);
        }
    }
    if y == x {
        assert(now[p] == y);
    }
    if before.contains(y) {
        let k = choose|k: int| 0 <= k < before.len() && before[k] == y;
        if k < p {
            assert(now[k] == y);
        } else {
            assert(now[k + 1] == y);
        }
    }
}

/// Inserts `x` into a strictly sorted list unless it is there already.
#[verifier::rlimit(40)]
fn insert_unique(out: &mut Vec<Vec<char>>, x: &Vec<char>)
    requires
        strictly_sorted(views(old(out)@)),
    ensures
        strictly_sorted(views(final(out)@)),
        forall|y: Seq<char>| views(final(out)@).contains(y) <==> (y == x@ || views(old(out)@).contains(y)),
{
    let mut p = out.len();
    while p > 0 && !crate::identifiers::text_le_exec(&out[p - 1], x)
        invariant
            p <= out@.len(),
            *out == *old(out),
            p < out@.len() ==> !text_le(out@[p as int]@, x@),
        decreases p,
    {
        p = p - 1;
    }
    let ghost before = views(out@);
    if p > 0 && same_chars(&out[p - 1], x) {
        proof {
            assert(before[p - 1] == x@);
        }
        return;
    }
    let copy = copy_chars(x);
    out.insert(p, copy);
    proof {
        let now = views(out@);
        assert(now =~= before.insert(p as int, x@));
        if p < before.len() {
            lemma_text_le_total(before[p as int], x@);
            assert(old(out)@[p as int]@ == before[p as int]);
            if before[p as int] == x@ {
                lemma_text_le_refl(x@);
            }
        }
        if p > 0 {
            assert(old(out)@[p - 1]@ == before[p - 1]);
        }
        assert forall|i: int| 0 <= i < now.len() - 1 implies text_lt(#[trigger] now[i], now[i + 1]) by {
            if i + 1 < p {
                assert(now[i] == before[i] && now[i + 1] == before[i + 1]);
            } else if i + 1 == p {
                assert(now[i] == before[i] && now[i + 1] == x@);
            } else if i == p {
                assert(now[i] == x@ && now[i + 1] == before[i]);
            } else {
                assert(now[i] == before[i - 1] && now[i + 1] == before[i]);
            }
        }
        assert forall|y: Seq<char>| now.contains(y) <==> (y == x@ || before.contains(y)) by {
            lemma_insert_contains(before, p as int, x@, y);
        }
    }
}

/// The exercises of a day's sets, each once, in text order.
#[verifier::rlimit(50)]
pub fn exercise_names_of(workouts: &Vec<WorkoutRecord>) -> (r: Vec<Vec<char>>)
    ensures
        strictly_sorted(views(r@)),
        forall|y: Seq<char>| views(r@).contains(y) <==> exists|i: int| 0 <= i < workouts@.len() && (
        #[trigger] workouts@[i]).exercise_name@ == y,
{
    let mut out: Vec<Vec<char>> = Vec::new();
    let mut i: usize = 0;
    proof {
        assert(views(out@) =~= Seq::<Seq<char>>::empty());
    }
    while i < workouts.len()
        invariant
            i <= workouts@.len(),
            strictly_sorted(views(out@)),
            forall|y: Seq<char>| views(out@).contains(y) <==> exists|k: int| 0 <= k < i && (
            #[trigger] workouts@[k]).exercise_name@ == y,
        decreases workouts@.len() - i,
    {
        let ghost before = views(out@);
        insert_unique(&mut out, &workouts[i].exercise_name);
        proof {
            assert forall|y: Seq<char>| views(out@).contains(y) <==> exists|k: int| 0 <= k < i + 1 && (
            #[trigger] workouts@[k]).exercise_name@ == y by {
                if y == workouts@[i as int].exercise_name@ {
                    assert(0 <= i < i + 1 && workouts@[i as int].exercise_name@ == y);
                }
                if exists|k: int| 0 <= k < i + 1 && (#[trigger] workouts@[k]).exercise_name@ == y {
                    let k = choose|k: int| 0 <= k < i + 1 && (#[trigger] workouts@[k]).exercise_name@ == y;
                    if k < i {
                        assert(before.contains(y));
                    }
                }
            }
        }
        i = i + 1;
    }
    out
}

impl App {
    /// Shows the sets of the exercise selected in the log, out of all the
    /// sets of the viewed day, and repairs the set selection; with no
    /// exercise selected the list empties.
    #[verifier::rlimit(50)]
    pub fn update_log_sets_for_selected_exercise(&mut self, all_workouts_for_date: &Vec<WorkoutRecord>)
        ensures
            match old(self).log_exercise_selection {
                Some(i) => if i < old(self).log_exercises_today@.len() {
                    record_views(final(self).log_sets_for_selected_exercise@) == sets_named(
                        all_workouts_for_date@,
                        old(self).log_exercises_today@[i as int]@,
                        all_workouts_for_date@.len() as int,
                    ) && final(self).log_set_selection == reloaded_selection(
                        old(self).log_set_selection,
                        final(self).log_sets_for_selected_exercise@.len(),
                    )
                } else {
                    final(self).log_sets_for_selected_exercise@.len() == 0
                        && final(self).log_set_selection is None
                },
                None => final(self).log_sets_for_selected_exercise@.len() == 0
                    && final(self).log_set_selection is None,
            },
            final(self).active_modal == old(self).active_modal,
            final(self).log_exercises_today == old(self).log_exercises_today,
            final(self).log_exercise_selection == old(self).log_exercise_selection,
    {
        if let Some(i) = self.log_exercise_selection {
            if i < self.log_exercises_today.len() {
                let sets = sets_of_exercise(all_workouts_for_date, &self.log_exercises_today[i]);
                self.log_set_selection = reload_selection(self.log_set_selection, sets.len());
                self.log_sets_for_selected_exercise = sets;
                return;
            }
        }
        self.log_sets_for_selected_exercise = Vec::new();
        self.log_set_selection = None;
    }

    /// Takes a freshly fetched day of sets: the day's exercises, each once
    /// and in order, with their selection kept within the list, then the
    /// sets of the selected one.
    #[verifier::rlimit(50)]
    pub fn apply_log_workouts(&mut self, workouts: &Vec<WorkoutRecord>)
        ensures
            strictly_sorted(views(final(self).log_exercises_today@)),
            forall|y: Seq<char>| views(final(self).log_exercises_today@).contains(y) <==> exists|i: int|
                0 <= i < workouts@.len() && (#[trigger] workouts@[i]).exercise_name@ == y,
            final(self).log_exercise_selection == (if (match old(self).log_exercise_selection {
                Some(i) => i as int,
                None => 0,
            }) >= final(self).log_exercises_today@.len() {
                if final(self).log_exercises_today@.len() == 0 {
                    None
                } else {
                    Some((final(self).log_exercises_today@.len() - 1) as usize)
                }
            } else {
                old(self).log_exercise_selection
            }),
            final(self).active_modal == old(self).active_modal,
    {
        let names = exercise_names_of(workouts);
        let cur: usize = match self.log_exercise_selection {
            Some(i) => i,
            None => 0,
        };
        if cur >= names.len() {
            self.log_exercise_selection = if names.len() == 0 {
                None
            } else {
                Some(names.len() - 1)
            };
        }
        self.log_exercises_today = names;
        self.update_log_sets_for_selected_exercise(workouts);
    }

    /// Takes freshly fetched bodyweight entries (their identifiers, newest
    /// first) and the target, and repairs the selection.
    pub fn apply_bodyweight_entries(&mut self, ids: Vec<u64>, target: Option<u64>)
        ensures
            final(self).bw_history_ids == ids,
            final(self).bw_target == target,
            final(self).bw_history_selection == reloaded_selection(old(self).bw_history_selection, ids@.len()),
            final(self).active_modal == old(self).active_modal,
    {
        self.bw_history_selection = reload_selection(self.bw_history_selection, ids.len());
        self.bw_history_ids = ids;
        self.bw_target = target;
    }
}


/// Pounds in thousandths for kilograms in thousandths.
pub open spec fn pounds_of(kg: int) -> int {
    kg * 220462 / 100000
}

/// The parts of a set's history line: reps, weight, minutes, distance and
/// notes, each where present, in the user's units.
pub open spec fn set_line_parts(w: WorkoutRecord, effective_weight: Option<u64>, imperial: bool) -> Seq<Seq<char>> {
    let reps = match w.reps {
        Some(r) => seq![crate::numeric::int_text(r as int) + " reps"@],
        None => Seq::empty(),
    };
    let weight = match effective_weight {
        Some(kg) => seq![
            if imperial {
                crate::numeric::fixed_text(pounds_of(kg as int), 1) + " lbs"@
            } else {
                crate::numeric::fixed_text(kg as int, 1) + " kg"@
            },
        ],
        None => Seq::empty(),
    };
    let minutes = match w.duration_minutes {
        Some(d) => seq![crate::numeric::int_text(d as int) + " min"@],
        None => Seq::empty(),
    };
    let distance = match w.distance {
        Some(km) => seq![
            if imperial {
                crate::numeric::fixed_text(crate::workout_modal::miles_of(km as int), 1) + " mi"@
            } else {
                crate::numeric::fixed_text(km as int, 1) + " km"@
            },
        ],
        None => Seq::empty(),
    };
    let notes = match w.notes {
        Some(n) => if crate::text_util::trim_of(n@).len() > 0 {
            seq!["("@ + crate::text_util::trim_of(n@) + ")"@]
        } else {
            Seq::empty()
        },
        None => Seq::empty(),
    };
    reps + weight + minutes + distance + notes
}

/// Texts joined by a separator.
pub open spec fn joined(parts: Seq<Seq<char>>, sep: Seq<char>) -> Seq<char>
    decreases parts.len(),
{
    if parts.len() == 0 {
        Seq::empty()
    } else if parts.len() == 1 {
        parts[0]
    } else {
        joined(parts.drop_last(), sep) + sep + parts.last()
    }
}

fn join_parts(parts: &Vec<Vec<char>>, sep: &Vec<char>) -> (r: Vec<char>)
    ensures
        r@ == joined(views(parts@), sep@),
{
    let mut r: Vec<char> = Vec::new();
    let mut i: usize = 0;
    proof {
        assert(views(parts@).take(0) =~= Seq::<Seq<char>>::empty());
    }
    while i < parts.len()
        invariant
            i <= parts@.len(),
            r@ == joined(views(parts@).take(i as int), sep@),
        decreases parts@.len() - i,
    {
        if i > 0 {
            crate::text_util::append_chars(&mut r, sep);
        }
        crate::text_util::append_chars(&mut r, &parts[i]);
        proof {
            let t = views(parts@).take(i + 1);
            assert(t.drop_last() =~= views(parts@).take(i as int));
            assert(t.last() == parts@[i as int]@);
            if i == 0 {
                assert(r@ =~= parts@[0]@);
            }
        }
        i = i + 1;
    }
    proof {
        assert(views(parts@).take(parts@.len() as int) =~= views(parts@));
    }
    r
}

/// A quantity in thousandths, possibly past `u64`, written to one decimal.
fn tenths_text(v: u128) -> (r: Vec<char>)
    requires
        v <= 0x4_0000_0000_0000_0000u128,
    ensures
        r@ == crate::numeric::fixed_text(v as int, 1),
{
    let q: u128 = (v + 50) / 100;
    let mut r: Vec<char> = Vec::new();
    crate::numeric::push_nat_text(&mut r, (q / 10) as u64);
    r.push('.');
    let d = crate::numeric::digit_of((q % 10) as u64);
    r.push(d);
    proof {
        assert(crate::numeric::padded_digits((q % 10) as nat, 1) =~= seq![
            crate::numeric::digit_char((q % 10) as int),
        ]) by {
            assert(crate::numeric::padded_digits(((q % 10) / 10) as nat, 0) =~= Seq::<char>::empty());
        }
        assert(r@ =~= crate::numeric::fixed_text(v as int, 1));
    }
    r
}

fn push_part(parts: &mut Vec<Vec<char>>, head: Vec<char>, tail: &str)
    ensures
        views(final(parts)@) == views(old(parts)@).push(head@ + tail@),
{
    let mut t = head;
    let s = crate::text_util::chars_of(tail);
    crate::text_util::append_chars(&mut t, &s);
    parts.push(t);
    proof {
        assert(views(parts@) =~= views(old(parts)@).push(t@));
    }
}

/// One set as a line of the history: its present measurements in the
/// user's units and its notes, joined by " x ". `effective_weight` is the
/// weight the set counts as (thousandths of a kilogram).
pub fn format_set_line(w: &WorkoutRecord, effective_weight: Option<u64>, imperial: bool) -> (r: Vec<char>)
    ensures
        r@ == joined(set_line_parts(*w, effective_weight, imperial), " x "@),
{
    let mut parts: Vec<Vec<char>> = Vec::new();
    let ghost reps = match w.reps {
        Some(r) => seq![crate::numeric::int_text(r as int) + " reps"@],
        None => Seq::<Seq<char>>::empty(),
    };
    proof {
        assert(views(parts@) =~= Seq::<Seq<char>>::empty());
    }
    if let Some(r) = w.reps {
        push_part(&mut parts, crate::numeric::i64_text(r), " reps");
    }
    proof {
        assert(views(parts@) =~= reps);
    }
    let ghost after_reps = views(parts@);
    let ghost weight = match effective_weight {
        Some(kg) => seq![
            if imperial {
                crate::numeric::fixed_text(pounds_of(kg as int), 1) + " lbs"@
            } else {
                crate::numeric::fixed_text(kg as int, 1) + " kg"@
            },
        ],
        None => Seq::<Seq<char>>::empty(),
    };
    if let Some(kg) = effective_weight {
        if imperial {
            let lbs: u128 = (kg as u128 * 220462) / 100000;
            assert(lbs <= kg * 3) by {
                assert((kg as int * 220462) / 100000 <= kg * 3) by (nonlinear_arith)
                    requires
                        kg >= 0,
                ;
            }
            push_part(&mut parts, tenths_text(lbs), " lbs");
        } else {
            push_part(&mut parts, crate::numeric::quantity_text(kg, 1), " kg");
        }
    }
    let ghost after_weight = views(parts@);
    proof {
        assert(after_weight =~= reps + weight);
    }
    let ghost minutes = match w.duration_minutes {
        Some(d) => seq![crate::numeric::int_text(d as int) + " min"@],
        None => Seq::<Seq<char>>::empty(),
    };
    if let Some(d) = w.duration_minutes {
        push_part(&mut parts, crate::numeric::i64_text(d), " min");
    }
    let ghost after_minutes = views(parts@);
    proof {
        assert(after_minutes =~= reps + weight + minutes);
    }
    let ghost distance = match w.distance {
        Some(km) => seq![
            if imperial {
                crate::numeric::fixed_text(crate::workout_modal::miles_of(km as int), 1) + " mi"@
            } else {
                crate::numeric::fixed_text(km as int, 1) + " km"@
            },
        ],
        None => Seq::<Seq<char>>::empty(),
    };
    if let Some(km) = w.distance {
        if imperial {
            let mi: u64 = ((km as u128 * 621371) / 1000000) as u64;
            assert(mi <= km) by {
                assert((km as int * 621371) / 1000000 <= km) by (nonlinear_arith)
                    requires
                        km >= 0,
                ;
            }
            push_part(&mut parts, crate::numeric::quantity_text(mi, 1), " mi");
        } else {
            push_part(&mut parts, crate::numeric::quantity_text(km, 1), " km");
        }
    }
    let ghost after_distance = views(parts@);
    proof {
        assert(after_distance =~= reps + weight + minutes + distance);
    }
    if let Some(n) = &w.notes {
        let t = crate::text_util::trim_chars(n);
        if t.len() > 0 {
            let mut part = crate::text_util::chars_of("(");
            crate::text_util::append_chars(&mut part, &t);
            push_part(&mut parts, part, ")");
            proof {
                assert(views(parts@) =~= after_distance + seq!["("@ + crate::text_util::trim_of(n@) + ")"@]);
            }
        }
    }
    proof {
        assert(views(parts@) =~= set_line_parts(*w, effective_weight, imperial));
    }
    let sep = crate::text_util::chars_of(" x ");
    join_parts(&parts, &sep)
}

} // verus!
