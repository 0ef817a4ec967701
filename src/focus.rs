//! Linear focus order of the workout dialogs: the next field in either
//! direction, skipping fields the visibility policy hides.
use vstd::prelude::*;
use crate::fields::{AddWorkoutField, WorkoutLogFlags};

verus! {

/// The way focus moves through the order.
#[derive(Clone, Copy, Debug, PartialEq, Eq, Structural)]
pub enum NavigationDirection {
    Forward,
    Backward,
}

/// Number of positions in the focus order.
pub const FOCUS_ORDER_LEN: usize = 9;

/// Position of a field in the focus order: identifier, sets, reps, weight,
/// duration, distance, notes, confirm, cancel. The popup has no place of its
/// own and counts as the identifier.
pub open spec fn order_pos(f: AddWorkoutField) -> int {
    match f {
        AddWorkoutField::Exercise => 0,
        AddWorkoutField::Suggestions => 0,
        AddWorkoutField::Sets => 1,
        AddWorkoutField::Reps => 2,
        AddWorkoutField::Weight => 3,
        AddWorkoutField::Duration => 4,
        AddWorkoutField::Distance => 5,
        AddWorkoutField::Notes => 6,
        AddWorkoutField::Confirm => 7,
        AddWorkoutField::Cancel => 8,
    }
}

/// The field at a position of the focus order.
pub open spec fn field_at(i: int) -> AddWorkoutField {
    if i == 0 {
        AddWorkoutField::Exercise
    } else if i == 1 {
        AddWorkoutField::Sets
    } else if i == 2 {
        AddWorkoutField::Reps
    } else if i == 3 {
        AddWorkoutField::Weight
    } else if i == 4 {
        AddWorkoutField::Duration
    } else if i == 5 {
        AddWorkoutField::Distance
    } else if i == 6 {
        AddWorkoutField::Notes
    } else if i == 7 {
        AddWorkoutField::Confirm
    } else {
        AddWorkoutField::Cancel
    }
}

/// Whether a field can take focus: the identifier only where the dialog has
/// one, the popup never, an optional field only where the policy shows it.
pub open spec fn is_focusable(f: AddWorkoutField, flags: WorkoutLogFlags, allow_identifier: bool) -> bool {
    match f {
        AddWorkoutField::Exercise => allow_identifier,
        AddWorkoutField::Suggestions => false,
        AddWorkoutField::Sets => flags.log_sets,
        AddWorkoutField::Reps => flags.log_reps,
        AddWorkoutField::Weight => flags.log_weight,
        AddWorkoutField::Duration => flags.log_duration,
        AddWorkoutField::Distance => flags.log_distance,
        AddWorkoutField::Notes => flags.log_notes,
        AddWorkoutField::Confirm => true,
        AddWorkoutField::Cancel => true,
    }
}

/// The position `k` steps away from `p` in a direction, wrapping around.
#[verifier::opaque]
pub open spec fn step(p: int, dir: NavigationDirection, k: int) -> int {
    match dir {
        NavigationDirection::Forward => (p + k) % 9,
        NavigationDirection::Backward => (p - k) % 9,
    }
}

/// The least number of steps, from `k` up to eight, that reaches a focusable
/// field from position `p`; nine where there is none.
pub open spec fn first_offset(
    p: int,
    flags: WorkoutLogFlags,
    dir: NavigationDirection,
    allow_identifier: bool,
    k: int,
) -> int
    decreases 9 - k,
{
    if k >= 9 {
        9
    } else if is_focusable(field_at(step(p, dir, k)), flags, allow_identifier) {
        k
    } else {
        first_offset(p, flags, dir, allow_identifier, k + 1)
    }
}

/// The field that focus moves to: the first focusable one after `cur` in
/// the direction, wrapping around; `cur` itself where no other field can
/// take focus.
pub open spec fn next_field_spec(
    cur: AddWorkoutField,
    flags: WorkoutLogFlags,
    dir: NavigationDirection,
    allow_identifier: bool,
) -> AddWorkoutField {
    let o = first_offset(order_pos(cur), flags, dir, allow_identifier, 1);
    if o < 9 {
        field_at(step(order_pos(cur), dir, o))
    } else {
        cur
    }
}

/// Focus after `n` moves in one direction.
pub open spec fn nav_iter(
    cur: AddWorkoutField,
    flags: WorkoutLogFlags,
    dir: NavigationDirection,
    allow_identifier: bool,
    n: nat,
) -> AddWorkoutField
    decreases n,
{
    if n == 0 {
        cur
    } else {
        next_field_spec(nav_iter(cur, flags, dir, allow_identifier, (n - 1) as nat), flags, dir, allow_identifier)
    }
}

pub open spec fn one_if(b: bool) -> int {
    if b {
        1
    } else {
        0
    }
}

/// Number of fields of the focus order that can take focus.
pub open spec fn visible_count(flags: WorkoutLogFlags, allow_identifier: bool) -> int {
    one_if(allow_identifier) + one_if(flags.log_sets) + one_if(flags.log_reps) + one_if(
        flags.log_weight,
    ) + one_if(flags.log_duration) + one_if(flags.log_distance) + one_if(flags.log_notes) + 2
}

fn field_at_index(i: usize) -> (f: AddWorkoutField)
    requires
        i < 9,
    ensures
        f == field_at(i as int),
{
    if i == 0 {
        AddWorkoutField::Exercise
    } else if i == 1 {
        AddWorkoutField::Sets
    } else if i == 2 {
        AddWorkoutField::Reps
    } else if i == 3 {
        AddWorkoutField::Weight
    } else if i == 4 {
        AddWorkoutField::Duration
    } else if i == 5 {
        AddWorkoutField::Distance
    } else if i == 6 {
        AddWorkoutField::Notes
    } else if i == 7 {
        AddWorkoutField::Confirm
    } else {
        AddWorkoutField::Cancel
    }
}

fn position_of(f: AddWorkoutField) -> (i: usize)
    ensures
        i as int == order_pos(f),
{
    match f {
        AddWorkoutField::Exercise => 0,
        AddWorkoutField::Suggestions => 0,
        AddWorkoutField::Sets => 1,
        AddWorkoutField::Reps => 2,
        AddWorkoutField::Weight => 3,
        AddWorkoutField::Duration => 4,
        AddWorkoutField::Distance => 5,
        AddWorkoutField::Notes => 6,
        AddWorkoutField::Confirm => 7,
        AddWorkoutField::Cancel => 8,
    }
}

/// Whether a field can take focus under a policy.
pub fn focusable(f: AddWorkoutField, flags: &WorkoutLogFlags, allow_identifier: bool) -> (r: bool)
    ensures
        r == is_focusable(f, *flags, allow_identifier),
{
    match f {
        AddWorkoutField::Exercise => allow_identifier,
        AddWorkoutField::Suggestions => false,
        AddWorkoutField::Sets => flags.log_sets,
        AddWorkoutField::Reps => flags.log_reps,
        AddWorkoutField::Weight => flags.log_weight,
        AddWorkoutField::Duration => flags.log_duration,
        AddWorkoutField::Distance => flags.log_distance,
        AddWorkoutField::Notes => flags.log_notes,
        AddWorkoutField::Confirm => true,
        AddWorkoutField::Cancel => true,
    }
}

proof fn lemma_no_offset(
    p: int,
    flags: WorkoutLogFlags,
    dir: NavigationDirection,
    allow_identifier: bool,
    k: int,
    j: int,
)
    requires
        first_offset(p, flags, dir, allow_identifier, k) == 9,
        k <= j < 9,
    ensures
        !is_focusable(field_at(step(p, dir, j)), flags, allow_identifier),
    decreases j - k,
{
    if k < j {
        lemma_no_offset(p, flags, dir, allow_identifier, k + 1, j);
    }
}

proof fn lemma_offset_first(
    p: int,
    flags: WorkoutLogFlags,
    dir: NavigationDirection,
    allow_identifier: bool,
    k: int,
    j: int,
)
    requires
        k <= j < first_offset(p, flags, dir, allow_identifier, k),
        j < 9,
    ensures
        !is_focusable(field_at(step(p, dir, j)), flags, allow_identifier),
    decreases j - k,
{
    if k < j {
        lemma_offset_first(p, flags, dir, allow_identifier, k + 1, j);
    }
}

proof fn lemma_offset_hit(
    p: int,
    flags: WorkoutLogFlags,
    dir: NavigationDirection,
    allow_identifier: bool,
    k: int,
)
    requires
        first_offset(p, flags, dir, allow_identifier, k) < 9,
    ensures
        k <= first_offset(p, flags, dir, allow_identifier, k),
        is_focusable(
            field_at(step(p, dir, first_offset(p, flags, dir, allow_identifier, k))),
            flags,
            allow_identifier,
        ),
    decreases 9 - k,
{
    if k < 9 && !is_focusable(field_at(step(p, dir, k)), flags, allow_identifier) {
        lemma_offset_hit(p, flags, dir, allow_identifier, k + 1);
    }
}

proof fn lemma_offset_range(
    p: int,
    flags: WorkoutLogFlags,
    dir: NavigationDirection,
    allow_identifier: bool,
    k: int,
)
    requires
        k <= 9,
    ensures
        k <= first_offset(p, flags, dir, allow_identifier, k) <= 9,
    decreases 9 - k,
{
    if k < 9 {
        lemma_offset_range(p, flags, dir, allow_identifier, k + 1);
    }
}

/// From any position some other field can take focus: confirm and cancel
/// always can.
proof fn lemma_offset_exists(
    p: int,
    flags: WorkoutLogFlags,
    dir: NavigationDirection,
    allow_identifier: bool,
)
    requires
        0 <= p < 9,
    ensures
        1 <= first_offset(p, flags, dir, allow_identifier, 1) < 9,
{
    reveal(step);
    if first_offset(p, flags, dir, allow_identifier, 1) == 9 {
        let j: int = match dir {
            NavigationDirection::Forward => if p < 7 {
                7 - p
            } else if p == 7 {
                1
            } else {
                8
            },
            NavigationDirection::Backward => if p > 7 {
                p - 7
            } else if p == 7 {
                8
            } else {
                p + 2
            },
        };
        assert(step(p, dir, j) == 7 || step(p, dir, j) == 8);
        lemma_no_offset(p, flags, dir, allow_identifier, 1, j);
    }
    lemma_offset_range(p, flags, dir, allow_identifier, 1);
}

/// Moves focus one field on from `current`, skipping the fields the policy
/// hides and the identifier where `is_add_mode` is false, wrapping around.
pub fn get_next_focusable_field(
    current: AddWorkoutField,
    flags: &WorkoutLogFlags,
    direction: NavigationDirection,
    is_add_mode: bool,
) -> (r: AddWorkoutField)
    ensures
        r == next_field_spec(current, *flags, direction, is_add_mode),
        is_focusable(r, *flags, is_add_mode),
{
    let p = position_of(current);
    proof {
        lemma_offset_exists(p as int, *flags, direction, is_add_mode);
        lemma_offset_hit(p as int, *flags, direction, is_add_mode, 1);
    }
    let mut k: usize = 1;
    while k < FOCUS_ORDER_LEN
        invariant
            1 <= k <= 9,
            p as int == order_pos(current),
            0 <= p < 9,
            first_offset(p as int, *flags, direction, is_add_mode, 1) == first_offset(
                p as int,
                *flags,
                direction,
                is_add_mode,
                k as int,
            ),
        decreases 9 - k,
    {
        let idx: usize = match direction {
            NavigationDirection::Forward => if p + k >= FOCUS_ORDER_LEN {
                p + k - FOCUS_ORDER_LEN
            } else {
                p + k
            },
            NavigationDirection::Backward => if p >= k {
                p - k
            } else {
                p + FOCUS_ORDER_LEN - k
            },
        };
        proof {
            reveal(step);
        }
        assert(idx as int == step(p as int, direction, k as int));
        let f = field_at_index(idx);
        if focusable(f, flags, is_add_mode) {
            return f;
        }
        k = k + 1;
    }
    current
}


/// How many of the positions 1..=m steps away from `p` can take focus.
pub open spec fn reachable_count(
    p: int,
    flags: WorkoutLogFlags,
    dir: NavigationDirection,
    allow_identifier: bool,
    m: int,
) -> int
    decreases m,
{
    if m <= 0 {
        0
    } else {
        reachable_count(p, flags, dir, allow_identifier, m - 1) + one_if(
            is_focusable(field_at(step(p, dir, m)), flags, allow_identifier),
        )
    }
}

proof fn lemma_mod_shift(x: int, b: int)
    ensures
        (x % 9 + b) % 9 == (x + b) % 9,
{
    reveal(step);
    vstd::arithmetic::div_mod::lemma_fundamental_div_mod(x, 9);
    vstd::arithmetic::div_mod::lemma_mod_multiples_vanish(x / 9, x % 9 + b, 9);
}

proof fn lemma_step_compose(p: int, dir: NavigationDirection, a: int, b: int)
    ensures
        step(step(p, dir, a), dir, b) == step(p, dir, a + b),
{
    reveal(step);
    match dir {
        NavigationDirection::Forward => {
            lemma_mod_shift(p + a, b);
        },
        NavigationDirection::Backward => {
            lemma_mod_shift(p - a, -b);
        },
    }
}

proof fn lemma_count_split(
    p: int,
    flags: WorkoutLogFlags,
    dir: NavigationDirection,
    allow_identifier: bool,
    a: int,
    b: int,
)
    requires
        0 <= a,
        0 <= b,
    ensures
        reachable_count(p, flags, dir, allow_identifier, a + b) == reachable_count(
            p,
            flags,
            dir,
            allow_identifier,
            a,
        ) + reachable_count(step(p, dir, a), flags, dir, allow_identifier, b),
    decreases b,
{
    if b > 0 {
        lemma_count_split(p, flags, dir, allow_identifier, a, b - 1);
        lemma_step_compose(p, dir, a, b);
    }
}

proof fn lemma_count_monotone(
    p: int,
    flags: WorkoutLogFlags,
    dir: NavigationDirection,
    allow_identifier: bool,
    a: int,
    b: int,
)
    requires
        0 <= a <= b,
    ensures
        reachable_count(p, flags, dir, allow_identifier, a) <= reachable_count(
            p,
            flags,
            dir,
            allow_identifier,
            b,
        ),
    decreases b - a,
{
    if a < b {
        lemma_count_monotone(p, flags, dir, allow_identifier, a, b - 1);
    }
}

proof fn lemma_count_gap(
    q: int,
    flags: WorkoutLogFlags,
    dir: NavigationDirection,
    allow_identifier: bool,
    m: int,
)
    requires
        0 <= m < first_offset(q, flags, dir, allow_identifier, 1),
        m < 9,
    ensures
        reachable_count(q, flags, dir, allow_identifier, m) == 0,
    decreases m,
{
    if m > 0 {
        lemma_offset_first(q, flags, dir, allow_identifier, 1, m);
        lemma_count_gap(q, flags, dir, allow_identifier, m - 1);
    }
}

#[verifier::rlimit(50)]
proof fn lemma_count_shift(p: int, flags: WorkoutLogFlags, dir: NavigationDirection, allow_identifier: bool)
    ensures
        reachable_count(p, flags, dir, allow_identifier, 9) == reachable_count(
            step(p, dir, 1),
            flags,
            dir,
            allow_identifier,
            9,
        ),
{
    reveal(step);
    let q = step(p, dir, 1);
    lemma_count_split(p, flags, dir, allow_identifier, 1, 8);
    lemma_step_compose(p, dir, 1, 9);
    match dir {
        NavigationDirection::Forward => {
            vstd::arithmetic::div_mod::lemma_mod_multiples_vanish(1, p + 1, 9);
        },
        NavigationDirection::Backward => {
            vstd::arithmetic::div_mod::lemma_mod_multiples_vanish(-1, p - 1, 9);
        },
    }
    assert(step(q, dir, 9) == q);
    assert(reachable_count(p, flags, dir, allow_identifier, 0) == 0);
    assert(reachable_count(p, flags, dir, allow_identifier, 1) == one_if(
        is_focusable(field_at(q), flags, allow_identifier),
    ));
}

proof fn lemma_count_from_origin(
    flags: WorkoutLogFlags,
    dir: NavigationDirection,
    allow_identifier: bool,
    i: int,
)
    requires
        0 <= i,
    ensures
        reachable_count(step(0, dir, i), flags, dir, allow_identifier, 9) == reachable_count(
            0,
            flags,
            dir,
            allow_identifier,
            9,
        ),
    decreases i,
{
    lemma_step_basic(0, dir, 0);
    if i > 0 {
        lemma_count_from_origin(flags, dir, allow_identifier, i - 1);
        lemma_step_compose(0, dir, i - 1, 1);
        lemma_count_shift(step(0, dir, i - 1), flags, dir, allow_identifier);
    }
}

#[verifier::rlimit(50)]
proof fn lemma_count_origin(flags: WorkoutLogFlags, dir: NavigationDirection, allow_identifier: bool)
    ensures
        reachable_count(0, flags, dir, allow_identifier, 9) == visible_count(flags, allow_identifier),
{
    reveal(step);
    assert(reachable_count(0, flags, dir, allow_identifier, 1) == reachable_count(0, flags, dir, allow_identifier, 0) + one_if(is_focusable(field_at(step(0, dir, 1)), flags, allow_identifier)));
    assert(reachable_count(0, flags, dir, allow_identifier, 2) == reachable_count(0, flags, dir, allow_identifier, 1) + one_if(is_focusable(field_at(step(0, dir, 2)), flags, allow_identifier)));
    assert(reachable_count(0, flags, dir, allow_identifier, 3) == reachable_count(0, flags, dir, allow_identifier, 2) + one_if(is_focusable(field_at(step(0, dir, 3)), flags, allow_identifier)));
    assert(reachable_count(0, flags, dir, allow_identifier, 4) == reachable_count(0, flags, dir, allow_identifier, 3) + one_if(is_focusable(field_at(step(0, dir, 4)), flags, allow_identifier)));
    assert(reachable_count(0, flags, dir, allow_identifier, 5) == reachable_count(0, flags, dir, allow_identifier, 4) + one_if(is_focusable(field_at(step(0, dir, 5)), flags, allow_identifier)));
    assert(reachable_count(0, flags, dir, allow_identifier, 6) == reachable_count(0, flags, dir, allow_identifier, 5) + one_if(is_focusable(field_at(step(0, dir, 6)), flags, allow_identifier)));
    assert(reachable_count(0, flags, dir, allow_identifier, 7) == reachable_count(0, flags, dir, allow_identifier, 6) + one_if(is_focusable(field_at(step(0, dir, 7)), flags, allow_identifier)));
    assert(reachable_count(0, flags, dir, allow_identifier, 8) == reachable_count(0, flags, dir, allow_identifier, 7) + one_if(is_focusable(field_at(step(0, dir, 8)), flags, allow_identifier)));
    assert(reachable_count(0, flags, dir, allow_identifier, 9) == reachable_count(0, flags, dir, allow_identifier, 8) + one_if(is_focusable(field_at(step(0, dir, 9)), flags, allow_identifier)));
    match dir {
        NavigationDirection::Forward => {
            assert(reachable_count(0, flags, dir, allow_identifier, 9) == visible_count(flags, allow_identifier));
        },
        NavigationDirection::Backward => {
            assert(reachable_count(0, flags, dir, allow_identifier, 9) == visible_count(flags, allow_identifier));
        },
    }
}

proof fn lemma_count_full(
    p: int,
    flags: WorkoutLogFlags,
    dir: NavigationDirection,
    allow_identifier: bool,
)
    requires
        0 <= p < 9,
    ensures
        reachable_count(p, flags, dir, allow_identifier, 9) == visible_count(flags, allow_identifier),
{
    reveal(step);
    lemma_count_origin(flags, dir, allow_identifier);
    match dir {
        NavigationDirection::Forward => {
            assert(step(0, dir, p) == p);
            lemma_count_from_origin(flags, dir, allow_identifier, p);
        },
        NavigationDirection::Backward => {
            assert(step(0, dir, 9 - p) == p);
            lemma_count_from_origin(flags, dir, allow_identifier, 9 - p);
        },
    }
}

proof fn lemma_step_basic(p: int, dir: NavigationDirection, k: int)
    ensures
        0 <= step(p, dir, k) < 9,
        0 <= p < 9 ==> step(p, dir, 0) == p && step(p, dir, 9) == p,
{
    reveal(step);
}

proof fn lemma_field_pos(i: int)
    requires
        0 <= i < 9,
    ensures
        order_pos(field_at(i)) == i,
{
}

/// One move from `m` steps past a focusable start, short of a full turn,
/// lands `o` more steps on, within the turn, past exactly one more
/// focusable position.
#[verifier::rlimit(50)]
proof fn lemma_move_once(
    start: AddWorkoutField,
    flags: WorkoutLogFlags,
    dir: NavigationDirection,
    allow_identifier: bool,
    m: int,
) -> (o: int)
    requires
        is_focusable(start, flags, allow_identifier),
        0 <= m < 9,
    ensures
        1 <= o,
        m + o <= 9,
        next_field_spec(field_at(step(order_pos(start), dir, m)), flags, dir, allow_identifier)
            == field_at(step(order_pos(start), dir, m + o)),
        reachable_count(step(order_pos(start), dir, m), flags, dir, allow_identifier, o) == 1,
{
    let p = order_pos(start);
    let q = step(p, dir, m);
    lemma_step_basic(p, dir, m);
    lemma_step_basic(p, dir, 0);
    lemma_field_pos(q);
    lemma_offset_exists(q, flags, dir, allow_identifier);
    lemma_offset_hit(q, flags, dir, allow_identifier, 1);
    let o = first_offset(q, flags, dir, allow_identifier, 1);
    if m > 0 {
        lemma_step_compose(p, dir, m, 9 - m);
        assert(field_at(p) == start);
        if o > 9 - m {
            lemma_offset_first(q, flags, dir, allow_identifier, 1, 9 - m);
        }
    }
    lemma_step_compose(p, dir, m, o);
    lemma_count_gap(q, flags, dir, allow_identifier, o - 1);
    assert(reachable_count(q, flags, dir, allow_identifier, o) == reachable_count(
        q,
        flags,
        dir,
        allow_identifier,
        o - 1,
    ) + 1);
    o
}

/// Focus after `j` moves stands `m` steps from the start, and `j` focusable
/// positions lie within those `m` steps.
#[verifier::rlimit(50)]
proof fn lemma_iter_offset(
    start: AddWorkoutField,
    flags: WorkoutLogFlags,
    dir: NavigationDirection,
    allow_identifier: bool,
    j: nat,
) -> (m: int)
    requires
        is_focusable(start, flags, allow_identifier),
        j <= visible_count(flags, allow_identifier),
    ensures
        0 <= m <= 9,
        nav_iter(start, flags, dir, allow_identifier, j) == field_at(step(order_pos(start), dir, m)),
        reachable_count(order_pos(start), flags, dir, allow_identifier, m) == j,
    decreases j,
{
    let p = order_pos(start);
    lemma_step_basic(p, dir, 0);
    if j == 0 {
        assert(field_at(step(p, dir, 0)) == start);
        0
    } else {
        let mj = lemma_iter_offset(start, flags, dir, allow_identifier, (j - 1) as nat);
        lemma_count_full(p, flags, dir, allow_identifier);
        assert(mj < 9);
        let o = lemma_move_once(start, flags, dir, allow_identifier, mj);
        lemma_count_split(p, flags, dir, allow_identifier, mj, o);
        mj + o
    }
}

/// Moving focus as many times as there are fields that can take focus, all
/// in one direction, brings it back to where it started.
#[verifier::rlimit(50)]
pub proof fn lemma_focus_cycle(
    start: AddWorkoutField,
    flags: WorkoutLogFlags,
    dir: NavigationDirection,
    allow_identifier: bool,
)
    requires
        is_focusable(start, flags, allow_identifier),
    ensures
        nav_iter(start, flags, dir, allow_identifier, visible_count(flags, allow_identifier) as nat)
            == start,
{
    let n = visible_count(flags, allow_identifier);
    let p = order_pos(start);
    let m = lemma_iter_offset(start, flags, dir, allow_identifier, n as nat);
    lemma_step_basic(p, dir, 0);
    lemma_count_full(p, flags, dir, allow_identifier);
    if m < 9 {
        lemma_count_monotone(p, flags, dir, allow_identifier, m, 8);
        assert(step(p, dir, 9) == p);
        assert(field_at(p) == start);
        assert(reachable_count(p, flags, dir, allow_identifier, 9) == reachable_count(
            p,
            flags,
            dir,
            allow_identifier,
            8,
        ) + 1);
    }
    assert(step(p, dir, 9) == p);
}

/// Focus never lands on a field the policy hides, nor on the identifier
/// where the dialog has none.
pub proof fn lemma_focus_stays_visible(
    cur: AddWorkoutField,
    flags: WorkoutLogFlags,
    dir: NavigationDirection,
    allow_identifier: bool,
)
    ensures
        is_focusable(next_field_spec(cur, flags, dir, allow_identifier), flags, allow_identifier),
        !allow_identifier ==> next_field_spec(cur, flags, dir, allow_identifier)
            != AddWorkoutField::Exercise,
{
    lemma_offset_exists(order_pos(cur), flags, dir, allow_identifier);
    lemma_offset_hit(order_pos(cur), flags, dir, allow_identifier, 1);
}

} // verus!
