//! Numeric buffers: parsing what was typed, rendering values back, and the
//! arrow-key nudge with a floor.
use vstd::prelude::*;
use crate::errors::AppInputError;
use crate::text_util::{trim_of, trim_chars, copy_chars};

verus! {

pub open spec fn is_digit(c: char) -> bool {
    '0' <= c && c <= '9'
}

pub open spec fn digit_value(c: char) -> int {
    (c as u32) as int - ('0' as u32) as int
}

pub open spec fn all_digits(s: Seq<char>) -> bool {
    forall|i: int| 0 <= i < s.len() ==> is_digit(#[trigger] s[i])
}

/// The number a run of decimal digits spells.
pub open spec fn digits_value(s: Seq<char>) -> int
    decreases s.len(),
{
    if s.len() == 0 {
        0
    } else {
        digits_value(s.drop_last()) * 10 + digit_value(s.last())
    }
}

/// The integer a text spells in `i64`'s own syntax: an optional sign, then
/// one or more digits, within the type's range.
pub open spec fn parse_int_spec(s: Seq<char>) -> Option<int> {
    let signed = s.len() > 0 && (s[0] == '-' || s[0] == '+');
    let neg = s.len() > 0 && s[0] == '-';
    let body = if signed {
        s.drop_first()
    } else {
        s
    };
    if body.len() > 0 && all_digits(body) {
        let v = if neg {
            -digits_value(body)
        } else {
            digits_value(body)
        };
        if i64::MIN <= v <= i64::MAX {
            Some(v)
        } else {
            None
        }
    } else {
        None
    }
}

pub open spec fn digit_char(d: int) -> char {
    if d == 0 {
        '0'
    } else if d == 1 {
        '1'
    } else if d == 2 {
        '2'
    } else if d == 3 {
        '3'
    } else if d == 4 {
        '4'
    } else if d == 5 {
        '5'
    } else if d == 6 {
        '6'
    } else if d == 7 {
        '7'
    } else if d == 8 {
        '8'
    } else {
        '9'
    }
}

/// The decimal digits of a natural number, without leading zeros.
pub open spec fn nat_text(n: nat) -> Seq<char>
    decreases n,
{
    if n < 10 {
        seq![digit_char(n as int)]
    } else {
        nat_text(n / 10).push(digit_char((n % 10) as int))
    }
}

/// An integer as `Display` writes it.
pub open spec fn int_text(v: int) -> Seq<char> {
    if v < 0 {
        seq!['-'] + nat_text((-v) as nat)
    } else {
        nat_text(v as nat)
    }
}

proof fn lemma_digit_char(d: int)
    requires
        0 <= d < 10,
    ensures
        is_digit(digit_char(d)),
        digit_value(digit_char(d)) == d,
{
}

/// The digits of `n` read back give `n`.
pub proof fn lemma_nat_text(n: nat)
    ensures
        nat_text(n).len() >= 1,
        all_digits(nat_text(n)),
        digits_value(nat_text(n)) == n,
    decreases n,
{
    if n < 10 {
        lemma_digit_char(n as int);
        assert(seq![digit_char(n as int)].drop_last() =~= Seq::<char>::empty());
        assert(digits_value(Seq::<char>::empty()) == 0);
    } else {
        lemma_nat_text(n / 10);
        lemma_digit_char((n % 10) as int);
        vstd::arithmetic::div_mod::lemma_fundamental_div_mod(n as int, 10);
        let t = nat_text(n / 10).push(digit_char((n % 10) as int));
        assert(t.drop_last() =~= nat_text(n / 10));
        assert forall|i: int| 0 <= i < t.len() implies is_digit(#[trigger] t[i]) by {
            if i < t.len() - 1 {
                assert(t[i] == nat_text(n / 10)[i]);
            }
        }
    }
}

/// Parsing the rendering of an `i64` gives it back.
pub proof fn lemma_int_text_round_trip(v: int)
    requires
        i64::MIN <= v <= i64::MAX,
    ensures
        parse_int_spec(int_text(v)) == Some(v),
{
    if v < 0 {
        lemma_nat_text((-v) as nat);
        let s = int_text(v);
        assert(s.drop_first() =~= nat_text((-v) as nat));
    } else {
        lemma_nat_text(v as nat);
        let s = nat_text(v as nat);
        assert(is_digit(s[0]));
    }
}

proof fn lemma_digits_prefix(s: Seq<char>, i: int)
    requires
        0 <= i <= s.len(),
        all_digits(s),
    ensures
        0 <= digits_value(s.take(i)) <= digits_value(s),
    decreases s.len() - i,
{
    if i < s.len() {
        lemma_digits_prefix(s, i + 1);
        assert(s.take(i + 1).drop_last() =~= s.take(i));
        assert(is_digit(s[i]));
    } else {
        assert(s.take(i) =~= s);
        lemma_digits_nonneg(s);
    }
}

proof fn lemma_digits_nonneg(s: Seq<char>)
    requires
        all_digits(s),
    ensures
        0 <= digits_value(s),
    decreases s.len(),
{
    if s.len() > 0 {
        assert(all_digits(s.drop_last())) by {
            assert forall|i: int| 0 <= i < s.drop_last().len() implies is_digit(
                #[trigger] s.drop_last()[i],
            ) by {
                assert(s.drop_last()[i] == s[i]);
            }
        }
        lemma_digits_nonneg(s.drop_last());
        assert(is_digit(s[s.len() - 1]));
    }
}

/// The character of a decimal digit.
pub(crate) fn digit_of(d: u64) -> (c: char)
    requires
        d < 10,
    ensures
        c == digit_char(d as int),
{
    if d == 0 {
        '0'
    } else if d == 1 {
        '1'
    } else if d == 2 {
        '2'
    } else if d == 3 {
        '3'
    } else if d == 4 {
        '4'
    } else if d == 5 {
        '5'
    } else if d == 6 {
        '6'
    } else if d == 7 {
        '7'
    } else if d == 8 {
        '8'
    } else {
        '9'
    }
}

/// Appends the digits of `n`.
pub fn push_nat_text(out: &mut Vec<char>, n: u64)
    ensures
        final(out)@ == old(out)@ + nat_text(n as nat),
    decreases n,
{
    if n >= 10 {
        push_nat_text(out, n / 10);
    }
    out.push(digit_of(n % 10));
    proof {
        if n >= 10 {
            assert(old(out)@ + nat_text(n as nat) =~= old(out)@ + nat_text((n / 10) as nat) + seq![
                digit_char((n % 10) as int),
            ]);
        } else {
            assert(old(out)@ + nat_text(n as nat) =~= old(out)@ + seq![digit_char((n % 10) as int)]);
        }
    }
}

/// An integer as `Display` writes it.
pub fn i64_text(v: i64) -> (r: Vec<char>)
    ensures
        r@ == int_text(v as int),
{
    let mut r: Vec<char> = Vec::new();
    if v < 0 {
        r.push('-');
        let m: u64 = if v == i64::MIN {
            9223372036854775808u64
        } else {
            (-v) as u64
        };
        push_nat_text(&mut r, m);
    } else {
        push_nat_text(&mut r, v as u64);
    }
    proof {
        if v >= 0 {
            assert(r@ =~= int_text(v as int));
        } else {
            assert(r@ =~= int_text(v as int));
        }
    }
    r
}

/// Reads an `i64` the way `str::parse` does: an optional sign, then digits.
#[verifier::rlimit(50)]
pub fn parse_i64(s: &Vec<char>) -> (r: Option<i64>)
    ensures
        r matches Some(v) ==> parse_int_spec(s@) == Some(v as int),
        r is None ==> parse_int_spec(s@) is None,
{
    let n = s.len();
    let signed = n > 0 && (s[0] == '-' || s[0] == '+');
    let neg = n > 0 && s[0] == '-';
    let start: usize = if signed {
        1
    } else {
        0
    };
    let ghost body = if signed {
        s@.drop_first()
    } else {
        s@
    };
    proof {
        assert(body =~= s@.subrange(start as int, n as int));
        assert(signed == (s@.len() > 0 && (s@[0] == '-' || s@[0] == '+')));
        assert(neg == (s@.len() > 0 && s@[0] == '-'));
    }
    if start >= n {
        return None;
    }
    let mut acc: u128 = 0;
    let mut i: usize = start;
    while i < n
        invariant
            start <= i <= n,
            n == s@.len(),
            body == s@.subrange(start as int, n as int),
            signed == (s@.len() > 0 && (s@[0] == '-' || s@[0] == '+')),
            neg == (s@.len() > 0 && s@[0] == '-'),
            body == (if signed {
                s@.drop_first()
            } else {
                s@
            }),
            forall|k: int| 0 <= k < i - start ==> is_digit(#[trigger] body[k]),
            acc as int == digits_value(body.take(i - start)),
            acc <= 9223372036854775808u128,
        decreases n - i,
    {
        let c = s[i];
        if !('0' <= c && c <= '9') {
            proof {
                assert(body[i - start] == c);
                assert(!is_digit(body[i - start]));
                assert(!all_digits(body));
            }
            return None;
        }
        let d = (c as u32 - '0' as u32) as u128;
        proof {
            assert(body[i - start] == c);
            assert(body.take(i - start + 1).drop_last() =~= body.take(i - start));
            assert(body.take(i - start + 1).last() == c);
            assert(digit_value(c) == d);
        }
        acc = acc * 10 + d;
        i = i + 1;
        assert(acc as int == digits_value(body.take(i - start)));
        if acc > 9223372036854775808u128 {
            proof {
                assert forall|k: int| 0 <= k < i - start implies is_digit(#[trigger] body.take(i - start)[k]) by {
                    assert(body.take(i - start)[k] == body[k]);
                }
                assert(all_digits(body.take((i - start) as int)));
                // The remaining digits, if they are digits, only make the value larger.
                if all_digits(body) {
                    lemma_digits_prefix(body, (i - start) as int);
                    assert(digits_value(body) > 9223372036854775808);
                }
            }
            return None;
        }
    }
    proof {
        assert(body.take(n - start) =~= body);
        assert(all_digits(body));
    }
    if neg {
        let v: i128 = -(acc as i128);
        if v < i64::MIN as i128 {
            None
        } else {
            Some(v as i64)
        }
    } else {
        if acc > i64::MAX as u128 {
            None
        } else {
            Some(acc as i64)
        }
    }
}


/// What an optional integer field yields once its text is trimmed: nothing
/// for an empty text, else the integer it spells.
pub fn parse_trimmed_int(trimmed: &Vec<char>) -> (r: Result<Option<i64>, AppInputError>)
    ensures
        trimmed@.len() == 0 ==> r == Ok::<Option<i64>, AppInputError>(None),
        trimmed@.len() > 0 ==> match parse_int_spec(trimmed@) {
            Some(v) => r == Ok::<Option<i64>, AppInputError>(Some(v as i64)),
            None => r matches Err(AppInputError::InvalidNumber(d)) && d@ == trimmed@,
        },
{
    if trimmed.len() == 0 {
        Ok(None)
    } else {
        match parse_i64(trimmed) {
            Some(v) => Ok(Some(v)),
            None => Err(AppInputError::InvalidNumber(copy_chars(trimmed))),
        }
    }
}

/// Reads an optional integer field: blank means absent, anything else must
/// spell an `i64` once trimmed.
pub fn parse_optional_int(input: &Vec<char>) -> (r: Result<Option<i64>, AppInputError>)
    ensures
        trim_of(input@).len() == 0 ==> r == Ok::<Option<i64>, AppInputError>(None),
        trim_of(input@).len() > 0 ==> match parse_int_spec(trim_of(input@)) {
            Some(v) => r == Ok::<Option<i64>, AppInputError>(Some(v as i64)),
            None => r matches Err(AppInputError::InvalidNumber(d)) && d@ == trim_of(input@),
        },
{
    let trimmed = trim_chars(input);
    parse_trimmed_int(&trimmed)
}

/// The text a buffer is seeded with for an optional value: the value's
/// rendering, or nothing.
pub fn parse_option_to_input(option: Option<i64>) -> (r: Vec<char>)
    ensures
        r@ == match option {
            Some(v) => int_text(v as int),
            None => Seq::<char>::empty(),
        },
{
    match option {
        Some(v) => i64_text(v),
        None => Vec::new(),
    }
}

/// The value a numeric buffer stands for: what it spells, else zero.
pub open spec fn int_input_value(s: Seq<char>) -> int {
    match parse_int_spec(s) {
        Some(v) => v,
        None => 0,
    }
}

/// `i64` addition that stops at the type's bounds.
pub open spec fn saturating_sum(a: int, b: int) -> int {
    if a + b > i64::MAX {
        i64::MAX as int
    } else if a + b < i64::MIN {
        i64::MIN as int
    } else {
        a + b
    }
}

/// Raises a value to an optional floor.
pub open spec fn floored(v: int, min_val: Option<i64>) -> int {
    match min_val {
        Some(m) => if v < m {
            m as int
        } else {
            v
        },
        None => v,
    }
}

/// The value an integer buffer holds after one nudge.
pub open spec fn nudged_int(s: Seq<char>, delta: int, min_val: Option<i64>) -> int {
    floored(saturating_sum(int_input_value(s), delta), min_val)
}

/// Nudges an integer buffer by `delta`: what it spells (zero if nothing),
/// plus `delta`, raised to `min_val`, written back as digits.
pub fn modify_numeric_input(input: &mut Vec<char>, delta: i64, min_val: Option<i64>)
    ensures
        final(input)@ == int_text(nudged_int(old(input)@, delta as int, min_val)),
{
    let current: i64 = match parse_i64(input) {
        Some(v) => v,
        None => 0,
    };
    let sum: i128 = current as i128 + delta as i128;
    let mut next: i64 = if sum > i64::MAX as i128 {
        i64::MAX
    } else if sum < i64::MIN as i128 {
        i64::MIN
    } else {
        sum as i64
    };
    if let Some(m) = min_val {
        if next < m {
            next = m;
        }
    }
    *input = i64_text(next);
}

/// A nudge by zero settles the buffer: doing it again changes nothing.
pub proof fn lemma_nudge_zero_idempotent(s: Seq<char>, min_val: Option<i64>)
    ensures
        int_text(nudged_int(int_text(nudged_int(s, 0, min_val)), 0, min_val)) == int_text(
            nudged_int(s, 0, min_val),
        ),
{
    let w = nudged_int(s, 0, min_val);
    lemma_int_text_round_trip(w);
}

/// A nudge upwards never lowers the value; a nudge downwards lowers it by
/// the step until the floor is reached, and then holds it at the floor.
pub proof fn lemma_nudge_monotone(s: Seq<char>, delta: int, min_val: Option<i64>)
    requires
        i64::MIN <= delta <= i64::MAX,
    ensures
        delta >= 0 ==> nudged_int(s, delta, min_val) >= int_input_value(s),
        delta <= 0 ==> nudged_int(s, delta, min_val) <= int_input_value(s) || (min_val is Some
            && nudged_int(s, delta, min_val) == min_val->0),
        delta <= 0 && i64::MIN <= int_input_value(s) + delta ==> nudged_int(s, delta, min_val)
            == floored(int_input_value(s) + delta, min_val),
{
    let v = int_input_value(s);
    assert(i64::MIN <= v <= i64::MAX);
}

/// Once a buffer shows the floor, nudging it downwards keeps it there.
pub proof fn lemma_nudge_floor_holds(m: i64, delta: int)
    requires
        i64::MIN <= delta <= 0,
    ensures
        nudged_int(int_text(m as int), delta, Some(m)) == m,
        int_text(nudged_int(int_text(m as int), delta, Some(m))) == int_text(m as int),
{
    lemma_int_text_round_trip(m as int);
}


/// Index of the first `.` of a text, or its length where it has none.
pub open spec fn dot_pos(s: Seq<char>) -> int
    decreases s.len(),
{
    if s.len() == 0 {
        0
    } else if s[0] == '.' {
        0
    } else {
        1 + dot_pos(s.drop_first())
    }
}

/// The first three digits after the point, padded with zeros: the
/// thousandths a fraction contributes. Further digits are dropped.
pub open spec fn frac_thousandths(b: Seq<char>) -> int {
    digits_value((b + seq!['0', '0', '0']).take(3))
}

/// Largest magnitude, in thousandths, that a decimal text may spell.
pub open spec fn decimal_limit() -> int {
    u64::MAX as int
}

/// A decimal text in thousandths: an optional sign, digits, and at most one
/// point with digits after it, at least one digit in all; digits past the
/// third decimal are dropped.
pub open spec fn parse_decimal_spec(s: Seq<char>) -> Option<int> {
    let signed = s.len() > 0 && (s[0] == '-' || s[0] == '+');
    let neg = s.len() > 0 && s[0] == '-';
    let body = if signed {
        s.drop_first()
    } else {
        s
    };
    let d = dot_pos(body);
    let a = body.take(d);
    let b = if d < body.len() {
        body.skip(d + 1)
    } else {
        Seq::<char>::empty()
    };
    if all_digits(a) && all_digits(b) && a.len() + b.len() >= 1 {
        let mag = digits_value(a) * 1000 + frac_thousandths(b);
        if mag <= decimal_limit() {
            Some(
                if neg {
                    -mag
                } else {
                    mag
                },
            )
        } else {
            None
        }
    } else {
        None
    }
}

/// A decimal text spells at most the limit, either way.
pub proof fn lemma_decimal_bounds(s: Seq<char>)
    ensures
        parse_decimal_spec(s) matches Some(v) ==> -decimal_limit() <= v <= decimal_limit(),
{
    let signed = s.len() > 0 && (s[0] == '-' || s[0] == '+');
    let body = if signed {
        s.drop_first()
    } else {
        s
    };
    let d = dot_pos(body);
    let a = body.take(d);
    let b = if d < body.len() {
        body.skip(d + 1)
    } else {
        Seq::<char>::empty()
    };
    if all_digits(a) && all_digits(b) {
        lemma_digits_nonneg(a);
        lemma_frac_range(b);
    }
}

proof fn lemma_dot_pos(s: Seq<char>, i: int)
    requires
        0 <= i <= s.len(),
        forall|k: int| 0 <= k < i ==> s[k] != '.',
        i == s.len() || s[i] == '.',
    ensures
        dot_pos(s) == i,
    decreases s.len(),
{
    if s.len() > 0 && s[0] != '.' {
        assert forall|k: int| 0 <= k < i - 1 implies s.drop_first()[k] != '.' by {
            assert(s.drop_first()[k] == s[k + 1]);
        }
        lemma_dot_pos(s.drop_first(), i - 1);
    }
}

proof fn lemma_digits_take_prefix(s: Seq<char>, i: int)
    requires
        0 <= i < s.len(),
        is_digit(s[i]),
    ensures
        digits_value(s.take(i + 1)) == digits_value(s.take(i)) * 10 + digit_value(s[i]),
{
    assert(s.take(i + 1).drop_last() =~= s.take(i));
}

/// Reads a run of digits from `lo` up to `hi` into a value, giving up once
/// it passes `cap`.
fn read_digits(s: &Vec<char>, lo: usize, hi: usize, cap: u128) -> (r: Option<u128>)
    requires
        lo <= hi <= s@.len(),
        cap <= u64::MAX,
    ensures
        match r {
            Some(v) => all_digits(s@.subrange(lo as int, hi as int)) && v as int == digits_value(
                s@.subrange(lo as int, hi as int),
            ) && v <= cap,
            None => !all_digits(s@.subrange(lo as int, hi as int)) || digits_value(
                s@.subrange(lo as int, hi as int),
            ) > cap,
        },
{
    let ghost t = s@.subrange(lo as int, hi as int);
    let mut acc: u128 = 0;
    let mut i: usize = lo;
    while i < hi
        invariant
            lo <= i <= hi,
            hi <= s@.len(),
            cap <= u64::MAX,
            t == s@.subrange(lo as int, hi as int),
            forall|k: int| 0 <= k < i - lo ==> is_digit(#[trigger] t[k]),
            acc as int == digits_value(t.take(i - lo)),
            acc <= cap,
        decreases hi - i,
    {
        let c = s[i];
        proof {
            assert(t[i - lo] == c);
        }
        if !('0' <= c && c <= '9') {
            return None;
        }
        let d = (c as u32 - '0' as u32) as u128;
        proof {
            lemma_digits_take_prefix(t, i - lo);
        }
        acc = acc * 10 + d;
        i = i + 1;
        if acc > cap {
            proof {
                if all_digits(t) {
                    lemma_digits_prefix(t, (i - lo) as int);
                }
            }
            return None;
        }
    }
    proof {
        assert(t.take(hi - lo) =~= t);
    }
    Some(acc)
}

/// Reads a decimal text into signed thousandths.
#[verifier::rlimit(50)]
pub fn parse_decimal(s: &Vec<char>) -> (r: Option<i128>)
    ensures
        r matches Some(v) ==> parse_decimal_spec(s@) == Some(v as int),
        r is None ==> parse_decimal_spec(s@) is None,
        r matches Some(v) ==> -18446744073709551615 <= v <= 18446744073709551615,
{
    let n = s.len();
    let signed = n > 0 && (s[0] == '-' || s[0] == '+');
    let neg = n > 0 && s[0] == '-';
    let start: usize = if signed {
        1
    } else {
        0
    };
    let ghost body = if signed {
        s@.drop_first()
    } else {
        s@
    };
    proof {
        assert(body =~= s@.subrange(start as int, n as int));
    }
    let mut dot: usize = start;
    while dot < n && s[dot] != '.'
        invariant
            start <= dot <= n,
            n == s@.len(),
            body == s@.subrange(start as int, n as int),
            forall|k: int| 0 <= k < dot - start ==> body[k] != '.',
        decreases n - dot,
    {
        proof {
            assert(body[dot - start] == s@[dot as int]);
        }
        dot = dot + 1;
    }
    proof {
        if dot < n {
            assert(body[dot - start] == s@[dot as int]);
        }
        lemma_dot_pos(body, dot - start);
    }
    let ghost d = dot - start;
    let ghost a = body.take(d);
    let ghost b = if d < body.len() {
        body.skip(d + 1)
    } else {
        Seq::<char>::empty()
    };
    proof {
        assert(a =~= s@.subrange(start as int, dot as int));
    }
    let int_part = match read_digits(s, start, dot, 18446744073709551u128) {
        Some(v) => v,
        None => {
            proof {
                if all_digits(a) && all_digits(b) {
                    lemma_digits_nonneg(b.take(0));
                    lemma_frac_range(b);
                }
            }
            return None;
        },
    };
    let frac_lo: usize = if dot < n {
        dot + 1
    } else {
        n
    };
    proof {
        assert(b =~= s@.subrange(frac_lo as int, n as int));
    }
    let frac_all_digits = read_digits_check(s, frac_lo, n);
    if !frac_all_digits {
        return None;
    }
    if dot - start == 0 && n - frac_lo == 0 {
        return None;
    }
    let frac = read_thousandths(s, frac_lo, n);
    let mag: u128 = int_part * 1000 + frac;
    if mag > u64::MAX as u128 {
        return None;
    }
    if neg {
        Some(-(mag as i128))
    } else {
        Some(mag as i128)
    }
}

proof fn lemma_frac_range(b: Seq<char>)
    requires
        all_digits(b),
    ensures
        0 <= frac_thousandths(b) < 1000,
{
    let t = (b + seq!['0', '0', '0']).take(3);
    assert(all_digits(t)) by {
        assert forall|i: int| 0 <= i < 3 implies is_digit(#[trigger] t[i]) by {
            if i < b.len() {
                assert(t[i] == b[i]);
            }
        }
    }
    lemma_digits_take_prefix(t, 0);
    lemma_digits_take_prefix(t, 1);
    lemma_digits_take_prefix(t, 2);
    assert(t.take(3) =~= t);
    assert(t.take(0) =~= Seq::<char>::empty());
}

/// Whether the characters from `lo` up to `hi` are all digits.
fn read_digits_check(s: &Vec<char>, lo: usize, hi: usize) -> (r: bool)
    requires
        lo <= hi <= s@.len(),
    ensures
        r == all_digits(s@.subrange(lo as int, hi as int)),
{
    let ghost t = s@.subrange(lo as int, hi as int);
    let mut i: usize = lo;
    while i < hi
        invariant
            lo <= i <= hi,
            hi <= s@.len(),
            t == s@.subrange(lo as int, hi as int),
            forall|k: int| 0 <= k < i - lo ==> is_digit(#[trigger] t[k]),
        decreases hi - i,
    {
        let c = s[i];
        proof {
            assert(t[i - lo] == c);
        }
        if !('0' <= c && c <= '9') {
            return false;
        }
        i = i + 1;
    }
    true
}

/// The thousandths spelled by the first three digits from `lo`.
fn read_thousandths(s: &Vec<char>, lo: usize, hi: usize) -> (r: u128)
    requires
        lo <= hi <= s@.len(),
        all_digits(s@.subrange(lo as int, hi as int)),
    ensures
        r as int == frac_thousandths(s@.subrange(lo as int, hi as int)),
        r < 1000,
{
    let ghost b = s@.subrange(lo as int, hi as int);
    let ghost t = (b + seq!['0', '0', '0']).take(3);
    let mut acc: u128 = 0;
    let mut k: usize = 0;
    while k < 3
        invariant
            k <= 3,
            lo <= hi <= s@.len(),
            b == s@.subrange(lo as int, hi as int),
            t == (b + seq!['0', '0', '0']).take(3),
            all_digits(b),
            acc as int == digits_value(t.take(k as int)),
            acc < 1000,
            acc < (if k == 0 { 1int } else if k == 1 { 10int } else if k == 2 { 100int } else { 1000int }),
        decreases 3 - k,
    {
        let c: char = if k < hi - lo {
            s[lo + k]
        } else {
            '0'
        };
        proof {
            assert(t[k as int] == c);
            assert(is_digit(c));
            lemma_digits_take_prefix(t, k as int);
        }
        acc = acc * 10 + (c as u32 - '0' as u32) as u128;
        k = k + 1;
    }
    proof {
        assert(t.take(3) =~= t);
    }
    acc
}


/// What an optional decimal field yields once its text is trimmed: nothing
/// for an empty text, else a quantity in thousandths that must not be
/// negative.
pub fn parse_trimmed_decimal(trimmed: &Vec<char>) -> (r: Result<Option<u64>, AppInputError>)
    ensures
        trimmed@.len() == 0 ==> r == Ok::<Option<u64>, AppInputError>(None),
        trimmed@.len() > 0 ==> match parse_decimal_spec(trimmed@) {
            Some(v) => if v >= 0 {
                r == Ok::<Option<u64>, AppInputError>(Some(v as u64))
            } else {
                r matches Err(AppInputError::InvalidNumber(d)) && d@ == "Value cannot be negative"@
            },
            None => r matches Err(AppInputError::InvalidNumber(d)) && d@ == trimmed@,
        },
{
    if trimmed.len() == 0 {
        return Ok(None);
    }
    match parse_decimal(trimmed) {
        Some(v) => if v >= 0 {
            Ok(Some(v as u64))
        } else {
            Err(AppInputError::InvalidNumber(crate::text_util::chars_of("Value cannot be negative")))
        },
        None => Err(AppInputError::InvalidNumber(copy_chars(trimmed))),
    }
}

/// Reads an optional decimal field (a weight or a distance) in
/// thousandths: blank means absent, a negative value is refused.
pub fn parse_optional_float(input: &Vec<char>) -> (r: Result<Option<u64>, AppInputError>)
    ensures
        trim_of(input@).len() == 0 ==> r == Ok::<Option<u64>, AppInputError>(None),
        trim_of(input@).len() > 0 ==> match parse_decimal_spec(trim_of(input@)) {
            Some(v) => if v >= 0 {
                r == Ok::<Option<u64>, AppInputError>(Some(v as u64))
            } else {
                r matches Err(AppInputError::InvalidNumber(d)) && d@ == "Value cannot be negative"@
            },
            None => r matches Err(AppInputError::InvalidNumber(d)) && d@ == trim_of(input@),
        },
{
    let trimmed = trim_chars(input);
    parse_trimmed_decimal(&trimmed)
}

/// What a required weight field yields once trimmed: a strictly positive
/// quantity in thousandths.
pub fn parse_trimmed_weight(trimmed: &Vec<char>) -> (r: Result<u64, AppInputError>)
    ensures
        trimmed@.len() == 0 ==> r matches Err(AppInputError::InputEmpty),
        trimmed@.len() > 0 ==> match parse_decimal_spec(trimmed@) {
            Some(v) => if v > 0 {
                r == Ok::<u64, AppInputError>(v as u64)
            } else {
                r matches Err(AppInputError::InvalidNumber(d)) && d@ == "Weight must be positive"@
            },
            None => r matches Err(AppInputError::InvalidNumber(d)) && d@ == "invalid float literal"@,
        },
{
    if trimmed.len() == 0 {
        return Err(AppInputError::InputEmpty);
    }
    match parse_decimal(trimmed) {
        Some(v) => if v > 0 {
            Ok(v as u64)
        } else {
            Err(AppInputError::InvalidNumber(crate::text_util::chars_of("Weight must be positive")))
        },
        None => Err(AppInputError::InvalidNumber(crate::text_util::chars_of("invalid float literal"))),
    }
}

/// Reads a required weight field: it must be filled in and strictly
/// positive.
pub fn parse_modal_weight(input: &Vec<char>) -> (r: Result<u64, AppInputError>)
    ensures
        trim_of(input@).len() == 0 ==> r matches Err(AppInputError::InputEmpty),
        trim_of(input@).len() > 0 ==> match parse_decimal_spec(trim_of(input@)) {
            Some(v) => if v > 0 {
                r == Ok::<u64, AppInputError>(v as u64)
            } else {
                r matches Err(AppInputError::InvalidNumber(d)) && d@ == "Weight must be positive"@
            },
            None => r matches Err(AppInputError::InvalidNumber(d)) && d@ == "invalid float literal"@,
        },
{
    let trimmed = trim_chars(input);
    parse_trimmed_weight(&trimmed)
}

/// Ten to the power `p`, for `p` up to three.
pub open spec fn pow10(p: int) -> int {
    if p <= 0 {
        1
    } else if p == 1 {
        10
    } else if p == 2 {
        100
    } else {
        1000
    }
}

/// The last `k` digits of `r`, with leading zeros.
pub open spec fn padded_digits(r: nat, k: nat) -> Seq<char>
    decreases k,
{
    if k == 0 {
        Seq::<char>::empty()
    } else {
        padded_digits(r / 10, (k - 1) as nat).push(digit_char((r % 10) as int))
    }
}

/// A quantity in thousandths rounded to `p` decimals, half away from zero.
pub open spec fn rounded_units(v: int, p: int) -> int {
    let mag = if v < 0 {
        -v
    } else {
        v
    };
    let unit = pow10(3 - p);
    (mag + unit / 2) / unit
}

/// A quantity in thousandths written with `p` decimals (one to three),
/// rounded half away from zero.
pub open spec fn fixed_text(v: int, p: int) -> Seq<char> {
    let q = rounded_units(v, p);
    let sign = if v < 0 && q > 0 {
        seq!['-']
    } else {
        Seq::<char>::empty()
    };
    sign + nat_text((q / pow10(p)) as nat) + seq!['.'] + padded_digits((q % pow10(p)) as nat, p as nat)
}

/// How many decimals a step shows: as many as it has, and at least one.
pub open spec fn step_decimals(delta: int) -> int {
    if delta % 100 == 0 {
        1
    } else if delta % 10 == 0 {
        2
    } else {
        3
    }
}

fn push_padded(out: &mut Vec<char>, r: u64, k: u64)
    ensures
        final(out)@ == old(out)@ + padded_digits(r as nat, k as nat),
    decreases k,
{
    if k > 0 {
        push_padded(out, r / 10, k - 1);
        out.push(digit_of(r % 10));
        proof {
            assert(old(out)@ + padded_digits(r as nat, k as nat) =~= old(out)@ + padded_digits(
                (r / 10) as nat,
                (k - 1) as nat,
            ) + seq![digit_char((r % 10) as int)]);
        }
    } else {
        proof {
            assert(old(out)@ + padded_digits(r as nat, k as nat) =~= old(out)@);
        }
    }
}

/// A quantity in thousandths, with its sign apart, written with `p`
/// decimals.
#[verifier::rlimit(50)]
fn signed_fixed_text(neg: bool, mag: u64, p: u64) -> (r: Vec<char>)
    requires
        1 <= p <= 3,
    ensures
        r@ == fixed_text(
            if neg {
                -(mag as int)
            } else {
                mag as int
            },
            p as int,
        ),
{
    let unit: u128 = if p == 1 {
        100
    } else if p == 2 {
        10
    } else {
        1
    };
    let scale: u128 = if p == 1 {
        10
    } else if p == 2 {
        100
    } else {
        1000
    };
    let q: u128 = (mag as u128 + unit / 2) / unit;
    assert(q <= mag || mag == 0) by {
        if mag > 0 {
            assert((mag as int + unit / 2) / (unit as int) <= mag) by (nonlinear_arith)
                requires
                    mag >= 1,
                    unit >= 1,
                    unit / 2 < unit,
            ;
        }
    }
    let mut r: Vec<char> = Vec::new();
    if neg && mag > 0 && q > 0 {
        r.push('-');
    }
    push_nat_text(&mut r, (q / scale) as u64);
    r.push('.');
    push_padded(&mut r, (q % scale) as u64, p);
    proof {
        assert(r@ =~= fixed_text(
            if neg {
                -(mag as int)
            } else {
                mag as int
            },
            p as int,
        ));
    }
    r
}

/// A quantity in thousandths written with `p` decimals.
pub fn fixed_to_text(v: i64, p: u64) -> (r: Vec<char>)
    requires
        1 <= p <= 3,
    ensures
        r@ == fixed_text(v as int, p as int),
{
    let mag: u64 = if v == i64::MIN {
        9223372036854775808u64
    } else if v < 0 {
        (-v) as u64
    } else {
        v as u64
    };
    signed_fixed_text(v < 0, mag, p)
}

/// A non-negative quantity in thousandths written with `p` decimals.
pub fn quantity_text(v: u64, p: u64) -> (r: Vec<char>)
    requires
        1 <= p <= 3,
    ensures
        r@ == fixed_text(v as int, p as int),
{
    signed_fixed_text(false, v, p)
}

/// The value a decimal buffer stands for, in thousandths: what it spells,
/// else zero.
pub open spec fn decimal_input_value(s: Seq<char>) -> int {
    match parse_decimal_spec(s) {
        Some(v) => v,
        None => 0,
    }
}

/// The value, in thousandths, a decimal buffer holds after one nudge, before
/// it is rounded for display.
pub open spec fn nudged_decimal(s: Seq<char>, delta: int, min_val: Option<i64>) -> int {
    floored(saturating_sum(decimal_input_value(s), delta), min_val)
}

/// Nudges a decimal buffer by `delta` thousandths: what it spells (zero if
/// nothing), plus `delta`, raised to `min_val`, written back with as many
/// decimals as the step has, and at least one.
pub fn modify_decimal_input(input: &mut Vec<char>, delta: i64, min_val: Option<i64>)
    ensures
        final(input)@ == fixed_text(
            nudged_decimal(old(input)@, delta as int, min_val),
            step_decimals(delta as int),
        ),
{
    let current: i128 = match parse_decimal(input) {
        Some(v) => v,
        None => 0,
    };
    let next = nudge_target(current, delta, min_val);
    let p = step_precision(delta);
    *input = fixed_to_text(next, p);
}

fn nudge_target(current: i128, delta: i64, min_val: Option<i64>) -> (r: i64)
    requires
        -18446744073709551615 <= current <= 18446744073709551615,
    ensures
        r as int == floored(saturating_sum(current as int, delta as int), min_val),
{
    let sum: i128 = current + delta as i128;
    let mut next: i64 = if sum > i64::MAX as i128 {
        i64::MAX
    } else if sum < i64::MIN as i128 {
        i64::MIN
    } else {
        sum as i64
    };
    if let Some(m) = min_val {
        if next < m {
            next = m;
        }
    }
    next
}

fn step_precision(delta: i64) -> (p: u64)
    ensures
        p as int == step_decimals(delta as int),
        1 <= p <= 3,
{
    if delta % 100 == 0 {
        1
    } else if delta % 10 == 0 {
        2
    } else {
        3
    }
}


/// A quantity of thousandths shown to one decimal reads back as the
/// rounded quantity.
#[verifier::rlimit(50)]
pub proof fn lemma_fixed_one_round_trip(v: int)
    requires
        0 <= v <= 9223372036854775808,
    ensures
        parse_decimal_spec(fixed_text(v, 1)) == Some(rounded_units(v, 1) * 100),
{
    let q = rounded_units(v, 1);
    assert(q == (v + 50) / 100);
    assert(q >= 0) by (nonlinear_arith)
        requires
            q == (v + 50) / 100,
            v >= 0,
    ;
    let hi = (q / 10) as nat;
    let lo = (q % 10) as nat;
    let a = nat_text(hi);
    lemma_nat_text(hi);
    let d = digit_char(lo as int);
    lemma_digit_char(lo as int);
    assert(padded_digits(lo, 1) =~= seq![d]) by {
        assert(padded_digits(lo / 10, 0) =~= Seq::<char>::empty());
    }
    let t = fixed_text(v, 1);
    assert(t =~= a + seq!['.'] + seq![d]);
    assert(is_digit(t[0]));
    assert forall|k: int| 0 <= k < a.len() implies t[k] != '.' by {
        assert(t[k] == a[k]);
        assert(is_digit(a[k]));
    }
    lemma_dot_pos(t, a.len() as int);
    assert(t.take(a.len() as int) =~= a);
    assert(t.skip(a.len() as int + 1) =~= seq![d]);
    let b = seq![d];
    let padded = (b + seq!['0', '0', '0']).take(3);
    assert(padded =~= seq![d, '0', '0']);
    assert(padded.drop_last() =~= seq![d, '0']);
    assert(seq![d, '0'].drop_last() =~= seq![d]);
    assert(seq![d].drop_last() =~= Seq::<char>::empty());
    assert(digits_value(Seq::<char>::empty()) == 0);
    assert(digits_value(seq![d]) == lo);
    assert(digits_value(seq![d, '0']) == lo * 10);
    assert(frac_thousandths(b) == lo * 100);
    assert(all_digits(b));
    vstd::arithmetic::div_mod::lemma_fundamental_div_mod(q, 10);
    assert(hi * 1000 + lo * 100 == q * 100);
    assert(q * 100 <= v + 50) by (nonlinear_arith)
        requires
            q == (v + 50) / 100,
            v >= 0,
    ;
}

/// A minus sign before a decimal text that starts with a digit negates
/// what it reads as.
proof fn lemma_decimal_negated(t: Seq<char>)
    requires
        t.len() > 0,
        is_digit(t[0]),
    ensures
        parse_decimal_spec(seq!['-'] + t) == match parse_decimal_spec(t) {
            Some(x) => Some(-x),
            None => None::<int>,
        },
{
    let s = seq!['-'] + t;
    assert(s.drop_first() =~= t);
    lemma_decimal_bounds(t);
    let d = dot_pos(t);
    let a = t.take(d);
    let b = if d < t.len() {
        t.skip(d + 1)
    } else {
        Seq::<char>::empty()
    };
    if all_digits(a) && all_digits(b) {
        lemma_digits_nonneg(a);
        lemma_frac_range(b);
    }
}

/// A quantity of thousandths of either sign shown to one decimal reads
/// back as the quantity rounded half away from zero.
pub proof fn lemma_fixed_one_round_trip_signed(v: int)
    requires
        i64::MIN <= v <= i64::MAX,
    ensures
        parse_decimal_spec(fixed_text(v, 1)) == Some(
            if v < 0 {
                -(rounded_units(v, 1) * 100)
            } else {
                rounded_units(v, 1) * 100
            },
        ),
{
    if v >= 0 {
        lemma_fixed_one_round_trip(v);
    } else {
        let q = rounded_units(v, 1);
        assert(rounded_units(-v, 1) == q);
        lemma_fixed_one_round_trip(-v);
        let core = fixed_text(-v, 1);
        lemma_nat_text((q / 10) as nat);
        assert(core[0] == nat_text((q / 10) as nat)[0]);
        if q > 0 {
            assert(fixed_text(v, 1) =~= seq!['-'] + core);
            lemma_decimal_negated(core);
        } else {
            assert(fixed_text(v, 1) =~= core);
        }
    }
}

/// A quantity in thousandths rounded to tenths, half away from zero, and
/// given back in thousandths.
pub open spec fn rounded_signed(v: int) -> int {
    if v < 0 {
        -(rounded_units(v, 1) * 100)
    } else {
        rounded_units(v, 1) * 100
    }
}

proof fn lemma_rounded_range(v: int)
    requires
        -9223372036854775808 <= v <= 9223372036854775808,
    ensures
        0 <= rounded_units(v, 1),
        rounded_units(v, 1) * 100 <= 9223372036854775800,
        v >= 0 ==> rounded_units(v, 1) * 100 <= v + 50,
        v < 0 ==> rounded_units(v, 1) * 100 <= -v + 50,
{
    let mag: int = if v < 0 {
        -v
    } else {
        v
    };
    let q = rounded_units(v, 1);
    assert(q == (mag + 50) / 100);
    assert(0 <= q && q * 100 <= 9223372036854775800 && q * 100 <= mag + 50) by (nonlinear_arith)
        requires
            q == (mag + 50) / 100,
            0 <= mag <= 9223372036854775808,
    ;
}

/// Rounding to tenths keeps the order.
proof fn lemma_rounded_monotone(a: int, b: int)
    requires
        -9223372036854775808 <= a <= b <= 9223372036854775808,
    ensures
        rounded_signed(a) <= rounded_signed(b),
{
    lemma_rounded_range(a);
    lemma_rounded_range(b);
    if a >= 0 {
        vstd::arithmetic::div_mod::lemma_div_is_ordered(a + 50, b + 50, 100);
        assert(rounded_units(a, 1) <= rounded_units(b, 1));
        assert(rounded_units(a, 1) * 100 <= rounded_units(b, 1) * 100) by (nonlinear_arith)
            requires
                rounded_units(a, 1) <= rounded_units(b, 1),
        ;
    } else if b < 0 {
        vstd::arithmetic::div_mod::lemma_div_is_ordered(-b + 50, -a + 50, 100);
        assert(rounded_units(b, 1) <= rounded_units(a, 1));
        assert(rounded_units(b, 1) * 100 <= rounded_units(a, 1) * 100) by (nonlinear_arith)
            requires
                rounded_units(b, 1) <= rounded_units(a, 1),
        ;
    }
}

/// Rounding an already rounded quantity changes nothing.
proof fn lemma_rounded_idempotent(v: int)
    requires
        -9223372036854775808 <= v <= 9223372036854775808,
    ensures
        rounded_signed(rounded_signed(v)) == rounded_signed(v),
        fixed_text(rounded_signed(v), 1) == fixed_text(v, 1),
{
    lemma_rounded_range(v);
    let q = rounded_units(v, 1);
    assert((q * 100 + 50) / 100 == q) by (nonlinear_arith)
        requires
            q >= 0,
    ;
    assert(rounded_units(rounded_signed(v), 1) == q);
}

/// The one-decimal text of a quantity depends on its rounding alone.
proof fn lemma_text_by_rounding(a: int, b: int)
    requires
        rounded_signed(a) == rounded_signed(b),
        -9223372036854775808 <= a <= 9223372036854775808,
        -9223372036854775808 <= b <= 9223372036854775808,
    ensures
        fixed_text(a, 1) == fixed_text(b, 1),
{
    lemma_rounded_range(a);
    lemma_rounded_range(b);
    assert(rounded_units(a, 1) == rounded_units(b, 1));
}

/// A zero nudge of a decimal buffer settles it: doing it again changes
/// nothing, whatever the floor.
pub proof fn lemma_decimal_nudge_zero_idempotent(s: Seq<char>, min_val: Option<i64>)
    ensures
        fixed_text(
            nudged_decimal(fixed_text(nudged_decimal(s, 0, min_val), step_decimals(0)), 0, min_val),
            step_decimals(0),
        ) == fixed_text(nudged_decimal(s, 0, min_val), step_decimals(0)),
{
    assert(step_decimals(0) == 1);
    let w = nudged_decimal(s, 0, min_val);
    assert(i64::MIN <= w <= i64::MAX);
    lemma_fixed_one_round_trip_signed(w);
    lemma_rounded_range(w);
    lemma_rounded_idempotent(w);
    let r = rounded_signed(w);
    let t1 = fixed_text(w, 1);
    assert(decimal_input_value(t1) == r);
    let w2 = nudged_decimal(t1, 0, min_val);
    match min_val {
        None => {
            assert(w2 == r);
        },
        Some(m) => {
            assert(m <= w);
            if r < m {
                assert(w2 == m);
                lemma_rounded_monotone(m as int, w);
                lemma_rounded_monotone(r, m as int);
                lemma_text_by_rounding(m as int, w);
            } else {
                assert(w2 == r);
            }
        },
    }
}

/// A decimal nudge upwards never lowers the value; one downwards lowers it
/// by the step until the floor is reached, and then holds it at the floor.
pub proof fn lemma_decimal_nudge_monotone(s: Seq<char>, delta: int, min_val: Option<i64>)
    requires
        i64::MIN <= delta <= i64::MAX,
    ensures
        delta >= 0 && decimal_input_value(s) <= i64::MAX ==> nudged_decimal(s, delta, min_val)
            >= decimal_input_value(s),
        delta <= 0 && i64::MIN <= decimal_input_value(s) + delta && decimal_input_value(s)
            <= i64::MAX ==> nudged_decimal(
            s,
            delta,
            min_val,
        ) == floored(decimal_input_value(s) + delta, min_val),
{
}

/// Once a decimal buffer shows a floor that is a whole number of tenths,
/// nudging it downwards keeps it there.
pub proof fn lemma_decimal_nudge_floor_holds(m: i64, delta: int)
    requires
        m >= 0,
        m % 100 == 0,
        i64::MIN <= delta <= 0,
    ensures
        nudged_decimal(fixed_text(m as int, 1), delta, Some(m)) == m,
{
    lemma_fixed_one_round_trip(m as int);
    assert((m + 50) / 100 * 100 == m) by (nonlinear_arith)
        requires
            m >= 0,
            m % 100 == 0,
    ;
}

} // verus!
