//! The list autocompletion draws on: exercise names and aliases together,
//! sorted by their lowercase form, with identifiers that differ only in
//! ASCII case kept once.
use vstd::prelude::*;
use crate::suggest::views;
use crate::text_util::{copy_chars, lower_of, lowercase_chars};

verus! {

/// Lexicographic order of texts by code point, as `String`'s order.
pub open spec fn text_le(a: Seq<char>, b: Seq<char>) -> bool
    decreases a.len(),
{
    if a.len() == 0 {
        true
    } else if b.len() == 0 {
        false
    } else if a[0] != b[0] {
        a[0] < b[0]
    } else {
        text_le(a.drop_first(), b.drop_first())
    }
}

pub open spec fn is_ascii_upper(c: char) -> bool {
    'A' <= c && c <= 'Z'
}

/// Two characters equal up to ASCII case.
pub open spec fn char_eq_ignore_case(x: char, y: char) -> bool {
    x == y || (is_ascii_upper(x) && (y as u32) == (x as u32) + 32) || (is_ascii_upper(y) && (x as u32)
        == (y as u32) + 32)
}

/// Two texts equal up to ASCII case, as `str::eq_ignore_ascii_case`.
pub open spec fn eq_ignore_case(a: Seq<char>, b: Seq<char>) -> bool {
    a.len() == b.len() && forall|i: int| 0 <= i < a.len() ==> char_eq_ignore_case(#[trigger] a[i], b[i])
}

/// Sorted by lowercase form.
pub open spec fn sorted_by_fold(s: Seq<Seq<char>>) -> bool {
    forall|i: int| 0 <= i < s.len() - 1 ==> text_le(lower_of(#[trigger] s[i]), lower_of(s[i + 1]))
}

/// No two neighbours equal up to ASCII case.
pub open spec fn no_case_twins(s: Seq<Seq<char>>) -> bool {
    forall|i: int| 0 <= i < s.len() - 1 ==> !eq_ignore_case(#[trigger] s[i], s[i + 1])
}

/// Some element of `s` equals `x` up to ASCII case.
pub open spec fn has_case_twin(s: Seq<Seq<char>>, x: Seq<char>) -> bool {
    exists|k: int| 0 <= k < s.len() && eq_ignore_case(x, #[trigger] s[k])
}

pub proof fn lemma_text_le_total(a: Seq<char>, b: Seq<char>)
    ensures
        text_le(a, b) || text_le(b, a),
    decreases a.len(),
{
    if a.len() > 0 && b.len() > 0 {
        if a[0] == b[0] {
            lemma_text_le_total(a.drop_first(), b.drop_first());
        }
    }
}

pub proof fn lemma_text_le_refl(a: Seq<char>)
    ensures
        text_le(a, a),
    decreases a.len(),
{
    if a.len() > 0 {
        lemma_text_le_refl(a.drop_first());
    }
}

pub proof fn lemma_text_le_trans(a: Seq<char>, b: Seq<char>, c: Seq<char>)
    requires
        text_le(a, b),
        text_le(b, c),
    ensures
        text_le(a, c),
    decreases a.len(),
{
    if a.len() > 0 && b.len() > 0 && c.len() > 0 && a[0] == b[0] && b[0] == c[0] {
        lemma_text_le_trans(a.drop_first(), b.drop_first(), c.drop_first());
    }
}

proof fn lemma_eq_ignore_case_refl(a: Seq<char>)
    ensures
        eq_ignore_case(a, a),
{
}

/// Whether `a` sorts before or equal to `b`.
pub(crate) fn text_le_exec(a: &Vec<char>, b: &Vec<char>) -> (r: bool)
    ensures
        r == text_le(a@, b@),
{
    let mut i: usize = 0;
    proof {
        assert(a@.skip(0) =~= a@);
        assert(b@.skip(0) =~= b@);
    }
    while i < a.len()
        invariant
            i <= a@.len(),
            i <= b@.len(),
            text_le(a@, b@) == text_le(a@.skip(i as int), b@.skip(i as int)),
        decreases a@.len() - i,
    {
        if i >= b.len() {
            return false;
        }
        let x = a[i];
        let y = b[i];
        proof {
            assert(a@.skip(i as int)[0] == x);
            assert(b@.skip(i as int)[0] == y);
        }
        if x != y {
            return x < y;
        }
        proof {
            assert(a@.skip(i as int).drop_first() =~= a@.skip(i + 1));
            assert(b@.skip(i as int).drop_first() =~= b@.skip(i + 1));
        }
        i = i + 1;
    }
    true
}

fn char_eq_ignore_case_exec(x: char, y: char) -> (r: bool)
    ensures
        r == char_eq_ignore_case(x, y),
{
    let a = x as u32;
    let b = y as u32;
    a == b || ('A' <= x && x <= 'Z' && b == a + 32) || ('A' <= y && y <= 'Z' && a == b + 32)
}

/// Whether two texts are equal up to ASCII case.
fn eq_ignore_case_exec(a: &Vec<char>, b: &Vec<char>) -> (r: bool)
    ensures
        r == eq_ignore_case(a@, b@),
{
    if a.len() != b.len() {
        return false;
    }
    let mut i: usize = 0;
    while i < a.len()
        invariant
            i <= a@.len(),
            a@.len() == b@.len(),
            forall|k: int| 0 <= k < i ==> char_eq_ignore_case(#[trigger] a@[k], b@[k]),
        decreases a@.len() - i,
    {
        if !char_eq_ignore_case_exec(a[i], b[i]) {
            return false;
        }
        i = i + 1;
    }
    true
}

/// Inserts `x` into a list kept sorted by lowercase form, after the
/// entries that sort before or equal to it.
#[verifier::rlimit(50)]
fn insert_sorted(out: &mut Vec<Vec<char>>, keys: &mut Vec<Vec<char>>, x: Vec<char>)
    requires
        old(out)@.len() == old(keys)@.len(),
        forall|j: int| 0 <= j < old(keys)@.len() ==> #[trigger] old(keys)@[j]@ == lower_of(old(out)@[j]@),
        sorted_by_fold(views(old(out)@)),
    ensures
        final(out)@.len() == final(keys)@.len(),
        final(out)@.len() == old(out)@.len() + 1,
        forall|j: int| 0 <= j < final(keys)@.len() ==> #[trigger] final(keys)@[j]@ == lower_of(final(out)@[j]@),
        sorted_by_fold(views(final(out)@)),
        views(final(out)@).contains(x@),
        forall|y: Seq<char>| views(old(out)@).contains(y) ==> views(final(out)@).contains(y),
        forall|y: Seq<char>| views(final(out)@).contains(y) ==> y == x@ || views(old(out)@).contains(y),
{
    let key = lowercase_chars(&x);
    let mut p = out.len();
    while p > 0 && !text_le_exec(&keys[p - 1], &key)
        invariant
            p <= keys@.len(),
            out@.len() == keys@.len(),
            *out == *old(out),
            *keys == *old(keys),
            key@ == lower_of(x@),
            p < keys@.len() ==> !text_le(keys@[p as int]@, key@),
        decreases p,
    {
        p = p - 1;
    }
    let ghost before = views(out@);
    let ghost xv = x@;
    out.insert(p, x);
    keys.insert(p, key);
    proof {
        let now = views(out@);
        assert(now =~= before.insert(p as int, xv));
        assert forall|j: int| 0 <= j < keys@.len() implies #[trigger] keys@[j]@ == lower_of(out@[j]@) by {
            if j < p {
                assert(keys@[j] == old(keys)@[j]);
            } else if j > p {
                assert(keys@[j] == old(keys)@[j - 1]);
            }
        }
        if p < before.len() {
            lemma_text_le_total(lower_of(before[p as int]), lower_of(xv));
            assert(old(keys)@[p as int]@ == lower_of(before[p as int]));
        }
        if p > 0 {
            assert(old(keys)@[p - 1]@ == lower_of(before[p - 1]));
        }
        assert forall|i: int| 0 <= i < now.len() - 1 implies text_le(
            lower_of(#[trigger] now[i]),
            lower_of(now[i + 1]),
        ) by {
            if i + 1 < p {
                assert(now[i] == before[i] && now[i + 1] == before[i + 1]);
            } else if i + 1 == p {
                assert(now[i] == before[i] && now[i + 1] == xv);
            } else if i == p {
                assert(now[i] == xv && now[i + 1] == before[i]);
            } else {
                assert(now[i] == before[i - 1] && now[i + 1] == before[i]);
            }
        }
        assert(now[p as int] == xv);
        assert forall|y: Seq<char>| before.contains(y) implies now.contains(y) by {
            let k = choose|k: int| 0 <= k < before.len() && before[k] == y;
            if k < p {
                assert(now[k] == y);
            } else {
                assert(now[k + 1] == y);
            }
        }
        assert forall|y: Seq<char>| now.contains(y) implies y == xv || before.contains(y) by {
            let k = choose|k: int| 0 <= k < now.len() && now[k] == y;
            if k < p {
                assert(before[k] == y);
            } else if k > p {
                assert(before[k - 1] == y);
            }
        }
    }
}

/// Inserts every text of `src` into a list kept sorted by lowercase form.
#[verifier::rlimit(50)]
fn insert_all(out: &mut Vec<Vec<char>>, keys: &mut Vec<Vec<char>>, src: &Vec<Vec<char>>)
    requires
        old(out)@.len() == old(keys)@.len(),
        forall|j: int| 0 <= j < old(keys)@.len() ==> #[trigger] old(keys)@[j]@ == lower_of(old(out)@[j]@),
        sorted_by_fold(views(old(out)@)),
    ensures
        final(out)@.len() == final(keys)@.len(),
        forall|j: int| 0 <= j < final(keys)@.len() ==> #[trigger] final(keys)@[j]@ == lower_of(final(out)@[j]@),
        sorted_by_fold(views(final(out)@)),
        forall|y: Seq<char>| views(src@).contains(y) ==> views(final(out)@).contains(y),
        forall|y: Seq<char>| views(old(out)@).contains(y) ==> views(final(out)@).contains(y),
        forall|y: Seq<char>| views(final(out)@).contains(y) ==> views(old(out)@).contains(y) || views(src@).contains(y),
{
    let mut i: usize = 0;
    while i < src.len()
        invariant
            i <= src@.len(),
            out@.len() == keys@.len(),
            forall|j: int| 0 <= j < keys@.len() ==> #[trigger] keys@[j]@ == lower_of(out@[j]@),
            sorted_by_fold(views(out@)),
            forall|j: int| 0 <= j < i ==> views(out@).contains(#[trigger] views(src@)[j]),
            forall|y: Seq<char>| views(old(out)@).contains(y) ==> views(out@).contains(y),
            forall|y: Seq<char>| views(out@).contains(y) ==> views(old(out)@).contains(y) || views(src@).contains(y),
        decreases src@.len() - i,
    {
        let item = copy_chars(&src[i]);
        proof {
            assert(item@ == views(src@)[i as int]);
        }
        insert_sorted(out, keys, item);
        i = i + 1;
    }
    proof {
        assert forall|y: Seq<char>| views(src@).contains(y) implies views(out@).contains(y) by {
            let k = choose|k: int| 0 <= k < views(src@).len() && views(src@)[k] == y;
        }
    }
}

/// The identifiers offered for autocompletion: names and aliases sorted by
/// lowercase form, an identifier dropped where it equals, up to ASCII case,
/// the one kept before it. Every input is represented up to case, and
/// nothing else appears.
#[verifier::rlimit(50)]
pub fn exercise_identifiers(names: &Vec<Vec<char>>, aliases: &Vec<Vec<char>>) -> (r: Vec<Vec<char>>)
    ensures
        sorted_by_fold(views(r@)),
        no_case_twins(views(r@)),
        forall|x: Seq<char>| (views(names@).contains(x) || views(aliases@).contains(x)) ==> has_case_twin(views(r@), x),
        forall|y: Seq<char>| views(r@).contains(y) ==> views(names@).contains(y) || views(aliases@).contains(y),
{
    let mut sorted: Vec<Vec<char>> = Vec::new();
    let mut keys: Vec<Vec<char>> = Vec::new();
    proof {
        assert(views(sorted@) =~= Seq::<Seq<char>>::empty());
    }
    insert_all(&mut sorted, &mut keys, names);
    let ghost after_names = views(sorted@);
    insert_all(&mut sorted, &mut keys, aliases);
    let mut out: Vec<Vec<char>> = Vec::new();
    let ghost sv = views(sorted@);
    let mut j: usize = 0;
    while j < sorted.len()
        invariant
            sv == views(sorted@),
            sorted_by_fold(sv),
            j <= sv.len(),
            sorted_by_fold(views(out@)),
            no_case_twins(views(out@)),
            out@.len() > 0 ==> j > 0 && text_le(lower_of(views(out@).last()), lower_of(sv[j - 1])),
            j > 0 ==> out@.len() > 0,
            forall|k: int| 0 <= k < j ==> has_case_twin(views(out@), #[trigger] sv[k]),
            forall|y: Seq<char>| views(out@).contains(y) ==> sv.contains(y),
        decreases sv.len() - j,
    {
        let keep = if out.len() == 0 {
            true
        } else {
            !eq_ignore_case_exec(&sorted[j], &out[out.len() - 1])
        };
        let ghost before = views(out@);
        if keep {
            let copy = copy_chars(&sorted[j]);
            out.push(copy);
            proof {
                let now = views(out@);
                assert(now =~= before.push(sv[j as int]));
                if before.len() > 0 {
                    if j > 0 {
                        assert(text_le(lower_of(sv[j - 1]), lower_of(sv[j as int])));
                        lemma_text_le_trans(lower_of(before.last()), lower_of(sv[j - 1]), lower_of(sv[j as int]));
                    }
                    assert(before.last() == out@[before.len() - 1]@);
                }
                assert forall|i: int| 0 <= i < now.len() - 1 implies text_le(
                    lower_of(#[trigger] now[i]),
                    lower_of(now[i + 1]),
                ) by {
                    if i + 1 < before.len() {
                        assert(now[i] == before[i]);
                    }
                }
                assert forall|i: int| 0 <= i < now.len() - 1 implies !eq_ignore_case(#[trigger] now[i], now[i + 1]) by {
                    if i + 1 < before.len() {
                        assert(now[i] == before[i]);
                    } else {
                        assert(now[i] == before.last());
                        assert(now[i + 1] == sv[j as int]);
                        if eq_ignore_case(now[i], now[i + 1]) {
                            assert(eq_ignore_case(sv[j as int], out@[before.len() - 1]@)) by {
                                assert forall|m: int| 0 <= m < sv[j as int].len() implies char_eq_ignore_case(#[trigger] sv[j as int][m], out@[before.len() - 1]@[m]) by {
                                    assert(char_eq_ignore_case(now[i][m], now[i + 1][m]));
                                }
                            }
                        }
                    }
                }
                lemma_text_le_refl(lower_of(sv[j as int]));
                assert forall|k: int| 0 <= k < j + 1 implies has_case_twin(now, #[trigger] sv[k]) by {
                    if k < j {
                        let w = choose|w: int| 0 <= w < before.len() && eq_ignore_case(sv[k], #[trigger] before[w]);
                        assert(now[w] == before[w]);
                    } else {
                        lemma_eq_ignore_case_refl(sv[k]);
                        assert(now[now.len() - 1] == sv[k]);
                    }
                }
                assert forall|y: Seq<char>| now.contains(y) implies sv.contains(y) by {
                    let w = choose|w: int| 0 <= w < now.len() && now[w] == y;
                    if w < before.len() {
                        assert(before[w] == y);
                    } else {
                        assert(sv[j as int] == y);
                    }
                }
            }
        } else {
            proof {
                assert(before.last() == out@[out@.len() - 1]@);
                assert(text_le(lower_of(sv[j - 1]), lower_of(sv[j as int])));
                lemma_text_le_trans(lower_of(before.last()), lower_of(sv[j - 1]), lower_of(sv[j as int]));
                assert forall|k: int| 0 <= k < j + 1 implies has_case_twin(before, #[trigger] sv[k]) by {
                    if k == j {
                        assert(eq_ignore_case(sv[k], before[before.len() - 1]));
                    }
                }
            }
        }
        j = j + 1;
    }
    proof {
        assert forall|x: Seq<char>| (views(names@).contains(x) || views(aliases@).contains(x)) implies has_case_twin(views(out@), x) by {
            assert(sv.contains(x));
            let k = choose|k: int| 0 <= k < sv.len() && sv[k] == x;
            assert(has_case_twin(views(out@), sv[k]));
        }
        assert forall|y: Seq<char>| views(out@).contains(y) implies views(names@).contains(y) || views(aliases@).contains(y) by {
            assert(sv.contains(y));
            if !after_names.contains(y) {
                assert(views(aliases@).contains(y));
            }
        }
    }
    out
}

} // verus!
