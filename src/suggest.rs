//! Autocomplete: the identifiers whose lowercase form starts with what was
//! typed, lowercased, at most five of them, in list order.
use vstd::prelude::*;
use crate::text_util::{is_prefix, lower_of, lowercase_chars, starts_with, copy_chars};

verus! {

/// Most suggestions shown at once.
pub const MAX_SUGGESTIONS: usize = 5;

/// The identifiers among the first `n` whose folded form starts with `q`,
/// in order.
pub open spec fn prefix_matches(
    q: Seq<char>,
    folded: Seq<Seq<char>>,
    ids: Seq<Seq<char>>,
    n: int,
) -> Seq<Seq<char>>
    decreases n,
{
    if n <= 0 {
        Seq::empty()
    } else {
        let before = prefix_matches(q, folded, ids, n - 1);
        if is_prefix(q, folded[n - 1]) {
            before.push(ids[n - 1])
        } else {
            before
        }
    }
}

/// At most the first five of a list.
pub open spec fn first_five(s: Seq<Seq<char>>) -> Seq<Seq<char>> {
    if s.len() <= 5 {
        s
    } else {
        s.take(5)
    }
}

/// The suggestions for a folded query over identifiers and their folded
/// forms: none for an empty query, else the first five matches.
pub open spec fn suggestions_spec(
    q: Seq<char>,
    folded: Seq<Seq<char>>,
    ids: Seq<Seq<char>>,
) -> Seq<Seq<char>> {
    if q.len() == 0 {
        Seq::empty()
    } else {
        first_five(prefix_matches(q, folded, ids, ids.len() as int))
    }
}

/// The texts of a list of buffers.
pub open spec fn views(v: Seq<Vec<char>>) -> Seq<Seq<char>> {
    Seq::new(v.len(), |i: int| v[i]@)
}

/// The folded forms of a list of identifiers.
pub open spec fn fold_all(ids: Seq<Seq<char>>) -> Seq<Seq<char>> {
    ids.map_values(|s: Seq<char>| lower_of(s))
}

proof fn lemma_matches_shape(q: Seq<char>, ids: Seq<Seq<char>>, n: int)
    requires
        0 <= n <= ids.len(),
    ensures
        forall|j: int|
            0 <= j < prefix_matches(q, fold_all(ids), ids, n).len() ==> is_prefix(
                q,
                lower_of(#[trigger] prefix_matches(q, fold_all(ids), ids, n)[j]),
            ) && ids.contains(prefix_matches(q, fold_all(ids), ids, n)[j]),
    decreases n,
{
    if n > 0 {
        lemma_matches_shape(q, ids, n - 1);
        let before = prefix_matches(q, fold_all(ids), ids, n - 1);
        let now = prefix_matches(q, fold_all(ids), ids, n);
        assert forall|j: int| 0 <= j < now.len() implies is_prefix(q, lower_of(#[trigger] now[j]))
            && ids.contains(now[j]) by {
            if j < before.len() {
                assert(now[j] == before[j]);
            } else {
                assert(now[j] == ids[n - 1]);
                assert(fold_all(ids)[n - 1] == lower_of(ids[n - 1]));
            }
        }
    }
}

/// Every suggestion is an identifier whose lowercase form starts with the
/// lowercase query; there are at most five; an empty query has none.
pub proof fn lemma_suggestions_are_prefix_matches(q: Seq<char>, ids: Seq<Seq<char>>)
    ensures
        suggestions_spec(q, fold_all(ids), ids).len() <= MAX_SUGGESTIONS,
        q.len() == 0 ==> suggestions_spec(q, fold_all(ids), ids).len() == 0,
        forall|j: int|
            0 <= j < suggestions_spec(q, fold_all(ids), ids).len() ==> is_prefix(
                q,
                lower_of(#[trigger] suggestions_spec(q, fold_all(ids), ids)[j]),
            ) && ids.contains(suggestions_spec(q, fold_all(ids), ids)[j]),
{
    lemma_matches_shape(q, ids, ids.len() as int);
    let m = prefix_matches(q, fold_all(ids), ids, ids.len() as int);
    if q.len() > 0 {
        assert forall|j: int| 0 <= j < suggestions_spec(q, fold_all(ids), ids).len() implies is_prefix(
            q,
            lower_of(#[trigger] suggestions_spec(q, fold_all(ids), ids)[j]),
        ) && ids.contains(suggestions_spec(q, fold_all(ids), ids)[j]) by {
            assert(suggestions_spec(q, fold_all(ids), ids)[j] == m[j]);
        }
    }
}

/// The suggestions for a query already lowercased, given the identifiers
/// and their lowercase forms side by side.
#[verifier::rlimit(50)]
pub fn filter_suggestions_folded(
    query: &Vec<char>,
    folded: &Vec<Vec<char>>,
    identifiers: &Vec<Vec<char>>,
) -> (r: Vec<Vec<char>>)
    requires
        folded@.len() == identifiers@.len(),
    ensures
        views(r@) == suggestions_spec(query@, views(folded@), views(identifiers@)),
{
    let mut out: Vec<Vec<char>> = Vec::new();
    if query.len() == 0 {
        proof {
            assert(views(out@) =~= Seq::<Seq<char>>::empty());
        }
        return out;
    }
    let ghost fv = views(folded@);
    let ghost iv = views(identifiers@);
    let n = identifiers.len();
    let mut i: usize = 0;
    while i < n
        invariant
            i <= n,
            n == identifiers@.len(),
            folded@.len() == n,
            fv == views(folded@),
            iv == views(identifiers@),
            views(out@) == first_five(prefix_matches(query@, fv, iv, i as int)),
        decreases n - i,
    {
        let hit = starts_with(&folded[i], query);
        proof {
            assert(fv[i as int] == folded[i as int]@);
            assert(iv[i as int] == identifiers[i as int]@);
        }
        if hit && out.len() < MAX_SUGGESTIONS {
            let copy = copy_chars(&identifiers[i]);
            out.push(copy);
            proof {
                let before = prefix_matches(query@, fv, iv, i as int);
                assert(views(out@) =~= first_five(before).push(iv[i as int]));
                assert(before.len() < 5 || first_five(before).len() == 5);
                assert(first_five(before.push(iv[i as int])) =~= first_five(before).push(
                    iv[i as int],
                ));
            }
        } else {
            proof {
                let before = prefix_matches(query@, fv, iv, i as int);
                if hit {
                    assert(first_five(before).len() >= 5);
                    assert(first_five(before.push(iv[i as int])) =~= first_five(before));
                }
            }
        }
        i = i + 1;
    }
    out
}

/// The suggestions for typed text: the identifiers whose lowercase form
/// starts with the lowercase text, at most five, in list order; none when
/// the text is empty.
pub fn filter_suggestions(input: &Vec<char>, identifiers: &Vec<Vec<char>>) -> (r: Vec<Vec<char>>)
    ensures
        views(r@) == suggestions_spec(
            lower_of(input@),
            fold_all(views(identifiers@)),
            views(identifiers@),
        ),
{
    let query = lowercase_chars(input);
    let mut folded: Vec<Vec<char>> = Vec::new();
    let mut i: usize = 0;
    while i < identifiers.len()
        invariant
            i <= identifiers@.len(),
            views(folded@) == fold_all(views(identifiers@)).take(i as int),
        decreases identifiers@.len() - i,
    {
        let low = lowercase_chars(&identifiers[i]);
        let ghost prev = views(folded@);
        folded.push(low);
        proof {
            assert(views(identifiers@)[i as int] == identifiers[i as int]@);
            assert(views(folded@) =~= prev.push(lower_of(views(identifiers@)[i as int])));
            assert(fold_all(views(identifiers@)).take(i + 1) =~= fold_all(views(identifiers@)).take(i as int).push(lower_of(views(identifiers@)[i as int])));
        }
        i = i + 1;
    }
    proof {
        assert(views(folded@) =~= fold_all(views(identifiers@)));
    }
    filter_suggestions_folded(&query, &folded, identifiers)
}

} // verus!
