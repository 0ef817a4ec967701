use vstd::prelude::*;

verus! {

/// What `str::trim` leaves of a text: leading and trailing Unicode white
/// space removed.
pub uninterp spec fn trim_of(s: Seq<char>) -> Seq<char>;

/// What `str::to_lowercase` makes of a text.
pub uninterp spec fn lower_of(s: Seq<char>) -> Seq<char>;

/// The characters of a string, as an editable buffer.
pub fn chars_of(s: &str) -> (r: Vec<char>)
    ensures
        r@ == s@,
{
    let n = s.unicode_len();
    let mut r: Vec<char> = Vec::new();
    let mut i: usize = 0;
    while i < n
        invariant
            n == s@.len(),
            i <= n,
            r@ == s@.subrange(0, i as int),
        decreases n - i,
    {
        r.push(s.get_char(i));
        i = i + 1;
        proof {
            assert(r@ =~= s@.subrange(0, i as int));
        }
    }
    proof {
        assert(r@ =~= s@);
    }
    r
}

/// Appends a copy of `tail` to `dst`.
pub(crate) fn append_chars(dst: &mut Vec<char>, tail: &Vec<char>)
    ensures
        final(dst)@ == old(dst)@ + tail@,
{
    let mut i: usize = 0;
    while i < tail.len()
        invariant
            i <= tail@.len(),
            dst@ == old(dst)@ + tail@.subrange(0, i as int),
        decreases tail@.len() - i,
    {
        dst.push(tail[i]);
        i = i + 1;
        proof {
            assert(dst@ =~= old(dst)@ + tail@.subrange(0, i as int));
        }
    }
    proof {
        assert(tail@.subrange(0, tail@.len() as int) =~= tail@);
    }
}

/// The concatenation of a literal and a buffer.
pub(crate) fn lit_then(head: &str, tail: &Vec<char>) -> (r: Vec<char>)
    ensures
        r@ == head@ + tail@,
{
    let mut r = chars_of(head);
    append_chars(&mut r, tail);
    r
}

/// A copy of a buffer.
pub(crate) fn copy_chars(v: &Vec<char>) -> (r: Vec<char>)
    ensures
        r@ == v@,
{
    let mut r: Vec<char> = Vec::new();
    append_chars(&mut r, v);
    proof {
        assert(r@ =~= v@);
    }
    r
}

/// Whether two buffers hold the same characters.
pub(crate) fn same_chars(a: &Vec<char>, b: &Vec<char>) -> (r: bool)
    ensures
        r == (a@ == b@),
{
    if a.len() != b.len() {
        return false;
    }
    let mut i: usize = 0;
    while i < a.len()
        invariant
            a@.len() == b@.len(),
            i <= a@.len(),
            forall|k: int| 0 <= k < i ==> a@[k] == b@[k],
        decreases a@.len() - i,
    {
        if a[i] != b[i] {
            return false;
        }
        i = i + 1;
    }
    proof {
        assert(a@ =~= b@);
    }
    true
}

/// Whether `p` is a prefix of `s`.
pub open spec fn is_prefix(p: Seq<char>, s: Seq<char>) -> bool {
    p.len() <= s.len() && s.subrange(0, p.len() as int) == p
}

pub(crate) fn starts_with(s: &Vec<char>, p: &Vec<char>) -> (r: bool)
    ensures
        r == is_prefix(p@, s@),
{
    if p.len() > s.len() {
        return false;
    }
    let mut i: usize = 0;
    while i < p.len()
        invariant
            p@.len() <= s@.len(),
            i <= p@.len(),
            forall|k: int| 0 <= k < i ==> s@[k] == p@[k],
        decreases p@.len() - i,
    {
        if s[i] != p[i] {
            proof {
                assert(s@.subrange(0, p@.len() as int)[i as int] != p@[i as int]);
            }
            return false;
        }
        i = i + 1;
    }
    proof {
        assert(s@.subrange(0, p@.len() as int) =~= p@);
    }
    true
}

/// Relies on `str::trim`: removes leading and trailing white space.
#[verifier::external_body]
pub(crate) fn trim_chars(s: &Vec<char>) -> (r: Vec<char>)
    ensures
        r@ == trim_of(s@),
{
    let text: String = s.iter().collect();
    text.trim().chars().collect()
}

/// Relies on `str::to_lowercase`: the lowercase form of a text.
#[verifier::external_body]
pub(crate) fn lowercase_chars(s: &Vec<char>) -> (r: Vec<char>)
    ensures
        r@ == lower_of(s@),
{
    let text: String = s.iter().collect();
    text.to_lowercase().chars().collect()
}

} // verus!
