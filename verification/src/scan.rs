//! Byte-sequence scanning: searching for a pattern, splitting on a
//! delimiter, and small helpers for building byte vectors. These are the
//! primitives the wire-protocol parsers are specified and proved against.
use vstd::prelude::*;

verus! {

/// The pattern `pat` occurs in `s` at position `i`.
pub open spec fn match_at(s: Seq<u8>, pat: Seq<u8>, i: int) -> bool {
    &&& 0 <= i
    &&& i + pat.len() <= s.len()
    &&& s.subrange(i, i + pat.len()) == pat
}

/// Position of the first occurrence of `pat` in `s` at or after `i`,
/// if there is one.
pub open spec fn find_from(s: Seq<u8>, pat: Seq<u8>, i: int) -> Option<int>
    decreases s.len() - i + 1,
{
    if i < 0 || i + pat.len() > s.len() {
        None
    } else if s.subrange(i, i + pat.len()) == pat {
        Some(i)
    } else {
        find_from(s, pat, i + 1)
    }
}

/// `find_from` returns exactly the first match position at or after `from`.
pub proof fn lemma_find_from(s: Seq<u8>, pat: Seq<u8>, from: int)
    requires
        0 <= from,
        1 <= pat.len(),
    ensures
        match find_from(s, pat, from) {
            Some(k) => from <= k && match_at(s, pat, k) && (forall|j: int|
                from <= j < k ==> !match_at(s, pat, j)),
            None => forall|j: int| from <= j ==> !match_at(s, pat, j),
        },
    decreases s.len() - from + 1,
{
    if from + pat.len() > s.len() {
    } else if s.subrange(from, from + pat.len()) == pat {
    } else {
        lemma_find_from(s, pat, from + 1);
    }
}

/// When every byte before `t` differs from the pattern's first byte and
/// the pattern occurs at `t`, then `t` is the first occurrence.
pub proof fn lemma_find_first(s: Seq<u8>, pat: Seq<u8>, t: int)
    requires
        1 <= pat.len(),
        match_at(s, pat, t),
        forall|j: int| 0 <= j < t ==> s[j] != pat[0],
    ensures
        find_from(s, pat, 0) == Some(t),
{
    lemma_find_from(s, pat, 0);
    match find_from(s, pat, 0) {
        None => {
            assert(match_at(s, pat, t));
        },
        Some(k) => {
            if k < t {
                assert(s.subrange(k, k + pat.len()) == pat);
                assert(s.subrange(k, k + pat.len())[0] == s[k]);
                assert(s[k] == pat[0]);
            } else if k > t {
                assert(!match_at(s, pat, t));
            }
        },
    }
}

/// Two slices hold the same bytes.
pub fn bytes_eq(a: &[u8], b: &[u8]) -> (r: bool)
    ensures
        r == (a@ == b@),
{
    if a.len() != b.len() {
        return false;
    }
    let n: usize = a.len();
    let mut j: usize = 0;
    while j < n
        invariant
            n == a@.len() == b@.len(),
            j <= n,
            forall|k: int| 0 <= k < j ==> a@[k] == b@[k],
        decreases n - j,
    {
        if a[j] != b[j] {
            return false;
        }
        j = j + 1;
    }
    proof {
        assert(a@ =~= b@);
    }
    true
}

/// First occurrence of `pat` in `s` at or after `from`.
pub fn find_sub(s: &[u8], pat: &[u8], from: usize) -> (r: Option<usize>)
    requires
        1 <= pat@.len(),
        from <= s@.len(),
    ensures
        match r {
            Some(k) => Some(k as int) == find_from(s@, pat@, from as int),
            None => find_from(s@, pat@, from as int) is None,
        },
{
    proof {
        lemma_find_from(s@, pat@, from as int);
    }
    let n: usize = s.len();
    let m: usize = pat.len();
    if m > n || from > n - m {
        return None;
    }
    let mut i: usize = from;
    while i <= n - m
        invariant
            n == s@.len(),
            m == pat@.len(),
            1 <= m <= n,
            from <= i <= n - m + 1,
            forall|j: int| from <= j < i ==> !match_at(s@, pat@, j),
        decreases n - i,
    {
        let window = vstd::slice::slice_subrange(s, i, i + m);
        if bytes_eq(window, pat) {
            proof {
                lemma_find_from(s@, pat@, from as int);
                assert(match_at(s@, pat@, i as int));
            }
            return Some(i);
        }
        i = i + 1;
    }
    proof {
        lemma_find_from(s@, pat@, from as int);
    }
    None
}

/// Copy of `s[a..b]` as a fresh vector.
pub fn copy_range(s: &[u8], a: usize, b: usize) -> (r: Vec<u8>)
    requires
        a <= b <= s@.len(),
    ensures
        r@ == s@.subrange(a as int, b as int),
{
    vstd::slice::slice_to_vec(vstd::slice::slice_subrange(s, a, b))
}

/// Append every byte of `s` to `out`.
pub fn push_bytes(out: &mut Vec<u8>, s: &[u8])
    ensures
        final(out)@ == old(out)@ + s@,
{
    let n: usize = s.len();
    let mut j: usize = 0;
    while j < n
        invariant
            n == s@.len(),
            j <= n,
            out@ == old(out)@ + s@.subrange(0, j as int),
        decreases n - j,
    {
        out.push(s[j]);
        proof {
            assert(old(out)@ + s@.subrange(0, j + 1) =~= (old(out)@ + s@.subrange(
                0,
                j as int,
            )).push(s@[j as int]));
        }
        j = j + 1;
    }
    proof {
        assert(s@.subrange(0, n as int) =~= s@);
    }
}

/// The pieces of `s` between consecutive occurrences of the (non-empty)
/// delimiter `pat`, in order. A sequence with no delimiter is one piece;
/// a delimiter at the very end contributes a final empty piece.
pub open spec fn split_on(s: Seq<u8>, pat: Seq<u8>) -> Seq<Seq<u8>>
    decreases s.len(),
{
    if pat.len() < 1 {
        seq![s]
    } else {
        match find_from(s, pat, 0) {
            None => seq![s],
            Some(i) => if 0 <= i && i + pat.len() <= s.len() {
                seq![s.subrange(0, i)] + split_on(
                    s.subrange(i + pat.len(), s.len() as int),
                    pat,
                )
            } else {
                seq![s]
            },
        }
    }
}

/// Splitting yields at least one piece.
pub proof fn lemma_split_on_len(s: Seq<u8>, pat: Seq<u8>)
    ensures
        split_on(s, pat).len() >= 1,
    decreases s.len(),
{
    if pat.len() >= 1 {
        match find_from(s, pat, 0) {
            None => {},
            Some(i) => {},
        }
    }
}

/// Split `s` on the delimiter `pat`.
pub fn split_sub(s: &[u8], pat: &[u8]) -> (r: Vec<Vec<u8>>)
    requires
        1 <= pat@.len(),
    ensures
        r@.len() == split_on(s@, pat@).len(),
        forall|i: int| 0 <= i < r@.len() ==> r@[i]@ == split_on(s@, pat@)[i],
    decreases s@.len(),
{
    match find_sub(s, pat, 0) {
        None => {
            let mut r: Vec<Vec<u8>> = Vec::new();
            r.push(vstd::slice::slice_to_vec(s));
            r
        },
        Some(i) => {
            proof {
                lemma_find_from(s@, pat@, 0);
                assert(match_at(s@, pat@, i as int));
            }
            let m: usize = pat.len();
            let n: usize = s.len();
            assert(i + m <= n);
            let head = copy_range(s, 0, i);
            let tail = vstd::slice::slice_subrange(s, i + m, n);
            let rest = split_sub(tail, pat);
            let mut r: Vec<Vec<u8>> = Vec::new();
            r.push(head);
            let n: usize = rest.len();
            let mut j: usize = 0;
            while j < n
                invariant
                    n == rest@.len(),
                    j <= n,
                    r@.len() == j + 1,
                    r@[0]@ == s@.subrange(0, i as int),
                    forall|k: int| 0 <= k < j ==> r@[k + 1]@ == rest@[k]@,
                decreases n - j,
            {
                let piece = vstd::slice::slice_to_vec(rest[j].as_slice());
                r.push(piece);
                j = j + 1;
            }
            r
        },
    }
}

} // verus!
