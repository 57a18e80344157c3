//! Splitting text at a separator character.

use vstd::prelude::*;

verus! {

/// Number of characters of `s` before the first `sep` (all of `s` when it has none).
pub open spec fn piece_len(s: Seq<char>, sep: char) -> nat
    decreases s.len(),
{
    if s.len() == 0 || s[0] == sep {
        0
    } else {
        1 + piece_len(s.drop_first(), sep)
    }
}

/// The pieces of `s` between occurrences of `sep`, with no empty piece after a
/// final `sep`.
pub open spec fn pieces_of(s: Seq<char>, sep: char) -> Seq<Seq<char>>
    decreases s.len(),
{
    if s.len() == 0 {
        Seq::empty()
    } else {
        let k = piece_len(s, sep);
        if k < s.len() {
            seq![s.take(k as int)] + pieces_of(s.skip(k + 1int), sep)
        } else {
            seq![s]
        }
    }
}

proof fn lemma_piece_len(s: Seq<char>, sep: char, k: int)
    requires
        0 <= k <= s.len(),
        forall|j: int| 0 <= j < k ==> s[j] != sep,
        k == s.len() || s[k] == sep,
    ensures
        piece_len(s, sep) == k,
    decreases k,
{
    if k > 0 {
        lemma_piece_len(s.drop_first(), sep, k - 1);
    }
}

/// The characters of `text`, in order.
pub fn chars_of(text: &str) -> (r: Vec<char>)
    ensures
        r@ == text@,
{
    let mut r: Vec<char> = Vec::new();
    for c in it: text.chars()
        invariant
            it.seq() == text@,
            r@ == it.seq().take(it.index() as int),
    {
        r.push(c);
    }
    r
}

/// Index of the first `sep` at or after `start`, or the length when there is none.
pub fn find_from(chars: &Vec<char>, start: usize, sep: char) -> (i: usize)
    requires
        start <= chars.len(),
    ensures
        start <= i <= chars.len(),
        i == chars.len() || chars@[i as int] == sep,
        forall|j: int| start <= j < i ==> chars@[j] != sep,
        piece_len(chars@.skip(start as int), sep) == i - start,
{
    let n = chars.len();
    let mut i = start;
    while i < n && chars[i] != sep
        invariant
            start <= i <= n,
            n == chars.len(),
            forall|j: int| start <= j < i ==> chars@[j] != sep,
        decreases n - i,
    {
        i = i + 1;
    }
    proof {
        lemma_piece_len(chars@.skip(start as int), sep, i - start);
    }
    i
}

} // verus!
