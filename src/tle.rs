//! Two-line element sets as text: the three lines of a catalogue response.

use vstd::prelude::*;
use vstd::string::*;
use crate::text::{chars_of, find_from, piece_len};

verus! {

/// A two-line element set with its title line: name, line 1, line 2.
pub type Tle = [String; 3];

/// A line that ended in a line feed loses one carriage return before it.
pub open spec fn strip_cr(line: Seq<char>) -> Seq<char> {
    if line.len() > 0 && line.last() == '\r' {
        line.drop_last()
    } else {
        line
    }
}

/// The lines of a text: split at `\n` or `\r\n`, the terminator removed, and no
/// empty line after a final terminator.
pub open spec fn lines_of(s: Seq<char>) -> Seq<Seq<char>>
    decreases s.len(),
{
    if s.len() == 0 {
        Seq::empty()
    } else {
        let k = piece_len(s, '\n');
        if k < s.len() {
            seq![strip_cr(s.take(k as int))] + lines_of(s.skip(k + 1int))
        } else {
            seq![s]
        }
    }
}

/// Bounds of the line of `chars` that starts at `start`: `(end, next)`, where the
/// line's content is `start..end` and the line after it starts at `next`.
fn line_bounds(chars: &Vec<char>, start: usize) -> (r: (usize, usize))
    requires
        start < chars.len(),
    ensures
        start <= r.0 <= r.1 <= chars.len(),
        start < r.1,
        lines_of(chars@.skip(start as int)) == seq![chars@.subrange(start as int, r.0 as int)]
            + lines_of(chars@.skip(r.1 as int)),
{
    let n = chars.len();
    let i = find_from(chars, start, '\n');
    let ghost s = chars@.skip(start as int);
    if i < n {
        let end = if i > start && chars[i - 1] == '\r' {
            i - 1
        } else {
            i
        };
        assert(s.skip(i - start + 1) =~= chars@.skip(i + 1));
        assert(strip_cr(s.take(i - start)) =~= chars@.subrange(start as int, end as int));
        (end, i + 1)
    } else {
        assert(chars@.skip(n as int) =~= Seq::<char>::empty());
        assert(s =~= chars@.subrange(start as int, n as int));
        assert(seq![s] + lines_of(Seq::<char>::empty()) =~= seq![s]);
        (n, n)
    }
}

/// The first three lines of `text`, as a title line and the two element lines;
/// `None` when the text has fewer than three lines.
pub fn tle_from_text(text: &str) -> (r: Option<Tle>)
    ensures
        r is None <==> lines_of(text@).len() < 3,
        r matches Some(t) ==> {
            &&& t[0]@ == lines_of(text@)[0]
            &&& t[1]@ == lines_of(text@)[1]
            &&& t[2]@ == lines_of(text@)[2]
        },
{
    let chars = chars_of(text);
    let n = chars.len();
    let ghost all = lines_of(text@);
    assert(chars@.skip(0) =~= chars@);
    assert(chars@.skip(n as int) =~= Seq::<char>::empty());
    if n == 0 {
        return None;
    }
    let (e0, s1) = line_bounds(&chars, 0);
    if s1 >= n {
        assert(all.len() == 1);
        return None;
    }
    let (e1, s2) = line_bounds(&chars, s1);
    if s2 >= n {
        assert(all.len() == 2);
        return None;
    }
    let (e2, _next) = line_bounds(&chars, s2);
    let l0 = text.substring_char(0, e0).to_owned();
    let l1 = text.substring_char(s1, e1).to_owned();
    let l2 = text.substring_char(s2, e2).to_owned();
    assert(all.len() >= 3);
    Some([l0, l1, l2])
}

} // verus!
