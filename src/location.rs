//! The location field of an address lookup: `"<latitude>,<longitude>"`.

use crate::text::{chars_of, find_from, pieces_of};
use vstd::prelude::*;
use vstd::string::*;

verus! {

/// The first two comma-separated fields of `loc` (latitude, then longitude), as
/// text; `None` when it has fewer than two. A comma at the very end opens no field.
pub fn split_location(loc: &str) -> (r: Option<(String, String)>)
    ensures
        r is None <==> pieces_of(loc@, ',').len() < 2,
        r matches Some(p) ==> p.0@ == pieces_of(loc@, ',')[0] && p.1@ == pieces_of(loc@, ',')[1],
{
    let chars = chars_of(loc);
    let n = chars.len();
    let ghost s = loc@;
    assert(chars@.skip(0) =~= s);
    if n == 0 {
        return None;
    }
    let c1 = find_from(&chars, 0, ',');
    if c1 >= n - 1 {
        if c1 < n {
            assert(s.skip(c1 + 1) =~= Seq::<char>::empty());
            assert(pieces_of(Seq::<char>::empty(), ',') =~= Seq::<Seq<char>>::empty());
            assert(seq![s.take(c1 as int)] + Seq::<Seq<char>>::empty() =~= seq![s.take(c1 as int)]);
            assert(pieces_of(s, ',') =~= seq![s.take(c1 as int)]);
        }
        return None;
    }
    let ghost rest = s.skip(c1 + 1);
    let c2 = find_from(&chars, c1 + 1, ',');
    assert(chars@.skip(c1 + 1) =~= rest);
    assert(s.take(c1 as int) =~= s.subrange(0, c1 as int));
    assert(rest.take(c2 - c1 - 1) =~= s.subrange(c1 + 1, c2 as int));
    assert(pieces_of(s, ',') == seq![s.take(c1 as int)] + pieces_of(rest, ','));
    if c2 == n {
        assert(rest.take(c2 - c1 - 1) =~= rest);
    }
    assert(pieces_of(rest, ',')[0] == rest.take(c2 - c1 - 1));
    let lat = loc.substring_char(0, c1).to_owned();
    let lon = loc.substring_char(c1 + 1, c2).to_owned();
    Some((lat, lon))
}

} // verus!
