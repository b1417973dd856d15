//! Sequences of strings as text: their views, and joining them.

use vstd::prelude::*;

verus! {

/// The views of a sequence of strings, in order.
pub open spec fn texts_of(strings: Seq<String>) -> Seq<Seq<char>> {
    Seq::new(strings.len(), |i: int| strings[i]@)
}

/// The items in order with `separator` between each two neighbours.
pub open spec fn joined(items: Seq<Seq<char>>, separator: Seq<char>) -> Seq<char>
    decreases items.len(),
{
    if items.len() == 0 {
        Seq::empty()
    } else if items.len() == 1 {
        items[0]
    } else {
        joined(items.drop_last(), separator) + separator + items.last()
    }
}

/// Joins `items` with `separator` between each two neighbours.
pub fn join(items: &Vec<String>, separator: &str) -> (text: String)
    ensures
        text@ == joined(texts_of(items@), separator@),
{
    let mut text = String::new();
    let mut i: usize = 0;
    while i < items.len()
        invariant
            i <= items@.len(),
            text@ == joined(texts_of(items@).take(i as int), separator@),
        decreases items@.len() - i,
    {
        proof {
            let all = texts_of(items@);
            let before = all.take(i as int);
            let after = all.take(i + 1);
            assert(after.drop_last() == before);
            assert(after.last() == items@[i as int]@);
            if i == 0 {
                assert(before.len() == 0);
                assert(after.len() == 1);
                assert(after[0] == items@[0]@);
            }
        }
        if i > 0 {
            text.append(separator);
        }
        text.append(items[i].as_str());
        i = i + 1;
    }
    proof {
        assert(texts_of(items@).take(items@.len() as int) == texts_of(items@));
    }
    text
}

} // verus!
