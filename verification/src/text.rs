//! Small helpers over text, stated on the characters a string holds.
use vstd::prelude::*;

verus! {

/// The characters of each string of a list, in order.
pub open spec fn texts(strings: Seq<String>) -> Seq<Seq<char>> {
    strings.map_values(|text: String| text@)
}

/// Whether two strings hold the same characters.
pub fn same_text(a: &str, b: &str) -> (same: bool)
    ensures
        same == (a@ == b@),
{
    let left = String::from_str(a);
    let right = String::from_str(b);
    left == right
}

/// Whether no string occurs twice in the list.
pub fn all_distinct(names: &Vec<String>) -> (distinct: bool)
    ensures
        distinct == texts(names@).no_duplicates(),
{
    let ghost views = texts(names@);
    let mut upper: usize = 0;
    while upper < names.len()
        invariant
            upper <= names@.len(),
            views == texts(names@),
            forall|a: int, b: int| 0 <= a < b < upper ==> views[a] != views[b],
        decreases names@.len() - upper,
    {
        let mut lower: usize = 0;
        while lower < upper
            invariant
                lower <= upper < names@.len(),
                views == texts(names@),
                forall|a: int| 0 <= a < lower ==> views[a] != views[upper as int],
            decreases upper - lower,
        {
            if same_text(names[lower].as_str(), names[upper].as_str()) {
                assert(views[lower as int] == views[upper as int]);
                return false;
            }
            lower += 1;
        }
        upper += 1;
    }
    assert forall|a: int, b: int| 0 <= a < views.len() && 0 <= b < views.len() && a != b implies views[a]
        != views[b] by {
        if a < b {
            assert(views[a] != views[b]);
        } else {
            assert(views[b] != views[a]);
        }
    }
    true
}

/// A fresh string made of `head` followed by `tail`.
pub fn join_text(head: &str, tail: &str) -> (joined: String)
    ensures
        joined@ == head@ + tail@,
{
    let mut joined = String::from_str(head);
    joined.append(tail);
    joined
}

} // verus!
