//! Views of optional values, sequences and maps, taken item by item.

use vstd::prelude::*;

verus! {

/// The view of an optional value.
pub open spec fn opt_view<T: View>(o: Option<T>) -> Option<T::V> {
    match o {
        Some(x) => Some(x@),
        None => None,
    }
}

/// The view of each value of a map.
pub open spec fn map_view<T: View>(m: Map<u32, T>) -> Map<u32, T::V> {
    m.map_values(|x: T| x@)
}

/// The view of each item of a sequence.
pub open spec fn seq_view<T: View>(s: Seq<T>) -> Seq<T::V> {
    s.map_values(|x: T| x@)
}

/// Inserting into a map and then viewing the values is viewing and then
/// inserting the value's view.
pub proof fn lemma_map_view_insert<T: View>(m: Map<u32, T>, k: u32, v: T)
    ensures
        map_view(m.insert(k, v)) == map_view(m).insert(k, v@),
{
    assert(map_view(m.insert(k, v)) =~= map_view(m).insert(k, v@));
}

} // verus!
