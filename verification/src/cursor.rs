//! The application underneath the system cursor.

use vstd::prelude::*;

use crate::geometry::Point;

verus! {

/// The root application window underneath the system cursor, and the
/// process that owns it.
#[derive(Clone, Copy, Debug, PartialEq, Eq)]
pub struct CursorTarget {
    pub cursor_position: Point,
    pub window: isize,
    pub process_id: u32,
}

/// The first row, of rows given by their process IDs, that holds `process_id`.
pub open spec fn first_row_with(rows: Seq<Seq<u32>>, process_id: u32) -> Option<int>
    decreases rows.len(),
{
    if rows.len() == 0 {
        None
    } else if rows[0].contains(process_id) {
        Some(0)
    } else {
        match first_row_with(rows.drop_first(), process_id) {
            Some(i) => Some(i + 1),
            None => None,
        }
    }
}

/// The rows' process IDs, as sequences.
pub open spec fn rows_view(rows: Seq<&[u32]>) -> Seq<Seq<u32>> {
    rows.map_values(|r: &[u32]| r@)
}

/// Whether `v` holds `x`.
fn slice_holds(v: &[u32], x: u32) -> (r: bool)
    ensures
        r == v@.contains(x),
{
    let mut i: usize = 0;
    while i < v.len()
        invariant
            i <= v@.len(),
            forall|k: int| 0 <= k < i ==> v@[k] != x,
        decreases v@.len() - i,
    {
        if v[i] == x {
            assert(v@[i as int] == x);
            return true;
        }
        i = i + 1;
    }
    false
}

/// Finds the first application row that owns `process_id`; rows are given
/// by their process IDs only, which keeps this independent of the popup.
pub fn application_index_for_process(process_id: u32, application_process_ids: &[&[u32]]) -> (r:
    Option<usize>)
    ensures
        match first_row_with(rows_view(application_process_ids@), process_id) {
            Some(i) => r == Some(i as usize),
            None => r is None,
        },
{
    let ghost rows = rows_view(application_process_ids@);
    let mut i: usize = 0;
    assert(rows.skip(0) =~= rows);
    while i < application_process_ids.len()
        invariant
            rows == rows_view(application_process_ids@),
            i <= application_process_ids@.len(),
            first_row_with(rows, process_id) == match first_row_with(rows.skip(i as int), process_id) {
                Some(j) => Some(j + i),
                None => None,
            },
        decreases application_process_ids@.len() - i,
    {
        assert(rows.skip(i as int)[0] == application_process_ids@[i as int]@);
        if slice_holds(application_process_ids[i], process_id) {
            return Some(i);
        }
        assert(rows.skip(i as int).drop_first() =~= rows.skip(i + 1));
        i = i + 1;
    }
    assert(rows.skip(i as int) =~= Seq::<Seq<u32>>::empty());
    None
}

} // verus!
