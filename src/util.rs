use vstd::prelude::*;

use crate::grid::MarkerType;

verus! {

/// The number that stands for a marker on the board.
pub open spec fn marker_num(marker: MarkerType) -> i32 {
    match marker {
        MarkerType::X => 1,
        MarkerType::O => 2,
    }
}

/// Encodes a marker as the number stored in the board: 1 for X, 2 for O.
pub fn marker_to_num(marker: &MarkerType) -> (r: i32)
    ensures
        r == marker_num(*marker),
{
    match marker {
        MarkerType::X => 1,
        MarkerType::O => 2,
    }
}

} // verus!
