use vstd::prelude::*;

use crate::util::marker_num;

verus! {

/// A player's symbol.
#[derive(Clone, Copy, Debug, PartialEq, Eq, Structural)]
pub enum MarkerType {
    X,
    O,
}

/// The player who moves after `m`.
pub open spec fn other(m: MarkerType) -> MarkerType {
    match m {
        MarkerType::X => MarkerType::O,
        MarkerType::O => MarkerType::X,
    }
}

/// The number that a cell with the given occupancy holds on the board:
/// 0 when empty.
pub open spec fn occupancy_num(marker: Option<MarkerType>) -> i32 {
    match marker {
        Some(m) => marker_num(m),
        None => 0,
    }
}

/// The nine cells of the board, row by row; 0 is empty, 1 is X, 2 is O.
pub struct Grid {
    pub state: Vec<i32>,
}

impl Grid {
    /// Nine cells, each holding 0, 1 or 2.
    pub open spec fn wf(&self) -> bool {
        &&& self.state@.len() == 9
        &&& forall|i: int| 0 <= i < 9 ==> 0 <= #[trigger] self.state@[i] <= 2
    }
}

impl Default for Grid {
    /// The empty board.
    fn default() -> (r: Self)
        ensures
            r.state@ == seq![0i32; 9],
            r.wf(),
    {
        let r = Grid { state: vec![0i32; 9] };
        proof {
            assert(r.state@ =~= seq![0i32; 9]);
        }
        r
    }
}

/// One square of the board and the marker placed on it, if any.
#[derive(Clone, Copy)]
pub struct Cell {
    pub marker: Option<MarkerType>,
    pub index: usize,
}

impl Cell {
    /// An empty cell at the given position.
    pub fn new(index: usize) -> (r: Self)
        ensures
            r.marker is None,
            r.index == index,
    {
        Self { marker: None, index }
    }

    /// Places a marker on the cell.
    pub fn mark(&mut self, marker: MarkerType)
        ensures
            final(self).marker == Some(marker),
            final(self).index == old(self).index,
    {
        self.marker = Some(marker);
    }
}

} // verus!
