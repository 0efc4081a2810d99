use vstd::prelude::*;

use crate::grid::{occupancy_num, other, Cell, Grid, MarkerType};
use crate::util::{marker_num, marker_to_num};

verus! {

/// How a finished match ended.
#[derive(Clone, Copy, Debug, PartialEq, Eq, Structural)]
pub enum Outcome {
    XWins,
    OWins,
    Draw,
}

/// Whether the match still takes moves.
#[derive(Clone, Copy, Debug, PartialEq, Eq, Structural)]
pub enum GameState {
    Playing,
    Over(Outcome),
}

/// The player whose marker the next accepted move places.
pub struct Turn(pub MarkerType);

impl Turn {
    /// Hands the move to the other player.
    pub fn toggle(&mut self)
        ensures
            final(self).0 == other(old(self).0),
    {
        self.0 = match self.0 {
            MarkerType::O => MarkerType::X,
            MarkerType::X => MarkerType::O,
        }
    }
}

/// The `k`-th winning triple of cell indices, for `k` in `0..8`: the three
/// rows, the three columns, then the two diagonals.
pub open spec fn line(k: int) -> (int, int, int) {
    if k == 0 {
        (0, 1, 2)
    } else if k == 1 {
        (3, 4, 5)
    } else if k == 2 {
        (6, 7, 8)
    } else if k == 3 {
        (0, 3, 6)
    } else if k == 4 {
        (1, 4, 7)
    } else if k == 5 {
        (2, 5, 8)
    } else if k == 6 {
        (0, 4, 8)
    } else {
        (2, 4, 6)
    }
}

/// How many cells of the `k`-th triple hold `v`.
pub open spec fn marks_on(b: Seq<i32>, v: i32, k: int) -> int {
    (if b[line(k).0] == v { 1int } else { 0int }) + (if b[line(k).1] == v { 1int } else { 0int }) + (
    if b[line(k).2] == v { 1int } else { 0int })
}

/// All three cells of the `k`-th triple hold `v`.
pub open spec fn completes(b: Seq<i32>, v: i32, k: int) -> bool {
    b[line(k).0] == v && b[line(k).1] == v && b[line(k).2] == v
}

/// Some winning triple is filled with `v`.
pub open spec fn has_line(b: Seq<i32>, v: i32) -> bool {
    exists|k: int| 0 <= k < 8 && #[trigger] completes(b, v, k)
}

/// No cell of the board is empty.
pub open spec fn is_full(b: Seq<i32>) -> bool {
    forall|i: int| 0 <= i < 9 ==> #[trigger] b[i] != 0
}

/// The number of cells of `b` that hold `v`.
pub open spec fn count_of(b: Seq<i32>, v: i32) -> nat
    decreases b.len(),
{
    if b.len() == 0 {
        0
    } else {
        count_of(b.drop_last(), v) + (if b.last() == v { 1nat } else { 0nat })
    }
}

/// The verdict on a board: a line of O, else a line of X, else a full board
/// ends the match; otherwise it goes on.
pub open spec fn outcome_of(b: Seq<i32>) -> Option<Outcome> {
    if has_line(b, 2) {
        Some(Outcome::OWins)
    } else if has_line(b, 1) {
        Some(Outcome::XWins)
    } else if is_full(b) {
        Some(Outcome::Draw)
    } else {
        None
    }
}

/// The match state that a board stands for.
pub open spec fn state_of(b: Seq<i32>) -> GameState {
    match outcome_of(b) {
        Some(o) => GameState::Over(o),
        None => GameState::Playing,
    }
}

/// The cell indices of the `k`-th winning triple.
fn solution(k: usize) -> (r: (usize, usize, usize))
    requires
        k < 8,
    ensures
        r.0 == line(k as int).0,
        r.1 == line(k as int).1,
        r.2 == line(k as int).2,
{
    match k {
        0 => (0, 1, 2),
        1 => (3, 4, 5),
        2 => (6, 7, 8),
        3 => (0, 3, 6),
        4 => (1, 4, 7),
        5 => (2, 5, 8),
        6 => (0, 4, 8),
        _ => (2, 4, 6),
    }
}

/// Counts the cells of the `k`-th winning triple that hold `v`.
fn line_count(board: &Vec<i32>, v: i32, k: usize) -> (r: u8)
    requires
        board@.len() == 9,
        k < 8,
    ensures
        r == marks_on(board@, v, k as int),
        (r == 3) == completes(board@, v, k as int),
{
    let (a, b, c) = solution(k);
    let mut count: u8 = 0;
    if board[a] == v {
        count = count + 1;
    }
    if board[b] == v {
        count = count + 1;
    }
    if board[c] == v {
        count = count + 1;
    }
    count
}

/// Whether some winning triple is filled with `v`.
pub fn has_three(board: &Vec<i32>, v: i32) -> (r: bool)
    requires
        board@.len() == 9,
    ensures
        r == has_line(board@, v),
{
    let mut k: usize = 0;
    let mut found = false;
    while k < 8
        invariant
            board@.len() == 9,
            k <= 8,
            found == exists|j: int| 0 <= j < k && #[trigger] completes(board@, v, j),
        decreases 8 - k,
    {
        if line_count(board, v, k) == 3 {
            found = true;
        }
        k = k + 1;
    }
    found
}

/// The number of empty cells of the board.
pub fn empty_spaces(board: &Vec<i32>) -> (r: usize)
    requires
        board@.len() == 9,
    ensures
        r == count_of(board@, 0),
        (r == 0) == is_full(board@),
{
    let mut i: usize = 0;
    let mut count: usize = 0;
    while i < board.len()
        invariant
            board@.len() == 9,
            i <= 9,
            count == count_of(board@.take(i as int), 0),
            count <= i,
            (count == 0) == (forall|j: int| 0 <= j < i ==> #[trigger] board@[j] != 0),
        decreases 9 - i,
    {
        proof {
            assert(board@.take(i + 1).drop_last() =~= board@.take(i as int));
        }
        if board[i] == 0 {
            count = count + 1;
        }
        i = i + 1;
    }
    proof {
        assert(board@.take(9) =~= board@);
    }
    count
}

/// Evaluates a board: O's line, then X's line, then a full board, decides the
/// match; `None` while it goes on.
pub fn evaluate(board: &Vec<i32>) -> (r: Option<Outcome>)
    requires
        board@.len() == 9,
    ensures
        r == outcome_of(board@),
{
    if has_three(board, 2) {
        Some(Outcome::OWins)
    } else if has_three(board, 1) {
        Some(Outcome::XWins)
    } else if empty_spaces(board) == 0 {
        Some(Outcome::Draw)
    } else {
        None
    }
}

/// While the match goes on, ends it when the board decides it; a match that
/// has ended keeps its result.
pub fn check_game_state(grid: &Grid, state: &mut GameState)
    requires
        grid.wf(),
    ensures
        *old(state) is Over ==> *final(state) == *old(state),
        *old(state) is Playing ==> *final(state) == state_of(grid.state@),
{
    if playing(state) {
        match evaluate(&grid.state) {
            Some(o) => {
                *state = GameState::Over(o);
            },
            None => {},
        }
    }
}

/// Whether the match still takes moves.
pub fn playing(state: &GameState) -> (r: bool)
    ensures
        r == (*state is Playing),
{
    match state {
        GameState::Playing => true,
        GameState::Over(_) => false,
    }
}

/// What a match is, seen from outside: the board, whose move it is, and
/// whether it has ended.
pub struct GameView {
    pub board: Seq<i32>,
    pub turn: MarkerType,
    pub state: GameState,
}

/// A board of nine cells, each holding 0, 1 or 2.
pub open spec fn valid_view(g: GameView) -> bool {
    &&& g.board.len() == 9
    &&& forall|i: int| 0 <= i < 9 ==> 0 <= #[trigger] g.board[i] <= 2
}

/// A move at `index` is taken: the match goes on and the cell is empty.
pub open spec fn accepts(g: GameView, index: int) -> bool {
    &&& g.state is Playing
    &&& 0 <= index < 9
    &&& g.board[index] == 0
}

/// The match after a click on cell `index`. A taken move puts the current
/// player's marker there, hands the turn over and evaluates the board; any
/// other click changes nothing.
pub open spec fn after_place(g: GameView, index: int) -> GameView {
    if accepts(g, index) {
        let board = g.board.update(index, marker_num(g.turn));
        GameView { board, turn: other(g.turn), state: state_of(board) }
    } else {
        g
    }
}

/// The match after the clicks of `moves`, in order.
pub open spec fn run(g: GameView, moves: Seq<int>) -> GameView
    decreases moves.len(),
{
    if moves.len() == 0 {
        g
    } else {
        run(after_place(g, moves[0]), moves.drop_first())
    }
}

/// How many clicks of `moves`, played in order from `g`, are taken.
pub open spec fn taken(g: GameView, moves: Seq<int>) -> nat
    decreases moves.len(),
{
    if moves.len() == 0 {
        0
    } else {
        (if accepts(g, moves[0]) { 1nat } else { 0nat }) + taken(
            after_place(g, moves[0]),
            moves.drop_first(),
        )
    }
}

/// A match: the cells, the board they fill, whose move it is, and whether the
/// match has ended.
pub struct Game {
    pub cells: Vec<Cell>,
    pub grid: Grid,
    pub turn: Turn,
    pub state: GameState,
}

impl View for Game {
    type V = GameView;

    open spec fn view(&self) -> GameView {
        GameView { board: self.grid.state@, turn: self.turn.0, state: self.state }
    }
}

impl Game {
    /// Cell `i` sits at index `i`, the board holds each cell's marker, and
    /// the state is what the board decides.
    pub open spec fn wf(&self) -> bool {
        &&& self.grid.wf()
        &&& self.cells@.len() == 9
        &&& forall|i: int|
            0 <= i < 9 ==> (#[trigger] self.cells@[i]).index == i && self.grid.state@[i]
                == occupancy_num(self.cells@[i].marker)
        &&& self.state == state_of(self.grid.state@)
    }

    /// A fresh match: nine empty cells, X to move.
    pub fn new() -> (r: Self)
        ensures
            r.wf(),
            r@.board == seq![0i32; 9],
            r@.turn == MarkerType::X,
            r@.state == GameState::Playing,
    {
        let mut cells: Vec<Cell> = Vec::new();
        let mut i: usize = 0;
        while i < 9
            invariant
                i <= 9,
                cells@.len() == i,
                forall|j: int|
                    0 <= j < i ==> (#[trigger] cells@[j]).index == j && cells@[j].marker is None,
            decreases 9 - i,
        {
            cells.push(Cell::new(i));
            i = i + 1;
        }
        let grid = Grid::default();
        let r = Game { cells, grid, turn: Turn(MarkerType::X), state: GameState::Playing };
        proof {
            // an empty cell shows that the board is not full
            assert(r.grid.state@[0] == 0);
        }
        r
    }

    /// Puts the current player's marker on cell `index` if it is empty, and
    /// hands the turn over; returns whether it did.
    fn mark_cell(&mut self, index: usize) -> (r: bool)
        requires
            old(self).grid.wf(),
            old(self).cells@.len() == 9,
            forall|i: int|
                0 <= i < 9 ==> (#[trigger] old(self).cells@[i]).index == i
                    && old(self).grid.state@[i] == occupancy_num(old(self).cells@[i].marker),
            index < 9,
        ensures
            r == (old(self).grid.state@[index as int] == 0),
            final(self).grid.wf(),
            final(self).cells@.len() == 9,
            forall|i: int|
                0 <= i < 9 ==> (#[trigger] final(self).cells@[i]).index == i
                    && final(self).grid.state@[i] == occupancy_num(final(self).cells@[i].marker),
            final(self).state == old(self).state,
            r ==> final(self).grid.state@ == old(self).grid.state@.update(
                index as int,
                marker_num(old(self).turn.0),
            ),
            r ==> final(self).turn.0 == other(old(self).turn.0),
            !r ==> final(self)@ == old(self)@,
    {
        let mut cell = self.cells[index];
        if cell.marker.is_none() {
            let marker = self.turn.0;
            self.turn.toggle();
            cell.mark(marker);
            self.cells.set(index, cell);
            self.grid.state.set(index, marker_to_num(&marker));
            proof {
                assert forall|i: int| 0 <= i < 9 implies 0 <= #[trigger] self.grid.state@[i]
                    <= 2 by {
                    if i != index {
                        assert(old(self).grid.state@[i] == self.grid.state@[i]);
                    }
                }
            }
            true
        } else {
            false
        }
    }

    /// A click on cell `index`: while the match goes on and the cell is
    /// empty, the current player's marker goes there, the turn passes and the
    /// board is evaluated; otherwise nothing changes. Returns whether the move
    /// was taken.
    pub fn place(&mut self, index: usize) -> (r: bool)
        requires
            old(self).wf(),
            index < 9,
        ensures
            final(self).wf(),
            r == accepts(old(self)@, index as int),
            final(self)@ == after_place(old(self)@, index as int),
    {
        if !playing(&self.state) {
            return false;
        }
        let taken = self.mark_cell(index);
        if taken {
            check_game_state(&self.grid, &mut self.state);
        }
        taken
    }
}

} // verus!
