use vstd::prelude::*;

use crate::game::{
    accepts, after_place, count_of, has_line, is_full, outcome_of, run, taken, valid_view,
    GameState, GameView, Outcome,
};
use crate::grid::{other, MarkerType};
use crate::util::marker_num;

verus! {

/// A single click keeps the board valid.
pub proof fn lemma_place_keeps_valid(g: GameView, index: int)
    requires
        valid_view(g),
    ensures
        valid_view(after_place(g, index)),
{
    if accepts(g, index) {
        let b = after_place(g, index).board;
        assert forall|i: int| 0 <= i < 9 implies 0 <= #[trigger] b[i] <= 2 by {
            if i != index {
                assert(b[i] == g.board[i]);
            }
        }
    }
}

/// Once a cell holds a marker, no sequence of clicks changes it.
pub proof fn lemma_cells_never_overwritten(g: GameView, moves: Seq<int>, k: int)
    requires
        valid_view(g),
        0 <= k < 9,
        g.board[k] != 0,
    ensures
        run(g, moves).board[k] == g.board[k],
    decreases moves.len(),
{
    if moves.len() > 0 {
        let g1 = after_place(g, moves[0]);
        lemma_place_keeps_valid(g, moves[0]);
        assert(g1.board[k] == g.board[k]);
        lemma_cells_never_overwritten(g1, moves.drop_first(), k);
    }
}

/// Of two moves taken one after the other, the first places the marker of
/// the player to move and the second that of the other player; the turn then
/// comes back to the first.
pub proof fn lemma_turns_alternate(g: GameView, i: int, j: int)
    requires
        valid_view(g),
        accepts(g, i),
        accepts(after_place(g, i), j),
    ensures
        after_place(g, i).board[i] == marker_num(g.turn),
        after_place(after_place(g, i), j).board[j] == marker_num(other(g.turn)),
        after_place(g, i).turn == other(g.turn),
        after_place(after_place(g, i), j).turn == g.turn,
{
}

/// Once the match is over, no sequence of clicks changes anything.
pub proof fn lemma_over_is_final(g: GameView, moves: Seq<int>)
    requires
        g.state is Over,
    ensures
        run(g, moves) == g,
    decreases moves.len(),
{
    if moves.len() > 0 {
        assert(after_place(g, moves[0]) == g);
        lemma_over_is_final(g, moves.drop_first());
    }
}

/// A full board that holds a winning line is a win, never a draw.
pub proof fn lemma_win_before_draw(b: Seq<i32>)
    requires
        b.len() == 9,
        is_full(b),
        has_line(b, 1) || has_line(b, 2),
    ensures
        outcome_of(b) != Some(Outcome::Draw),
        outcome_of(b) == Some(Outcome::XWins) || outcome_of(b) == Some(Outcome::OWins),
{
}

/// X has as many markers as O when X is to move, and one more when O is.
pub open spec fn balanced(g: GameView) -> bool {
    count_of(g.board, 1) as int - count_of(g.board, 2) as int == (if g.turn == MarkerType::O {
        1int
    } else {
        0int
    })
}

/// A value that no cell holds is counted zero times.
pub proof fn lemma_count_absent(b: Seq<i32>, v: i32)
    requires
        forall|i: int| 0 <= i < b.len() ==> #[trigger] b[i] != v,
    ensures
        count_of(b, v) == 0,
    decreases b.len(),
{
    if b.len() > 0 {
        let d = b.drop_last();
        assert forall|i: int| 0 <= i < d.len() implies #[trigger] d[i] != v by {
            assert(d[i] == b[i]);
        }
        lemma_count_absent(d, v);
    }
}

/// Writing `w` over an empty cell adds one to the count of `w` and takes one
/// from the count of empty cells; other counts stay.
pub proof fn lemma_count_update(b: Seq<i32>, i: int, w: i32, v: i32)
    requires
        0 <= i < b.len(),
        b[i] == 0,
    ensures
        count_of(b.update(i, w), v) as int == count_of(b, v) as int + (if v == w {
            1int
        } else {
            0int
        }) - (if v == 0 {
            1int
        } else {
            0int
        }),
    decreases b.len(),
{
    let u = b.update(i, w);
    if i == b.len() - 1 {
        assert(u.drop_last() =~= b.drop_last());
    } else {
        assert(u.drop_last() =~= b.drop_last().update(i, w));
        lemma_count_update(b.drop_last(), i, w, v);
    }
}

/// A fresh match, nine empty cells with X to move, is balanced.
pub proof fn lemma_fresh_balanced()
    ensures
        balanced(GameView { board: seq![0i32; 9], turn: MarkerType::X, state: GameState::Playing }),
{
    let b = seq![0i32; 9];
    lemma_count_absent(b, 1);
    lemma_count_absent(b, 2);
}

/// Over any sequence of clicks, the turn passes once for each taken move and
/// each taken move fills one empty cell; a balanced match stays balanced.
pub proof fn lemma_run_counts(g: GameView, moves: Seq<int>)
    requires
        valid_view(g),
    ensures
        run(g, moves).turn == (if taken(g, moves) % 2 == 0 {
            g.turn
        } else {
            other(g.turn)
        }),
        count_of(run(g, moves).board, 0) + taken(g, moves) == count_of(g.board, 0),
        balanced(g) ==> balanced(run(g, moves)),
    decreases moves.len(),
{
    if moves.len() > 0 {
        let i = moves[0];
        let g1 = after_place(g, i);
        lemma_place_keeps_valid(g, i);
        if accepts(g, i) {
            let w = if g.turn == MarkerType::X { 1i32 } else { 2i32 };
            assert(g1.board == g.board.update(i, w));
            lemma_count_update(g.board, i, w, 0);
            lemma_count_update(g.board, i, w, 1);
            lemma_count_update(g.board, i, w, 2);
        }
        lemma_run_counts(g1, moves.drop_first());
    }
}

} // verus!
