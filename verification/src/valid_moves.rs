//! The rules engine's placeholder legality computation.
//!
//! The session layer treats move legality as an external concern; the
//! placeholder engine used here deems every empty square a legal
//! destination, whichever piece was picked. It walks the board rank by
//! rank from rank 8 down, files left to right, so the reply is a
//! deterministically ordered set of positions that never contains an
//! occupied square — in particular never the picked square itself.

use vstd::prelude::*;

use crate::board::{square, BoardState};
use crate::board_pos::{file_of, rank_of, BoardPos};
use crate::piece::Piece;

verus! {

broadcast use vstd::seq_lib::lemma_seq_contains_after_push;

/// The square visited at step `k` of the walk: rank 8 first, files
/// left to right within a rank.
pub open spec fn walk_pos(k: int) -> BoardPos {
    BoardPos(file_of(k % 8), rank_of(7 - k / 8))
}

/// The legal destinations gathered by the first `k` steps of the walk.
pub open spec fn destinations_up_to(board: Seq<Option<Piece>>, k: int) -> Seq<BoardPos>
    decreases k,
{
    if k <= 0 {
        Seq::empty()
    } else if square(board, walk_pos(k - 1)) is None {
        destinations_up_to(board, k - 1).push(walk_pos(k - 1))
    } else {
        destinations_up_to(board, k - 1)
    }
}

/// Every legal destination on a board: the empty squares, in walk
/// order.
pub open spec fn legal_destinations(board: Seq<Option<Piece>>) -> Seq<BoardPos> {
    destinations_up_to(board, 64)
}

/// A position stands among the first `k` steps of the walk's
/// destinations if and only if the walk has passed it and its square
/// is empty.
proof fn lemma_destinations_up_to_contains(board: Seq<Option<Piece>>, k: int, p: BoardPos)
    requires
        0 <= k <= 64,
    ensures
        destinations_up_to(board, k).contains(p) <==> ((7 - p.y_index()) * 8 + p.x_index() < k
            && square(board, p) is None),
    decreases k,
{
    broadcast use crate::board_pos::lemma_pos_of_index;

    if k > 0 {
        lemma_destinations_up_to_contains(board, k - 1, p);
        assert(walk_pos(k - 1).x_index() == (k - 1) % 8);
        assert(walk_pos(k - 1).y_index() == 7 - (k - 1) / 8);
        if p == walk_pos(k - 1) {
            assert((7 - p.y_index()) * 8 + p.x_index() == k - 1);
        }
        if (7 - p.y_index()) * 8 + p.x_index() == k - 1 {
            assert(walk_pos(k - 1) == p);
        }
    }
}

/// The legal destinations are exactly the empty squares.
pub proof fn lemma_legal_destinations_are_empty_squares(board: Seq<Option<Piece>>, p: BoardPos)
    ensures
        legal_destinations(board).contains(p) <==> square(board, p) is None,
{
    lemma_destinations_up_to_contains(board, 64, p);
}

/// The legal destinations for a picked piece never include its own
/// square: the picked square is occupied, and only empty squares are
/// offered. (Returning the piece to its square is instead the cancel
/// shortcut the session accepts directly.)
pub proof fn lemma_legal_destinations_exclude_origin(board: Seq<Option<Piece>>, pos: BoardPos)
    requires
        square(board, pos) is Some,
    ensures
        !legal_destinations(board).contains(pos),
{
    lemma_legal_destinations_are_empty_squares(board, pos);
}

impl BoardState {
    /// The legal destinations for the piece picked at `piece_pos` on
    /// this board, as the placeholder rules engine computes them:
    /// every empty square, in walk order.
    pub fn valid_moves(&self, piece_pos: BoardPos) -> (r: Vec<BoardPos>)
        ensures
            r@ == legal_destinations(self@),
    {
        let mut r: Vec<BoardPos> = Vec::new();
        let mut k: usize = 0;
        while k < 64
            invariant
                k <= 64,
                r@ == destinations_up_to(self@, k as int),
            decreases 64 - k,
        {
            let x: usize = k % 8;
            let y: usize = 7 - k / 8;
            let pos = match BoardPos::try_from((x, y)) {
                Ok(pos) => pos,
                Err(_) => vstd::pervasive::unreached(),
            };
            proof {
                broadcast use crate::board_pos::lemma_pos_of_index;

                assert(pos == walk_pos(k as int));
            }
            if self.get(pos).is_none() {
                r.push(pos);
            }
            k = k + 1;
        }
        r
    }
}

} // verus!
