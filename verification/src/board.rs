//! The 8x8 board: a grid of optional pieces addressed by `BoardPos`.
//!
//! The board's view is a flat sequence of 64 optional pieces, row by
//! row from rank 1; square `(x, y)` sits at flat index `y * 8 + x`.

use vstd::prelude::*;

use crate::board_pos::BoardPos;
use crate::piece::Piece;
use crate::piece::PieceType;
use crate::piece::PieceType::{Bishop, King, Knight, Pawn, Queen, Rook};
use crate::piece::Player;
use crate::piece::Player::{Black, White};

verus! {

broadcast use vstd::array::group_array_axioms;

/// The contents of one square of the standard starting arrangement:
/// the two back ranks of major and minor pieces, two ranks of pawns,
/// and four empty ranks between. White plays from ranks 1 and 2,
/// black from ranks 7 and 8.
pub open spec fn start_square(x: int, y: int) -> Option<Piece> {
    let kind = if x == 0 || x == 7 {
        PieceType::Rook
    } else if x == 1 || x == 6 {
        PieceType::Knight
    } else if x == 2 || x == 5 {
        PieceType::Bishop
    } else if x == 3 {
        PieceType::Queen
    } else {
        PieceType::King
    };
    if y == 0 {
        Some(Piece(Player::White, kind))
    } else if y == 1 {
        Some(Piece(Player::White, PieceType::Pawn))
    } else if y == 6 {
        Some(Piece(Player::Black, PieceType::Pawn))
    } else if y == 7 {
        Some(Piece(Player::Black, kind))
    } else {
        None
    }
}

/// The view of the starting board.
pub open spec fn start_board() -> Seq<Option<Piece>> {
    Seq::new(64, |i: int| start_square(i % 8, i / 8))
}

/// The number of pieces among the first `n` squares of a board view.
pub open spec fn piece_count_up_to(board: Seq<Option<Piece>>, n: int) -> int
    decreases n,
{
    if n <= 0 {
        0
    } else {
        piece_count_up_to(board, n - 1) + if board[n - 1] is Some {
            1int
        } else {
            0int
        }
    }
}

/// The number of pieces on a board view.
pub open spec fn piece_count(board: Seq<Option<Piece>>) -> int {
    piece_count_up_to(board, board.len() as int)
}

/// The other player.
pub open spec fn opponent(player: Player) -> Player {
    match player {
        Player::Black => Player::White,
        Player::White => Player::Black,
    }
}

/// The same square contents with the owner exchanged, for stating the
/// symmetry of the starting arrangement.
pub open spec fn owner_swapped(sq: Option<Piece>) -> Option<Piece> {
    match sq {
        Some(piece) => Some(Piece(opponent(piece.0), piece.1)),
        None => None,
    }
}

/// The starting board holds exactly 32 pieces; they are placed
/// symmetrically for both players (each square and its mirror across
/// the middle of the board hold the same kind for opposite owners);
/// and every square of the four middle ranks is empty.
pub proof fn lemma_start_board_population()
    ensures
        piece_count(start_board()) == 32,
        forall|x: int, y: int|
            0 <= x < 8 && 0 <= y < 8 ==> square_at(start_board(), x, 7 - y) == owner_swapped(
                square_at(start_board(), x, y),
            ),
        forall|x: int, y: int| 0 <= x < 8 && 2 <= y <= 5 ==> square_at(start_board(), x, y) is None,
{
    assert(piece_count(start_board()) == 32) by {
        reveal_with_fuel(piece_count_up_to, 65);
    }
}

/// An 8x8 grid of optional pieces. The grid shape itself enforces the
/// structural invariant that each square holds at most one piece.
#[derive(Debug, Clone, Copy, PartialEq, Eq)]
pub struct BoardState(pub [[Option<Piece>; 8]; 8]);

impl View for BoardState {
    type V = Seq<Option<Piece>>;

    /// The flat sequence of the 64 squares, row by row from rank 1.
    open spec fn view(&self) -> Seq<Option<Piece>> {
        Seq::new(64, |i: int| self.0[i / 8][i % 8])
    }
}

/// The square `(x, y)` of a board view.
pub open spec fn square_at(board: Seq<Option<Piece>>, x: int, y: int) -> Option<Piece> {
    board[y * 8 + x]
}

/// The square a position names in a board view.
pub open spec fn square(board: Seq<Option<Piece>>, pos: BoardPos) -> Option<Piece> {
    board[pos.flat_index()]
}

impl BoardState {
    /// The piece on the given square, if any.
    pub fn get(&self, pos: BoardPos) -> (r: Option<Piece>)
        ensures
            r == square(self@, pos),
    {
        let (x, y) = pos.to_indices();
        self.0[y][x]
    }

    /// Replaces the contents of the given square.
    pub fn set(&mut self, pos: BoardPos, value: Option<Piece>)
        ensures
            final(self)@ == old(self)@.update(pos.flat_index(), value),
    {
        let (x, y) = pos.to_indices();
        let mut row = self.0[y];
        row[x] = value;
        self.0[y] = row;
        proof {
            assert(final(self)@ =~= old(self)@.update(pos.flat_index(), value));
        }
    }
}

impl Default for BoardState {
    /// The starting board.
    fn default() -> (r: Self)
        ensures
            r@ == start_board(),
    {
        let r = BoardState(
            [
                [
                    Some(Piece(White, Rook)),
                    Some(Piece(White, Knight)),
                    Some(Piece(White, Bishop)),
                    Some(Piece(White, Queen)),
                    Some(Piece(White, King)),
                    Some(Piece(White, Bishop)),
                    Some(Piece(White, Knight)),
                    Some(Piece(White, Rook)),
                ],
                [
                    Some(Piece(White, Pawn)),
                    Some(Piece(White, Pawn)),
                    Some(Piece(White, Pawn)),
                    Some(Piece(White, Pawn)),
                    Some(Piece(White, Pawn)),
                    Some(Piece(White, Pawn)),
                    Some(Piece(White, Pawn)),
                    Some(Piece(White, Pawn)),
                ],
                [None, None, None, None, None, None, None, None],
                [None, None, None, None, None, None, None, None],
                [None, None, None, None, None, None, None, None],
                [None, None, None, None, None, None, None, None],
                [
                    Some(Piece(Black, Pawn)),
                    Some(Piece(Black, Pawn)),
                    Some(Piece(Black, Pawn)),
                    Some(Piece(Black, Pawn)),
                    Some(Piece(Black, Pawn)),
                    Some(Piece(Black, Pawn)),
                    Some(Piece(Black, Pawn)),
                    Some(Piece(Black, Pawn)),
                ],
                [
                    Some(Piece(Black, Rook)),
                    Some(Piece(Black, Knight)),
                    Some(Piece(Black, Bishop)),
                    Some(Piece(Black, Queen)),
                    Some(Piece(Black, King)),
                    Some(Piece(Black, Bishop)),
                    Some(Piece(Black, Knight)),
                    Some(Piece(Black, Rook)),
                ],
            ],
        );
        proof {
            assert(r@ =~= start_board());
        }
        r
    }
}

} // verus!
