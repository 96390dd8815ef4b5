//! Players and the pieces they own.

use vstd::prelude::*;

verus! {

/// One of the two sides of a game. The first player owns the black
/// pieces, the second the white ones.
#[derive(Debug, Clone, Copy, PartialEq, Eq, Structural)]
pub enum Player {
    Black,
    White,
}

/// The kind of a piece. The order of the variants gives the natural
/// total order used for deterministic display, not for game logic.
#[derive(Debug, Clone, Copy, PartialEq, Eq, PartialOrd, Ord, Structural)]
pub enum PieceType {
    King,
    Queen,
    Rook,
    Bishop,
    Knight,
    Pawn,
}

/// A piece on the board: its owner and its kind.
#[derive(Debug, Clone, Copy, PartialEq, Eq, Structural)]
pub struct Piece(pub Player, pub PieceType);

} // verus!
