//! The structured messages exchanged with the peer.
//!
//! Each message travels as one text frame; the codec turns these types
//! into frame text and back. The view types give the mathematical
//! content that contracts speak of: sequences in place of vectors and
//! strings.

use vstd::prelude::*;

use crate::board::BoardState;
use crate::board_pos::BoardPos;
use crate::piece::Piece;

verus! {

/// A server-to-client message.
#[derive(Debug, Clone, PartialEq, Eq)]
pub enum ServerMessage {
    /// The opening message: the full board at session start.
    Start(BoardState),
    /// The legal destinations for the piece just picked.
    ValidMoves(Vec<BoardPos>),
    /// An accepted move, with the captured piece if the destination
    /// was occupied.
    Place { from: BoardPos, to: BoardPos, takes: Option<Piece> },
    /// The game is over; the flag says whether the first player won.
    GameEnd(bool),
    /// A diagnostic reply to a request the session cannot honour.
    Error(&'static str),
}

/// A client-to-server message.
#[derive(Debug, Clone, PartialEq, Eq)]
pub enum ClientMessage {
    /// The client selects the piece on this square.
    Picked(BoardPos),
    /// The client asks to move the selected piece to this square.
    Placed(BoardPos),
    /// A client-side error report; logged, never answered.
    Error(String),
}

/// The mathematical content of a `ServerMessage`.
pub enum ServerMessageView {
    Start(Seq<Option<Piece>>),
    ValidMoves(Seq<BoardPos>),
    Place { from: BoardPos, to: BoardPos, takes: Option<Piece> },
    GameEnd(bool),
    Error(Seq<char>),
}

/// The mathematical content of a `ClientMessage`.
pub enum ClientMessageView {
    Picked(BoardPos),
    Placed(BoardPos),
    Error(Seq<char>),
}

impl View for ServerMessage {
    type V = ServerMessageView;

    open spec fn view(&self) -> ServerMessageView {
        match self {
            ServerMessage::Start(board) => ServerMessageView::Start(board@),
            ServerMessage::ValidMoves(moves) => ServerMessageView::ValidMoves(moves@),
            ServerMessage::Place { from, to, takes } => ServerMessageView::Place {
                from: *from,
                to: *to,
                takes: *takes,
            },
            ServerMessage::GameEnd(first_won) => ServerMessageView::GameEnd(*first_won),
            ServerMessage::Error(text) => ServerMessageView::Error(text@),
        }
    }
}

impl View for ClientMessage {
    type V = ClientMessageView;

    open spec fn view(&self) -> ClientMessageView {
        match self {
            ClientMessage::Picked(pos) => ClientMessageView::Picked(*pos),
            ClientMessage::Placed(pos) => ClientMessageView::Placed(*pos),
            ClientMessage::Error(text) => ClientMessageView::Error(text@),
        }
    }
}

} // verus!
