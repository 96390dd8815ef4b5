//! The per-connection session state machine.
//!
//! A session owns its board, the append-only list of captured pieces,
//! and the optional picked square awaiting a destination. Decoded
//! client messages drive it; each step yields at most one reply. The
//! spec transition function `spec_step` is the authority: every
//! executable step is proved to follow it, and the protocol laws are
//! proved about it.

use vstd::prelude::*;

use crate::board::{square, start_board, BoardState};
use crate::board_pos::BoardPos;
use crate::piece::Piece;
use crate::protocol::{ClientMessage, ClientMessageView, ServerMessage, ServerMessageView};
use crate::valid_moves::legal_destinations;

verus! {

/// The mathematical state of a session.
pub struct SessionModel {
    /// The 64 squares of the board.
    pub board: Seq<Option<Piece>>,
    /// The pieces captured so far, oldest first.
    pub taken: Seq<Piece>,
    /// The square whose piece is selected and awaits a destination.
    pub picked: Option<BoardPos>,
}

/// A well-formed session: a full board, and a picked square that
/// still holds a piece.
pub open spec fn model_wf(m: SessionModel) -> bool {
    &&& m.board.len() == 64
    &&& (m.picked matches Some(p) ==> square(m.board, p) is Some)
}

/// The state a session starts in: the starting board, no captures,
/// nothing picked.
pub open spec fn initial_model() -> SessionModel {
    SessionModel { board: start_board(), taken: Seq::empty(), picked: None }
}

/// Applying an accepted move: the piece leaves `from`; whatever then
/// occupies the destination is captured; the piece lands on `to`.
/// Yields the new board, the new capture list and the captured piece.
pub open spec fn spec_apply(
    board: Seq<Option<Piece>>,
    taken: Seq<Piece>,
    from: BoardPos,
    to: BoardPos,
) -> (Seq<Option<Piece>>, Seq<Piece>, Option<Piece>) {
    let piece = square(board, from)->0;
    let cleared = board.update(from.flat_index(), None);
    let takes = square(cleared, to);
    let new_taken = if takes is Some {
        taken.push(takes->0)
    } else {
        taken
    };
    let placed = cleared.update(to.flat_index(), Some(piece));
    (placed, new_taken, takes)
}

/// One step of the session protocol: the state after a decoded client
/// message, and the reply it earns.
///
/// - `Picked` on an occupied square selects it (a fresh pick
///   overwrites an earlier one) and is answered with the legal
///   destinations; on an empty square it is an error and changes
///   nothing.
/// - `Placed` with nothing picked is an error. With `from` picked, the
///   move is accepted if it returns to `from` or lands on a legal
///   destination; acceptance applies the move and clears the pick.
///   Any other destination is an error that keeps the selection.
/// - A client error report is logged by the caller; it earns no reply
///   and changes nothing.
pub open spec fn spec_step(m: SessionModel, msg: ClientMessageView) -> (
    SessionModel,
    Option<ServerMessageView>,
) {
    match msg {
        ClientMessageView::Picked(pos) => {
            if square(m.board, pos) is Some {
                (
                    SessionModel { picked: Some(pos), ..m },
                    Some(ServerMessageView::ValidMoves(legal_destinations(m.board))),
                )
            } else {
                (m, Some(ServerMessageView::Error("No piece at picked location"@)))
            }
        },
        ClientMessageView::Placed(to) => {
            match m.picked {
                None => (
                    m,
                    Some(ServerMessageView::Error("Trying to place without picking a piece"@)),
                ),
                Some(from) => {
                    if to == from || legal_destinations(m.board).contains(to) {
                        let (board, taken, takes) = spec_apply(m.board, m.taken, from, to);
                        (
                            SessionModel { board, taken, picked: None },
                            Some(ServerMessageView::Place { from, to, takes }),
                        )
                    } else {
                        (m, Some(ServerMessageView::Error("Placing in an invalid location"@)))
                    }
                },
            }
        },
        ClientMessageView::Error(_) => (m, None),
    }
}

/// The reply the executable step returned carries exactly the content
/// the spec step asks for.
pub open spec fn reply_matches(
    reply: Option<ServerMessage>,
    expected: Option<ServerMessageView>,
) -> bool {
    match (reply, expected) {
        (Some(message), Some(view)) => message@ == view,
        (None, None) => true,
        _ => false,
    }
}

/// One step of the session protocol driven by raw frame text: a frame
/// that fits the message grammar is handled by `spec_step`; one that
/// does not is answered with a decode error and changes nothing. A bad
/// frame never ends the session.
pub open spec fn spec_handle_frame(m: SessionModel, text: Seq<char>) -> (
    SessionModel,
    Option<ServerMessageView>,
) {
    match crate::codec::spec_decode(text) {
        Some(msg) => spec_step(m, msg),
        None => (m, Some(ServerMessageView::Error("Could not decode message"@))),
    }
}

/// A step preserves well-formedness: the board keeps its 64 squares,
/// and whenever a square stays picked it still holds a piece.
pub proof fn lemma_step_preserves_wf(m: SessionModel, msg: ClientMessageView)
    requires
        model_wf(m),
    ensures
        model_wf(spec_step(m, msg).0),
{
}

/// The capture list is append-only: no step ever removes or reorders
/// what an earlier step recorded.
pub proof fn lemma_captures_append_only(m: SessionModel, msg: ClientMessageView)
    ensures
        m.taken.is_prefix_of(spec_step(m, msg).0.taken),
{
    let taken = spec_step(m, msg).0.taken;
    assert(m.taken.is_prefix_of(m.taken)) by {
        assert(m.taken.subrange(0, m.taken.len() as int) =~= m.taken);
    }
    if taken.len() > m.taken.len() {
        assert(taken.subrange(0, m.taken.len() as int) =~= m.taken);
    }
}

/// Picking an empty square is always answered with an error and
/// changes nothing: not the board, not the captures, not the
/// selection.
pub proof fn lemma_pick_empty_square(m: SessionModel, pos: BoardPos)
    requires
        square(m.board, pos) is None,
    ensures
        spec_step(m, ClientMessageView::Picked(pos)).0 == m,
        spec_step(m, ClientMessageView::Picked(pos)).1 == Some(
            ServerMessageView::Error("No piece at picked location"@),
        ),
{
}

/// Picking an occupied square and then placing it on its own square
/// always succeeds as a no-op cancellation: the first step is answered
/// with the legal destinations, the second with a capture-free `Place`
/// onto the same square, and the session returns to the idle state
/// over an unchanged board and capture list.
pub proof fn lemma_pick_then_place_same_square(m: SessionModel, pos: BoardPos)
    requires
        model_wf(m),
        square(m.board, pos) is Some,
    ensures
        ({
            let (picked_m, first_reply) = spec_step(m, ClientMessageView::Picked(pos));
            let (final_m, second_reply) = spec_step(picked_m, ClientMessageView::Placed(pos));
            &&& first_reply == Some(ServerMessageView::ValidMoves(legal_destinations(m.board)))
            &&& second_reply == Some(
                ServerMessageView::Place { from: pos, to: pos, takes: None },
            )
            &&& final_m.board == m.board
            &&& final_m.taken == m.taken
            &&& final_m.picked is None
        }),
{
    let (picked_m, _) = spec_step(m, ClientMessageView::Picked(pos));
    let (final_m, _) = spec_step(picked_m, ClientMessageView::Placed(pos));
    assert(final_m.board =~= m.board);
}

/// A `Placed` request while nothing is picked is always answered with
/// the place-without-picking error and mutates nothing.
pub proof fn lemma_place_while_idle(m: SessionModel, to: BoardPos)
    requires
        m.picked is None,
    ensures
        spec_step(m, ClientMessageView::Placed(to)).0 == m,
        spec_step(m, ClientMessageView::Placed(to)).1 == Some(
            ServerMessageView::Error("Trying to place without picking a piece"@),
        ),
{
}

/// Capture bookkeeping: whenever an accepted move lands on an occupied
/// destination, exactly that one piece is appended to the capture
/// list, the destination square afterwards holds the moved piece, and
/// the origin square is empty.
pub proof fn lemma_capture_bookkeeping(
    board: Seq<Option<Piece>>,
    taken: Seq<Piece>,
    from: BoardPos,
    to: BoardPos,
)
    requires
        board.len() == 64,
        square(board, from) is Some,
        to != from,
        square(board, to) is Some,
    ensures
        ({
            let (new_board, new_taken, takes) = spec_apply(board, taken, from, to);
            &&& takes == square(board, to)
            &&& new_taken == taken.push(square(board, to)->0)
            &&& square(new_board, to) == square(board, from)
            &&& square(new_board, from) is None
        }),
{
    if from.flat_index() == to.flat_index() {
        crate::board_pos::lemma_flat_index_injective(from, to);
    }
}

/// The live state of one connection's game.
pub struct Session {
    /// The current board.
    pub board: BoardState,
    /// The pieces captured during this session, oldest first.
    pub taken: Vec<Piece>,
    /// The square picked and awaiting a destination, if any.
    pub picked: Option<BoardPos>,
}

impl View for Session {
    type V = SessionModel;

    open spec fn view(&self) -> SessionModel {
        SessionModel { board: self.board@, taken: self.taken@, picked: self.picked }
    }
}

/// True of a list exactly when it holds the given position.
fn contains_pos(list: &Vec<BoardPos>, pos: BoardPos) -> (r: bool)
    ensures
        r == list@.contains(pos),
{
    let mut i: usize = 0;
    while i < list.len()
        invariant
            i <= list@.len(),
            forall|j: int| 0 <= j < i ==> list@[j] != pos,
        decreases list@.len() - i,
    {
        if list[i] == pos {
            return true;
        }
        i = i + 1;
    }
    false
}

impl Session {
    /// A well-formed session; every public step preserves this.
    pub open spec fn wf(&self) -> bool {
        model_wf(self@)
    }

    /// A fresh session over the starting board.
    pub fn new() -> (s: Session)
        ensures
            s@ == initial_model(),
            s.wf(),
    {
        let s = Session { board: BoardState::default(), taken: Vec::new(), picked: None };
        proof {
            assert(s@.taken =~= initial_model().taken);
            assert(s@ == initial_model());
        }
        s
    }

    /// The opening message a session sends its peer: the board as it
    /// stands.
    pub fn start_message(&self) -> (m: ServerMessage)
        ensures
            m@ == ServerMessageView::Start(self@.board),
    {
        ServerMessage::Start(self.board)
    }

    /// Applies an accepted move from `from` to `to`, in the order the
    /// protocol fixes: the piece leaves its square, a piece then
    /// occupying the destination is appended to the capture list, and
    /// the moved piece lands on the destination. Exactly one piece is
    /// captured when the destination was occupied, none otherwise; a
    /// move back onto its own square leaves the board unchanged.
    pub fn apply_move(&mut self, from: BoardPos, to: BoardPos) -> (takes: Option<Piece>)
        requires
            old(self).wf(),
            square(old(self)@.board, from) is Some,
        ensures
            final(self)@.board.len() == old(self)@.board.len(),
            (final(self)@.board, final(self)@.taken, takes) == spec_apply(
                old(self)@.board,
                old(self)@.taken,
                from,
                to,
            ),
            final(self)@.picked == old(self)@.picked,
            square(final(self)@.board, to) == square(old(self)@.board, from),
            to != from ==> square(final(self)@.board, from) is None,
            to != from && square(old(self)@.board, to) is Some ==> takes == square(
                old(self)@.board,
                to,
            ) && final(self)@.taken == old(self)@.taken.push(square(old(self)@.board, to)->0),
            to != from && square(old(self)@.board, to) is None ==> takes is None && final(self)@.taken
                == old(self)@.taken,
            to == from ==> takes is None && final(self)@.board == old(self)@.board && final(self)@.taken
                == old(self)@.taken,
    {
        let piece = match self.board.get(from) {
            Some(piece) => piece,
            None => vstd::pervasive::unreached(),
        };
        self.board.set(from, None);
        let takes = self.board.get(to);
        if let Some(captured) = takes {
            self.taken.push(captured);
        }
        self.board.set(to, Some(piece));
        proof {
            if to == from {
                assert(final(self)@.board =~= old(self)@.board);
            }
            match old(self)@.picked {
                Some(p) => {
                    if p.flat_index() != from.flat_index() && p.flat_index() != to.flat_index() {
                        assert(square(final(self)@.board, p) == square(old(self)@.board, p));
                    }
                },
                None => {},
            }
        }
        takes
    }

    /// One step of the session protocol, as `spec_step` fixes it.
    pub fn handle_message(&mut self, message: ClientMessage) -> (reply: Option<ServerMessage>)
        requires
            old(self).wf(),
        ensures
            final(self).wf(),
            final(self)@ == spec_step(old(self)@, message@).0,
            reply_matches(reply, spec_step(old(self)@, message@).1),
    {
        match message {
            ClientMessage::Picked(pos) => {
                if self.board.get(pos).is_some() {
                    let moves = self.board.valid_moves(pos);
                    self.picked = Some(pos);
                    Some(ServerMessage::ValidMoves(moves))
                } else {
                    Some(ServerMessage::Error("No piece at picked location"))
                }
            },
            ClientMessage::Placed(to) => {
                match self.picked {
                    None => Some(ServerMessage::Error("Trying to place without picking a piece")),
                    Some(from) => {
                        let moves = self.board.valid_moves(from);
                        if to == from || contains_pos(&moves, to) {
                            let takes = self.apply_move(from, to);
                            self.picked = None;
                            Some(ServerMessage::Place { from, to, takes })
                        } else {
                            Some(ServerMessage::Error("Placing in an invalid location"))
                        }
                    },
                }
            },
            ClientMessage::Error(_) => None,
        }
    }

    /// One step of the session protocol driven by the text of one
    /// received frame, as `spec_handle_frame` fixes it.
    pub fn handle_frame(&mut self, text: &str) -> (reply: Option<ServerMessage>)
        requires
            old(self).wf(),
        ensures
            final(self).wf(),
            final(self)@ == spec_handle_frame(old(self)@, text@).0,
            reply_matches(reply, spec_handle_frame(old(self)@, text@).1),
    {
        match crate::codec::decode_client_message(text) {
            Some(message) => self.handle_message(message),
            None => Some(ServerMessage::Error("Could not decode message")),
        }
    }
}

} // verus!
