use shahmaat::board_pos::{BoardPos, BoardPosX, BoardPosY};
use shahmaat::piece::{Piece, PieceType, Player};
use shahmaat::protocol::{ClientMessage, ServerMessage};
use shahmaat::session::Session;

fn e(rank: BoardPosY) -> BoardPos {
    BoardPos(BoardPosX::E, rank)
}

#[test]
fn start_message_carries_the_board() {
    let session = Session::new();
    match session.start_message() {
        ServerMessage::Start(board) => {
            assert_eq!(board, session.board);
        }
        other => panic!("expected a Start message, got {other:?}"),
    }
}

#[test]
fn pick_on_empty_square_errors_and_stays_idle() {
    let mut session = Session::new();
    let reply = session.handle_message(ClientMessage::Picked(e(BoardPosY::_4)));
    assert_eq!(reply, Some(ServerMessage::Error("No piece at picked location")));
    assert_eq!(session.picked, None);
    assert!(session.taken.is_empty());
}

#[test]
fn pick_then_place_same_square_is_a_noop_cancel() {
    let mut session = Session::new();
    let before = session.board;
    let e2 = e(BoardPosY::_2);
    let first = session.handle_message(ClientMessage::Picked(e2));
    match first {
        Some(ServerMessage::ValidMoves(moves)) => assert!(!moves.is_empty()),
        other => panic!("expected ValidMoves, got {other:?}"),
    }
    assert_eq!(session.picked, Some(e2));
    let second = session.handle_message(ClientMessage::Placed(e2));
    assert_eq!(
        second,
        Some(ServerMessage::Place { from: e2, to: e2, takes: None })
    );
    assert_eq!(session.picked, None);
    assert_eq!(session.board, before);
    assert!(session.taken.is_empty());
}

#[test]
fn place_while_idle_errors_and_mutates_nothing() {
    let mut session = Session::new();
    let before = session.board;
    let reply = session.handle_message(ClientMessage::Placed(e(BoardPosY::_4)));
    assert_eq!(
        reply,
        Some(ServerMessage::Error("Trying to place without picking a piece"))
    );
    assert_eq!(session.board, before);
    assert_eq!(session.picked, None);
    assert!(session.taken.is_empty());
}

#[test]
fn place_on_occupied_square_errors_and_keeps_selection() {
    let mut session = Session::new();
    let e2 = e(BoardPosY::_2);
    let e7 = e(BoardPosY::_7);
    let before = session.board;
    session.handle_message(ClientMessage::Picked(e2));
    let reply = session.handle_message(ClientMessage::Placed(e7));
    assert_eq!(reply, Some(ServerMessage::Error("Placing in an invalid location")));
    assert_eq!(session.picked, Some(e2));
    assert_eq!(session.board, before);
    assert!(session.taken.is_empty());
}

#[test]
fn accepted_move_relocates_the_piece() {
    let mut session = Session::new();
    let e2 = e(BoardPosY::_2);
    let e4 = e(BoardPosY::_4);
    session.handle_message(ClientMessage::Picked(e2));
    let reply = session.handle_message(ClientMessage::Placed(e4));
    assert_eq!(
        reply,
        Some(ServerMessage::Place { from: e2, to: e4, takes: None })
    );
    assert_eq!(session.board.get(e2), None);
    assert_eq!(
        session.board.get(e4),
        Some(Piece(Player::White, PieceType::Pawn))
    );
    assert_eq!(session.picked, None);
    assert!(session.taken.is_empty());
}

#[test]
fn capture_appends_exactly_one_piece() {
    let mut session = Session::new();
    let e2 = e(BoardPosY::_2);
    let e7 = e(BoardPosY::_7);
    let takes = session.apply_move(e2, e7);
    assert_eq!(takes, Some(Piece(Player::Black, PieceType::Pawn)));
    assert_eq!(session.taken, vec![Piece(Player::Black, PieceType::Pawn)]);
    assert_eq!(
        session.board.get(e7),
        Some(Piece(Player::White, PieceType::Pawn))
    );
    assert_eq!(session.board.get(e2), None);
}

#[test]
fn client_error_report_earns_no_reply() {
    let mut session = Session::new();
    let before = session.board;
    let reply = session.handle_message(ClientMessage::Error(String::from("renderer crashed")));
    assert_eq!(reply, None);
    assert_eq!(session.board, before);
    assert_eq!(session.picked, None);
}

#[test]
fn undecodable_frame_is_answered_not_fatal() {
    let mut session = Session::new();
    let before = session.board;
    let reply = session.handle_frame("{\"Picked\":");
    assert_eq!(reply, Some(ServerMessage::Error("Could not decode message")));
    assert_eq!(session.board, before);
    assert_eq!(session.picked, None);
    // The session keeps running: a well-formed frame still works.
    let next = session.handle_frame("{\"Picked\":\"e2\"}");
    assert!(matches!(next, Some(ServerMessage::ValidMoves(_))));
}

#[test]
fn end_to_end_pawn_advance() {
    let mut session = Session::new();
    let e2 = e(BoardPosY::_2);
    let e3 = e(BoardPosY::_3);
    let e4 = e(BoardPosY::_4);

    let first = session.handle_frame("{\"Picked\":\"e2\"}");
    match first {
        Some(ServerMessage::ValidMoves(moves)) => {
            assert!(!moves.is_empty());
            assert!(!moves.contains(&e2));
            assert!(moves.contains(&e3));
            assert!(moves.contains(&e4));
        }
        other => panic!("expected ValidMoves, got {other:?}"),
    }

    let second = session.handle_frame("{\"Placed\":\"e4\"}");
    assert_eq!(
        second,
        Some(ServerMessage::Place { from: e2, to: e4, takes: None })
    );

    let third = session.handle_frame("{\"Picked\":\"e4\"}");
    assert!(matches!(third, Some(ServerMessage::ValidMoves(_))));
    assert_eq!(
        session.board.get(e4),
        Some(Piece(Player::White, PieceType::Pawn))
    );
}

#[test]
fn repicking_overwrites_the_selection() {
    let mut session = Session::new();
    let d2 = BoardPos(BoardPosX::D, BoardPosY::_2);
    let e2 = e(BoardPosY::_2);
    session.handle_message(ClientMessage::Picked(d2));
    assert_eq!(session.picked, Some(d2));
    session.handle_message(ClientMessage::Picked(e2));
    assert_eq!(session.picked, Some(e2));
}
