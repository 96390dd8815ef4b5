use shahmaat::board::BoardState;
use shahmaat::board_pos::{BoardPos, BoardPosX, BoardPosY};
use shahmaat::codec::{decode_client_message, decode_pos, encode_pos, encode_server_message};
use shahmaat::piece::{Piece, PieceType, Player};
use shahmaat::protocol::{ClientMessage, ServerMessage};

fn pos(x: usize, y: usize) -> BoardPos {
    BoardPos::try_from((x, y)).unwrap()
}

#[test]
fn every_position_round_trips() {
    for x in 0..8 {
        for y in 0..8 {
            let p = pos(x, y);
            let text = encode_pos(p);
            assert_eq!(text.chars().count(), 2);
            assert_eq!(decode_pos(&text), Some(p));
        }
    }
}

#[test]
fn encode_pos_is_algebraic() {
    assert_eq!(encode_pos(BoardPos(BoardPosX::E, BoardPosY::_2)), "e2");
    assert_eq!(encode_pos(BoardPos(BoardPosX::A, BoardPosY::_1)), "a1");
    assert_eq!(encode_pos(BoardPos(BoardPosX::H, BoardPosY::_8)), "h8");
}

#[test]
fn decode_pos_rejects_malformed_coordinates() {
    assert_eq!(decode_pos(""), None);
    assert_eq!(decode_pos("e"), None);
    assert_eq!(decode_pos("e22"), None);
    assert_eq!(decode_pos("i2"), None);
    assert_eq!(decode_pos("e9"), None);
    assert_eq!(decode_pos("2e"), None);
}

#[test]
fn decode_picked_and_placed() {
    let e2 = BoardPos(BoardPosX::E, BoardPosY::_2);
    assert_eq!(
        decode_client_message("{\"Picked\":\"e2\"}"),
        Some(ClientMessage::Picked(e2))
    );
    assert_eq!(
        decode_client_message("{\"Placed\":\"e2\"}"),
        Some(ClientMessage::Placed(e2))
    );
}

#[test]
fn decode_error_report() {
    assert_eq!(
        decode_client_message("{\"Error\":\"window lost focus\"}"),
        Some(ClientMessage::Error(String::from("window lost focus")))
    );
    assert_eq!(
        decode_client_message("{\"Error\":\"\"}"),
        Some(ClientMessage::Error(String::new()))
    );
}

#[test]
fn decode_rejects_bad_frames() {
    assert_eq!(decode_client_message(""), None);
    assert_eq!(decode_client_message("{}"), None);
    assert_eq!(decode_client_message("{\"Picked\":\"e2\""), None);
    assert_eq!(decode_client_message("{\"Picked\":\"z9\"}"), None);
    assert_eq!(decode_client_message("{\"Picked\":\"e2e4\"}"), None);
    assert_eq!(decode_client_message("{\"Dropped\":\"e2\"}"), None);
    assert_eq!(decode_client_message("{\"Error\":\"a\\\"b\"}"), None);
    assert_eq!(decode_client_message("not json at all"), None);
}

#[test]
fn encode_start_message() {
    let text = encode_server_message(&ServerMessage::Start(BoardState::default()));
    let expected = format!(
        "{}{}{}{}{}",
        "{\"Start\":\"",
        "RNBQKBNRPPPPPPPP",
        "................................",
        "pppppppprnbqkbnr",
        "\"}"
    );
    assert_eq!(text, expected);
}

#[test]
fn encode_valid_moves_message() {
    let moves = vec![pos(4, 2), pos(4, 3)];
    let text = encode_server_message(&ServerMessage::ValidMoves(moves));
    assert_eq!(text, "{\"ValidMoves\":[\"e3\",\"e4\"]}");
    let none: Vec<BoardPos> = Vec::new();
    assert_eq!(
        encode_server_message(&ServerMessage::ValidMoves(none)),
        "{\"ValidMoves\":[]}"
    );
}

#[test]
fn encode_place_message() {
    let text = encode_server_message(&ServerMessage::Place {
        from: pos(4, 1),
        to: pos(4, 3),
        takes: None,
    });
    assert_eq!(text, "{\"Place\":{\"from\":\"e2\",\"to\":\"e4\",\"takes\":null}}");
    let capture = encode_server_message(&ServerMessage::Place {
        from: pos(4, 1),
        to: pos(4, 6),
        takes: Some(Piece(Player::Black, PieceType::Pawn)),
    });
    assert_eq!(
        capture,
        "{\"Place\":{\"from\":\"e2\",\"to\":\"e7\",\"takes\":\"p\"}}"
    );
}

#[test]
fn encode_game_end_message() {
    assert_eq!(
        encode_server_message(&ServerMessage::GameEnd(true)),
        "{\"GameEnd\":true}"
    );
    assert_eq!(
        encode_server_message(&ServerMessage::GameEnd(false)),
        "{\"GameEnd\":false}"
    );
}

#[test]
fn encode_error_message() {
    assert_eq!(
        encode_server_message(&ServerMessage::Error("No piece at picked location")),
        "{\"Error\":\"No piece at picked location\"}"
    );
}
