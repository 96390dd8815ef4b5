use shahmaat::board::BoardState;
use shahmaat::board_pos::{BoardPos, BoardPosX, BoardPosY};
use shahmaat::piece::{Piece, PieceType, Player};

fn pos(x: usize, y: usize) -> BoardPos {
    BoardPos::try_from((x, y)).unwrap()
}

#[test]
fn start_board_has_32_pieces() {
    let board = BoardState::default();
    let mut count = 0;
    for y in 0..8 {
        for x in 0..8 {
            if board.get(pos(x, y)).is_some() {
                count += 1;
            }
        }
    }
    assert_eq!(count, 32);
}

#[test]
fn start_board_middle_ranks_empty() {
    let board = BoardState::default();
    for y in 2..6 {
        for x in 0..8 {
            assert!(board.get(pos(x, y)).is_none());
        }
    }
}

#[test]
fn start_board_is_symmetric() {
    let board = BoardState::default();
    for y in 0..8 {
        for x in 0..8 {
            let here = board.get(pos(x, y));
            let mirror = board.get(pos(x, 7 - y));
            match (here, mirror) {
                (None, None) => {}
                (Some(Piece(owner, kind)), Some(Piece(other, mirrored))) => {
                    assert_eq!(kind, mirrored);
                    assert_ne!(owner, other);
                }
                _ => panic!("mirror square does not match at ({x}, {y})"),
            }
        }
    }
}

#[test]
fn start_board_back_ranks() {
    let board = BoardState::default();
    let back = [
        PieceType::Rook,
        PieceType::Knight,
        PieceType::Bishop,
        PieceType::Queen,
        PieceType::King,
        PieceType::Bishop,
        PieceType::Knight,
        PieceType::Rook,
    ];
    for x in 0..8 {
        assert_eq!(board.get(pos(x, 0)), Some(Piece(Player::White, back[x])));
        assert_eq!(board.get(pos(x, 1)), Some(Piece(Player::White, PieceType::Pawn)));
        assert_eq!(board.get(pos(x, 6)), Some(Piece(Player::Black, PieceType::Pawn)));
        assert_eq!(board.get(pos(x, 7)), Some(Piece(Player::Black, back[x])));
    }
}

#[test]
fn board_set_and_get() {
    let mut board = BoardState::default();
    let e4 = BoardPos(BoardPosX::E, BoardPosY::_4);
    assert_eq!(board.get(e4), None);
    board.set(e4, Some(Piece(Player::White, PieceType::Queen)));
    assert_eq!(board.get(e4), Some(Piece(Player::White, PieceType::Queen)));
    board.set(e4, None);
    assert_eq!(board.get(e4), None);
}

#[test]
fn pos_try_from_rejects_out_of_range() {
    assert!(BoardPos::try_from((8, 0)).is_err());
    assert!(BoardPos::try_from((0, 8)).is_err());
    assert!(BoardPos::try_from((8, 8)).is_err());
    assert!(BoardPos::try_from((usize::MAX, 3)).is_err());
    assert!(BoardPosX::try_from(8).is_err());
    assert!(BoardPosY::try_from(9).is_err());
}

#[test]
fn pos_try_from_accepts_all_valid_pairs() {
    for x in 0..8 {
        for y in 0..8 {
            let p = BoardPos::try_from((x, y)).unwrap();
            assert_eq!(p.to_indices(), (x, y));
        }
    }
}

#[test]
fn valid_moves_are_the_empty_squares() {
    let board = BoardState::default();
    let e2 = BoardPos(BoardPosX::E, BoardPosY::_2);
    let moves = board.valid_moves(e2);
    assert_eq!(moves.len(), 32);
    assert!(!moves.contains(&e2));
    for p in &moves {
        assert!(board.get(*p).is_none());
    }
    // Walk order: rank 8 down to rank 1, files a through h; on the
    // starting board the empty squares are ranks 6 down to 3.
    assert_eq!(moves[0], BoardPos(BoardPosX::A, BoardPosY::_6));
    assert_eq!(moves[31], BoardPos(BoardPosX::H, BoardPosY::_3));
}
