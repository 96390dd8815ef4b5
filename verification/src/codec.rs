//! The wire codec for the message envelope.
//!
//! Each message travels as the text of one frame. The wire form is a
//! small JSON-shaped grammar fixed here: an object with the variant
//! name as its single key. A position is a two-character algebraic
//! coordinate such as `e4`; a board is a string of 64 square
//! characters, rank 1 first, `.` for an empty square and a piece
//! letter otherwise (upper case white, lower case black). The server
//! encodes its own messages and decodes the client's; a frame that
//! does not fit the grammar decodes to nothing, and the session
//! answers it with a decode error rather than dropping the connection.

use vstd::prelude::*;

use crate::board_pos::{BoardPos, BoardPosX, BoardPosY};
use crate::piece::Piece;
use crate::piece::PieceType::{Bishop, King, Knight, Pawn, Queen, Rook};
use crate::piece::Player::{Black, White};
use crate::protocol::{ClientMessage, ClientMessageView, ServerMessage};
use crate::text::starts_with;

verus! {

/// The algebraic file letter of a square, `a` through `h`.
pub open spec fn file_char(file: BoardPosX) -> char {
    match file {
        BoardPosX::A => 'a',
        BoardPosX::B => 'b',
        BoardPosX::C => 'c',
        BoardPosX::D => 'd',
        BoardPosX::E => 'e',
        BoardPosX::F => 'f',
        BoardPosX::G => 'g',
        BoardPosX::H => 'h',
    }
}

/// The algebraic rank digit of a square, `1` through `8`.
pub open spec fn rank_char(rank: BoardPosY) -> char {
    match rank {
        BoardPosY::_1 => '1',
        BoardPosY::_2 => '2',
        BoardPosY::_3 => '3',
        BoardPosY::_4 => '4',
        BoardPosY::_5 => '5',
        BoardPosY::_6 => '6',
        BoardPosY::_7 => '7',
        BoardPosY::_8 => '8',
    }
}

/// The two-character algebraic coordinate of a square.
pub open spec fn pos_chars(pos: BoardPos) -> Seq<char> {
    seq![file_char(pos.0), rank_char(pos.1)]
}

/// The file a letter names, if any.
pub open spec fn file_from_char(c: char) -> Option<BoardPosX> {
    if c == 'a' {
        Some(BoardPosX::A)
    } else if c == 'b' {
        Some(BoardPosX::B)
    } else if c == 'c' {
        Some(BoardPosX::C)
    } else if c == 'd' {
        Some(BoardPosX::D)
    } else if c == 'e' {
        Some(BoardPosX::E)
    } else if c == 'f' {
        Some(BoardPosX::F)
    } else if c == 'g' {
        Some(BoardPosX::G)
    } else if c == 'h' {
        Some(BoardPosX::H)
    } else {
        None
    }
}

/// The rank a digit names, if any.
pub open spec fn rank_from_char(c: char) -> Option<BoardPosY> {
    if c == '1' {
        Some(BoardPosY::_1)
    } else if c == '2' {
        Some(BoardPosY::_2)
    } else if c == '3' {
        Some(BoardPosY::_3)
    } else if c == '4' {
        Some(BoardPosY::_4)
    } else if c == '5' {
        Some(BoardPosY::_5)
    } else if c == '6' {
        Some(BoardPosY::_6)
    } else if c == '7' {
        Some(BoardPosY::_7)
    } else if c == '8' {
        Some(BoardPosY::_8)
    } else {
        None
    }
}

/// The square a two-character coordinate names, if the text is a
/// well-formed coordinate.
pub open spec fn spec_decode_pos(s: Seq<char>) -> Option<BoardPos> {
    if s.len() == 2 && file_from_char(s[0]) is Some && rank_from_char(s[1]) is Some {
        Some(BoardPos(file_from_char(s[0])->0, rank_from_char(s[1])->0))
    } else {
        None
    }
}

/// A coordinate round-trips losslessly: decoding the encoding of any
/// of the 64 squares yields that square again.
pub proof fn lemma_pos_round_trip(pos: BoardPos)
    ensures
        spec_decode_pos(pos_chars(pos)) == Some(pos),
{
}

/// The characters allowed in the text of an error report on the wire:
/// anything but a quote or a backslash, so the frame needs no escape
/// sequences.
pub open spec fn text_ok(t: Seq<char>) -> bool {
    forall|i: int| 0 <= i < t.len() ==> t[i] != '"' && t[i] != '\\'
}

/// The client message a frame's text carries, if it fits the grammar.
pub open spec fn spec_decode(s: Seq<char>) -> Option<ClientMessageView> {
    if s.len() == 15 && s.subrange(0, 11) == "{\"Picked\":\""@ && s.subrange(13, 15) == "\"}"@
        && spec_decode_pos(s.subrange(11, 13)) is Some {
        Some(ClientMessageView::Picked(spec_decode_pos(s.subrange(11, 13))->0))
    } else if s.len() == 15 && s.subrange(0, 11) == "{\"Placed\":\""@ && s.subrange(13, 15)
        == "\"}"@ && spec_decode_pos(s.subrange(11, 13)) is Some {
        Some(ClientMessageView::Placed(spec_decode_pos(s.subrange(11, 13))->0))
    } else if s.len() >= 12 && s.subrange(0, 10) == "{\"Error\":\""@ && s.subrange(
        s.len() - 2,
        s.len() as int,
    ) == "\"}"@ && text_ok(s.subrange(10, s.len() - 2)) {
        Some(ClientMessageView::Error(s.subrange(10, s.len() - 2)))
    } else {
        None
    }
}

/// The file a letter names, if any.
fn file_from_char_exec(c: char) -> (r: Option<BoardPosX>)
    ensures
        r == file_from_char(c),
{
    match c {
        'a' => Some(BoardPosX::A),
        'b' => Some(BoardPosX::B),
        'c' => Some(BoardPosX::C),
        'd' => Some(BoardPosX::D),
        'e' => Some(BoardPosX::E),
        'f' => Some(BoardPosX::F),
        'g' => Some(BoardPosX::G),
        'h' => Some(BoardPosX::H),
        _ => None,
    }
}

/// The rank a digit names, if any.
fn rank_from_char_exec(c: char) -> (r: Option<BoardPosY>)
    ensures
        r == rank_from_char(c),
{
    match c {
        '1' => Some(BoardPosY::_1),
        '2' => Some(BoardPosY::_2),
        '3' => Some(BoardPosY::_3),
        '4' => Some(BoardPosY::_4),
        '5' => Some(BoardPosY::_5),
        '6' => Some(BoardPosY::_6),
        '7' => Some(BoardPosY::_7),
        '8' => Some(BoardPosY::_8),
        _ => None,
    }
}

/// The square a two-character coordinate names, if the text is a
/// well-formed coordinate.
pub fn decode_pos(s: &str) -> (r: Option<BoardPos>)
    ensures
        r == spec_decode_pos(s@),
{
    if s.unicode_len() != 2 {
        return None;
    }
    match (file_from_char_exec(s.get_char(0)), rank_from_char_exec(s.get_char(1))) {
        (Some(file), Some(rank)) => Some(BoardPos(file, rank)),
        _ => None,
    }
}

/// The wire letter of a piece: upper case for white, lower case for
/// black.
pub open spec fn piece_char(piece: Piece) -> char {
    match piece.0 {
        White => match piece.1 {
            King => 'K',
            Queen => 'Q',
            Rook => 'R',
            Bishop => 'B',
            Knight => 'N',
            Pawn => 'P',
        },
        Black => match piece.1 {
            King => 'k',
            Queen => 'q',
            Rook => 'r',
            Bishop => 'b',
            Knight => 'n',
            Pawn => 'p',
        },
    }
}

/// The wire character of one square: `.` when empty, else the piece's
/// letter.
pub open spec fn square_char(sq: Option<Piece>) -> char {
    match sq {
        None => '.',
        Some(piece) => piece_char(piece),
    }
}

/// The first `n` squares of a board view as wire characters.
pub open spec fn board_chars(board: Seq<Option<Piece>>, n: int) -> Seq<char>
    decreases n,
{
    if n <= 0 {
        Seq::empty()
    } else {
        board_chars(board, n - 1).push(square_char(board[n - 1]))
    }
}

/// A coordinate in quotes.
pub open spec fn quoted_pos(pos: BoardPos) -> Seq<char> {
    seq!['"'] + pos_chars(pos) + seq!['"']
}

/// The first `n` positions of a move list as a comma-separated row of
/// quoted coordinates.
pub open spec fn moves_chars(moves: Seq<BoardPos>, n: int) -> Seq<char>
    decreases n,
{
    if n <= 0 {
        Seq::empty()
    } else if n == 1 {
        quoted_pos(moves[0])
    } else {
        moves_chars(moves, n - 1) + seq![','] + quoted_pos(moves[n - 1])
    }
}

/// The capture field of a `Place` message: `null`, or the captured
/// piece's letter in quotes.
pub open spec fn takes_chars(takes: Option<Piece>) -> Seq<char> {
    match takes {
        None => "null"@,
        Some(piece) => seq!['"', piece_char(piece), '"'],
    }
}

/// The text of the frame that carries a server message.
pub open spec fn spec_encode_server(message: ServerMessage) -> Seq<char> {
    match message {
        ServerMessage::Start(board) => "{\"Start\":\""@ + board_chars(board@, 64) + "\"}"@,
        ServerMessage::ValidMoves(moves) => "{\"ValidMoves\":["@ + moves_chars(
            moves@,
            moves@.len() as int,
        ) + "]}"@,
        ServerMessage::Place { from, to, takes } => "{\"Place\":{\"from\":\""@ + pos_chars(from)
            + "\",\"to\":\""@ + pos_chars(to) + "\",\"takes\":"@ + takes_chars(takes) + "}}"@,
        ServerMessage::GameEnd(first_won) => if first_won {
            "{\"GameEnd\":true}"@
        } else {
            "{\"GameEnd\":false}"@
        },
        ServerMessage::Error(text) => "{\"Error\":\""@ + text@ + "\"}"@,
    }
}

/// Appends a square's algebraic coordinate.
fn push_pos(out: &mut String, pos: BoardPos)
    ensures
        final(out)@ == old(out)@ + pos_chars(pos),
{
    proof {
        reveal_strlit("a");
        reveal_strlit("b");
        reveal_strlit("c");
        reveal_strlit("d");
        reveal_strlit("e");
        reveal_strlit("f");
        reveal_strlit("g");
        reveal_strlit("h");
        reveal_strlit("1");
        reveal_strlit("2");
        reveal_strlit("3");
        reveal_strlit("4");
        reveal_strlit("5");
        reveal_strlit("6");
        reveal_strlit("7");
        reveal_strlit("8");
    }
    match pos.0 {
        BoardPosX::A => out.append("a"),
        BoardPosX::B => out.append("b"),
        BoardPosX::C => out.append("c"),
        BoardPosX::D => out.append("d"),
        BoardPosX::E => out.append("e"),
        BoardPosX::F => out.append("f"),
        BoardPosX::G => out.append("g"),
        BoardPosX::H => out.append("h"),
    }
    match pos.1 {
        BoardPosY::_1 => out.append("1"),
        BoardPosY::_2 => out.append("2"),
        BoardPosY::_3 => out.append("3"),
        BoardPosY::_4 => out.append("4"),
        BoardPosY::_5 => out.append("5"),
        BoardPosY::_6 => out.append("6"),
        BoardPosY::_7 => out.append("7"),
        BoardPosY::_8 => out.append("8"),
    }
    proof {
        assert(out@ =~= old(out)@ + pos_chars(pos));
    }
}

/// Appends a square's wire character.
fn push_square(out: &mut String, sq: Option<Piece>)
    ensures
        final(out)@ == old(out)@ + seq![square_char(sq)],
{
    proof {
        reveal_strlit(".");
        reveal_strlit("K");
        reveal_strlit("Q");
        reveal_strlit("R");
        reveal_strlit("B");
        reveal_strlit("N");
        reveal_strlit("P");
        reveal_strlit("k");
        reveal_strlit("q");
        reveal_strlit("r");
        reveal_strlit("b");
        reveal_strlit("n");
        reveal_strlit("p");
    }
    match sq {
        None => out.append("."),
        Some(piece) => match (piece.0, piece.1) {
            (White, King) => out.append("K"),
            (White, Queen) => out.append("Q"),
            (White, Rook) => out.append("R"),
            (White, Bishop) => out.append("B"),
            (White, Knight) => out.append("N"),
            (White, Pawn) => out.append("P"),
            (Black, King) => out.append("k"),
            (Black, Queen) => out.append("q"),
            (Black, Rook) => out.append("r"),
            (Black, Bishop) => out.append("b"),
            (Black, Knight) => out.append("n"),
            (Black, Pawn) => out.append("p"),
        },
    }
    proof {
        assert(out@ =~= old(out)@ + seq![square_char(sq)]);
    }
}

/// Encodes a square as its two-character algebraic coordinate.
pub fn encode_pos(pos: BoardPos) -> (r: String)
    ensures
        r@ == pos_chars(pos),
{
    let mut out = String::new();
    push_pos(&mut out, pos);
    proof {
        assert(out@ =~= pos_chars(pos));
    }
    out
}

/// Encodes a server message as the text of one frame.
pub fn encode_server_message(message: &ServerMessage) -> (r: String)
    ensures
        r@ == spec_encode_server(*message),
{
    match message {
        ServerMessage::Start(board) => {
            let mut out = String::from_str("{\"Start\":\"");
            let mut k: usize = 0;
            while k < 64
                invariant
                    k <= 64,
                    out@ == "{\"Start\":\""@ + board_chars(board@, k as int),
                decreases 64 - k,
            {
                let pos = match BoardPos::try_from((k % 8, k / 8)) {
                    Ok(pos) => pos,
                    Err(_) => vstd::pervasive::unreached(),
                };
                proof {
                    assert(pos.flat_index() == k as int);
                }
                push_square(&mut out, board.get(pos));
                proof {
                    assert(out@ =~= "{\"Start\":\""@ + board_chars(board@, k + 1));
                }
                k = k + 1;
            }
            out.append("\"}");
            proof {
                assert(out@ =~= spec_encode_server(*message));
            }
            out
        },
        ServerMessage::ValidMoves(moves) => {
            proof {
                reveal_strlit(",");
                reveal_strlit("\"");
            }
            let mut out = String::from_str("{\"ValidMoves\":[");
            let mut i: usize = 0;
            while i < moves.len()
                invariant
                    i <= moves@.len(),
                    out@ == "{\"ValidMoves\":["@ + moves_chars(moves@, i as int),
                decreases moves@.len() - i,
            {
                if i > 0 {
                    out.append(",");
                }
                out.append("\"");
                push_pos(&mut out, moves[i]);
                out.append("\"");
                proof {
                    reveal_strlit(",");
                    reveal_strlit("\"");
                    assert(out@ =~= "{\"ValidMoves\":["@ + moves_chars(moves@, i + 1));
                }
                i = i + 1;
            }
            out.append("]}");
            proof {
                assert(out@ =~= spec_encode_server(*message));
            }
            out
        },
        ServerMessage::Place { from, to, takes } => {
            proof {
                reveal_strlit("\"");
            }
            let mut out = String::from_str("{\"Place\":{\"from\":\"");
            push_pos(&mut out, *from);
            out.append("\",\"to\":\"");
            push_pos(&mut out, *to);
            out.append("\",\"takes\":");
            match takes {
                None => out.append("null"),
                Some(piece) => {
                    out.append("\"");
                    push_square(&mut out, Some(*piece));
                    out.append("\"");
                },
            }
            out.append("}}");
            proof {
                assert(out@ =~= spec_encode_server(*message));
            }
            out
        },
        ServerMessage::GameEnd(first_won) => {
            if *first_won {
                String::from_str("{\"GameEnd\":true}")
            } else {
                String::from_str("{\"GameEnd\":false}")
            }
        },
        ServerMessage::Error(text) => {
            let mut out = String::from_str("{\"Error\":\"");
            out.append(text);
            out.append("\"}");
            proof {
                assert(out@ =~= spec_encode_server(*message));
            }
            out
        },
    }
}

/// Decodes the text of one frame against the client-message grammar.
/// Yields the message exactly when the text fits the grammar, and
/// nothing otherwise.
pub fn decode_client_message(s: &str) -> (r: Option<ClientMessage>)
    ensures
        match spec_decode(s@) {
            Some(view) => r matches Some(message) && message@ == view,
            None => r is None,
        },
{
    proof {
        reveal_strlit("{\"Picked\":\"");
        reveal_strlit("{\"Placed\":\"");
        reveal_strlit("{\"Error\":\"");
        reveal_strlit("\"}");
    }
    let n = s.unicode_len();
    proof {
        // Index the candidate subranges so the grammar's branch
        // conditions reduce to facts about single characters.
        if s@.len() >= 11 {
            assert(s@.subrange(0, 11)[2] == s@[2]);
            assert(s@.subrange(0, 11)[3] == s@[3]);
            assert(s@.subrange(0, 10)[2] == s@[2]);
            assert(s@.subrange(0, 10)[3] == s@[3]);
        }
        if s@.len() == 15 {
            assert(s@.subrange(13, 15)[0] == s@[13]);
            assert(s@.subrange(13, 15)[1] == s@[14]);
        }
        if s@.len() >= 12 {
            assert(s@.subrange(s@.len() - 2, s@.len() as int)[0] == s@[s@.len() - 2]);
            assert(s@.subrange(s@.len() - 2, s@.len() as int)[1] == s@[s@.len() - 1]);
        }
    }
    if starts_with(s, "{\"Picked\":\"") {
        if n == 15 && s.get_char(13) == '"' && s.get_char(14) == '}' {
            proof {
                assert(s@.subrange(13, 15) =~= "\"}"@);
            }
            match (file_from_char_exec(s.get_char(11)), rank_from_char_exec(s.get_char(12))) {
                (Some(file), Some(rank)) => {
                    proof {
                        assert(s@.subrange(11, 13) =~= seq![s@[11], s@[12]]);
                    }
                    Some(ClientMessage::Picked(BoardPos(file, rank)))
                },
                _ => {
                    proof {
                        assert(s@.subrange(11, 13)[0] == s@[11]);
                        assert(s@.subrange(11, 13)[1] == s@[12]);
                    }
                    None
                },
            }
        } else {
            None
        }
    } else if starts_with(s, "{\"Placed\":\"") {
        if n == 15 && s.get_char(13) == '"' && s.get_char(14) == '}' {
            proof {
                assert(s@.subrange(13, 15) =~= "\"}"@);
            }
            match (file_from_char_exec(s.get_char(11)), rank_from_char_exec(s.get_char(12))) {
                (Some(file), Some(rank)) => {
                    proof {
                        assert(s@.subrange(11, 13) =~= seq![s@[11], s@[12]]);
                    }
                    Some(ClientMessage::Placed(BoardPos(file, rank)))
                },
                _ => {
                    proof {
                        assert(s@.subrange(11, 13)[0] == s@[11]);
                        assert(s@.subrange(11, 13)[1] == s@[12]);
                    }
                    None
                },
            }
        } else {
            None
        }
    } else if starts_with(s, "{\"Error\":\"") {
        if n >= 12 && s.get_char(n - 2) == '"' && s.get_char(n - 1) == '}' {
            let mut i: usize = 10;
            let mut clean = true;
            while i < n - 2
                invariant
                    n == s@.len(),
                    12 <= n,
                    10 <= i <= n - 2,
                    clean == (forall|j: int| 10 <= j < i ==> s@[j] != '"' && s@[j] != '\\'),
                decreases n - 2 - i,
            {
                let c = s.get_char(i);
                if c == '"' || c == '\\' {
                    clean = false;
                }
                i = i + 1;
            }
            proof {
                let text = s@.subrange(10, n - 2);
                assert(forall|k: int| 0 <= k < text.len() ==> #[trigger] text[k] == s@[10 + k]);
                if clean {
                    assert(text_ok(text));
                } else {
                    let j = choose|j: int| 10 <= j < n - 2 && !(s@[j] != '"' && s@[j] != '\\');
                    assert(text[j - 10] == s@[j]);
                    assert(!text_ok(text));
                }
            }
            if clean {
                proof {
                    assert(s@.subrange(n - 2, n as int) =~= "\"}"@);
                }
                let text = s.substring_char(10, n - 2);
                Some(ClientMessage::Error(String::from_str(text)))
            } else {
                None
            }
        } else {
            None
        }
    } else {
        None
    }
}

} // verus!
