//! Board coordinates: a file and a rank, each one of eight values.
//!
//! Because both components are enums, every `BoardPos` value is a valid
//! square; out-of-range coordinates are rejected at construction.

use vstd::prelude::*;

verus! {

/// The file (column) of a square, `a` through `h`.
#[derive(Debug, Clone, Copy, PartialEq, Eq, PartialOrd, Ord, Structural)]
pub enum BoardPosX {
    A,
    B,
    C,
    D,
    E,
    F,
    G,
    H,
}

/// The rank (row) of a square, `1` through `8`.
#[derive(Debug, Clone, Copy, PartialEq, Eq, PartialOrd, Ord, Structural)]
pub enum BoardPosY {
    _1,
    _2,
    _3,
    _4,
    _5,
    _6,
    _7,
    _8,
}

/// A square of the board: a file and a rank.
#[derive(Debug, Clone, Copy, PartialEq, Eq, PartialOrd, Ord, Structural)]
pub struct BoardPos(pub BoardPosX, pub BoardPosY);

impl BoardPosX {
    /// The column index this file stands for, `0` through `7`.
    pub open spec fn index(self) -> int {
        match self {
            BoardPosX::A => 0,
            BoardPosX::B => 1,
            BoardPosX::C => 2,
            BoardPosX::D => 3,
            BoardPosX::E => 4,
            BoardPosX::F => 5,
            BoardPosX::G => 6,
            BoardPosX::H => 7,
        }
    }

    /// Construction from a column index; fails on an out-of-range index.
    pub fn try_from(x: usize) -> (r: Result<Self, ()>)
        ensures
            x < 8 ==> (r matches Ok(f) && f.index() == x),
            x >= 8 ==> r is Err,
    {
        match x {
            0 => Ok(BoardPosX::A),
            1 => Ok(BoardPosX::B),
            2 => Ok(BoardPosX::C),
            3 => Ok(BoardPosX::D),
            4 => Ok(BoardPosX::E),
            5 => Ok(BoardPosX::F),
            6 => Ok(BoardPosX::G),
            7 => Ok(BoardPosX::H),
            _ => Err(()),
        }
    }
}

impl BoardPosY {
    /// The row index this rank stands for, `0` through `7`.
    pub open spec fn index(self) -> int {
        match self {
            BoardPosY::_1 => 0,
            BoardPosY::_2 => 1,
            BoardPosY::_3 => 2,
            BoardPosY::_4 => 3,
            BoardPosY::_5 => 4,
            BoardPosY::_6 => 5,
            BoardPosY::_7 => 6,
            BoardPosY::_8 => 7,
        }
    }

    /// Construction from a row index; fails on an out-of-range index.
    pub fn try_from(y: usize) -> (r: Result<Self, ()>)
        ensures
            y < 8 ==> (r matches Ok(f) && f.index() == y),
            y >= 8 ==> r is Err,
    {
        match y {
            0 => Ok(BoardPosY::_1),
            1 => Ok(BoardPosY::_2),
            2 => Ok(BoardPosY::_3),
            3 => Ok(BoardPosY::_4),
            4 => Ok(BoardPosY::_5),
            5 => Ok(BoardPosY::_6),
            6 => Ok(BoardPosY::_7),
            7 => Ok(BoardPosY::_8),
            _ => Err(()),
        }
    }
}

impl BoardPos {
    /// The column index of this square.
    pub open spec fn x_index(self) -> int {
        self.0.index()
    }

    /// The row index of this square.
    pub open spec fn y_index(self) -> int {
        self.1.index()
    }

    /// The flat index of this square in a 64-square board view,
    /// row by row from rank 1.
    pub open spec fn flat_index(self) -> int {
        self.y_index() * 8 + self.x_index()
    }

    /// Construction from a column/row index pair; fails if and only if
    /// either component is out of range.
    pub fn try_from(xy: (usize, usize)) -> (r: Result<Self, ()>)
        ensures
            xy.0 < 8 && xy.1 < 8 ==> (r matches Ok(p) && p.x_index() == xy.0 && p.y_index()
                == xy.1),
            xy.0 >= 8 || xy.1 >= 8 ==> r is Err,
    {
        let (x, y) = xy;
        match (BoardPosX::try_from(x), BoardPosY::try_from(y)) {
            (Ok(fx), Ok(fy)) => Ok(BoardPos(fx, fy)),
            _ => Err(()),
        }
    }

    /// The column/row index pair of this square.
    pub fn to_indices(self) -> (r: (usize, usize))
        ensures
            r.0 == self.x_index(),
            r.1 == self.y_index(),
    {
        let BoardPos(x, y) = self;
        (
            match x {
                BoardPosX::A => 0,
                BoardPosX::B => 1,
                BoardPosX::C => 2,
                BoardPosX::D => 3,
                BoardPosX::E => 4,
                BoardPosX::F => 5,
                BoardPosX::G => 6,
                BoardPosX::H => 7,
            },
            match y {
                BoardPosY::_1 => 0,
                BoardPosY::_2 => 1,
                BoardPosY::_3 => 2,
                BoardPosY::_4 => 3,
                BoardPosY::_5 => 4,
                BoardPosY::_6 => 5,
                BoardPosY::_7 => 6,
                BoardPosY::_8 => 7,
            },
        )
    }
}

/// The file with the given column index; callers pass an index in
/// range.
pub open spec fn file_of(x: int) -> BoardPosX {
    if x == 0 {
        BoardPosX::A
    } else if x == 1 {
        BoardPosX::B
    } else if x == 2 {
        BoardPosX::C
    } else if x == 3 {
        BoardPosX::D
    } else if x == 4 {
        BoardPosX::E
    } else if x == 5 {
        BoardPosX::F
    } else if x == 6 {
        BoardPosX::G
    } else {
        BoardPosX::H
    }
}

/// The rank with the given row index; callers pass an index in range.
pub open spec fn rank_of(y: int) -> BoardPosY {
    if y == 0 {
        BoardPosY::_1
    } else if y == 1 {
        BoardPosY::_2
    } else if y == 2 {
        BoardPosY::_3
    } else if y == 3 {
        BoardPosY::_4
    } else if y == 4 {
        BoardPosY::_5
    } else if y == 5 {
        BoardPosY::_6
    } else if y == 6 {
        BoardPosY::_7
    } else {
        BoardPosY::_8
    }
}

/// `file_of` and `rank_of` invert the index functions, so every square
/// is named by exactly one index pair.
pub broadcast proof fn lemma_pos_of_index(p: BoardPos)
    ensures
        #![trigger p.x_index(), p.y_index()]
        file_of(p.x_index()) == p.0,
        rank_of(p.y_index()) == p.1,
{
}

/// Two distinct squares have distinct flat indices: the flat index is
/// an injective numbering of the 64 squares.
pub proof fn lemma_flat_index_injective(p: BoardPos, q: BoardPos)
    requires
        p.flat_index() == q.flat_index(),
    ensures
        p == q,
{
}

} // verus!
