//! The closed set of pieces, one variant per kind for each side.
use vstd::prelude::*;

verus! {

/// A piece of the side that moves first (uppercase in a placement string).
#[derive(Debug, Clone, Copy, PartialEq, Eq, Structural)]
pub enum White {
    Pawn,
    Knight,
    Bishop,
    Rook,
    Queen,
    King,
}

/// A piece of the side that moves second (lowercase in a placement string).
#[derive(Debug, Clone, Copy, PartialEq, Eq, Structural)]
pub enum Black {
    Pawn,
    Knight,
    Bishop,
    Rook,
    Queen,
    King,
}

/// What a square holds: a piece of either side, or nothing.
#[derive(Debug, Clone, Copy, PartialEq, Eq, Structural)]
pub enum Piece {
    White(White),
    Black(Black),
    Void,
}

/// The piece that a placement character stands for; any other character is `Void`.
pub open spec fn piece_of(c: char) -> Piece {
    if c == 'P' {
        Piece::White(White::Pawn)
    } else if c == 'N' {
        Piece::White(White::Knight)
    } else if c == 'B' {
        Piece::White(White::Bishop)
    } else if c == 'R' {
        Piece::White(White::Rook)
    } else if c == 'Q' {
        Piece::White(White::Queen)
    } else if c == 'K' {
        Piece::White(White::King)
    } else if c == 'p' {
        Piece::Black(Black::Pawn)
    } else if c == 'n' {
        Piece::Black(Black::Knight)
    } else if c == 'b' {
        Piece::Black(Black::Bishop)
    } else if c == 'r' {
        Piece::Black(Black::Rook)
    } else if c == 'q' {
        Piece::Black(Black::Queen)
    } else if c == 'k' {
        Piece::Black(Black::King)
    } else {
        Piece::Void
    }
}

/// The placement character of a white piece.
pub open spec fn white_letter(w: White) -> char {
    match w {
        White::Pawn => 'P',
        White::Knight => 'N',
        White::Bishop => 'B',
        White::Rook => 'R',
        White::Queen => 'Q',
        White::King => 'K',
    }
}

/// The placement character of a black piece.
pub open spec fn black_letter(b: Black) -> char {
    match b {
        Black::Pawn => 'p',
        Black::Knight => 'n',
        Black::Bishop => 'b',
        Black::Rook => 'r',
        Black::Queen => 'q',
        Black::King => 'k',
    }
}

impl White {
    /// The placement character of this piece.
    pub fn letter(&self) -> (r: char)
        ensures
            r == white_letter(*self),
            piece_of(r) == Piece::White(*self),
    {
        match self {
            White::Pawn => 'P',
            White::Knight => 'N',
            White::Bishop => 'B',
            White::Rook => 'R',
            White::Queen => 'Q',
            White::King => 'K',
        }
    }
}

impl Black {
    /// The placement character of this piece.
    pub fn letter(&self) -> (r: char)
        ensures
            r == black_letter(*self),
            piece_of(r) == Piece::Black(*self),
    {
        match self {
            Black::Pawn => 'p',
            Black::Knight => 'n',
            Black::Bishop => 'b',
            Black::Rook => 'r',
            Black::Queen => 'q',
            Black::King => 'k',
        }
    }
}

impl Piece {
    pub fn is_white(&self) -> (r: bool)
        ensures
            r == (*self is White),
    {
        match self {
            Piece::White(_) => true,
            _ => false,
        }
    }

    pub fn is_black(&self) -> (r: bool)
        ensures
            r == (*self is Black),
    {
        match self {
            Piece::Black(_) => true,
            _ => false,
        }
    }

    pub fn is_void(&self) -> (r: bool)
        ensures
            r == (*self is Void),
    {
        match self {
            Piece::Void => true,
            _ => false,
        }
    }
}

/// Reads a placement character as a piece.
pub fn char_to_piece(c: char) -> (r: Piece)
    ensures
        r == piece_of(c),
{
    match c {
        'P' => Piece::White(White::Pawn),
        'N' => Piece::White(White::Knight),
        'B' => Piece::White(White::Bishop),
        'R' => Piece::White(White::Rook),
        'Q' => Piece::White(White::Queen),
        'K' => Piece::White(White::King),
        'p' => Piece::Black(Black::Pawn),
        'n' => Piece::Black(Black::Knight),
        'b' => Piece::Black(Black::Bishop),
        'r' => Piece::Black(Black::Rook),
        'q' => Piece::Black(Black::Queen),
        'k' => Piece::Black(Black::King),
        _ => Piece::Void,
    }
}

} // verus!
