//! Moves and the legality engine.
//!
//! A move is checked against a placement string: 64 characters, one per square,
//! row 1 first and files 1..8 within each row. Squares are addressed by the
//! 1-based linear index `file + (row - 1) * 8`. The side whose pieces are
//! uppercase moves toward row 1, so its "forward" is a negative index step; the
//! side factor (-1 for it, +1 for the other) turns every offset into one that is
//! positive in the mover's forward direction.
//!
//! Offsets are added to the linear index as they stand: a step off one end of a
//! row goes on at the other end of the next, and only the range 1..64 bounds a
//! sliding piece's path.
use vstd::prelude::*;

use crate::piece::{char_to_piece, piece_of, Black, Piece, White};

verus! {

/// How an accepted move is classified.
#[derive(Debug, Clone, Copy, PartialEq, Eq, Structural)]
pub enum MoveType {
    Regular,
    /// A pawn advancing two squares at once.
    DoublePawn,
    /// A pawn capturing diagonally.
    PawnCapture,
    Capture,
    EnPassant,
    Castle,
    /// A pawn reaching the far row; the board then waits for the new piece.
    Promotion,
}

/// A move from one square to another, each square given as `[file, row]`.
#[derive(Debug, Clone, Copy, PartialEq, Eq)]
pub struct Move(pub [usize; 2], pub [usize; 2]);

/// A rejected move, with a reason a person can read.
#[derive(Debug, Clone)]
pub struct MoveErr(pub String);

/// The eight unit steps on the board, as linear index offsets.
#[derive(Debug, Clone, Copy, PartialEq, Eq, Structural)]
pub enum Offset {
    Up,
    Down,
    Left,
    Right,
    UpLeft,
    UpRight,
    DownLeft,
    DownRight,
}

/// The linear index offset of a unit step.
pub open spec fn offset_value(o: Offset) -> int {
    match o {
        Offset::Up => 8,
        Offset::Down => -8,
        Offset::Left => -1,
        Offset::Right => 1,
        Offset::UpLeft => 7,
        Offset::UpRight => 9,
        Offset::DownLeft => -9,
        Offset::DownRight => -7,
    }
}

impl Offset {
    pub fn to_i32(&self) -> (r: i32)
        ensures
            r == offset_value(*self),
    {
        match self {
            Offset::Up => 8,
            Offset::Down => -8,
            Offset::Left => -1,
            Offset::Right => 1,
            Offset::UpLeft => 7,
            Offset::UpRight => 9,
            Offset::DownLeft => -9,
            Offset::DownRight => -7,
        }
    }
}

/// The 1-based linear index of the square `[file, row]`.
pub open spec fn square_index(sq: [usize; 2]) -> int {
    sq[0] as int + (sq[1] as int - 1) * 8
}

/// Both coordinates of the square lie in 1..8.
pub open spec fn on_board(sq: [usize; 2]) -> bool {
    1 <= sq[0] <= 8 && 1 <= sq[1] <= 8
}

/// A linear index that names a square.
pub open spec fn in_range(k: int) -> bool {
    1 <= k <= 64
}

/// The character on the square with linear index `k`.
pub open spec fn at(s: Seq<char>, k: int) -> char {
    s[k - 1]
}

/// `c` is a piece of White (`white`) or of Black (`!white`).
pub open spec fn is_side(c: char, white: bool) -> bool {
    if white {
        piece_of(c) is White
    } else {
        piece_of(c) is Black
    }
}

/// -1 for the side that moves toward row 1, +1 for the other.
pub open spec fn side_factor(turn: bool) -> int {
    if turn {
        -1
    } else {
        1
    }
}

/// The row on which a pawn of the side to move is promoted.
pub open spec fn far_row(turn: bool) -> int {
    if turn {
        1
    } else {
        8
    }
}

/// The square `k` steps of `d` away from `from`.
pub open spec fn step_sq(from: int, d: int, k: int) -> int {
    from + k * d
}

/// The first `n - 1` squares along direction `d` from `from` are empty.
pub open spec fn clear_path(s: Seq<char>, from: int, d: int, n: int) -> bool {
    forall|k: int| 1 <= k < n ==> #[trigger] at(s, step_sq(from, d, k)) == ' '
}

/// `to` lies at most seven steps of `d` away from `from`, with nothing in between.
pub open spec fn slides_to(s: Seq<char>, from: int, to: int, d: int) -> bool {
    exists|n: int| 1 <= n <= 7 && #[trigger] step_sq(from, d, n) == to && clear_path(s, from, d, n)
}

/// Along a row or a file.
pub open spec fn rook_reaches(s: Seq<char>, from: int, to: int) -> bool {
    slides_to(s, from, to, 8) || slides_to(s, from, to, -8) || slides_to(s, from, to, -1)
        || slides_to(s, from, to, 1)
}

/// Along a diagonal.
pub open spec fn bishop_reaches(s: Seq<char>, from: int, to: int) -> bool {
    slides_to(s, from, to, 7) || slides_to(s, from, to, 9) || slides_to(s, from, to, -9)
        || slides_to(s, from, to, -7)
}

/// `Capture` onto an occupied square, `Regular` onto an empty one.
pub open spec fn occupancy_kind(s: Seq<char>, to: int) -> MoveType {
    if at(s, to) == ' ' {
        MoveType::Regular
    } else {
        MoveType::Capture
    }
}

/// A pawn of the opponent stands on the square behind the destination, as after a
/// double advance past it.
pub open spec fn en_passant_victim(s: Seq<char>, turn: bool, to: int) -> bool {
    let k = to - 8 * side_factor(turn);
    &&& in_range(k)
    &&& if turn {
        piece_of(at(s, k)) == Piece::Black(Black::Pawn)
    } else {
        piece_of(at(s, k)) == Piece::White(White::Pawn)
    }
}

/// The move changes the file by one: with a diagonal offset, a true diagonal step
/// rather than one that wraps round the edge of a row.
pub open spec fn adjacent_files(m: Move) -> bool {
    m.1[0] == m.0[0] + 1 || m.0[0] == m.1[0] + 1
}

/// A pawn move before promotion is taken into account. A capture steps to a
/// neighbouring file (`side_step`). A diagonal step onto an empty square is en
/// passant where an opposing pawn stands behind it; whether that pawn has just
/// advanced two rows is for the board to check, which remembers the last move.
pub open spec fn pawn_base_kind(
    s: Seq<char>,
    turn: bool,
    from: int,
    to: int,
    diff: int,
    side_step: bool,
) -> Option<MoveType> {
    if diff == 8 && at(s, to) == ' ' {
        Some(MoveType::Regular)
    } else if diff == 16 && at(s, from + 8 * side_factor(turn)) == ' ' && at(s, to) == ' ' {
        Some(MoveType::DoublePawn)
    } else if (diff == 7 || diff == 9) && side_step && is_side(at(s, to), !turn) {
        Some(MoveType::PawnCapture)
    } else if (diff == 7 || diff == 9) && side_step && at(s, to) == ' ' && en_passant_victim(
        s,
        turn,
        to,
    ) {
        Some(MoveType::EnPassant)
    } else {
        None
    }
}

/// A pawn move, which becomes a promotion where it ends on the far row.
pub open spec fn pawn_kind(
    s: Seq<char>,
    turn: bool,
    from: int,
    to: int,
    diff: int,
    side_step: bool,
    to_row: int,
) -> Option<MoveType> {
    match pawn_base_kind(s, turn, from, to, diff, side_step) {
        Some(k) => if k != MoveType::EnPassant && to_row == far_row(turn) {
            Some(MoveType::Promotion)
        } else {
            Some(k)
        },
        None => None,
    }
}

/// A knight's leap: one of the eight L-shaped offsets, over whatever stands
/// between; an occupied destination makes it a capture.
pub open spec fn knight_kind(s: Seq<char>, to: int, diff: int) -> Option<MoveType> {
    if diff == 5 || diff == -5 || diff == 11 || diff == -11 || diff == 15 || diff == -15 || diff
        == 17 || diff == -17 {
        Some(occupancy_kind(s, to))
    } else {
        None
    }
}

/// A bishop, rook or queen move, given whether one of its directions reaches `to`.
pub open spec fn slider_kind(s: Seq<char>, turn: bool, to: int, reaches: bool) -> Option<MoveType> {
    if reaches && (at(s, to) == ' ' || is_side(at(s, to), !turn)) {
        Some(occupancy_kind(s, to))
    } else {
        None
    }
}

/// Room for castling: two empty squares beside the king on at least one side.
pub open spec fn castle_room(s: Seq<char>, from: int) -> bool {
    (in_range(from + 2) && at(s, from + 1) == ' ' && at(s, from + 2) == ' ') || (in_range(from - 2)
        && at(s, from - 1) == ' ' && at(s, from - 2) == ' ')
}

/// A king's step to one of the eight neighbouring indices onto a square that holds
/// no piece of its own side, or a castle: two index steps, with room beside the
/// king. Castling does not look for the rook, for attacked squares, or for earlier
/// moves of king or rook.
pub open spec fn king_kind(s: Seq<char>, turn: bool, from: int, to: int, diff: int) -> Option<
    MoveType,
> {
    if diff == 2 || diff == -2 {
        if castle_room(s, from) {
            Some(MoveType::Castle)
        } else {
            None
        }
    } else if (diff == 1 || diff == -1 || diff == 7 || diff == -7 || diff == 8 || diff == -8 || diff
        == 9 || diff == -9) && !is_side(at(s, to), turn) {
        Some(occupancy_kind(s, to))
    } else {
        None
    }
}

/// The classification of `m` in the placement `s` with `turn` to move (true: the
/// uppercase side), or `None` where the move is rejected.
pub open spec fn classify(s: Seq<char>, turn: bool, m: Move) -> Option<MoveType> {
    let from = square_index(m.0);
    let to = square_index(m.1);
    let moved = at(s, from);
    let diff = (to - from) * side_factor(turn);
    if !is_side(moved, turn) {
        None
    } else {
        match piece_of(moved) {
            Piece::White(White::Pawn) | Piece::Black(Black::Pawn) => pawn_kind(
                s,
                turn,
                from,
                to,
                diff,
                adjacent_files(m),
                m.1[1] as int,
            ),
            Piece::White(White::Knight) | Piece::Black(Black::Knight) => knight_kind(s, to, diff),
            Piece::White(White::Bishop) | Piece::Black(Black::Bishop) => slider_kind(
                s,
                turn,
                to,
                bishop_reaches(s, from, to),
            ),
            Piece::White(White::Rook) | Piece::Black(Black::Rook) => slider_kind(
                s,
                turn,
                to,
                rook_reaches(s, from, to),
            ),
            Piece::White(White::Queen) | Piece::Black(Black::Queen) => slider_kind(
                s,
                turn,
                to,
                rook_reaches(s, from, to) || bishop_reaches(s, from, to),
            ),
            Piece::White(White::King) | Piece::Black(Black::King) => king_kind(
                s,
                turn,
                from,
                to,
                diff,
            ),
            Piece::Void => None,
        }
    }
}

/// The material that taking the piece `c` wins, whichever side it belongs to.
pub open spec fn capture_value(c: char) -> int {
    if c == 'P' || c == 'p' {
        1
    } else if c == 'N' || c == 'n' || c == 'B' || c == 'b' {
        3
    } else if c == 'R' || c == 'r' {
        5
    } else if c == 'Q' || c == 'q' {
        9
    } else {
        0
    }
}

/// Whether `c` is a piece of White: the character is uppercase.
pub fn is_white(piece: char) -> (r: bool)
    ensures
        r == crate::text::uppercase(piece),
{
    crate::text::char_is_uppercase(piece)
}

/// The 1-based linear index of a square: `file + (row - 1) * 8`.
pub fn fen_idx(moved: [usize; 2]) -> (r: i32)
    requires
        moved[1] >= 1,
        square_index(moved) <= i32::MAX,
    ensures
        r == square_index(moved),
{
    (moved[0] + (moved[1] - 1) * 8) as i32
}

/// The character on square `k` of a 64-character placement string.
fn square_char(fen: &String, k: i32) -> (c: char)
    requires
        in_range(k as int),
        fen@.len() == 64,
    ensures
        c == at(fen@, k as int),
{
    fen.as_str().get_char((k - 1) as usize)
}

fn belongs_to(c: char, white: bool) -> (r: bool)
    ensures
        r == is_side(c, white),
{
    let p = char_to_piece(c);
    if white {
        p.is_white()
    } else {
        p.is_black()
    }
}

fn occupancy(target: char) -> (r: MoveType)
    ensures
        target == ' ' ==> r == MoveType::Regular,
        target != ' ' ==> r == MoveType::Capture,
{
    if target == ' ' {
        MoveType::Regular
    } else {
        MoveType::Capture
    }
}

fn rejection(reason: &str) -> (r: Result<MoveType, MoveErr>)
    requires
        reason@.len() > 0,
    ensures
        r is Err,
        has_reason(r),
{
    Err(MoveErr(reason.to_owned()))
}

/// Steps along direction `d` from `from` at most seven times, stopping at the
/// first occupied square or at the edge of the index range.
fn slides(fen: &String, from: i32, to: i32, d: i32) -> (r: bool)
    requires
        fen@.len() == 64,
        in_range(from as int),
        in_range(to as int),
        d != 0,
        -9 <= d <= 9,
    ensures
        r == slides_to(fen@, from as int, to as int, d as int),
{
    let ghost s = fen@;
    let mut pos: i32 = from;
    let mut n: i32 = 0;
    while n < 7
        invariant
            0 <= n <= 7,
            pos == step_sq(from as int, d as int, n as int),
            in_range(pos as int),
            fen@ == s,
            s.len() == 64,
            in_range(from as int),
            in_range(to as int),
            d != 0,
            -9 <= d <= 9,
            forall|k: int|
                1 <= k <= n ==> #[trigger] step_sq(from as int, d as int, k) != to && in_range(
                    step_sq(from as int, d as int, k),
                ) && at(s, step_sq(from as int, d as int, k)) == ' ',
        decreases 7 - n,
    {
        let ghost prev = n as int;
        pos = pos + d;
        n = n + 1;
        assert(pos == step_sq(from as int, d as int, n as int)) by (nonlinear_arith)
            requires
                pos == step_sq(from as int, d as int, prev) + d,
                n == prev + 1,
        ;
        if pos < 1 || pos > 64 {
            proof {
                lemma_no_slide_past(s, from as int, to as int, d as int, n as int);
            }
            return false;
        }
        if pos == to {
            assert(clear_path(s, from as int, d as int, n as int));
            return true;
        }
        if square_char(fen, pos) != ' ' {
            proof {
                lemma_no_slide_past(s, from as int, to as int, d as int, n as int);
            }
            return false;
        }
    }
    proof {
        assert forall|m: int|
            1 <= m <= 7 && #[trigger] step_sq(from as int, d as int, m) == to implies !clear_path(
            s,
            from as int,
            d as int,
            m,
        ) by {
            assert(step_sq(from as int, d as int, m) != to);
        }
    }
    false
}

/// Once step `n` of a ray has left the index range, or stands on an occupied
/// square other than `to`, no later step reaches `to` over a clear path.
proof fn lemma_no_slide_past(s: Seq<char>, from: int, to: int, d: int, n: int)
    requires
        1 <= n <= 7,
        in_range(from),
        in_range(to),
        d != 0,
        step_sq(from, d, n) != to,
        !in_range(step_sq(from, d, n)) || at(s, step_sq(from, d, n)) != ' ',
        in_range(step_sq(from, d, n - 1)),
        forall|k: int|
            1 <= k < n ==> #[trigger] step_sq(from, d, k) != to && in_range(step_sq(from, d, k)),
    ensures
        !slides_to(s, from, to, d),
{
    assert forall|m: int| 1 <= m <= 7 && #[trigger] step_sq(from, d, m) == to implies !clear_path(
        s,
        from,
        d,
        m,
    ) by {
        if m < n {
            assert(step_sq(from, d, m) != to);
        } else if m == n {
        } else if in_range(step_sq(from, d, n)) {
            assert(at(s, step_sq(from, d, n)) != ' ');
        } else {
            // The ray moves monotonically, so it never comes back into range.
            assert(d > 0 ==> step_sq(from, d, m) > step_sq(from, d, n)) by (nonlinear_arith)
                requires
                    m > n,
            ;
            assert(d < 0 ==> step_sq(from, d, m) < step_sq(from, d, n)) by (nonlinear_arith)
                requires
                    m > n,
            ;
            assert(d > 0 ==> step_sq(from, d, n) >= 1) by (nonlinear_arith)
                requires
                    n >= 1,
                    from >= 1,
            ;
            assert(d < 0 ==> step_sq(from, d, n) <= 64) by (nonlinear_arith)
                requires
                    n >= 1,
                    from <= 64,
            ;
        }
    }
}

/// A rejection comes with a reason to show: its text is not empty.
pub open spec fn has_reason<T>(r: Result<T, MoveErr>) -> bool {
    r matches Err(e) ==> e.0@.len() > 0
}

/// `r` is the result that the classification `c` calls for: `Ok(k)` where `c` is
/// `Some(k)`, an error where it is `None`.
pub open spec fn reports(r: Result<MoveType, MoveErr>, c: Option<MoveType>) -> bool {
    match r {
        Ok(k) => c == Some(k),
        Err(_) => c is None,
    }
}

fn pawn_move(
    fen: &String,
    turn: bool,
    from: i32,
    to: i32,
    diff: i32,
    side_step: bool,
    to_row: usize,
) -> (r: Result<MoveType, MoveErr>)
    requires
        fen@.len() == 64,
        in_range(from as int),
        in_range(to as int),
        diff == (to - from) * side_factor(turn),
    ensures
        reports(
            r,
            pawn_kind(fen@, turn, from as int, to as int, diff as int, side_step, to_row as int),
        ),
        has_reason(r),
{
    let factor: i32 = if turn {
        -1
    } else {
        1
    };
    proof {
        if turn {
            assert(side_factor(turn) == -1);
            assert(diff == from - to) by (nonlinear_arith)
                requires
                    diff == (to - from) * -1,
            ;
        } else {
            assert(side_factor(turn) == 1);
            assert(diff == to - from);
        }
    }
    let target = square_char(fen, to);
    let base: Option<MoveType> = if diff == 8 && target == ' ' {
        Some(MoveType::Regular)
    } else if diff == 16 && square_char(fen, from + 8 * factor) == ' ' && target == ' ' {
        Some(MoveType::DoublePawn)
    } else if (diff == 7 || diff == 9) && side_step && belongs_to(target, !turn) {
        Some(MoveType::PawnCapture)
    } else if (diff == 7 || diff == 9) && side_step && target == ' ' {
        let behind = to - 8 * factor;
        if 1 <= behind && behind <= 64 {
            let victim = char_to_piece(square_char(fen, behind));
            let is_victim = if turn {
                victim == Piece::Black(Black::Pawn)
            } else {
                victim == Piece::White(White::Pawn)
            };
            if is_victim {
                Some(MoveType::EnPassant)
            } else {
                None
            }
        } else {
            None
        }
    } else {
        None
    };
    let far: usize = if turn {
        1
    } else {
        8
    };
    match base {
        Some(k) => {
            if k != MoveType::EnPassant && to_row == far {
                Ok(MoveType::Promotion)
            } else {
                Ok(k)
            }
        },
        None => {
            proof {
                reveal_strlit("Invalid Pawn move");
            }
            rejection("Invalid Pawn move")
        },
    }
}

fn knight_move(fen: &String, to: i32, diff: i32) -> (r: Result<MoveType, MoveErr>)
    requires
        fen@.len() == 64,
        in_range(to as int),
    ensures
        reports(r, knight_kind(fen@, to as int, diff as int)),
        has_reason(r),
{
    if diff == 5 || diff == -5 || diff == 11 || diff == -11 || diff == 15 || diff == -15 || diff
        == 17 || diff == -17 {
        Ok(occupancy(square_char(fen, to)))
    } else {
        proof {
            reveal_strlit("Invalid Knight move");
        }
        rejection("Invalid Knight move")
    }
}

/// A bishop (`diagonal`), rook (`straight`) or queen (both) move.
fn slider_move(fen: &String, turn: bool, from: i32, to: i32, straight: bool, diagonal: bool) -> (r:
    Result<MoveType, MoveErr>)
    requires
        fen@.len() == 64,
        in_range(from as int),
        in_range(to as int),
    ensures
        reports(
            r,
            slider_kind(
                fen@,
                turn,
                to as int,
                (straight && rook_reaches(fen@, from as int, to as int)) || (diagonal
                    && bishop_reaches(fen@, from as int, to as int)),
            ),
        ),
        has_reason(r),
{
    let target = square_char(fen, to);
    let reaches = (straight && (slides(fen, from, to, Offset::Up.to_i32()) || slides(
        fen,
        from,
        to,
        Offset::Down.to_i32(),
    ) || slides(fen, from, to, Offset::Left.to_i32()) || slides(
        fen,
        from,
        to,
        Offset::Right.to_i32(),
    ))) || (diagonal && (slides(fen, from, to, Offset::UpLeft.to_i32()) || slides(
        fen,
        from,
        to,
        Offset::UpRight.to_i32(),
    ) || slides(fen, from, to, Offset::DownLeft.to_i32()) || slides(
        fen,
        from,
        to,
        Offset::DownRight.to_i32(),
    )));
    if reaches && (target == ' ' || belongs_to(target, !turn)) {
        Ok(occupancy(target))
    } else if straight && diagonal {
        proof {
            reveal_strlit("Invalid Queen move");
        }
        rejection("Invalid Queen move")
    } else if straight {
        proof {
            reveal_strlit("Invalid Rook move");
        }
        rejection("Invalid Rook move")
    } else {
        proof {
            reveal_strlit("Invalid Bishop move");
        }
        rejection("Invalid Bishop move")
    }
}

fn king_move(fen: &String, turn: bool, from: i32, to: i32, diff: i32) -> (r: Result<
    MoveType,
    MoveErr,
>)
    requires
        fen@.len() == 64,
        in_range(from as int),
        in_range(to as int),
    ensures
        reports(r, king_kind(fen@, turn, from as int, to as int, diff as int)),
        has_reason(r),
{
    if diff == 2 || diff == -2 {
        let right = from + 2 <= 64 && square_char(fen, from + 1) == ' ' && square_char(
            fen,
            from + 2,
        ) == ' ';
        let left = from - 2 >= 1 && square_char(fen, from - 1) == ' ' && square_char(fen, from - 2)
            == ' ';
        if right || left {
            Ok(MoveType::Castle)
        } else {
            proof {
                reveal_strlit("Invalid King move: no room to castle");
            }
            rejection("Invalid King move: no room to castle")
        }
    } else if diff == 1 || diff == -1 || diff == 7 || diff == -7 || diff == 8 || diff == -8 || diff
        == 9 || diff == -9 {
        let target = square_char(fen, to);
        if belongs_to(target, turn) {
            proof {
                reveal_strlit("Invalid King move: the square holds your own piece");
            }
            rejection("Invalid King move: the square holds your own piece")
        } else {
            Ok(occupancy(target))
        }
    } else {
        proof {
            reveal_strlit("Invalid King move");
        }
        rejection("Invalid King move")
    }
}

/// A knight leaps: what stands between its square and its destination, or
/// anywhere else but on those two squares, does not change how its move is
/// classified.
pub proof fn lemma_knight_ignores_blockers(s1: Seq<char>, s2: Seq<char>, turn: bool, m: Move)
    requires
        piece_of(at(s1, square_index(m.0))) == Piece::White(White::Knight) || piece_of(
            at(s1, square_index(m.0)),
        ) == Piece::Black(Black::Knight),
        at(s1, square_index(m.0)) == at(s2, square_index(m.0)),
        at(s1, square_index(m.1)) == at(s2, square_index(m.1)),
    ensures
        classify(s1, turn, m) == classify(s2, turn, m),
{
}

/// `sq` is the square `[file, row]`.
pub open spec fn is_square(sq: [usize; 2], file: int, row: int) -> bool {
    sq[0] == file && sq[1] == row
}

/// A rook stops at the first piece in its way. With a rook of the side to move on
/// (1, 1) and a piece on (1, 2), the rook reaches neither (1, 3) nor (1, 8); where
/// that piece is the opponent's, the rook takes it on (1, 2).
pub proof fn lemma_rook_blocked(s: Seq<char>, turn: bool, to_next: Move, to_beyond: Move, to_far: Move)
    requires
        piece_of(at(s, 1)) == (if turn {
            Piece::White(White::Rook)
        } else {
            Piece::Black(Black::Rook)
        }),
        at(s, 9) != ' ',
        is_square(to_next.0, 1, 1) && is_square(to_next.1, 1, 2),
        is_square(to_beyond.0, 1, 1) && is_square(to_beyond.1, 1, 3),
        is_square(to_far.0, 1, 1) && is_square(to_far.1, 1, 8),
    ensures
        classify(s, turn, to_beyond) is None,
        classify(s, turn, to_far) is None,
        is_side(at(s, 9), !turn) ==> classify(s, turn, to_next) == Some(MoveType::Capture),
{
    assert(at(s, step_sq(1, 8, 1)) != ' ');
    assert forall|n: int| 1 <= n <= 7 && #[trigger] step_sq(1, 8, n) == 17 implies !clear_path(
        s,
        1,
        8,
        n,
    ) by {
        assert(n == 2);
    }
    assert forall|n: int| 1 <= n <= 7 && #[trigger] step_sq(1, 8, n) == 57 implies !clear_path(
        s,
        1,
        8,
        n,
    ) by {
        assert(n == 7);
    }
    assert(!slides_to(s, 1, 17, 8));
    assert(!slides_to(s, 1, 57, 8));
    assert(!rook_reaches(s, 1, 17));
    assert(!rook_reaches(s, 1, 57));
    assert(step_sq(1, 8, 1) == 9 && clear_path(s, 1, 8, 1));
    assert(rook_reaches(s, 1, 9));
}

impl Move {
    /// Classifies this move in the placement `fen` with `turn` to move (true: the
    /// uppercase side), or says why it is rejected. Reads only; both squares must
    /// be on the board.
    pub fn validate_move(&self, fen: &String, turn: bool) -> (r: Result<MoveType, MoveErr>)
        requires
            fen@.len() == 64,
            on_board(self.0),
            on_board(self.1),
        ensures
            reports(r, classify(fen@, turn, *self)),
            has_reason(r),
    {
        let factor: i32 = if turn {
            -1
        } else {
            1
        };
        let from = fen_idx(self.0);
        let to = fen_idx(self.1);
        let moved = square_char(fen, from);
        if !belongs_to(moved, turn) {
            proof {
                reveal_strlit("Wait for your turn: no piece of yours stands there");
            }
            return rejection("Wait for your turn: no piece of yours stands there");
        }
        let diff = (to - from) * factor;
        match char_to_piece(moved) {
            Piece::White(White::Pawn) | Piece::Black(Black::Pawn) => pawn_move(
                fen,
                turn,
                from,
                to,
                diff,
                self.1[0] == self.0[0] + 1 || self.0[0] == self.1[0] + 1,
                self.1[1],
            ),
            Piece::White(White::Knight) | Piece::Black(Black::Knight) => knight_move(fen, to, diff),
            Piece::White(White::Bishop) | Piece::Black(Black::Bishop) => slider_move(
                fen,
                turn,
                from,
                to,
                false,
                true,
            ),
            Piece::White(White::Rook) | Piece::Black(Black::Rook) => slider_move(
                fen,
                turn,
                from,
                to,
                true,
                false,
            ),
            Piece::White(White::Queen) | Piece::Black(Black::Queen) => slider_move(
                fen,
                turn,
                from,
                to,
                true,
                true,
            ),
            Piece::White(White::King) | Piece::Black(Black::King) => king_move(
                fen,
                turn,
                from,
                to,
                diff,
            ),
            Piece::Void => {
                proof {
                    reveal_strlit("No valid piece found");
                }
                rejection("No valid piece found")
            },
        }
    }

    pub fn new(start: [usize; 2], end: [usize; 2]) -> (r: Self)
        ensures
            r == Move(start, end),
    {
        Move(start, end)
    }

    pub fn decode_move(&self) -> (r: ([usize; 2], [usize; 2]))
        ensures
            r == (self.0, self.1),
    {
        (self.0, self.1)
    }

    /// The character on this move's starting square in `fen`.
    pub fn moved_piece(&self, fen: &String) -> (r: char)
        requires
            self.0[1] >= 1,
            1 <= square_index(self.0) <= fen@.len(),
            square_index(self.0) <= i32::MAX,
        ensures
            r == at(fen@, square_index(self.0)),
    {
        let k = fen_idx(self.0);
        fen.as_str().get_char((k - 1) as usize)
    }

    /// The linear index of the destination less that of the start.
    pub fn diff_fen(&self) -> (r: i32)
        requires
            self.0[1] >= 1,
            self.1[1] >= 1,
            square_index(self.0) <= i32::MAX,
            square_index(self.1) <= i32::MAX,
        ensures
            r == square_index(self.1) - square_index(self.0),
    {
        fen_idx(self.1) - fen_idx(self.0)
    }

    /// The material this move wins in `fen`, the placement it is made from: the
    /// value of the piece on its destination (pawn 1, knight and bishop 3, rook 5,
    /// queen 9), or 0 where there is none.
    pub fn rate_move_slight(&self, fen: &String) -> (r: i32)
        requires
            self.1[1] >= 1,
            1 <= square_index(self.1) <= fen@.len(),
            square_index(self.1) <= i32::MAX,
        ensures
            r == capture_value(at(fen@, square_index(self.1))),
    {
        let k = fen_idx(self.1);
        let taken = fen.as_str().get_char((k - 1) as usize);
        match taken {
            'P' | 'p' => 1,
            'N' | 'n' | 'B' | 'b' => 3,
            'R' | 'r' => 5,
            'Q' | 'q' => 9,
            _ => 0,
        }
    }
}

impl From<((usize, usize), (usize, usize))> for Move {
    fn from(m: ((usize, usize), (usize, usize))) -> (r: Self)
        ensures
            r == Move([m.0.0, m.0.1], [m.1.0, m.1.1]),
    {
        Move([m.0.0, m.0.1], [m.1.0, m.1.1])
    }
}

impl vstd::std_specs::convert::FromSpecImpl<((usize, usize), (usize, usize))> for Move {
    open spec fn obeys_from_spec() -> bool {
        true
    }

    open spec fn from_spec(m: ((usize, usize), (usize, usize))) -> Move {
        Move([m.0.0, m.0.1], [m.1.0, m.1.1])
    }
}

} // verus!
