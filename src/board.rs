//! The board: the position as an 8×8 grid, the side to move and the memory of
//! the last move.
//!
//! The grid is the position. The placement string in `FEN` is produced from it
//! by `encode` and read back by `decode`; moves are checked against an encoding
//! made on the spot, so a stale `FEN` never decides a move.
use vstd::prelude::*;

use crate::chess_move::{
    adjacent_files, at, classify, has_reason, on_board, reports, side_factor, square_index, Move,
    MoveErr, MoveType,
};
use crate::color::BoardColor;
use crate::text::push_char;

verus! {

/// The starting position as a placement string.
pub const DEFAULT_PIECE_NOTATION: &'static str =
    "rnbqkbnrpppppppp                                PPPPPPPPRNBQKBNR";

/// A position with its side to move.
#[allow(non_snake_case)]
#[derive(Debug, PartialEq)]
pub struct Board {
    /// The colours of the squares, for drawing.
    pub color: BoardColor,
    /// The grid, indexed `[row - 1][file - 1]`.
    pub board: [[char; 8]; 8],
    /// The placement string as of the last `encode` (or as given to `from_fen`).
    pub FEN: String,
    /// True when the side with uppercase pieces moves next.
    pub turn: bool,
    /// Whether coordinates are drawn beside the board.
    pub coordinates: bool,
    /// The colour in which the uppercase side's pieces are drawn.
    pub white_color: (u8, u8, u8),
    /// The colour in which the lowercase side's pieces are drawn.
    pub black_color: (u8, u8, u8),
    /// The most recently applied move, for `undo_move` and en passant.
    pub last_move: Option<Move>,
    /// A pawn has reached the far row and waits for `promote_piece`.
    pub promotion_pending: bool,
    /// The piece that the last accepted move took, if it took one.
    pub taken_piece: Option<char>,
}

impl Clone for Board {
    fn clone(&self) -> (r: Board)
        ensures
            r == *self,
    {
        Board {
            color: self.color,
            board: self.board,
            FEN: self.FEN.clone(),
            turn: self.turn,
            coordinates: self.coordinates,
            white_color: self.white_color,
            black_color: self.black_color,
            last_move: self.last_move,
            promotion_pending: self.promotion_pending,
            taken_piece: self.taken_piece,
        }
    }
}

/// The character at 0-based linear position `k` of the grid.
pub open spec fn cell(grid: [[char; 8]; 8], k: int) -> char {
    grid[k / 8][k % 8]
}

/// The grid flattened row by row: its 64-character placement string.
pub open spec fn placement(grid: [[char; 8]; 8]) -> Seq<char> {
    Seq::new(64, |k: int| cell(grid, k))
}

/// The placement of an empty board.
pub open spec fn blank() -> Seq<char> {
    Seq::new(64, |k: int| ' ')
}

/// The placement of the starting position.
pub open spec fn start_placement() -> Seq<char> {
    seq!['r', 'n', 'b', 'q', 'k', 'b', 'n', 'r'] + Seq::new(8, |k: int| 'p') + blank().take(32)
        + Seq::new(8, |k: int| 'P') + seq!['R', 'N', 'B', 'Q', 'K', 'B', 'N', 'R']
}

/// The square colours that a new board is drawn with.
pub open spec fn default_squares() -> ((u8, u8, u8), (u8, u8, u8)) {
    ((219, 52, 0), (210, 191, 181))
}

/// A board as every constructor leaves it, apart from its grid and `FEN`.
pub open spec fn fresh(b: Board) -> bool {
    &&& b.color@ == default_squares()
    &&& b.turn
    &&& b.coordinates
    &&& b.white_color == (255u8, 255u8, 255u8)
    &&& b.black_color == (0u8, 0u8, 0u8)
    &&& b.last_move is None
    &&& !b.promotion_pending
    &&& b.taken_piece is None
}

/// Equal grids flatten to equal placements, and only they do.
pub proof fn lemma_placement_injective(g1: [[char; 8]; 8], g2: [[char; 8]; 8])
    requires
        placement(g1) == placement(g2),
    ensures
        g1 == g2,
{
    assert forall|i: int| 0 <= i < 8 implies g1[i] == g2[i] by {
        assert forall|j: int| 0 <= j < 8 implies g1[i][j] == g2[i][j] by {
            let k = i * 8 + j;
            assert(k / 8 == i && k % 8 == j);
            assert(0 <= k < 64);
            assert(placement(g1)[k] == cell(g1, k));
            assert(placement(g2)[k] == cell(g2, k));
            assert(cell(g1, k) == g1[i][j]);
        }
        assert(g1[i]@ =~= g2[i]@);
    }
    assert(g1@ =~= g2@);
}

fn get_cell(grid: &[[char; 8]; 8], k: usize) -> (c: char)
    requires
        k < 64,
    ensures
        c == placement(*grid)[k as int],
{
    grid[k / 8][k % 8]
}

fn set_cell(grid: &mut [[char; 8]; 8], k: usize, c: char)
    requires
        k < 64,
    ensures
        placement(*final(grid)) == placement(*old(grid)).update(k as int, c),
{
    let i = k / 8;
    let j = k % 8;
    let mut row = grid[i];
    row[j] = c;
    grid[i] = row;
    assert(placement(*grid) =~= placement(*old(grid)).update(k as int, c));
}

/// `s` with each decimal digit `d` written out as `d` spaces.
pub open spec fn expand_digits(s: Seq<char>) -> Seq<char>
    decreases s.len(),
{
    if s.len() == 0 {
        s
    } else if '0' <= s.last() <= '9' {
        expand_digits(s.drop_last()) + Seq::new((s.last() as int - 48) as nat, |i: int| ' ')
    } else {
        expand_digits(s.drop_last()).push(s.last())
    }
}

/// Writes each decimal digit of `lit` out as that many spaces, as the rows of a
/// FEN record count empty squares.
pub fn nums_to_whitespaces(lit: &String) -> (r: String)
    ensures
        r@ == expand_digits(lit@),
{
    let n = lit.as_str().unicode_len();
    let mut s = String::new();
    let mut i: usize = 0;
    while i < n
        invariant
            n == lit@.len(),
            i <= n,
            s@ == expand_digits(lit@.take(i as int)),
        decreases n - i,
    {
        let ch = lit.as_str().get_char(i);
        assert(lit@.take(i + 1).drop_last() =~= lit@.take(i as int));
        if '0' <= ch && ch <= '9' {
            let count = ch as u32 - 48;
            let ghost before = s@;
            let mut j: u32 = 0;
            while j < count
                invariant
                    j <= count,
                    s@ == before + Seq::new(j as nat, |k: int| ' '),
                decreases count - j,
            {
                push_char(&mut s, ' ');
                j = j + 1;
                assert(s@ =~= before + Seq::new(j as nat, |k: int| ' '));
            }
        } else {
            push_char(&mut s, ch);
        }
        i = i + 1;
    }
    assert(lit@.take(n as int) =~= lit@);
    s
}

/// The placement string of `grid`.
fn encode_grid(grid: &[[char; 8]; 8]) -> (r: String)
    ensures
        r@ == placement(*grid),
{
    let mut s = String::new();
    let mut k: usize = 0;
    while k < 64
        invariant
            k <= 64,
            s@ == placement(*grid).take(k as int),
        decreases 64 - k,
    {
        push_char(&mut s, get_cell(grid, k));
        k = k + 1;
        assert(s@ =~= placement(*grid).take(k as int));
    }
    assert(s@ =~= placement(*grid));
    s
}

/// A grid with `c` on every square.
fn filled(c: char) -> (r: [[char; 8]; 8])
    ensures
        placement(r) == Seq::new(64, |k: int| c),
{
    let row: [char; 8] = [c, c, c, c, c, c, c, c];
    let grid: [[char; 8]; 8] = [row, row, row, row, row, row, row, row];
    assert(placement(grid) =~= Seq::new(64, |k: int| c));
    grid
}

impl Board {
    /// An empty board that carries `fen` as its placement string, not decoded.
    pub fn new(fen: String) -> (r: Board)
        ensures
            placement(r.board) == blank(),
            r.FEN == fen,
            fresh(r),
    {
        Board {
            color: BoardColor::from(((219u8, 52u8, 0u8), (210u8, 191u8, 181u8))),
            board: filled(' '),
            FEN: fen,
            turn: true,
            coordinates: true,
            white_color: (255, 255, 255),
            black_color: (0, 0, 0),
            last_move: None,
            promotion_pending: false,
            taken_piece: None,
        }
    }

    /// The board whose position is the first 64 characters of `fen`.
    pub fn from_fen(fen: String) -> (r: Board)
        requires
            fen@.len() >= 64,
        ensures
            placement(r.board) == fen@.take(64),
            r.FEN == fen,
            fresh(r),
    {
        let mut tmp = Board::new(fen);
        tmp.decode();
        tmp
    }

    /// The board with the position `board`, its placement string encoded.
    pub fn from_vec(board: [[char; 8]; 8]) -> (r: Board)
        ensures
            r.board == board,
            r.FEN@ == placement(board),
            fresh(r),
    {
        let mut tmp = Board::new(String::new());
        tmp.board = board;
        tmp.encode();
        tmp
    }

    /// Sets `FEN` to the placement string of the grid.
    pub fn encode(&mut self)
        ensures
            final(self).FEN@ == placement(old(self).board),
            *final(self) == (Board { FEN: final(self).FEN, ..*old(self) }),
    {
        self.FEN = encode_grid(&self.board);
    }

    /// Sets the grid from the first 64 characters of `FEN`.
    pub fn decode(&mut self)
        requires
            old(self).FEN@.len() >= 64,
        ensures
            placement(final(self).board) == old(self).FEN@.take(64),
            *final(self) == (Board { board: final(self).board, ..*old(self) }),
    {
        let ghost s = self.FEN@;
        let mut k: usize = 0;
        while k < 64
            invariant
                k <= 64,
                s == self.FEN@,
                s.len() >= 64,
                forall|i: int| 0 <= i < k ==> placement(self.board)[i] == s[i],
                *self == (Board { board: self.board, ..*old(self) }),
            decreases 64 - k,
        {
            let c = self.FEN.as_str().get_char(k);
            set_cell(&mut self.board, k, c);
            k = k + 1;
        }
        assert(placement(self.board) =~= s.take(64));
    }

    /// A new board in the starting position; this board is left as it is.
    pub fn classic(&mut self) -> (r: Board)
        ensures
            starting(r),
            *final(self) == *old(self),
    {
        start_board()
    }

    /// A resignation: the board keeps no notion of how a game ends, so it stays as
    /// it is; the caller decides what follows.
    pub fn resign(&mut self)
        ensures
            *final(self) == *old(self),
    {
        let _fresh = self.classic();
    }

    /// Empties the square `pos` (`[file, row]`) and encodes the placement.
    pub fn remove(&mut self, pos: [usize; 2])
        requires
            on_board(pos),
        ensures
            placement(final(self).board) == placement(old(self).board).update(
                square_index(pos) - 1,
                ' ',
            ),
            final(self).FEN@ == placement(final(self).board),
            *final(self) == (Board { board: final(self).board, FEN: final(self).FEN, ..*old(self) }),
    {
        set_cell(&mut self.board, (pos[1] - 1) * 8 + pos[0] - 1, ' ');
        self.encode();
    }

    /// Places `piece` on the square `pos` (`[file, row]`) and encodes the placement.
    pub fn put(&mut self, pos: [usize; 2], piece: char)
        requires
            on_board(pos),
        ensures
            placement(final(self).board) == placement(old(self).board).update(
                square_index(pos) - 1,
                piece,
            ),
            final(self).FEN@ == placement(final(self).board),
            *final(self) == (Board { board: final(self).board, FEN: final(self).FEN, ..*old(self) }),
    {
        set_cell(&mut self.board, (pos[1] - 1) * 8 + pos[0] - 1, piece);
        self.encode();
    }

    pub fn set_color(&mut self, color: BoardColor)
        ensures
            *final(self) == (Board { color, ..*old(self) }),
    {
        self.color = color;
    }

    /// Hands the move to the other side.
    pub fn reverse_turn(&mut self)
        ensures
            *final(self) == (Board { turn: !old(self).turn, ..*old(self) }),
    {
        self.turn = !self.turn;
    }

    /// Writes `piece` into the grid cell `[row index][file index]`, both 0-based,
    /// without encoding the placement.
    pub fn change_piece(&mut self, coords: [usize; 2], piece: char)
        requires
            coords[0] < 8,
            coords[1] < 8,
        ensures
            placement(final(self).board) == placement(old(self).board).update(
                coords[0] * 8 + coords[1],
                piece,
            ),
            *final(self) == (Board { board: final(self).board, ..*old(self) }),
    {
        set_cell(&mut self.board, coords[0] * 8 + coords[1], piece);
    }
}

/// The board in the starting position, with the side to move first to move.
pub open spec fn starting(b: Board) -> bool {
    &&& placement(b.board) == start_placement()
    &&& b.FEN@ == start_placement()
    &&& fresh(b)
}

fn start_board() -> (r: Board)
    ensures
        starting(r),
{
    let mut init = Board::new(DEFAULT_PIECE_NOTATION.to_owned());
    proof {
        reveal_strlit("rnbqkbnrpppppppp                                PPPPPPPPRNBQKBNR");
    }
    assert(init.FEN@ =~= start_placement());
    init.decode();
    assert(init.FEN@.take(64) =~= start_placement());
    init
}

impl Default for Board {
    /// The starting position.
    fn default() -> (r: Board)
        ensures
            starting(r),
    {
        start_board()
    }
}

/// `p` with the piece on square `from` carried to square `to` and `from` left
/// empty (1-based linear indices).
pub open spec fn relocate(p: Seq<char>, from: int, to: int) -> Seq<char> {
    p.update(to - 1, p[from - 1]).update(from - 1, ' ')
}

/// The rook's journey (from, to) that goes with a castle of `turn`'s king onto
/// file `to_file`: on the mover's back row, file 8 to 6 or file 1 to 4.
pub open spec fn castle_rook(turn: bool, to_file: int) -> Option<(int, int)> {
    let base = if turn {
        56int
    } else {
        0int
    };
    if to_file == 7 {
        Some((base + 8, base + 6))
    } else if to_file == 3 {
        Some((base + 1, base + 4))
    } else {
        None
    }
}

/// The square of the pawn that an en passant capture by `turn` onto `to` takes.
pub open spec fn en_passant_square(turn: bool, to: [usize; 2]) -> int {
    square_index(to) - 8 * side_factor(turn)
}

/// The placement after the move `m` of kind `k`, made by `turn` in `p`.
pub open spec fn placement_after(p: Seq<char>, turn: bool, m: Move, k: MoveType) -> Seq<char> {
    let from = square_index(m.0);
    let to = square_index(m.1);
    if k == MoveType::Castle {
        let q = match castle_rook(turn, m.1[0] as int) {
            Some(r) => relocate(p, r.0, r.1),
            None => p,
        };
        relocate(q, from, to)
    } else if k == MoveType::EnPassant {
        relocate(p.update(en_passant_square(turn, m.1) - 1, ' '), from, to)
    } else {
        relocate(p, from, to)
    }
}

/// `lm` advanced a pawn of the side that is not `turn` two rows, onto `[file, row]`.
pub open spec fn double_advance_onto(lm: Move, file: int, row: int, turn: bool) -> bool {
    &&& lm.1[0] == file
    &&& lm.1[1] == row
    &&& lm.0[0] == file
    &&& lm.0[1] == row + 2 * side_factor(turn)
}

/// The pawn that the en passant capture `m` takes made the last move, a double advance.
pub open spec fn en_passant_allowed(b: Board, m: Move) -> bool {
    b.last_move matches Some(lm) && double_advance_onto(
        lm,
        m.1[0] as int,
        m.1[1] - side_factor(b.turn),
        b.turn,
    )
}

/// How `move_piece` classifies `m` on `b`, or `None` where it rejects it.
pub open spec fn apply_outcome(b: Board, m: Move) -> Option<MoveType> {
    if !on_board(m.0) || !on_board(m.1) || m.0 == m.1 {
        None
    } else {
        let c = classify(placement(b.board), b.turn, m);
        if c == Some(MoveType::EnPassant) && !en_passant_allowed(b, m) {
            None
        } else {
            c
        }
    }
}

/// `new` is `old` after the accepted move `m` of kind `k`.
pub open spec fn applied(old: Board, m: Move, k: MoveType, new: Board) -> bool {
    &&& placement(new.board) == placement_after(placement(old.board), old.turn, m, k)
    &&& new.FEN@ == placement(new.board)
    &&& new == (Board {
        board: new.board,
        FEN: new.FEN,
        turn: !old.turn,
        last_move: Some(m),
        promotion_pending: k == MoveType::Promotion,
        taken_piece: taken_by(placement(old.board), old.turn, m, k),
        ..old
    })
}

/// The piece that the move `m` of kind `k`, made by `turn` in `p`, takes: the pawn
/// behind the destination for en passant, else whatever stood on the destination.
pub open spec fn taken_by(p: Seq<char>, turn: bool, m: Move, k: MoveType) -> Option<char> {
    let sq = if k == MoveType::EnPassant {
        en_passant_square(turn, m.1)
    } else {
        square_index(m.1)
    };
    if at(p, sq) == ' ' {
        None
    } else {
        Some(at(p, sq))
    }
}

/// `new` is `old` after `undo_move`.
pub open spec fn undone(old: Board, new: Board) -> bool {
    match old.last_move {
        Some(lm) => if on_board(lm.0) && on_board(lm.1) {
            let p = placement(old.board);
            &&& placement(new.board) == p.update(square_index(lm.0) - 1, at(p, square_index(lm.1))).update(
                square_index(lm.1) - 1,
                ' ',
            )
            &&& new.FEN@ == placement(new.board)
            &&& new == (Board {
                board: new.board,
                FEN: new.FEN,
                turn: !old.turn,
                last_move: None,
                promotion_pending: false,
                ..old
            })
        } else {
            new.FEN@ == placement(old.board) && new == (Board { FEN: new.FEN, ..old })
        },
        None => new.FEN@ == placement(old.board) && new == (Board { FEN: new.FEN, ..old }),
    }
}

/// The signed value of a placement character: positive for the uppercase side.
pub open spec fn piece_score(c: char) -> int {
    if c == 'P' {
        1
    } else if c == 'N' || c == 'B' {
        3
    } else if c == 'R' {
        5
    } else if c == 'Q' {
        9
    } else if c == 'p' {
        -1
    } else if c == 'n' || c == 'b' {
        -3
    } else if c == 'r' {
        -5
    } else if c == 'q' {
        -9
    } else {
        0
    }
}

/// The material balance of a placement.
pub open spec fn material(p: Seq<char>) -> int
    decreases p.len(),
{
    if p.len() == 0 {
        0
    } else {
        material(p.drop_last()) + piece_score(p.last())
    }
}

/// The piece a pawn of White (`white`) or Black becomes for the letter `c`, in
/// either case, or `None` where `c` names no piece a pawn may become.
pub open spec fn promotion_letter(c: char, white: bool) -> Option<char> {
    if c == 'q' || c == 'Q' {
        Some(if white { 'Q' } else { 'q' })
    } else if c == 'r' || c == 'R' {
        Some(if white { 'R' } else { 'r' })
    } else if c == 'b' || c == 'B' {
        Some(if white { 'B' } else { 'b' })
    } else if c == 'n' || c == 'N' {
        Some(if white { 'N' } else { 'n' })
    } else {
        None
    }
}

/// The square of the pawn waiting to be promoted, if one is.
pub open spec fn promotion_square(b: Board) -> Option<int> {
    match b.last_move {
        Some(lm) => if b.promotion_pending && on_board(lm.1) {
            Some(square_index(lm.1))
        } else {
            None
        },
        None => None,
    }
}

impl Board {
    /// Carries the piece on the move's start to its destination and empties the
    /// start, without any check.
    pub fn move_unchecked(&mut self, current_move: &Move)
        requires
            on_board(current_move.0),
            on_board(current_move.1),
        ensures
            placement(final(self).board) == relocate(
                placement(old(self).board),
                square_index(current_move.0),
                square_index(current_move.1),
            ),
            *final(self) == (Board { board: final(self).board, ..*old(self) }),
    {
        let from = (current_move.0[1] - 1) * 8 + current_move.0[0] - 1;
        let to = (current_move.1[1] - 1) * 8 + current_move.1[0] - 1;
        let piece = get_cell(&self.board, from);
        set_cell(&mut self.board, to, piece);
        set_cell(&mut self.board, from, ' ');
    }

    /// Checks `current_move` and, where it is accepted, makes it: the rook of a
    /// castle moves too, and the pawn taken en passant leaves the board. The side
    /// to move changes and the move is remembered. A rejected move changes nothing.
    /// The move is checked against the grid itself, and `FEN` is encoded afresh
    /// after it; the piece it takes is kept in `taken_piece`.
    pub fn move_piece(&mut self, current_move: Move) -> (r: Result<MoveType, MoveErr>)
        ensures
            reports(r, apply_outcome(*old(self), current_move)),
            has_reason(r),
            r matches Ok(k) ==> applied(*old(self), current_move, k, *final(self)),
            r is Ok ==> final(self).turn == !old(self).turn,
            r is Err ==> *final(self) == *old(self),
            r is Err ==> final(self).turn == old(self).turn,
    {
        let (from, to) = current_move.decode_move();
        if from[0] == to[0] && from[1] == to[1] {
            proof {
                reveal_strlit("You can't move a piece to the same place");
            }
            return Err(MoveErr("You can't move a piece to the same place".to_owned()));
        }
        if from[0] < 1 || from[0] > 8 || from[1] < 1 || from[1] > 8 || to[0] < 1 || to[0] > 8
            || to[1] < 1 || to[1] > 8 {
            proof {
                reveal_strlit("Invalid coordinates");
            }
            return Err(MoveErr("Invalid coordinates".to_owned()));
        }
        let fen = encode_grid(&self.board);
        let kind = match current_move.validate_move(&fen, self.turn) {
            Ok(k) => k,
            Err(e) => return Err(e),
        };
        if kind == MoveType::EnPassant {
            let taken_row: usize = if self.turn {
                to[1] + 1
            } else {
                to[1] - 1
            };
            let after_double = match self.last_move {
                Some(lm) => lm.1[0] == to[0] && lm.1[1] == taken_row && lm.0[0] == to[0] && if self.turn {
                    lm.0[1] == taken_row - 2
                } else {
                    lm.0[1] == taken_row + 2
                },
                None => false,
            };
            if !after_double {
                proof {
                    reveal_strlit("Invalid en passant move");
                }
                return Err(MoveErr("Invalid en passant move".to_owned()));
            }
            self.taken_piece = Some(get_cell(&self.board, (taken_row - 1) * 8 + to[0] - 1));
            set_cell(&mut self.board, (taken_row - 1) * 8 + to[0] - 1, ' ');
        }
        if kind != MoveType::EnPassant {
            let target = get_cell(&self.board, (to[1] - 1) * 8 + to[0] - 1);
            self.taken_piece = if target == ' ' {
                None
            } else {
                Some(target)
            };
        }
        if kind == MoveType::Castle {
            let rank: usize = if self.turn {
                8
            } else {
                1
            };
            if to[0] == 7 {
                self.move_unchecked(&Move::new([8, rank], [6, rank]));
            } else if to[0] == 3 {
                self.move_unchecked(&Move::new([1, rank], [4, rank]));
            }
        }
        self.move_unchecked(&current_move);
        self.turn = !self.turn;
        self.last_move = Some(current_move);
        self.promotion_pending = kind == MoveType::Promotion;
        self.encode();
        Ok(kind)
    }

    /// Takes back the last move: its piece returns to its start, its destination is
    /// left empty (a piece it took is not restored), the side to move changes back
    /// and the move is forgotten. The placement is encoded. With no move to take
    /// back, only the encoding happens.
    pub fn undo_move(&mut self)
        ensures
            undone(*old(self), *final(self)),
    {
        match self.last_move {
            Some(lm) => {
                if 1 <= lm.0[0] && lm.0[0] <= 8 && 1 <= lm.0[1] && lm.0[1] <= 8 && 1 <= lm.1[0]
                    && lm.1[0] <= 8 && 1 <= lm.1[1] && lm.1[1] <= 8 {
                    let from = (lm.0[1] - 1) * 8 + lm.0[0] - 1;
                    let to = (lm.1[1] - 1) * 8 + lm.1[0] - 1;
                    let piece = get_cell(&self.board, to);
                    set_cell(&mut self.board, from, piece);
                    set_cell(&mut self.board, to, ' ');
                    self.turn = !self.turn;
                    self.last_move = None;
                    self.promotion_pending = false;
                }
            },
            None => {},
        }
        self.encode();
    }

    /// The material balance: pawn 1, knight and bishop 3, rook 5, queen 9, counted
    /// positive for the uppercase side and negative for the lowercase side.
    pub fn simple_evaluate(&self) -> (r: i32)
        ensures
            r == material(placement(self.board)),
    {
        let ghost p = placement(self.board);
        let mut score: i32 = 0;
        let mut k: usize = 0;
        while k < 64
            invariant
                k <= 64,
                p == placement(self.board),
                score == material(p.take(k as int)),
                -9 * k <= score <= 9 * k,
            decreases 64 - k,
        {
            let value: i32 = match get_cell(&self.board, k) {
                'P' => 1,
                'N' | 'B' => 3,
                'R' => 5,
                'Q' => 9,
                'p' => -1,
                'n' | 'b' => -3,
                'r' => -5,
                'q' => -9,
                _ => 0,
            };
            assert(p.take(k + 1).drop_last() =~= p.take(k as int));
            score = score + value;
            k = k + 1;
        }
        assert(p.take(64) =~= p);
        score
    }

    /// Turns the pawn that waits for promotion into the piece named by `piece` (q,
    /// r, b or n, in either case), of the pawn's side, and encodes the placement. Fails, changing nothing,
    /// where no pawn waits or the letter names no such piece.
    pub fn promote_piece(&mut self, piece: char) -> (r: Result<(), ()>)
        ensures
            r is Ok <==> (promotion_square(*old(self)) is Some && promotion_letter(
                piece,
                !old(self).turn,
            ) is Some),
            r is Ok ==> placement(final(self).board) == placement(old(self).board).update(
                promotion_square(*old(self))->0 - 1,
                promotion_letter(piece, !old(self).turn)->0,
            ),
            r is Ok ==> final(self).FEN@ == placement(final(self).board),
            r is Ok ==> *final(self) == (Board {
                board: final(self).board,
                FEN: final(self).FEN,
                promotion_pending: false,
                ..*old(self)
            }),
            r is Err ==> *final(self) == *old(self),
    {
        if !self.promotion_pending {
            return Err(());
        }
        let coords = match self.last_move {
            Some(lm) => lm.1,
            None => return Err(()),
        };
        if coords[0] < 1 || coords[0] > 8 || coords[1] < 1 || coords[1] > 8 {
            return Err(());
        }
        let white = !self.turn;
        let promoted = match piece {
            'q' | 'Q' => if white { 'Q' } else { 'q' },
            'r' | 'R' => if white { 'R' } else { 'r' },
            'b' | 'B' => if white { 'B' } else { 'b' },
            'n' | 'N' => if white { 'N' } else { 'n' },
            _ => return Err(()),
        };
        set_cell(&mut self.board, (coords[1] - 1) * 8 + coords[0] - 1, promoted);
        self.promotion_pending = false;
        self.encode();
        Ok(())
    }
}

/// The castle `m` fetches its rook from the square its king starts on.
pub open spec fn rook_starts_under_king(turn: bool, m: Move) -> bool {
    match castle_rook(turn, m.1[0] as int) {
        Some(r) => r.0 == square_index(m.0),
        None => false,
    }
}

/// Decoding a 64-character placement string and encoding the grid again gives the
/// same string: `b0` decodes into `b1`, which encodes into `b2`.
pub proof fn lemma_decode_then_encode(b0: Board, b1: Board, b2: Board)
    requires
        b0.FEN@.len() == 64,
        placement(b1.board) == b0.FEN@.take(64),
        b2.FEN@ == placement(b1.board),
    ensures
        b2.FEN@ == b0.FEN@,
{
    assert(b0.FEN@.take(64) =~= b0.FEN@);
}

/// Encoding a grid and decoding the string again gives the same grid: `b0`
/// encodes into `b1`, which decodes into `b2`.
pub proof fn lemma_encode_then_decode(b0: Board, b1: Board, b2: Board)
    requires
        b1.FEN@ == placement(b0.board),
        placement(b2.board) == b1.FEN@.take(64),
    ensures
        b2.board == b0.board,
{
    assert(b1.FEN@.take(64) =~= b1.FEN@);
    lemma_placement_injective(b2.board, b0.board);
}

/// Taking back an accepted move gives the turn back to its side and returns the
/// moved piece to its start, while the destination is left empty: a piece the
/// move took stays off the board. (`b0` makes the move `m` of kind `k` and becomes
/// `b1`; undoing it gives `b2`.) The one exception is a castle whose king starts on
/// the corner from which the rook is fetched: there the rook's move carries the
/// king along.
pub proof fn lemma_undo_after_move(b0: Board, m: Move, k: MoveType, b1: Board, b2: Board)
    requires
        apply_outcome(b0, m) == Some(k),
        applied(b0, m, k, b1),
        undone(b1, b2),
        !(k == MoveType::Castle && rook_starts_under_king(b0.turn, m)),
    ensures
        b2.turn == b0.turn,
        at(placement(b2.board), square_index(m.0)) == at(placement(b0.board), square_index(m.0)),
        at(placement(b2.board), square_index(m.1)) == ' ',
{
    let p = placement(b0.board);
    let from = square_index(m.0);
    let to = square_index(m.1);
    assert(from != to);
    if k == MoveType::EnPassant {
        let diff = (to - from) * side_factor(b0.turn);
        assert(diff == 7 || diff == 9);
        assert(en_passant_square(b0.turn, m.1) != from);
    }
}

/// An en passant capture is accepted only as the answer to the double advance of
/// the pawn it takes: the last move brought that pawn two rows forward, on its
/// file, onto the square beside the capturing pawn (the destination's file, the
/// start's row). The capture empties that square and the start, puts the pawn on
/// the destination and hands the move to the other side. (`b0` makes the capture
/// `m` and becomes `b1`.)
pub proof fn lemma_en_passant(b0: Board, m: Move, b1: Board)
    requires
        apply_outcome(b0, m) == Some(MoveType::EnPassant),
        applied(b0, m, MoveType::EnPassant, b1),
    ensures
        b0.last_move matches Some(lm) && double_advance_onto(
            lm,
            m.1[0] as int,
            m.0[1] as int,
            b0.turn,
        ),
        at(placement(b1.board), m.1[0] + (m.0[1] - 1) * 8) == ' ',
        at(placement(b1.board), square_index(m.1)) == at(placement(b0.board), square_index(m.0)),
        at(placement(b1.board), square_index(m.0)) == ' ',
        b1.turn == !b0.turn,
{
    let from = square_index(m.0);
    let to = square_index(m.1);
    let f = side_factor(b0.turn);
    let diff = (to - from) * f;
    assert(diff == 7 || diff == 9);
    assert(adjacent_files(m));
    assert(to - from == diff * f) by (nonlinear_arith)
        requires
            diff == (to - from) * f,
            f == 1 || f == -1,
    ;
    assert(m.1[1] - f == m.0[1]);
    assert(en_passant_square(b0.turn, m.1) == m.1[0] + (m.0[1] - 1) * 8);
    assert(en_passant_square(b0.turn, m.1) != from);
    assert(en_passant_square(b0.turn, m.1) != to);
}

} // verus!
