//! A chess position with move legality checking.
//!
//! The position lives in an 8×8 grid of placement characters. A 64-character
//! placement string (row 1 first, files 1..8 within a row) is produced from the
//! grid on demand; a space is an empty square, uppercase letters are White's
//! pieces and lowercase letters Black's.
pub mod board;
pub mod chess_move;
pub mod color;
pub mod parser;
pub mod piece;
pub mod text;

pub use board::{nums_to_whitespaces, Board, DEFAULT_PIECE_NOTATION};
pub use color::{BoardColor, Color};
pub use chess_move::{fen_idx, is_white, Move, MoveErr, MoveType, Offset};
pub use parser::{convert_to_coords, parse_coords, ParseErr};
pub use piece::{char_to_piece, Black, Piece, White};
