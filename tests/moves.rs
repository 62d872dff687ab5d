use chess::{fen_idx, Board, Move, MoveType};

/// The piece on `sq` according to the board's placement string.
fn piece_at(board: &Board, sq: [usize; 2]) -> char {
    Move::new(sq, sq).moved_piece(&board.FEN)
}

#[test]
fn test_diff_fen() {
    let m = Move::new([3, 4], [4, 4]);
    assert_eq!(m.diff_fen(), 1);
    let m = Move::new([3, 4], [4, 5]);
    assert_eq!(m.diff_fen(), 9);
    let m = Move::new([2, 1], [1, 3]);
    assert_eq!(m.diff_fen(), 15);
}

#[test]
fn test_into() {
    let m: Move = ((3, 4), (4, 4)).into();
    assert_eq!(m.diff_fen(), 1);
    let m: Move = ((3, 4), (4, 5)).into();
    assert_eq!(m.diff_fen(), 9);
    let m: Move = ((2, 1), (1, 3)).into();
    assert_eq!(m.diff_fen(), 15);
}

#[test]
fn test_fen_idx() {
    assert_eq!(fen_idx([3, 4]), 27);
    assert_eq!(fen_idx([4, 4]), 28);
    assert_eq!(fen_idx([2, 1]), 2);
    assert_eq!(fen_idx([1, 3]), 17);
}

#[test]
fn test_general_game() {
    let mut board: Board = Default::default();
    let m = Move::new([5, 7], [5, 6]);
    board.move_piece(m.clone()).unwrap();
    assert_eq!(piece_at(&board, m.1), 'P');
    board.encode();

    let m = Move::new([5, 2], [5, 4]);
    board.move_piece(m.clone()).unwrap();
    assert_eq!(piece_at(&board, m.1), 'p');
    board.encode();

    let m = Move::new([2, 8], [3, 6]);
    board.move_piece(m.clone()).unwrap();
    assert_eq!(piece_at(&board, m.1), 'N');
    board.encode();

    let m = Move::new([2, 1], [3, 3]);
    board.move_piece(m.clone()).unwrap();
    assert_eq!(piece_at(&board, m.1), 'n');
    board.encode();

    let m = Move::new([6, 8], [3, 5]);
    board.move_piece(m.clone()).unwrap();
    assert_eq!(piece_at(&board, m.1), 'B');
    board.encode();

    let m = Move::new([6, 1], [2, 5]);
    board.move_piece(m.clone()).unwrap();
    assert_eq!(piece_at(&board, m.1), 'b');
    board.encode();

    let m = Move::new([5, 6], [5, 5]);
    board.move_piece(m.clone()).unwrap();
    assert_eq!(piece_at(&board, m.1), 'P');
    board.encode();

    let m = Move::new([5, 4], [5, 5]);
    assert!(board.move_piece(m.clone()).is_err());

    let m = Move::new([5, 4], [5, 3]);
    assert!(board.move_piece(m.clone()).is_err());

    let m = Move::new([5, 4], [5, 2]);
    assert!(board.move_piece(m.clone()).is_err());

    let m = Move::new([7, 1], [7, 3]);
    assert!(board.move_piece(m.clone()).is_err());

    let m = Move::new([7, 1], [8, 3]);
    board.move_piece(m.clone()).unwrap();
    assert_eq!(piece_at(&board, m.1), 'n');
}

#[test]
fn test_pawn_move() {
    let mut board: Board = Default::default();
    let m = Move::new([5, 7], [5, 6]);
    let move_type = board.move_piece(m.clone()).unwrap();
    assert_eq!(move_type, MoveType::Regular);
    assert_eq!(piece_at(&board, m.1), 'P');
}

#[test]
fn test_pawn_capture() {
    let mut board: Board = Default::default();
    let m = Move::new([5, 7], [5, 5]);
    board.move_piece(m.clone()).unwrap();
    assert_eq!(piece_at(&board, m.1), 'P');
    board.encode();

    let m = Move::new([4, 2], [4, 4]);
    board.move_piece(m.clone()).unwrap();
    assert_eq!(piece_at(&board, m.1), 'p');
    board.encode();

    let m = Move::new([5, 5], [4, 4]); // Capture
    let move_type = board.move_piece(m.clone()).unwrap();
    assert_eq!(move_type, MoveType::PawnCapture);
}

#[test]
fn test_knight_move() {
    let mut board: Board = Default::default();
    let m = Move::new([2, 8], [3, 6]);
    let move_type = board.move_piece(m.clone()).unwrap();
    assert_eq!(move_type, MoveType::Regular);
    assert_eq!(piece_at(&board, m.1), 'N');
    board.encode();
}

#[test]
fn test_knight_capture() {
    let mut board: Board = Default::default();
    let m = Move::new([7, 8], [6, 6]);
    board.move_piece(m.clone()).unwrap();
    assert_eq!(piece_at(&board, m.1), 'N');
    board.encode();

    let m = Move::new([5, 2], [5, 4]);
    board.move_piece(m.clone()).unwrap();
    board.encode();

    let m = Move::new([6, 6], [5, 4]); // Capture
    let move_type = board.move_piece(m.clone()).unwrap();
    assert_eq!(piece_at(&board, m.1), 'N');
    assert_eq!(move_type, MoveType::Capture);
}

#[test]
fn test_bishop_blocked() {
    let mut board: Board = Default::default();
    let m_white_bishop = Move::new([3, 8], [6, 5]);
    let move_type = board.move_piece(m_white_bishop.clone());
    assert!(move_type.is_err());
    board.encode();

    let m_black_bishop = Move::new([3, 1], [6, 4]);
    let move_type = board.move_piece(m_black_bishop.clone());
    assert!(move_type.is_err());
    board.encode();
}

#[test]
fn test_bishop_capture() {
    // A bishop cannot take a piece of its own side.
    let mut board: Board = Board::from_fen(
        "                      b                           p             ".to_owned(),
    );
    board.encode();
    let m_err = Move::new([7, 3], [3, 7]);
    let move_type_err = board.move_piece(m_err.clone());
    assert!(move_type_err.is_err());

    let mut board: Board = Board::from_fen(
        "                      B                           p             ".to_owned(),
    );
    let m_ok = Move::new([7, 3], [3, 7]);
    let move_type_ok = board.move_piece(m_ok.clone());
    assert!(move_type_ok.is_ok());
    assert_eq!(piece_at(&board, m_ok.1), 'B');
    assert_eq!(move_type_ok.unwrap(), MoveType::Capture);
    board.encode();
}

#[test]
fn test_rook_capture() {
    // Black moves in these positions.
    let mut board = Board::from_fen(
        "r      p                                                        ".to_owned(),
    );
    board.reverse_turn();
    let m_err = Move::new([1, 1], [8, 1]);
    let move_type_err = board.move_piece(m_err.clone());
    assert!(move_type_err.is_err());
    board.encode();

    let mut board = Board::from_fen(
        "r      P                                                        ".to_owned(),
    );
    board.reverse_turn();
    let m_ok = Move::new([1, 1], [8, 1]);
    let move_type_ok = board.move_piece(m_ok.clone()).unwrap();
    assert_eq!(piece_at(&board, m_ok.1), 'r');
    assert_eq!(move_type_ok, MoveType::Capture);
    board.encode();
}

#[test]
fn test_rook_move() {
    let mut board = Board::from_fen(
        "r                                                               ".to_owned(),
    );
    board.reverse_turn();
    let m_ok = Move::new([1, 1], [8, 1]);
    let move_type_ok = board.move_piece(m_ok.clone()).unwrap();
    assert_eq!(piece_at(&board, m_ok.1), 'r');
    assert_eq!(move_type_ok, MoveType::Regular);
    board.encode();
}

#[test]
fn test_queen_move() {
    let mut board = Board::from_fen(
        "q                                                               ".to_owned(),
    );
    board.reverse_turn();
    let m_ok = Move::new([1, 1], [8, 1]);
    let move_type_ok = board.move_piece(m_ok.clone()).unwrap();
    assert_eq!(piece_at(&board, m_ok.1), 'q');
    assert_eq!(move_type_ok, MoveType::Regular);
    board.encode();
}

#[test]
fn test_queen_capture() {
    let mut board = Board::from_fen(
        "q      P                                                        ".to_owned(),
    );
    board.reverse_turn();
    let m_ok = Move::new([1, 1], [8, 1]);
    let move_type_ok = board.move_piece(m_ok.clone()).unwrap();
    assert_eq!(piece_at(&board, m_ok.1), 'q');
    assert_eq!(move_type_ok, MoveType::Capture);
    board.encode();
}

#[test]
fn test_king_move() {
    let mut board = Board::from_fen(
        "k                                                               ".to_owned(),
    );
    board.reverse_turn();
    let m_ok = Move::new([1, 1], [2, 1]);
    let move_type_ok = board.move_piece(m_ok.clone()).unwrap();
    assert_eq!(piece_at(&board, m_ok.1), 'k');
    assert_eq!(move_type_ok, MoveType::Regular);
    board.encode();
}

#[test]
fn test_king_capture() {
    let mut board = Board::from_fen(
        "kP                                                               ".to_owned(),
    );
    board.reverse_turn();
    let m_ok = Move::new([1, 1], [2, 1]);
    let move_type_ok = board.move_piece(m_ok.clone()).unwrap();
    assert_eq!(piece_at(&board, m_ok.1), 'k');
    assert_eq!(move_type_ok, MoveType::Capture);
    board.encode();
}

#[test]
fn test_king_castle() {
    let fen = format!("{}{}", " ".repeat(56), "    K  R");
    let mut board = Board::from_fen(fen);
    let move_type = board.move_piece(Move::new([5, 8], [7, 8])).unwrap();
    assert_eq!(move_type, MoveType::Castle);
    assert_eq!(board.board[7][6], 'K');
    assert_eq!(board.board[7][5], 'R');
    assert_eq!(board.board[7][4], ' ');
    assert_eq!(board.board[7][7], ' ');
    assert!(!board.turn);
}

#[test]
fn test_queen_castle() {
    let fen = format!("{}{}", "r   k   ", " ".repeat(56));
    let mut board = Board::from_fen(fen);
    board.reverse_turn();
    let move_type = board.move_piece(Move::new([5, 1], [3, 1])).unwrap();
    assert_eq!(move_type, MoveType::Castle);
    assert_eq!(board.board[0][2], 'k');
    assert_eq!(board.board[0][3], 'r');
    assert_eq!(board.board[0][0], ' ');
    assert_eq!(board.board[0][4], ' ');
}

#[test]
fn test_en_passant() {
    let mut board = Board::default();
    board.move_piece(Move::new([5, 7], [5, 5])).unwrap();
    board.move_piece(Move::new([1, 2], [1, 3])).unwrap();
    board.move_piece(Move::new([5, 5], [5, 4])).unwrap();
    assert_eq!(
        board.move_piece(Move::new([4, 2], [4, 4])).unwrap(),
        MoveType::DoublePawn
    );
    let move_type = board.move_piece(Move::new([5, 4], [4, 3])).unwrap();
    assert_eq!(move_type, MoveType::EnPassant);
    assert_eq!(board.board[2][3], 'P');
    assert_eq!(board.board[3][3], ' ');
    assert_eq!(board.board[3][4], ' ');
}

#[test]
fn test_promotion() {
    let fen = format!("{}P{}", " ".repeat(8), " ".repeat(55));
    let mut board = Board::from_fen(fen);
    let move_type = board.move_piece(Move::new([1, 2], [1, 1])).unwrap();
    assert_eq!(move_type, MoveType::Promotion);
    assert!(board.promotion_pending);
    assert!(board.promote_piece('x').is_err());
    assert_eq!(board.board[0][0], 'P');
    assert!(board.promote_piece('q').is_ok());
    assert_eq!(board.board[0][0], 'Q');
    assert!(!board.promotion_pending);
    assert!(board.promote_piece('n').is_err());
    assert_eq!(board.board[0][0], 'Q');
}

// Check, mate, stalemate and the drawing rules are not part of this library: it
// classifies single moves and keeps no notion of how a game ends.
#[test]
fn test_check() {}

#[test]
fn test_checkmate() {}

#[test]
fn test_stalemate() {}

#[test]
fn test_invalid_move() {
    let mut board = Board::default();
    assert!(board.move_piece(Move::new([5, 7], [5, 7])).is_err());
    assert!(board.move_piece(Move::new([5, 7], [5, 9])).is_err());
    assert!(board.move_piece(Move::new([0, 7], [1, 6])).is_err());
    assert!(board.move_piece(Move::new([5, 7], [5, 4])).is_err());
    assert!(board.move_piece(Move::new([5, 2], [5, 3])).is_err());
    assert!(board.move_piece(Move::new([4, 4], [4, 5])).is_err());
    assert!(board.turn);
    assert_eq!(board, Board::default());
}

#[test]
fn test_insufficient_material() {}

#[test]
fn test_fifty_move_rule() {}

#[test]
fn test_threefold_repetition() {}

#[test]
fn test_draw() {}

#[test]
fn test_draw_by_agreement() {}

#[test]
fn test_win_by_resignation() {
    let mut board = Board::default();
    board.move_piece(Move::new([5, 7], [5, 5])).unwrap();
    let before = board.clone();
    board.resign();
    assert_eq!(board, before);
    assert!(!board.turn);
}
