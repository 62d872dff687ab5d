use chess::{Board, DEFAULT_PIECE_NOTATION};

#[test]
#[allow(non_snake_case)]
fn test_FEN() {
    let mut board = Board::default();
    board.encode();
    assert_eq!(board.FEN, DEFAULT_PIECE_NOTATION);
}

#[test]
fn test_board_from_fen() {
    let mut board = Board::default();
    board.encode();
    let mut board2 = Board::from_fen(board.FEN.clone());
    board2.encode();
    assert_eq!(board, board2);
}

#[test]
fn test_board_from_vec() {
    let mut board = Board::default();
    board.encode();
    let mut board2 = Board::from_vec(board.board.clone());
    board2.encode();
    assert_eq!(board, board2);
}
