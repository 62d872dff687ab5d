use chess::{
    char_to_piece, convert_to_coords, is_white, parse_coords, Black, Board, BoardColor, Color,
    Move, nums_to_whitespaces, Offset, ParseErr, Piece, White,
};

#[test]
fn color_escape_sequences() {
    let c = Color::new((219, 52, 0));
    assert_eq!(c.rgb(), (219, 52, 0));
    assert_eq!(c.foreground(), "\x1b[38;2;219;52;0m");
    assert_eq!(c.background(), "\x1b[48;2;219;52;0m");
    assert_eq!(Color::from((7, 40, 255)).foreground(), "\x1b[38;2;7;40;255m");
}

#[test]
fn board_color_pairs() {
    let bc = BoardColor::new(Color::new((1, 2, 3)), Color::new((4, 5, 6)));
    let (a, b) = bc.rgb();
    assert_eq!(a.rgb(), (1, 2, 3));
    assert_eq!(b.rgb(), (4, 5, 6));
    assert_eq!(BoardColor::from(((1, 2, 3), (4, 5, 6))), bc);
    let mut board = Board::default();
    board.set_color(bc);
    assert_eq!(board.color, bc);
}

#[test]
fn coords_from_text() {
    assert_eq!(convert_to_coords("5755").unwrap(), [[5, 7], [5, 5]]);
    assert_eq!(convert_to_coords("  5 7  5 5\n").unwrap(), [[5, 7], [5, 5]]);
    assert_eq!(convert_to_coords("\t1 2 3 4\t").unwrap(), [[1, 2], [3, 4]]);
    assert_eq!(convert_to_coords("575"), Err(ParseErr));
    assert_eq!(convert_to_coords("57555"), Err(ParseErr));
    assert_eq!(convert_to_coords("5a55"), Err(ParseErr));
    assert_eq!(convert_to_coords(""), Err(ParseErr));
    assert_eq!(parse_coords("9 0 1 2").unwrap(), [[9, 0], [1, 2]]);
    assert_eq!(parse_coords("1\t234"), Err(ParseErr));
}

#[test]
fn pieces_from_characters() {
    assert_eq!(char_to_piece('N'), Piece::White(White::Knight));
    assert_eq!(char_to_piece('q'), Piece::Black(Black::Queen));
    assert_eq!(char_to_piece(' '), Piece::Void);
    assert_eq!(char_to_piece('x'), Piece::Void);
    assert!(char_to_piece('K').is_white());
    assert!(char_to_piece('k').is_black());
    assert!(char_to_piece('.').is_void());
    assert!(!char_to_piece('p').is_white());
    assert_eq!(White::Rook.letter(), 'R');
    assert_eq!(Black::Bishop.letter(), 'b');
    assert!(is_white('P'));
    assert!(!is_white('p'));
    assert!(!is_white(' '));
}

#[test]
fn offsets() {
    assert_eq!(Offset::Up.to_i32(), 8);
    assert_eq!(Offset::Down.to_i32(), -8);
    assert_eq!(Offset::Left.to_i32(), -1);
    assert_eq!(Offset::Right.to_i32(), 1);
    assert_eq!(Offset::UpLeft.to_i32(), 7);
    assert_eq!(Offset::UpRight.to_i32(), 9);
    assert_eq!(Offset::DownLeft.to_i32(), -9);
    assert_eq!(Offset::DownRight.to_i32(), -7);
}

#[test]
fn material_scores() {
    let mut board = Board::default();
    assert_eq!(board.simple_evaluate(), 0);
    board.remove([4, 1]);
    assert_eq!(board.simple_evaluate(), 9);
    board.remove([1, 8]);
    board.remove([2, 8]);
    assert_eq!(board.simple_evaluate(), 1);
    let board = Board::new(" ".repeat(64));
    assert_eq!(board.simple_evaluate(), 0);
}

#[test]
fn capture_values() {
    let fen = Board::default().FEN;
    assert_eq!(Move::new([1, 8], [4, 1]).rate_move_slight(&fen), 9);
    assert_eq!(Move::new([1, 8], [1, 1]).rate_move_slight(&fen), 5);
    assert_eq!(Move::new([1, 8], [2, 1]).rate_move_slight(&fen), 3);
    assert_eq!(Move::new([1, 8], [1, 2]).rate_move_slight(&fen), 1);
    assert_eq!(Move::new([1, 8], [5, 1]).rate_move_slight(&fen), 0);
    assert_eq!(Move::new([1, 8], [5, 5]).rate_move_slight(&fen), 0);
    assert_eq!(Move::new([1, 8], [4, 8]).moved_piece(&fen), 'R');
}

#[test]
fn grid_edits() {
    let mut board = Board::default();
    board.change_piece([0, 3], 'k');
    assert_eq!(board.board[0][3], 'k');
    assert_eq!(board.FEN.chars().nth(3), Some('q'));
    board.put([4, 1], 'n');
    assert_eq!(board.FEN.chars().nth(3), Some('n'));
    board.move_unchecked(&Move::new([4, 1], [4, 4]));
    assert_eq!(board.board[3][3], 'n');
    assert_eq!(board.board[0][3], ' ');
    let fresh = board.classic();
    assert_eq!(fresh, Board::default());
    assert_eq!(board.board[3][3], 'n');
    let (from, to) = Move::new([1, 2], [3, 4]).decode_move();
    assert_eq!((from, to), ([1, 2], [3, 4]));
}

#[test]
fn digits_become_spaces() {
    assert_eq!(nums_to_whitespaces(&"r2k3p".to_string()), "r  k   p");
    assert_eq!(nums_to_whitespaces(&"8/0x".to_string()), "        /x");
    assert_eq!(nums_to_whitespaces(&String::new()), "");
}
