use connect_four::board::Board;
use connect_four::board::BoardItem;
use connect_four::board::PlaceError;

const EMPTY_ROW: &str = "\u{2B1C}\u{2B1B}\u{2B1B}\u{2B1B}\u{2B1B}\u{2B1C}\n";
const WALL_ROW: &str = "\u{2B1C}\u{2B1C}\u{2B1C}\u{2B1C}\u{2B1C}\u{2B1C}\n";

fn empty_render() -> String {
    format!("{}{}{}{}{}", EMPTY_ROW, EMPTY_ROW, EMPTY_ROW, EMPTY_ROW, WALL_ROW)
}

fn set(b: &mut Board, r: usize, c: usize, item: BoardItem) {
    b.board[4 * r + c] = item;
}

#[test]
fn new_board_renders_empty_grid() {
    let b = Board::new();
    assert_eq!(b.to_string(), empty_render());
}

#[test]
fn cell_glyphs_are_fixed() {
    assert_eq!(BoardItem::Cookie.to_char(), '\u{1F36A}');
    assert_eq!(BoardItem::Milk.to_char(), '\u{1F95B}');
    assert_eq!(BoardItem::Empty.to_char(), '\u{2B1B}');
}

#[test]
fn from_str_accepts_the_two_teams() {
    assert_eq!(BoardItem::from_str("cookie"), Ok(BoardItem::Cookie));
    assert_eq!(BoardItem::from_str("milk"), Ok(BoardItem::Milk));
}

#[test]
fn from_str_rejects_anything_else() {
    assert!(BoardItem::from_str("santa").is_err());
    assert!(BoardItem::from_str("").is_err());
    assert!(BoardItem::from_str("Cookie").is_err());
}

#[test]
fn place_fills_bottommost_empty_cell() {
    let mut b = Board::new();
    assert_eq!(b.place(2, BoardItem::Cookie), Ok(3));
    assert_eq!(b.place(2, BoardItem::Milk), Ok(2));
    assert_eq!(b.place(2, BoardItem::Cookie), Ok(1));
    assert_eq!(b.get(3, 2), BoardItem::Cookie);
    assert_eq!(b.get(2, 2), BoardItem::Milk);
    assert_eq!(b.get(1, 2), BoardItem::Cookie);
    assert_eq!(b.get(0, 2), BoardItem::Empty);
    // other columns untouched
    for c in [0usize, 1, 3] {
        for r in 0..4 {
            assert_eq!(b.get(r, c), BoardItem::Empty);
        }
    }
}

#[test]
fn place_rejects_column_outside_grid() {
    let mut b = Board::new();
    assert_eq!(b.place(4, BoardItem::Cookie), Err(PlaceError::InvalidColumn));
    assert_eq!(b.place(100, BoardItem::Milk), Err(PlaceError::InvalidColumn));
    assert_eq!(b.to_string(), empty_render());
}

#[test]
fn place_rejects_full_column() {
    let mut b = Board::new();
    assert_eq!(b.place(1, BoardItem::Cookie), Ok(3));
    assert_eq!(b.place(1, BoardItem::Milk), Ok(2));
    assert_eq!(b.place(1, BoardItem::Cookie), Ok(1));
    assert_eq!(b.place(1, BoardItem::Milk), Ok(0));
    let before = b.to_string();
    assert_eq!(b.place(1, BoardItem::Cookie), Err(PlaceError::ColumnFull));
    assert_eq!(b.to_string(), before);
}

#[test]
fn four_in_a_row_is_detected_in_every_direction() {
    // horizontal, every row
    for r in 0..4 {
        let mut b = Board::new();
        for c in 0..4 {
            set(&mut b, r, c, BoardItem::Cookie);
        }
        assert!(b.is_connect_4(BoardItem::Cookie));
        assert!(!b.is_connect_4(BoardItem::Milk));
    }
    // vertical, every column
    for c in 0..4 {
        let mut b = Board::new();
        for r in 0..4 {
            set(&mut b, r, c, BoardItem::Milk);
        }
        assert!(b.is_connect_4(BoardItem::Milk));
        assert!(!b.is_connect_4(BoardItem::Cookie));
    }
    // down-right diagonal
    let mut b = Board::new();
    for k in 0..4 {
        set(&mut b, k, k, BoardItem::Cookie);
    }
    assert!(b.is_connect_4(BoardItem::Cookie));
    // down-left diagonal
    let mut b = Board::new();
    for k in 0..4 {
        set(&mut b, k, 3 - k, BoardItem::Milk);
    }
    assert!(b.is_connect_4(BoardItem::Milk));
}

#[test]
fn three_in_a_row_is_not_a_win() {
    // three cookies and one milk, in each direction
    let mut b = Board::new();
    set(&mut b, 0, 0, BoardItem::Cookie);
    set(&mut b, 0, 1, BoardItem::Cookie);
    set(&mut b, 0, 2, BoardItem::Cookie);
    set(&mut b, 0, 3, BoardItem::Milk);
    assert!(!b.is_connect_4(BoardItem::Cookie));
    assert!(!b.is_connect_4(BoardItem::Milk));

    let mut b = Board::new();
    set(&mut b, 0, 1, BoardItem::Cookie);
    set(&mut b, 1, 1, BoardItem::Cookie);
    set(&mut b, 2, 1, BoardItem::Cookie);
    set(&mut b, 3, 1, BoardItem::Milk);
    assert!(!b.is_connect_4(BoardItem::Cookie));

    let mut b = Board::new();
    set(&mut b, 0, 0, BoardItem::Milk);
    set(&mut b, 1, 1, BoardItem::Cookie);
    set(&mut b, 2, 2, BoardItem::Cookie);
    set(&mut b, 3, 3, BoardItem::Cookie);
    assert!(!b.is_connect_4(BoardItem::Cookie));

    let mut b = Board::new();
    set(&mut b, 0, 3, BoardItem::Cookie);
    set(&mut b, 1, 2, BoardItem::Cookie);
    set(&mut b, 2, 1, BoardItem::Cookie);
    set(&mut b, 3, 0, BoardItem::Milk);
    assert!(!b.is_connect_4(BoardItem::Cookie));
}

fn full_draw_board() -> Board {
    // a full board where no player has four in a row
    let mut b = Board::new();
    let rows = [
        [BoardItem::Cookie, BoardItem::Cookie, BoardItem::Milk, BoardItem::Milk],
        [BoardItem::Milk, BoardItem::Milk, BoardItem::Cookie, BoardItem::Cookie],
        [BoardItem::Cookie, BoardItem::Cookie, BoardItem::Milk, BoardItem::Milk],
        [BoardItem::Milk, BoardItem::Milk, BoardItem::Cookie, BoardItem::Cookie],
    ];
    for r in 0..4 {
        for c in 0..4 {
            set(&mut b, r, c, rows[r][c]);
        }
    }
    b
}

#[test]
fn full_board_without_winner_is_a_draw() {
    let b = full_draw_board();
    assert!(b.is_no_winner());
    assert!(!b.is_connect_4(BoardItem::Cookie));
    assert!(!b.is_connect_4(BoardItem::Milk));
}

#[test]
fn full_board_with_winner_is_not_a_draw() {
    let mut b = full_draw_board();
    // give the bottom row to cookie
    for c in 0..4 {
        set(&mut b, 3, c, BoardItem::Cookie);
    }
    assert!(b.is_connect_4(BoardItem::Cookie));
    assert!(!b.is_no_winner());
}

#[test]
fn partly_filled_board_is_not_a_draw() {
    let mut b = Board::new();
    assert!(!b.is_no_winner());
    b.place(0, BoardItem::Cookie).unwrap();
    assert!(!b.is_no_winner());
}
