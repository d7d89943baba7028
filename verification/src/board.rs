//! The board: a 4x4 grid of cells, gravity placement, four-in-a-row and draw
//! detection, and textual rendering.

use vstd::prelude::*;

verus! {

/// One cell of the grid: empty, or taken by one of the two players.
#[derive(Debug, Clone, Copy, PartialEq, Eq, Structural)]
pub enum BoardItem {
    Cookie,
    Milk,
    Empty,
}

/// The glyph that renders one cell.
pub open spec fn glyph(item: BoardItem) -> char {
    match item {
        BoardItem::Cookie => '\u{1F36A}',
        BoardItem::Milk => '\u{1F95B}',
        BoardItem::Empty => '\u{2B1B}',
    }
}

impl BoardItem {
    /// Parses a team token; anything but the two team names is rejected.
    pub fn from_str(s: &str) -> (r: Result<Self, &'static str>)
        ensures
            s@ == "cookie"@ ==> r == Ok::<BoardItem, &'static str>(BoardItem::Cookie),
            s@ == "milk"@ ==> r == Ok::<BoardItem, &'static str>(BoardItem::Milk),
            s@ != "cookie"@ && s@ != "milk"@ ==> (r matches Err(e) && e@ == "Invalid board item"@),
    {
        proof {
            reveal_strlit("cookie");
            reveal_strlit("milk");
            assert("cookie"@.len() != "milk"@.len());
        }
        let t = s.to_owned();
        if t == String::from_str("cookie") {
            Ok(BoardItem::Cookie)
        } else if t == String::from_str("milk") {
            Ok(BoardItem::Milk)
        } else {
            Err("Invalid board item")
        }
    }

    /// The fixed glyph for this cell value.
    pub fn to_char(&self) -> (c: char)
        ensures
            c == glyph(*self),
    {
        match self {
            BoardItem::Cookie => '\u{1F36A}',
            BoardItem::Milk => '\u{1F95B}',
            BoardItem::Empty => '\u{2B1B}',
        }
    }
}

/// Why a placement can fail: the column is outside the grid, or it has no
/// empty cell left.
#[derive(Debug, Clone, Copy, PartialEq, Eq, Structural)]
pub enum PlaceError {
    InvalidColumn,
    ColumnFull,
}

/// The 4x4 grid, row-major, row 0 at the top. The `board` vector holds the
/// 16 cells; `wf` says it has exactly that length.
#[derive(Debug, Clone)]
pub struct Board {
    pub board: Vec<BoardItem>,
}

/// The wall glyph that frames the rendered board.
pub open spec fn wall() -> char {
    '\u{2B1C}'
}

/// The closing row of the rendering: six walls and a newline.
pub open spec fn bottom_chars() -> Seq<char> {
    seq![wall(), wall(), wall(), wall(), wall(), wall(), '\n']
}

/// The annotation line for a win of `item`.
pub open spec fn wins_line(item: BoardItem) -> Seq<char> {
    seq![glyph(item), ' ', 'w', 'i', 'n', 's', '!', '\n']
}

/// The annotation line for a draw.
pub open spec fn no_winner_line() -> Seq<char> {
    seq!['N', 'o', ' ', 'w', 'i', 'n', 'n', 'e', 'r', '.', '\n']
}

/// The one-character string of the glyph for `item`.
fn glyph_str(item: BoardItem) -> (s: &'static str)
    ensures
        s@ == seq![glyph(item)],
{
    match item {
        BoardItem::Cookie => {
            proof {
                reveal_strlit("\u{1F36A}");
                assert("\u{1F36A}"@.len() == 1);
                assert("\u{1F36A}"@ =~= seq![glyph(BoardItem::Cookie)]);
            }
            "\u{1F36A}"
        },
        BoardItem::Milk => {
            proof {
                reveal_strlit("\u{1F95B}");
                assert("\u{1F95B}"@.len() == 1);
                assert("\u{1F95B}"@ =~= seq![glyph(BoardItem::Milk)]);
            }
            "\u{1F95B}"
        },
        BoardItem::Empty => {
            proof {
                reveal_strlit("\u{2B1B}");
                assert("\u{2B1B}"@.len() == 1);
                assert("\u{2B1B}"@ =~= seq![glyph(BoardItem::Empty)]);
            }
            "\u{2B1B}"
        },
    }
}

/// Whether `(r, c)` is a cell of the 4x4 grid.
pub open spec fn in_bounds(r: int, c: int) -> bool {
    0 <= r < 4 && 0 <= c < 4
}

/// Row step of direction `d`: 0 right, 1 down, 2 down-right, 3 down-left.
pub open spec fn dir_row(d: int) -> int {
    if d == 0 {
        0
    } else {
        1
    }
}

/// Column step of direction `d`: 0 right, 1 down, 2 down-right, 3 down-left.
pub open spec fn dir_col(d: int) -> int {
    if d == 0 || d == 2 {
        1
    } else if d == 3 {
        -1
    } else {
        0
    }
}

impl Board {
    /// The grid always holds exactly 16 cells.
    pub open spec fn wf(self) -> bool {
        self.board@.len() == 16
    }

    /// The cell in row `r`, column `c`.
    pub open spec fn cell(self, r: int, c: int) -> BoardItem {
        self.board@[4 * r + c]
    }

    /// Every cell is empty.
    pub open spec fn all_empty(self) -> bool {
        forall|i: int| 0 <= i < 16 ==> self.board@[i] is Empty
    }

    /// No cell is empty.
    pub open spec fn full(self) -> bool {
        forall|i: int| 0 <= i < 16 ==> !(self.board@[i] is Empty)
    }

    /// A fresh board: all 16 cells empty.
    pub fn new() -> (b: Board)
        ensures
            b.wf(),
            b.all_empty(),
    {
        let mut cells: Vec<BoardItem> = Vec::new();
        let mut i: usize = 0;
        while i < 16
            invariant
                i <= 16,
                cells@.len() == i,
                forall|j: int| 0 <= j < i ==> cells@[j] is Empty,
            decreases 16 - i,
        {
            cells.push(BoardItem::Empty);
            i = i + 1;
        }
        Board { board: cells }
    }

    /// Four equal cells in a row starting at `(r, c)` and stepping in
    /// direction `d`: the start and the end lie on the grid and all four
    /// cells hold `item`.
    pub open spec fn wins_at(self, item: BoardItem, r: int, c: int, d: int) -> bool {
        &&& 0 <= d < 4
        &&& in_bounds(r, c)
        &&& in_bounds(r + 3 * dir_row(d), c + 3 * dir_col(d))
        &&& self.cell(r, c) == item
        &&& self.cell(r + dir_row(d), c + dir_col(d)) == item
        &&& self.cell(r + 2 * dir_row(d), c + 2 * dir_col(d)) == item
        &&& self.cell(r + 3 * dir_row(d), c + 3 * dir_col(d)) == item
    }

    /// `item` has four in a row somewhere on the board, in any of the four
    /// directions.
    pub open spec fn has_four(self, item: BoardItem) -> bool {
        exists|r: int, c: int, d: int| self.wins_at(item, r, c, d)
    }

    /// No start cell before position `n` (row-major) begins a four-in-a-row
    /// of `item`.
    pub open spec fn no_win_upto(self, item: BoardItem, n: int) -> bool {
        forall|r: int, c: int, d: int|
            0 <= r < 4 && 0 <= c < 4 && 4 * r + c < n ==> !self.wins_at(item, r, c, d)
    }

    /// Whether some direction wins starting from `(r, c)`.
    fn wins_from(&self, item: BoardItem, r: usize, c: usize) -> (b: bool)
        requires
            self.wf(),
            r < 4,
            c < 4,
        ensures
            b == exists|d: int| self.wins_at(item, r as int, c as int, d),
    {
        if self.get(r, c) == item {
            // rightward
            if c + 3 < 4 {
                if self.get(r, c + 1) == item && self.get(r, c + 2) == item && self.get(r, c + 3)
                    == item {
                    proof {
                        assert(self.wins_at(item, r as int, c as int, 0));
                    }
                    return true;
                }
            }
            // downward
            if r + 3 < 4 {
                if self.get(r + 1, c) == item && self.get(r + 2, c) == item && self.get(r + 3, c)
                    == item {
                    proof {
                        assert(self.wins_at(item, r as int, c as int, 1));
                    }
                    return true;
                }
            }
            // down-right
            if r + 3 < 4 && c + 3 < 4 {
                if self.get(r + 1, c + 1) == item && self.get(r + 2, c + 2) == item && self.get(
                    r + 3,
                    c + 3,
                ) == item {
                    proof {
                        assert(self.wins_at(item, r as int, c as int, 2));
                    }
                    return true;
                }
            }
            // down-left
            if r + 3 < 4 && c >= 3 {
                if self.get(r + 1, c - 1) == item && self.get(r + 2, c - 2) == item && self.get(
                    r + 3,
                    c - 3,
                ) == item {
                    proof {
                        assert(self.wins_at(item, r as int, c as int, 3));
                    }
                    return true;
                }
            }
        }
        proof {
            assert forall|d: int| !self.wins_at(item, r as int, c as int, d) by {
                if 0 <= d < 4 {
                    assert(dir_row(d) == 0 || dir_row(d) == 1);
                }
            }
        }
        false
    }

    /// Scans every cell and every direction for four in a row of `item`.
    pub fn is_connect_4(&self, board_item: BoardItem) -> (b: bool)
        requires
            self.wf(),
        ensures
            b == self.has_four(board_item),
    {
        let mut r: usize = 0;
        while r < 4
            invariant
                self.wf(),
                r <= 4,
                self.no_win_upto(board_item, 4 * r),
            decreases 4 - r,
        {
            let mut c: usize = 0;
            while c < 4
                invariant
                    self.wf(),
                    r < 4,
                    c <= 4,
                    self.no_win_upto(board_item, 4 * r + c),
                decreases 4 - c,
            {
                if self.wins_from(board_item, r, c) {
                    return true;
                }
                c = c + 1;
            }
            r = r + 1;
        }
        proof {
            assert(self.no_win_upto(board_item, 16));
            assert forall|rr: int, cc: int, dd: int| !self.wins_at(board_item, rr, cc, dd) by {
                if in_bounds(rr, cc) {
                    assert(4 * rr + cc < 16);
                }
            }
        }
        false
    }

    /// A draw: the board is full and neither player has four in a row.
    pub open spec fn draw(self) -> bool {
        self.full() && !self.has_four(BoardItem::Cookie) && !self.has_four(BoardItem::Milk)
    }

    /// The game admits no further placement: somebody won, or the board is
    /// full.
    pub open spec fn terminal(self) -> bool {
        self.has_four(BoardItem::Cookie) || self.has_four(BoardItem::Milk) || self.full()
    }

    /// Whether the board is full with no winner (a draw).
    pub fn is_no_winner(&self) -> (b: bool)
        requires
            self.wf(),
        ensures
            b == self.draw(),
    {
        let mut i: usize = 0;
        let mut is_board_full = true;
        while i < 16
            invariant
                self.wf(),
                i <= 16,
                is_board_full == forall|j: int| 0 <= j < i ==> !(self.board@[j] is Empty),
            decreases 16 - i,
        {
            if matches!(self.board[i], BoardItem::Empty) {
                is_board_full = false;
            }
            i = i + 1;
        }
        is_board_full && !self.is_connect_4(BoardItem::Cookie) && !self.is_connect_4(
            BoardItem::Milk,
        )
    }

    /// All four cells of column `c` are taken.
    pub open spec fn col_full(self, c: int) -> bool {
        forall|r: int| 0 <= r < 4 ==> !(self.cell(r, c) is Empty)
    }

    /// The row a token dropped into column `c` lands in: the bottommost
    /// empty cell, scanning from row 3 upward; -1 if the column is full.
    pub open spec fn drop_row(self, c: int) -> int {
        if self.cell(3, c) is Empty {
            3
        } else if self.cell(2, c) is Empty {
            2
        } else if self.cell(1, c) is Empty {
            1
        } else if self.cell(0, c) is Empty {
            0
        } else {
            -1
        }
    }

    /// Drops `item` into `column`: the bottommost empty cell of that column
    /// becomes `item`, and the landing row is returned. Rejected if the
    /// column is outside the grid or has no empty cell; the board is then
    /// unchanged.
    pub fn place(&mut self, column: usize, item: BoardItem) -> (res: Result<usize, PlaceError>)
        requires
            old(self).wf(),
            !(item is Empty),
        ensures
            final(self).wf(),
            column >= 4 ==> res == Err::<usize, PlaceError>(PlaceError::InvalidColumn)
                && *final(self) == *old(self),
            column < 4 && old(self).col_full(column as int) ==> res == Err::<usize, PlaceError>(
            PlaceError::ColumnFull) && *final(self) == *old(self),
            column < 4 && !old(self).col_full(column as int) ==> {
                let row = old(self).drop_row(column as int);
                &&& res == Ok::<usize, PlaceError>(row as usize)
                &&& old(self).cell(row, column as int) is Empty
                &&& final(self).board@ == old(self).board@.update(4 * row + column, item)
            },
    {
        if column >= 4 {
            return Err(PlaceError::InvalidColumn);
        }
        if matches!(self.get(3, column), BoardItem::Empty) {
            self.board[12 + column] = item;
            Ok(3)
        } else if matches!(self.get(2, column), BoardItem::Empty) {
            self.board[8 + column] = item;
            Ok(2)
        } else if matches!(self.get(1, column), BoardItem::Empty) {
            self.board[4 + column] = item;
            Ok(1)
        } else if matches!(self.get(0, column), BoardItem::Empty) {
            self.board[column] = item;
            Ok(0)
        } else {
            proof {
                assert forall|r: int| 0 <= r < 4 implies !(self.cell(r, column as int) is Empty) by {
                    assert(r == 0 || r == 1 || r == 2 || r == 3);
                }
            }
            Err(PlaceError::ColumnFull)
        }
    }

    /// One rendered row: a wall, the four cell glyphs, a wall, a newline.
    pub open spec fn row_chars(self, r: int) -> Seq<char> {
        seq![
            wall(),
            glyph(self.cell(r, 0)),
            glyph(self.cell(r, 1)),
            glyph(self.cell(r, 2)),
            glyph(self.cell(r, 3)),
            wall(),
            '\n',
        ]
    }

    /// The full rendered board: the four rows, then the closing wall row.
    pub open spec fn render(self) -> Seq<char> {
        self.row_chars(0) + self.row_chars(1) + self.row_chars(2) + self.row_chars(3)
            + bottom_chars()
    }

    /// The rendered board followed by the terminal annotation, if any:
    /// a win line for Cookie, else for Milk, else the draw line, else
    /// nothing.
    pub open spec fn annotated(self) -> Seq<char> {
        if self.has_four(BoardItem::Cookie) {
            self.render() + wins_line(BoardItem::Cookie)
        } else if self.has_four(BoardItem::Milk) {
            self.render() + wins_line(BoardItem::Milk)
        } else if self.draw() {
            self.render() + no_winner_line()
        } else {
            self.render()
        }
    }

    /// Appends one rendered row to `s`.
    fn append_row(&self, s: &mut String, row: usize)
        requires
            self.wf(),
            row < 4,
        ensures
            final(s)@ == old(s)@ + self.row_chars(row as int),
    {
        proof {
            reveal_strlit("\u{2B1C}");
            reveal_strlit("\n");
            assert("\u{2B1C}"@.len() == 1);
            assert("\n"@.len() == 1);
            assert("\u{2B1C}"@ =~= seq![wall()]);
            assert("\n"@ =~= seq!['\n']);
        }
        s.append("\u{2B1C}");
        s.append(glyph_str(self.get(row, 0)));
        s.append(glyph_str(self.get(row, 1)));
        s.append(glyph_str(self.get(row, 2)));
        s.append(glyph_str(self.get(row, 3)));
        s.append("\u{2B1C}");
        s.append("\n");
        proof {
            assert(s@ =~= old(s)@ + self.row_chars(row as int));
        }
    }

    /// Renders the board as its fixed text block.
    pub fn to_string(&self) -> (s: String)
        requires
            self.wf(),
        ensures
            s@ == self.render(),
    {
        let mut s = String::new();
        self.append_row(&mut s, 0);
        self.append_row(&mut s, 1);
        self.append_row(&mut s, 2);
        self.append_row(&mut s, 3);
        proof {
            reveal_strlit("\u{2B1C}\u{2B1C}\u{2B1C}\u{2B1C}\u{2B1C}\u{2B1C}");
            reveal_strlit("\n");
            assert("\u{2B1C}\u{2B1C}\u{2B1C}\u{2B1C}\u{2B1C}\u{2B1C}"@.len() == 6);
            assert("\n"@.len() == 1);
        }
        s.append("\u{2B1C}\u{2B1C}\u{2B1C}\u{2B1C}\u{2B1C}\u{2B1C}");
        s.append("\n");
        proof {
            assert(s@ =~= self.render());
        }
        s
    }

    /// Renders the board and appends the terminal annotation, if any.
    pub fn render_with_status(&self) -> (s: String)
        requires
            self.wf(),
        ensures
            s@ == self.annotated(),
    {
        let base = self.to_string();
        if self.is_connect_4(BoardItem::Cookie) {
            proof {
                reveal_strlit("\u{1F36A} wins!\n");
                assert("\u{1F36A} wins!\n"@.len() == 8);
                assert("\u{1F36A} wins!\n"@ =~= wins_line(BoardItem::Cookie));
            }
            base.concat("\u{1F36A} wins!\n")
        } else if self.is_connect_4(BoardItem::Milk) {
            proof {
                reveal_strlit("\u{1F95B} wins!\n");
                assert("\u{1F95B} wins!\n"@.len() == 8);
                assert("\u{1F95B} wins!\n"@ =~= wins_line(BoardItem::Milk));
            }
            base.concat("\u{1F95B} wins!\n")
        } else if self.is_no_winner() {
            proof {
                reveal_strlit("No winner.\n");
                assert("No winner.\n"@.len() == 11);
                assert("No winner.\n"@ =~= no_winner_line());
            }
            base.concat("No winner.\n")
        } else {
            base
        }
    }

    /// Reads the cell in row `r`, column `c`.
    pub fn get(&self, r: usize, c: usize) -> (item: BoardItem)
        requires
            self.wf(),
            r < 4,
            c < 4,
        ensures
            item == self.cell(r as int, c as int),
    {
        self.board[4 * r + c]
    }
}

/// Placement determinism: in a column with at least one empty cell, the
/// landing row is the bottommost empty cell of that column — it is empty,
/// and every cell below it is taken.
pub proof fn lemma_drop_row_bottommost(b: Board, c: int)
    requires
        0 <= c < 4,
        !b.col_full(c),
    ensures
        0 <= b.drop_row(c) < 4,
        b.cell(b.drop_row(c), c) is Empty,
        forall|r: int| b.drop_row(c) < r < 4 ==> !(b.cell(r, c) is Empty),
{
    assert(!b.col_full(c));
    if !(b.cell(3, c) is Empty) && !(b.cell(2, c) is Empty) && !(b.cell(1, c) is Empty) && !(b.cell(
        0,
        c,
    ) is Empty) {
        assert forall|r: int| 0 <= r < 4 implies !(b.cell(r, c) is Empty) by {
            assert(r == 0 || r == 1 || r == 2 || r == 3);
        }
    }
    assert forall|r: int| b.drop_row(c) < r < 4 implies !(b.cell(r, c) is Empty) by {
        assert(r == 1 || r == 2 || r == 3);
    }
}

/// Win detection completeness: four consecutive cells of one player, from
/// any start cell and in any of the four directions, make `has_four` true.
pub proof fn lemma_wins_at_implies_has_four(b: Board, item: BoardItem, r: int, c: int, d: int)
    requires
        b.wins_at(item, r, c, d),
    ensures
        b.has_four(item),
{
}

/// Draw exclusivity: a draw reports no winner, so no board reports a win
/// and a draw at the same time.
pub proof fn lemma_draw_excludes_win(b: Board)
    ensures
        b.draw() ==> !b.has_four(BoardItem::Cookie) && !b.has_four(BoardItem::Milk),
{
}

} // verus!
