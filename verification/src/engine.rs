//! The engine state: one board and one seeded generator, with the four
//! operations reset, place, query (board), and randomize.

use vstd::prelude::*;

use crate::board::Board;
use crate::board::BoardItem;
use crate::rng::Generator;
use crate::rng::std_rng_bool;

verus! {

/// The fixed seed the generator is built from at start and on every reset.
pub const GAME_SEED: u64 = 2024;

/// The status a response carries back to the caller.
#[derive(Debug, Clone, Copy, PartialEq, Eq, Structural)]
pub enum Status {
    Success,
    BadRequest,
    Unavailable,
}

/// The two path parameters of a placement request: the team token and the
/// 1-based column number.
#[derive(Debug, Clone)]
pub struct PlaceParams {
    pub team: String,
    pub column: i32,
}

/// The team a request token names, if any.
pub open spec fn team_of(s: Seq<char>) -> Option<BoardItem> {
    if s == "cookie"@ {
        Some(BoardItem::Cookie)
    } else if s == "milk"@ {
        Some(BoardItem::Milk)
    } else {
        None
    }
}

/// The cell the random fill writes from the boolean at position `index` of
/// the seeded stream: a Cookie for true, a Milk for false, never an empty
/// cell.
pub open spec fn rand_item(seed: u64, index: nat) -> BoardItem {
    if std_rng_bool(seed, index) {
        BoardItem::Cookie
    } else {
        BoardItem::Milk
    }
}

/// The engine state: the shared board and the seeded generator. A caller is
/// expected to hold exclusive access to the whole value for the span of each
/// operation.
pub struct Engine {
    pub board: Board,
    pub gen: Generator,
}

impl Engine {
    /// A fresh engine: an empty board and a generator seeded with the fixed
    /// constant.
    pub fn new() -> (e: Engine)
        ensures
            e.board.wf(),
            e.board.all_empty(),
            e.gen.spec_seed() == GAME_SEED,
            e.gen.spec_drawn() == 0,
    {
        Engine { board: Board::new(), gen: Generator::new(GAME_SEED) }
    }

    /// Replaces the board with an all-empty one and reseeds the generator
    /// with the fixed constant; reports the rendered empty board.
    pub fn reset(&mut self) -> (r: (Status, String))
        ensures
            final(self).board.wf(),
            final(self).board.all_empty(),
            final(self).gen.spec_seed() == GAME_SEED,
            final(self).gen.spec_drawn() == 0,
            r.0 == Status::Success,
            r.1@ == final(self).board.render(),
    {
        self.board = Board::new();
        self.gen = Generator::new(GAME_SEED);
        (Status::Success, self.board.to_string())
    }

    /// Reads the board without changing anything: the rendering plus the
    /// terminal annotation, if any.
    pub fn get_board(&self) -> (r: (Status, String))
        requires
            self.board.wf(),
        ensures
            r.0 == Status::Success,
            r.1@ == self.board.annotated(),
    {
        (Status::Success, self.board.render_with_status())
    }

    /// Drops a token for the named team into the named 1-based column.
    /// An unknown team or a column outside 1..=4 is rejected before any
    /// state is touched. A board already in a terminal state, or a full
    /// column, rejects the placement and reports the unchanged board with
    /// its annotation. Otherwise the token fills the bottommost empty cell
    /// of the column and the new board is reported, annotated if the
    /// placement ended the game.
    pub fn place(&mut self, params: &PlaceParams) -> (r: (Status, String))
        requires
            old(self).board.wf(),
        ensures
            final(self).board.wf(),
            final(self).gen == old(self).gen,
            team_of(params.team@) is None ==> final(self).board == old(self).board && r.0
                == Status::BadRequest && r.1@ == Seq::<char>::empty(),
            team_of(params.team@) is Some && !(1 <= params.column <= 4) ==> final(self).board
                == old(self).board && r.0 == Status::BadRequest && r.1@ == Seq::<char>::empty(),
            team_of(params.team@) is Some && 1 <= params.column <= 4 && old(
                self,
            ).board.terminal() ==> final(self).board == old(self).board && r.0
                == Status::Unavailable && r.1@ == old(self).board.annotated(),
            team_of(params.team@) is Some && 1 <= params.column <= 4 && !old(
                self,
            ).board.terminal() && old(self).board.col_full(params.column - 1) ==> final(self).board
                == old(self).board && r.0 == Status::Unavailable && r.1@ == old(
                self,
            ).board.annotated(),
            team_of(params.team@) is Some && 1 <= params.column <= 4 && !old(
                self,
            ).board.terminal() && !old(self).board.col_full(params.column - 1) ==> {
                let item = team_of(params.team@).unwrap();
                let col = params.column - 1;
                let row = old(self).board.drop_row(col);
                &&& old(self).board.cell(row, col) is Empty
                &&& final(self).board.board@ == old(self).board.board@.update(4 * row + col, item)
                &&& r.0 == Status::Success
                &&& r.1@ == final(self).board.annotated()
            },
    {
        let team = match BoardItem::from_str(params.team.as_str()) {
            Ok(team) => team,
            Err(_) => { return (Status::BadRequest, String::new()) },
        };
        if params.column < 1 || params.column > 4 {
            return (Status::BadRequest, String::new());
        }
        let column = (params.column - 1) as usize;

        if self.board.is_connect_4(BoardItem::Cookie) || self.board.is_connect_4(BoardItem::Milk)
            || self.board.is_no_winner() {
            return (Status::Unavailable, self.board.render_with_status());
        }

        match self.board.place(column, team) {
            Ok(_row) => (Status::Success, self.board.render_with_status()),
            Err(_) => (Status::Unavailable, self.board.render_with_status()),
        }
    }

    /// Overwrites every cell, row-major from the top-left, with the
    /// generator's next boolean draws: a Cookie for true, a Milk for false.
    /// Reports the new board, annotated if the random fill happens to be
    /// terminal.
    pub fn rand_board(&mut self) -> (r: (Status, String))
        requires
            old(self).board.wf(),
        ensures
            final(self).board.wf(),
            final(self).gen.spec_seed() == old(self).gen.spec_seed(),
            final(self).gen.spec_drawn() == old(self).gen.spec_drawn() + 16,
            forall|i: int|
                0 <= i < 16 ==> final(self).board.board@[i] == rand_item(
                    old(self).gen.spec_seed(),
                    (old(self).gen.spec_drawn() + i) as nat,
                ),
            r.0 == Status::Success,
            r.1@ == final(self).board.annotated(),
    {
        let ghost seed0: u64 = self.gen.spec_seed();
        let ghost drawn0: nat = self.gen.spec_drawn();
        let mut i: usize = 0;
        while i < 16
            invariant
                self.board.wf(),
                i <= 16,
                self.gen.spec_seed() == seed0,
                self.gen.spec_drawn() == drawn0 + i,
                forall|j: int|
                    0 <= j < i ==> self.board.board@[j] == rand_item(seed0, (drawn0 + j) as nat),
            decreases 16 - i,
        {
            let random = self.gen.next_bool();
            self.board.board[i] = if random {
                BoardItem::Cookie
            } else {
                BoardItem::Milk
            };
            i = i + 1;
        }
        (Status::Success, self.board.render_with_status())
    }
}

/// Reset/randomize determinism: two boards filled from generators that had
/// the same seed and had drawn the same number of booleans hold the same
/// cells, so separate engine lifetimes reproduce the same random boards.
pub proof fn lemma_random_fill_deterministic(b1: Board, b2: Board, seed: u64, start: nat)
    requires
        b1.wf(),
        b2.wf(),
        forall|i: int| 0 <= i < 16 ==> b1.board@[i] == rand_item(seed, (start + i) as nat),
        forall|i: int| 0 <= i < 16 ==> b2.board@[i] == rand_item(seed, (start + i) as nat),
    ensures
        b1.board@ == b2.board@,
        b1.render() == b2.render(),
{
    assert(b1.board@ =~= b2.board@);
    assert(b1.render() =~= b2.render());
}

} // verus!
