//! The board aggregate.

use vstd::prelude::*;

use super::cell::Cell;
use super::game_status::GameStatus;
use super::player::Player;
use super::position::Position;
use crate::error::DomainError;

verus! {

/// The cells of winning line `k` (`0 <= k < 8`): three rows, three columns,
/// then the two diagonals.
pub open spec fn line(k: int) -> (int, int, int) {
    if k == 0 {
        (0, 1, 2)
    } else if k == 1 {
        (3, 4, 5)
    } else if k == 2 {
        (6, 7, 8)
    } else if k == 3 {
        (0, 3, 6)
    } else if k == 4 {
        (1, 4, 7)
    } else if k == 5 {
        (2, 5, 8)
    } else if k == 6 {
        (0, 4, 8)
    } else {
        (2, 4, 6)
    }
}

/// The player who holds all three cells of line `k`, if one does.
pub open spec fn line_winner(cells: Seq<Cell>, k: int) -> Option<Player> {
    let (a, b, c) = line(k);
    if cells[a] is Occupied && cells[b] == cells[a] && cells[c] == cells[a] {
        Some(cells[a]->0)
    } else {
        None
    }
}

/// The holder of the first complete line among lines `k..8`.
pub open spec fn first_winner(cells: Seq<Cell>, k: int) -> Option<Player>
    decreases 8 - k,
{
    if k >= 8 {
        None
    } else if line_winner(cells, k) is Some {
        line_winner(cells, k)
    } else {
        first_winner(cells, k + 1)
    }
}

/// Whether no cell is empty.
pub open spec fn all_occupied(cells: Seq<Cell>) -> bool {
    forall|i: int| 0 <= i < cells.len() ==> #[trigger] cells[i] is Occupied
}

/// The status of a board: the holder of the first complete line wins;
/// otherwise a full board is a draw and any other board is in progress.
pub open spec fn status_of(cells: Seq<Cell>) -> GameStatus {
    match first_winner(cells, 0) {
        Some(p) => GameStatus::Won(p),
        None => if all_occupied(cells) {
            GameStatus::Draw
        } else {
            GameStatus::InProgress
        },
    }
}

/// The 3x3 Tic-Tac-Toe board. Cells change only through [`Board::place`],
/// which never overwrites an occupied cell.
#[derive(Debug, Clone, Copy, PartialEq, Eq)]
pub struct Board {
    cells: [Cell; 9],
}

impl View for Board {
    type V = Seq<Cell>;

    closed spec fn view(&self) -> Seq<Cell> {
        self.cells@
    }
}

/// A board always has nine cells.
pub broadcast proof fn lemma_board_len(b: Board)
    ensures
        #[trigger] b@.len() == 9,
{
}

impl Default for Board {
    fn default() -> (r: Board)
        ensures
            r@ == Seq::new(9, |i: int| Cell::Empty),
    {
        Board::new()
    }
}

fn line_cells(k: usize) -> (r: (usize, usize, usize))
    requires
        k < 8,
    ensures
        r.0 == line(k as int).0,
        r.1 == line(k as int).1,
        r.2 == line(k as int).2,
        r.0 < 9,
        r.1 < 9,
        r.2 < 9,
{
    match k {
        0 => (0, 1, 2),
        1 => (3, 4, 5),
        2 => (6, 7, 8),
        3 => (0, 3, 6),
        4 => (1, 4, 7),
        5 => (2, 5, 8),
        6 => (0, 4, 8),
        _ => (2, 4, 6),
    }
}

impl Board {
    /// Creates an empty board.
    pub fn new() -> (r: Board)
        ensures
            r@ == Seq::new(9, |i: int| Cell::Empty),
    {
        let r = Board {
            cells: [
                Cell::Empty,
                Cell::Empty,
                Cell::Empty,
                Cell::Empty,
                Cell::Empty,
                Cell::Empty,
                Cell::Empty,
                Cell::Empty,
                Cell::Empty,
            ],
        };
        assert(r@ =~= Seq::new(9, |i: int| Cell::Empty));
        r
    }

    /// Returns the cell at the given position.
    pub fn get(&self, position: Position) -> (r: Cell)
        ensures
            r == self@[position@ as int],
    {
        self.cells[position.index()]
    }

    /// Returns every cell in row-major order.
    pub fn cells(&self) -> (r: Vec<Cell>)
        ensures
            r@ == self@,
    {
        let mut out: Vec<Cell> = Vec::new();
        let mut i: usize = 0;
        while i < 9
            invariant
                i <= 9,
                out@ == self@.take(i as int),
            decreases 9 - i,
        {
            out.push(self.cells[i]);
            i = i + 1;
            assert(out@ =~= self@.take(i as int));
        }
        assert(self@.take(9) =~= self@);
        out
    }

    /// Returns `true` if every cell is occupied.
    pub fn is_full(&self) -> (r: bool)
        ensures
            r == all_occupied(self@),
    {
        let mut i: usize = 0;
        while i < 9
            invariant
                i <= 9,
                forall|j: int| 0 <= j < i ==> #[trigger] self@[j] is Occupied,
            decreases 9 - i,
        {
            if self.cells[i].is_empty() {
                return false;
            }
            i = i + 1;
        }
        true
    }

    /// Places the given player's mark at the given position.
    ///
    /// Fails with [`DomainError::CellOccupied`], leaving the board unchanged,
    /// if the position is already taken.
    pub fn place(&mut self, position: Position, player: Player) -> (r: Result<(), DomainError>)
        ensures
            old(self)@[position@ as int] is Empty ==> r is Ok && final(self)@ == old(self)@.update(
                position@ as int,
                Cell::Occupied(player),
            ),
            old(self)@[position@ as int] is Occupied ==> r == Err::<(), DomainError>(
                DomainError::CellOccupied { position },
            ) && final(self)@ == old(self)@,
    {
        let index = position.index();
        if !self.cells[index].is_empty() {
            return Err(DomainError::CellOccupied { position });
        }
        self.cells[index] = Cell::Occupied(player);
        Ok(())
    }

    /// Evaluates the current game status.
    pub fn status(&self) -> (r: GameStatus)
        ensures
            r == status_of(self@),
    {
        let mut k: usize = 0;
        while k < 8
            invariant
                k <= 8,
                first_winner(self@, 0) == first_winner(self@, k as int),
                self@.len() == 9,
            decreases 8 - k,
        {
            let (a, b, c) = line_cells(k);
            if let Cell::Occupied(p) = self.cells[a] {
                if self.cells[b] == self.cells[a] && self.cells[c] == self.cells[a] {
                    return GameStatus::Won(p);
                }
            }
            k = k + 1;
        }
        if self.is_full() {
            GameStatus::Draw
        } else {
            GameStatus::InProgress
        }
    }
}

proof fn lemma_first_winner_found(cells: Seq<Cell>, j: int, k: int)
    requires
        0 <= j <= k < 8,
        line_winner(cells, k) is Some,
    ensures
        first_winner(cells, j) is Some,
    decreases k - j,
{
    if line_winner(cells, j) is None {
        lemma_first_winner_found(cells, j + 1, k);
    }
}

proof fn lemma_winner_line(cells: Seq<Cell>, j: int) -> (k: int)
    requires
        0 <= j,
        first_winner(cells, j) is Some,
    ensures
        j <= k < 8,
        line_winner(cells, k) is Some,
    decreases 8 - j,
{
    if line_winner(cells, j) is Some {
        j
    } else {
        lemma_winner_line(cells, j + 1)
    }
}

/// A finished game stays finished: claiming an empty cell of a board whose
/// status is `Won` or `Draw` leaves a board whose status is still `Won` or
/// `Draw`.
pub proof fn lemma_finished_stays_finished(cells: Seq<Cell>, i: int, p: Player)
    requires
        cells.len() == 9,
        0 <= i < 9,
        cells[i] is Empty,
        !(status_of(cells) is InProgress),
    ensures
        !(status_of(cells.update(i, Cell::Occupied(p))) is InProgress),
{
    let after = cells.update(i, Cell::Occupied(p));
    if first_winner(cells, 0) is Some {
        let k = lemma_winner_line(cells, 0);
        let (a, b, c) = line(k);
        assert(line_winner(after, k) == line_winner(cells, k));
        lemma_first_winner_found(after, 0, k);
    } else {
        assert(cells[i] is Occupied);
    }
}

/// A claimed cell is never given back: after a successful placement every
/// cell that was occupied before holds the same mark.
pub proof fn lemma_place_keeps_marks(cells: Seq<Cell>, i: int, p: Player)
    requires
        cells.len() == 9,
        0 <= i < 9,
        cells[i] is Empty,
    ensures
        forall|j: int|
            0 <= j < 9 && (#[trigger] cells[j]) is Occupied ==> cells.update(
                i,
                Cell::Occupied(p),
            )[j] == cells[j],
{
}

/// A game is won only through a complete line: when the status names a
/// winner, some winning line holds three of that player's marks; and a
/// board with a complete line is never still in progress.
pub proof fn lemma_won_by_a_line(cells: Seq<Cell>)
    ensures
        status_of(cells) matches GameStatus::Won(p) ==> exists|k: int|
            0 <= k < 8 && #[trigger] line_winner(cells, k) == Some(p),
        (exists|k: int| 0 <= k < 8 && #[trigger] line_winner(cells, k) is Some) ==> !(status_of(
            cells,
        ) is InProgress),
{
    if first_winner(cells, 0) is Some {
        lemma_first_is_a_line(cells, 0);
    }
    if exists|k: int| 0 <= k < 8 && #[trigger] line_winner(cells, k) is Some {
        let k = choose|k: int| 0 <= k < 8 && #[trigger] line_winner(cells, k) is Some;
        lemma_first_winner_found(cells, 0, k);
    }
}

proof fn lemma_first_is_a_line(cells: Seq<Cell>, j: int)
    requires
        0 <= j,
        first_winner(cells, j) is Some,
    ensures
        exists|k: int| j <= k < 8 && #[trigger] line_winner(cells, k) == first_winner(cells, j),
    decreases 8 - j,
{
    if line_winner(cells, j) is Some {
        assert(line_winner(cells, j) == first_winner(cells, j));
    } else {
        lemma_first_is_a_line(cells, j + 1);
    }
}

/// Whether the cells `a`, `b` and `c` all hold `p`'s mark.
pub open spec fn all_three(cells: Seq<Cell>, p: Player, a: int, b: int, c: int) -> bool {
    cells[a] == Cell::Occupied(p) && cells[b] == Cell::Occupied(p) && cells[c] == Cell::Occupied(p)
}

/// Whether `p` holds a whole row, column or diagonal of the 3x3 grid, the
/// cells numbered 0 to 8 in row-major order.
pub open spec fn holds_a_line(cells: Seq<Cell>, p: Player) -> bool {
    ||| all_three(cells, p, 0, 1, 2)
    ||| all_three(cells, p, 3, 4, 5)
    ||| all_three(cells, p, 6, 7, 8)
    ||| all_three(cells, p, 0, 3, 6)
    ||| all_three(cells, p, 1, 4, 7)
    ||| all_three(cells, p, 2, 5, 8)
    ||| all_three(cells, p, 0, 4, 8)
    ||| all_three(cells, p, 2, 4, 6)
}

proof fn lemma_line_held(cells: Seq<Cell>, p: Player)
    requires
        cells.len() == 9,
        holds_a_line(cells, p),
    ensures
        first_winner(cells, 0) is Some,
{
    let k = if all_three(cells, p, 0, 1, 2) {
        0
    } else if all_three(cells, p, 3, 4, 5) {
        1
    } else if all_three(cells, p, 6, 7, 8) {
        2
    } else if all_three(cells, p, 0, 3, 6) {
        3
    } else if all_three(cells, p, 1, 4, 7) {
        4
    } else if all_three(cells, p, 2, 5, 8) {
        5
    } else if all_three(cells, p, 0, 4, 8) {
        6
    } else {
        7
    };
    assert(line_winner(cells, k) == Some(p));
    lemma_first_winner_found(cells, 0, k);
}

proof fn lemma_winner_holds_line(cells: Seq<Cell>, p: Player)
    requires
        cells.len() == 9,
        first_winner(cells, 0) == Some(p),
    ensures
        holds_a_line(cells, p),
{
    lemma_first_is_a_line(cells, 0);
    let k = choose|k: int| 0 <= k < 8 && #[trigger] line_winner(cells, k) == first_winner(cells, 0);
    assert(line_winner(cells, k) == Some(p));
    if k == 0 {
        assert(all_three(cells, p, 0, 1, 2));
    } else if k == 1 {
        assert(all_three(cells, p, 3, 4, 5));
    } else if k == 2 {
        assert(all_three(cells, p, 6, 7, 8));
    } else if k == 3 {
        assert(all_three(cells, p, 0, 3, 6));
    } else if k == 4 {
        assert(all_three(cells, p, 1, 4, 7));
    } else if k == 5 {
        assert(all_three(cells, p, 2, 5, 8));
    } else if k == 6 {
        assert(all_three(cells, p, 0, 4, 8));
    } else {
        assert(all_three(cells, p, 2, 4, 6));
    }
}

/// The status of a board follows the rows, columns and diagonals of the
/// grid: a player who holds one of them makes the game won, by them when
/// the opponent holds none; a game is won only by a player holding one;
/// and with no such line the game is a draw exactly when every cell is
/// taken.
pub proof fn lemma_status_by_lines(cells: Seq<Cell>, p: Player)
    requires
        cells.len() == 9,
    ensures
        holds_a_line(cells, p) ==> status_of(cells) is Won,
        holds_a_line(cells, p) && !holds_a_line(cells, p.opponent()) ==> status_of(cells)
            == GameStatus::Won(p),
        status_of(cells) == GameStatus::Won(p) ==> holds_a_line(cells, p),
        !holds_a_line(cells, Player::X) && !holds_a_line(cells, Player::O) ==> status_of(cells)
            == if (forall|i: int| 0 <= i < 9 ==> #[trigger] cells[i] is Occupied) {
            GameStatus::Draw
        } else {
            GameStatus::InProgress
        },
{
    if holds_a_line(cells, p) {
        lemma_line_held(cells, p);
    }
    if let Some(q) = first_winner(cells, 0) {
        lemma_winner_holds_line(cells, q);
    }
}

} // verus!
