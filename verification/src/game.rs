//! The board engine: a 4x4 grid of tiles, four single-pass shift/merge
//! moves, and one tile spawn after every move.
//!
//! The mathematical model is `GameView`: the cell sequence, the score, the
//! seed and the spawn cursor. Every move's contract pins the new view as a
//! pure function (`move_step`) of the old one, so a whole session is
//! determined by the seed and the sequence of moves.

use vstd::prelude::*;
use crate::rng::{SpawnRng, rng_from_seed, draw_spawn_index, draw_spawn_flag, random_seed};
use crate::rng::{spawn_index_at, spawn_flag_at};

verus! {

/// One of the four move directions.
pub ghost enum Dir {
    Up,
    Down,
    Left,
    Right,
}

/// The abstract state of a game: the 16 cells in row-major order, the score,
/// the seed, and how many spawns the generator has served.
#[verifier::ext_equal]
pub ghost struct GameView {
    pub cells: Seq<u32>,
    pub score: u64,
    pub seed: u64,
    pub spawns: nat,
}

/// The cell that the `k`-th spawn of `seed` overwrites. The draw always lies
/// in [0, 16), so the reduction changes nothing; it only makes the model a
/// total function.
pub open spec fn spawn_cell(seed: u64, k: nat) -> int {
    spawn_index_at(seed, k) as int % 16
}

/// The value the `k`-th spawn of `seed` writes: 4 when the flag draw is
/// true, else 2.
pub open spec fn spawn_value(seed: u64, k: nat) -> u32 {
    if spawn_flag_at(seed, k) {
        4u32
    } else {
        2u32
    }
}

/// One spawn: overwrite the drawn cell with the drawn value — whatever the
/// cell held before — and advance the cursor.
pub open spec fn spawn_step(v: GameView) -> GameView {
    GameView {
        cells: v.cells.update(spawn_cell(v.seed, v.spawns), spawn_value(v.seed, v.spawns)),
        spawns: v.spawns + 1,
        ..v
    }
}

/// The empty board just before the construction-time spawn.
pub open spec fn fresh_view(seed: u64) -> GameView {
    GameView { cells: Seq::new(16, |i: int| 0u32), score: 0, seed: seed, spawns: 0 }
}

/// The index one step toward the move direction from `idx`, or -1 when `idx`
/// already sits on the boundary edge of that direction.
pub open spec fn neighbor(d: Dir, idx: int) -> int {
    match d {
        Dir::Up => if idx >= 4 { idx - 4 } else { -1 },
        Dir::Down => if idx + 4 < 16 { idx + 4 } else { -1 },
        Dir::Left => if idx % 4 != 0 { idx - 1 } else { -1 },
        Dir::Right => if idx % 4 != 3 { idx + 1 } else { -1 },
    }
}

/// A merged tile's value: the doubling is the low 32 bits of `2 * v`, so the
/// step is total on every `u32`.
pub open spec fn merged(v: u32) -> u32 {
    v << 1u32
}

/// One visit of the sweep at `idx`: skip a boundary or empty cell; move the
/// tile one step into an empty neighbor; merge it into an equal neighbor;
/// otherwise leave everything as it is.
pub open spec fn step(cells: Seq<u32>, d: Dir, idx: int) -> Seq<u32> {
    let n = neighbor(d, idx);
    let val = cells[idx];
    if n == -1 || val == 0 {
        cells
    } else if cells[n] == 0 {
        cells.update(n, val).update(idx, 0u32)
    } else if cells[n] == val {
        cells.update(n, merged(val)).update(idx, 0u32)
    } else {
        cells
    }
}

/// The visits at `hi`, `hi - 1`, ..., 0, in that order.
pub open spec fn sweep_desc(cells: Seq<u32>, d: Dir, hi: int) -> Seq<u32>
    decreases hi + 1 when hi >= -1
{
    if hi < 0 {
        cells
    } else {
        sweep_desc(step(cells, d, hi), d, hi - 1)
    }
}

/// The visits at `lo`, `lo + 1`, ..., 15, in that order.
pub open spec fn sweep_asc(cells: Seq<u32>, d: Dir, lo: int) -> Seq<u32>
    decreases 16 - lo when lo <= 16
{
    if lo >= 16 {
        cells
    } else {
        sweep_asc(step(cells, d, lo), d, lo + 1)
    }
}

/// One full sweep: `down` visits the cells in forward linear order, the
/// other three directions in reverse linear order.
pub open spec fn sweep(cells: Seq<u32>, d: Dir) -> Seq<u32> {
    match d {
        Dir::Down => sweep_asc(cells, d, 0),
        _ => sweep_desc(cells, d, 15),
    }
}

/// One whole move: the sweep, then unconditionally one spawn — even when the
/// sweep changed nothing.
pub open spec fn move_step(v: GameView, d: Dir) -> GameView {
    spawn_step(GameView { cells: sweep(v.cells, d), ..v })
}

/// A sequence of moves applied in order.
pub open spec fn apply_moves(v: GameView, ms: Seq<Dir>) -> GameView
    decreases ms.len()
{
    if ms.len() == 0 {
        v
    } else {
        apply_moves(move_step(v, ms[0]), ms.subrange(1, ms.len() as int))
    }
}

/// A transient (row, col) coordinate of a cell.
pub struct GameIndex {
    pub r: usize,
    pub c: usize,
}

impl GameIndex {
    pub fn new(row: usize, col: usize) -> (rc: GameIndex)
        ensures
            rc.r == row,
            rc.c == col,
    {
        GameIndex { r: row, c: col }
    }
}

/// The board engine. The grid dimensions are kept as fields because the
/// index arithmetic is written against them, though nothing changes them.
pub struct Game {
    board: Vec<u32>,
    board_height: usize,
    board_width: usize,
    board_size: usize,
    score: u64,
    seed: u64,
    rng: SpawnRng,
}

impl View for Game {
    type V = GameView;

    closed spec fn view(&self) -> GameView {
        GameView {
            cells: self.board@,
            score: self.score,
            seed: self.seed,
            spawns: self.rng.flags_drawn(),
        }
    }
}

impl Game {
    /// Well-formedness: 16 cells, the fixed 4x4 dimensions, and a generator
    /// that was seeded with this game's seed and sits between spawns.
    pub closed spec fn wf(&self) -> bool {
        &&& self.board@.len() == 16
        &&& self.board_height == 4
        &&& self.board_width == 4
        &&& self.board_size == 16
        &&& self.rng.seed() == self.seed
        &&& self.rng.balanced()
        &&& self.rng.flags_drawn() == self.rng.indices_drawn()
    }

    /// A new game from a seed drawn from a non-deterministic source; the
    /// drawn seed is recorded, so the session can be replayed from it.
    pub fn start() -> (g: Game)
        ensures
            g.wf(),
            g@ == spawn_step(fresh_view(g@.seed)),
    {
        Game::start_with_seed(random_seed())
    }

    /// A new game from an explicit seed: all cells zero, score zero, the
    /// generator seeded from `game_seed`, then exactly one spawn, so the
    /// board comes back with one nonzero cell of value 2 or 4.
    pub fn start_with_seed(game_seed: u64) -> (g: Game)
        ensures
            g.wf(),
            g@ == spawn_step(fresh_view(game_seed)),
    {
        let mut result = Game {
            board: zero_cells(),
            board_height: 4,
            board_width: 4,
            board_size: 16,
            score: 0,
            seed: game_seed,
            rng: rng_from_seed(game_seed),
        };
        proof {
            assert(result@ =~= fresh_view(game_seed));
        }
        result.new_cell();
        result
    }

    /// The cells, in row-major order.
    pub fn board(&self) -> (b: &Vec<u32>)
        ensures
            b@ == self@.cells,
    {
        &self.board
    }

    /// The running score. No operation of the engine increments it.
    pub fn score(&self) -> (s: u64)
        ensures
            s == self@.score,
    {
        self.score
    }

    /// The seed the game was constructed with.
    pub fn seed(&self) -> (s: u64)
        ensures
            s == self@.seed,
    {
        self.seed
    }

    /// Move up: one reverse-order sweep pulling each tile one row toward row
    /// zero (a move into an empty cell, or a merge into an equal one), then
    /// one spawn.
    pub fn up(&mut self)
        requires
            old(self).wf(),
        ensures
            final(self).wf(),
            final(self)@ == move_step(old(self)@, Dir::Up),
    {
        let ghost c0 = self.board@;
        let mut j: usize = 16;
        while j > 0
            invariant
                self.wf(),
                j <= 16,
                self.board_width == 4,
                self.board_size == 16,
                sweep_desc(c0, Dir::Up, 15) == sweep_desc(self.board@, Dir::Up, j as int - 1),
                self.score == old(self).score,
                self.seed == old(self).seed,
                self.rng == old(self).rng,
            decreases j,
        {
            j -= 1;
            let idx = j;
            let ghost before = self.board@;
            let val = self.board[idx];
            if (idx > self.board_width - 1) && (val != 0) {
                let up_idx = idx - self.board_width;
                if self.board[up_idx] == 0 {
                    self.board[up_idx] = val;
                    self.board[idx] = 0;
                } else if self.board[up_idx] == val {
                    self.board[up_idx] = val << 1u32;
                    self.board[idx] = 0;
                }
            }
            proof {
                assert(self.board@ =~= step(before, Dir::Up, idx as int));
            }
        }
        self.new_cell();
        proof {
            assert(final(self)@ =~= move_step(old(self)@, Dir::Up));
        }
    }

    /// Move down: the same one-step sweep as `up`, but visiting the cells in
    /// forward linear order and skipping a cell when its lower neighbor lies
    /// outside the 16-cell range, then one spawn.
    pub fn down(&mut self)
        requires
            old(self).wf(),
        ensures
            final(self).wf(),
            final(self)@ == move_step(old(self)@, Dir::Down),
    {
        let ghost c0 = self.board@;
        let mut idx: usize = 0;
        while idx < 16
            invariant
                self.wf(),
                idx <= 16,
                self.board_width == 4,
                self.board_size == 16,
                sweep_asc(c0, Dir::Down, 0) == sweep_asc(self.board@, Dir::Down, idx as int),
                self.score == old(self).score,
                self.seed == old(self).seed,
                self.rng == old(self).rng,
            decreases 16 - idx,
        {
            let ghost before = self.board@;
            let val = self.board[idx];
            if val != 0 {
                let down_idx = idx + self.board_width;
                if down_idx < self.board_size {
                    if self.board[down_idx] == 0 {
                        self.board[down_idx] = val;
                        self.board[idx] = 0;
                    } else if self.board[down_idx] == val {
                        self.board[down_idx] = val << 1u32;
                        self.board[idx] = 0;
                    }
                }
            }
            proof {
                assert(self.board@ =~= step(before, Dir::Down, idx as int));
            }
            idx += 1;
        }
        self.new_cell();
        proof {
            assert(final(self)@ =~= move_step(old(self)@, Dir::Down));
        }
    }

    /// Move left: a reverse-order sweep pulling each tile one column toward
    /// column zero, with the neighbor found through the coordinate
    /// conversions, then one spawn.
    pub fn left(&mut self)
        requires
            old(self).wf(),
        ensures
            final(self).wf(),
            final(self)@ == move_step(old(self)@, Dir::Left),
    {
        let ghost c0 = self.board@;
        let mut j: usize = 16;
        while j > 0
            invariant
                self.wf(),
                j <= 16,
                self.board_width == 4,
                self.board_size == 16,
                sweep_desc(c0, Dir::Left, 15) == sweep_desc(self.board@, Dir::Left, j as int - 1),
                self.score == old(self).score,
                self.seed == old(self).seed,
                self.rng == old(self).rng,
            decreases j,
        {
            j -= 1;
            let idx = j;
            let ghost before = self.board@;
            let val = self.board[idx];
            if (idx % self.board_width != 0) && (val != 0) {
                let mut rc = self.index_to_row_col(idx);
                rc.c -= 1;
                let left_idx = self.row_col_to_idx(&rc);
                if self.board[left_idx] == 0 {
                    self.board[left_idx] = val;
                    self.board[idx] = 0;
                } else if self.board[left_idx] == val {
                    self.board[left_idx] = val << 1u32;
                    self.board[idx] = 0;
                }
            }
            proof {
                assert(self.board@ =~= step(before, Dir::Left, idx as int));
            }
        }
        self.new_cell();
        proof {
            assert(final(self)@ =~= move_step(old(self)@, Dir::Left));
        }
    }

    /// Move right: a reverse-order sweep pushing each tile one column toward
    /// the rightmost column, with the boundary read off the coordinate form
    /// before the column is stepped, then one spawn.
    pub fn right(&mut self)
        requires
            old(self).wf(),
        ensures
            final(self).wf(),
            final(self)@ == move_step(old(self)@, Dir::Right),
    {
        let ghost c0 = self.board@;
        let mut j: usize = 16;
        while j > 0
            invariant
                self.wf(),
                j <= 16,
                self.board_width == 4,
                self.board_size == 16,
                sweep_desc(c0, Dir::Right, 15) == sweep_desc(self.board@, Dir::Right, j as int - 1),
                self.score == old(self).score,
                self.seed == old(self).seed,
                self.rng == old(self).rng,
            decreases j,
        {
            j -= 1;
            let idx = j;
            let ghost before = self.board@;
            let val = self.board[idx];
            let mut rc = self.index_to_row_col(idx);
            if (rc.c < self.board_width - 1) && (val != 0) {
                rc.c += 1;
                let right_idx = self.row_col_to_idx(&rc);
                if self.board[right_idx] == 0 {
                    self.board[right_idx] = val;
                    self.board[idx] = 0;
                } else if self.board[right_idx] == val {
                    self.board[right_idx] = val << 1u32;
                    self.board[idx] = 0;
                }
            }
            proof {
                assert(self.board@ =~= step(before, Dir::Right, idx as int));
            }
        }
        self.new_cell();
        proof {
            assert(final(self)@ =~= move_step(old(self)@, Dir::Right));
        }
    }

    /// The coordinate form of a linear index: the row is the quotient by the
    /// board height and the column the remainder (the height, not the width,
    /// is the divisor, as the index arithmetic is written against it).
    pub fn index_to_row_col(&self, idx: usize) -> (rc: GameIndex)
        requires
            self.wf(),
        ensures
            rc.r == idx as int / 4,
            rc.c == idx as int % 4,
    {
        let row = idx / self.board_height;
        let col = idx - (self.board_height * row);
        GameIndex::new(row, col)
    }

    /// The linear index of a coordinate: `row * height + col`.
    pub fn row_col_to_idx(&self, rc: &GameIndex) -> (idx: usize)
        requires
            self.wf(),
            rc.r * 4 + rc.c <= usize::MAX,
        ensures
            idx == rc.r * 4 + rc.c,
    {
        (rc.r * self.board_height) + rc.c
    }

    /// One spawn: draw a cell index, then a value flag, and overwrite that
    /// cell — also when it already holds a tile.
    pub fn new_cell(&mut self)
        requires
            old(self).wf(),
        ensures
            final(self).wf(),
            final(self)@ == spawn_step(old(self)@),
    {
        let cell_index: usize = draw_spawn_index(&mut self.rng);
        if draw_spawn_flag(&mut self.rng) {
            self.board[cell_index] = 4;
        } else {
            self.board[cell_index] = 2;
        }
        proof {
            assert(final(self)@ =~= spawn_step(old(self)@));
        }
    }
}

/// Sixteen zeroed cells.
fn zero_cells() -> (v: Vec<u32>)
    ensures
        v@ =~= Seq::new(16, |i: int| 0u32),
{
    let mut v: Vec<u32> = Vec::new();
    let mut i: usize = 0;
    while i < 16
        invariant
            i <= 16,
            v@.len() == i,
            forall|j: int| 0 <= j < i ==> v@[j] == 0u32,
        decreases 16 - i,
    {
        v.push(0u32);
        i += 1;
    }
    v
}

} // verus!
