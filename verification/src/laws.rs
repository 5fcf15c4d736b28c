//! The laws of the engine, stated over the mathematical model and proved
//! once and for all: determinism, the spawn-overwrite shape of every move,
//! the grid-size and power-of-two invariants, the one-cell-step bound of a
//! single sweep visit, and the coordinate round trip.

use vstd::prelude::*;
use crate::game::{
    Dir, GameView, apply_moves, fresh_view, merged, move_step, neighbor, spawn_cell, spawn_step,
    spawn_value, step, sweep, sweep_asc, sweep_desc,
};

verus! {

/// A legal cell value: 0 for empty, or a power of two no smaller than 2.
pub open spec fn is_tile(v: u32) -> bool {
    v == 0 || (v >= 2 && v & ((v - 1) as u32) == 0)
}

/// Every cell of the board holds a legal value.
pub open spec fn tiles_ok(cells: Seq<u32>) -> bool {
    forall|i: int| 0 <= i < cells.len() ==> is_tile(#[trigger] cells[i])
}

/// Doubling a tile yields a tile: a power of two becomes the next power of
/// two, and the largest one wraps to the empty value.
pub proof fn lemma_merged_tile(v: u32)
    requires
        is_tile(v),
        v != 0,
    ensures
        is_tile(merged(v)),
{
    assert(v >= 2 && v & ((v - 1) as u32) == 0 ==> (v << 1u32 == 0 || (v << 1u32 >= 2 && (v
        << 1u32) & (((v << 1u32) - 1) as u32) == 0))) by (bit_vector);
}

/// A spawned value is a tile.
pub proof fn lemma_spawn_value_tile(seed: u64, k: nat)
    ensures
        is_tile(spawn_value(seed, k)),
{
    assert(2u32 & ((2u32 - 1) as u32) == 0 && 4u32 & ((4u32 - 1) as u32) == 0) by (bit_vector);
}

/// The neighbor of a valid index is -1 or another valid index.
pub proof fn lemma_neighbor_range(d: Dir, idx: int)
    requires
        0 <= idx < 16,
    ensures
        neighbor(d, idx) == -1 || (0 <= neighbor(d, idx) < 16 && neighbor(d, idx) != idx),
{
}

/// One visit keeps the length of the board and every cell legal: it writes
/// only a moved tile, a merged tile, or the empty value.
pub proof fn lemma_step_tiles(cells: Seq<u32>, d: Dir, idx: int)
    requires
        cells.len() == 16,
        0 <= idx < 16,
        tiles_ok(cells),
    ensures
        step(cells, d, idx).len() == 16,
        tiles_ok(step(cells, d, idx)),
{
    lemma_neighbor_range(d, idx);
    let n = neighbor(d, idx);
    if n != -1 && cells[idx] != 0 && cells[n] == cells[idx] {
        lemma_merged_tile(cells[idx]);
    }
}

/// A descending sweep keeps the length of the board and every cell legal.
pub proof fn lemma_sweep_desc_tiles(cells: Seq<u32>, d: Dir, hi: int)
    requires
        cells.len() == 16,
        -1 <= hi < 16,
        tiles_ok(cells),
    ensures
        sweep_desc(cells, d, hi).len() == 16,
        tiles_ok(sweep_desc(cells, d, hi)),
    decreases hi + 1,
{
    if hi >= 0 {
        lemma_step_tiles(cells, d, hi);
        lemma_sweep_desc_tiles(step(cells, d, hi), d, hi - 1);
    }
}

/// An ascending sweep keeps the length of the board and every cell legal.
pub proof fn lemma_sweep_asc_tiles(cells: Seq<u32>, d: Dir, lo: int)
    requires
        cells.len() == 16,
        0 <= lo <= 16,
        tiles_ok(cells),
    ensures
        sweep_asc(cells, d, lo).len() == 16,
        tiles_ok(sweep_asc(cells, d, lo)),
    decreases 16 - lo,
{
    if lo < 16 {
        lemma_step_tiles(cells, d, lo);
        lemma_sweep_asc_tiles(step(cells, d, lo), d, lo + 1);
    }
}

/// A full sweep keeps the length of the board and every cell legal.
pub proof fn lemma_sweep_tiles(cells: Seq<u32>, d: Dir)
    requires
        cells.len() == 16,
        tiles_ok(cells),
    ensures
        sweep(cells, d).len() == 16,
        tiles_ok(sweep(cells, d)),
{
    match d {
        Dir::Down => lemma_sweep_asc_tiles(cells, d, 0),
        _ => lemma_sweep_desc_tiles(cells, d, 15),
    }
}

/// A spawn keeps the length of the board and every cell legal.
pub proof fn lemma_spawn_tiles(v: GameView)
    requires
        v.cells.len() == 16,
        tiles_ok(v.cells),
    ensures
        spawn_step(v).cells.len() == 16,
        tiles_ok(spawn_step(v).cells),
{
    lemma_spawn_value_tile(v.seed, v.spawns);
}

/// Grid-size and tile invariant, one move: a move keeps the board at 16
/// cells, each 0 or a power of two no smaller than 2.
pub proof fn lemma_move_tiles(v: GameView, d: Dir)
    requires
        v.cells.len() == 16,
        tiles_ok(v.cells),
    ensures
        move_step(v, d).cells.len() == 16,
        tiles_ok(move_step(v, d).cells),
{
    lemma_sweep_tiles(v.cells, d);
    lemma_spawn_tiles(GameView { cells: sweep(v.cells, d), ..v });
}

/// Law: the grid-size and tile invariant holds of every reachable state —
/// a freshly started board satisfies it (see `lemma_start_tiles`), and any
/// sequence of moves preserves it.
pub proof fn lemma_tiles_invariant(v: GameView, ms: Seq<Dir>)
    requires
        v.cells.len() == 16,
        tiles_ok(v.cells),
    ensures
        apply_moves(v, ms).cells.len() == 16,
        tiles_ok(apply_moves(v, ms).cells),
    decreases ms.len(),
{
    if ms.len() > 0 {
        lemma_move_tiles(v, ms[0]);
        lemma_tiles_invariant(move_step(v, ms[0]), ms.subrange(1, ms.len() as int));
    }
}

/// A freshly started board has 16 cells, each 0 or a power of two: the
/// construction-time spawn writes one tile into an all-zero board.
pub proof fn lemma_start_tiles(seed: u64)
    ensures
        spawn_step(fresh_view(seed)).cells.len() == 16,
        tiles_ok(spawn_step(fresh_view(seed)).cells),
{
    lemma_spawn_tiles(fresh_view(seed));
}

/// Law: every move overwrites exactly one cell of the swept board with a
/// fresh tile of value 2 or 4 — even when the sweep itself changed nothing.
pub proof fn lemma_move_spawns_one(v: GameView, d: Dir)
    requires
        v.cells.len() == 16,
    ensures
        ({
            let w = sweep(v.cells, d);
            let m = move_step(v, d);
            let i = spawn_cell(v.seed, v.spawns);
            &&& 0 <= i < 16
            &&& (m.cells[i] == 2 || m.cells[i] == 4)
            &&& m.cells =~= w.update(i, m.cells[i])
        }),
{
    lemma_sweep_len(v.cells, d);
}

/// A sweep alone never changes the length of the board.
pub proof fn lemma_sweep_len(cells: Seq<u32>, d: Dir)
    requires
        cells.len() == 16,
    ensures
        sweep(cells, d).len() == 16,
{
    match d {
        Dir::Down => lemma_sweep_asc_len(cells, d, 0),
        _ => lemma_sweep_desc_len(cells, d, 15),
    }
}

proof fn lemma_step_len(cells: Seq<u32>, d: Dir, idx: int)
    requires
        cells.len() == 16,
        0 <= idx < 16,
    ensures
        step(cells, d, idx).len() == 16,
{
    lemma_neighbor_range(d, idx);
}

proof fn lemma_sweep_desc_len(cells: Seq<u32>, d: Dir, hi: int)
    requires
        cells.len() == 16,
        -1 <= hi < 16,
    ensures
        sweep_desc(cells, d, hi).len() == 16,
    decreases hi + 1,
{
    if hi >= 0 {
        lemma_step_len(cells, d, hi);
        lemma_sweep_desc_len(step(cells, d, hi), d, hi - 1);
    }
}

proof fn lemma_sweep_asc_len(cells: Seq<u32>, d: Dir, lo: int)
    requires
        cells.len() == 16,
        0 <= lo <= 16,
    ensures
        sweep_asc(cells, d, lo).len() == 16,
    decreases 16 - lo,
{
    if lo < 16 {
        lemma_step_len(cells, d, lo);
        lemma_sweep_asc_len(step(cells, d, lo), d, lo + 1);
    }
}

/// Law: one visit of a sweep touches at most the visited cell and its
/// neighbor one step toward the move direction, so a single visit moves or
/// merges a tile at most one cell-step. A whole move may still carry a tile
/// several cells, since a later visit of the same sweep can pick the tile up
/// again: the up move from a lone tile at linear index 14 carries it to
/// index 2.
pub proof fn lemma_step_one_cell(cells: Seq<u32>, d: Dir, idx: int)
    requires
        cells.len() == 16,
        0 <= idx < 16,
    ensures
        forall|j: int|
            0 <= j < 16 && j != idx && j != neighbor(d, idx) ==> step(cells, d, idx)[j] == cells[j],
        step(cells, d, idx)[idx] == cells[idx] || step(cells, d, idx)[idx] == 0,
        ({
            let n = neighbor(d, idx);
            n != -1 ==> step(cells, d, idx)[n] == cells[n] || step(cells, d, idx)[n] == cells[idx]
                || step(cells, d, idx)[n] == merged(cells[idx])
        }),
        neighbor(d, idx) == -1 ==> step(cells, d, idx) == cells,
{
    lemma_neighbor_range(d, idx);
}

/// Law: the engine is deterministic. Every move's contract pins the next
/// view as `move_step` of the previous one, a pure function, so two games
/// built from the same seed and given the same sequence of moves agree on
/// cells, score, seed and generator cursor at every step.
pub proof fn lemma_deterministic(a: GameView, b: GameView, ms: Seq<Dir>)
    requires
        a == b,
    ensures
        apply_moves(a, ms) == apply_moves(b, ms),
{
}

/// Law: converting a valid linear index to its coordinate form and back
/// returns the same index. The two conversions promise `(i / 4, i % 4)` and
/// `r * 4 + c`, and the composition is the identity on [0, 16) — indeed on
/// every index.
pub proof fn lemma_coordinate_round_trip(i: int)
    requires
        0 <= i < 16,
    ensures
        (i / 4) * 4 + (i % 4) == i,
{
}

} // verus!
