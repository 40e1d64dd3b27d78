//! Decisions of the render drivers: which path a render takes, render
//! generations for cancellation, and the step-by-step scheduling of the
//! progressive GPU row-sets. The drivers perform the I/O (canvas, GPU,
//! animation frames) and hand the outcomes back to these functions.

use vstd::prelude::*;
use crate::pixel::{PixelRect, TileResult};
use crate::render_progress::{RenderPhase, RenderProgress};

verus! {

/// How a render request is served.
#[derive(Clone, Copy, Debug, PartialEq, Eq, Structural)]
pub enum RenderPath {
    /// Nothing to draw: the canvas has no pixels.
    Skip,
    /// Progressive GPU rendering in row-sets (venetian blinds).
    ProgressiveGpu,
    /// Tiled rendering on the CPU worker pool.
    Cpu,
}

/// Pick the render path: nothing for an empty canvas; the progressive GPU
/// renderer when the fractal type and the user both allow the GPU and
/// row-sets are configured; the CPU workers otherwise.
pub fn choose_render_path(
    width: u32,
    height: u32,
    config_gpu_enabled: bool,
    options_use_gpu: bool,
    progressive_row_sets: u32,
) -> (r: RenderPath)
    ensures
        r == (if width == 0 || height == 0 {
            RenderPath::Skip
        } else if config_gpu_enabled && options_use_gpu && progressive_row_sets > 0 {
            RenderPath::ProgressiveGpu
        } else {
            RenderPath::Cpu
        }),
{
    if width == 0 || height == 0 {
        RenderPath::Skip
    } else if config_gpu_enabled && options_use_gpu && progressive_row_sets > 0 {
        RenderPath::ProgressiveGpu
    } else {
        RenderPath::Cpu
    }
}

/// Render generation counter: each new render (or cancellation) moves to a
/// new generation, and work of older generations is abandoned.
#[derive(Clone, Copy, Debug, PartialEq, Eq, Structural)]
pub struct RenderGeneration {
    pub current: u32,
}

/// The generation after `g`, wrapping around after `u32::MAX`.
pub open spec fn next_generation(g: u32) -> u32 {
    if g == u32::MAX { 0 } else { (g + 1) as u32 }
}

impl RenderGeneration {
    /// Generation 0.
    pub fn new() -> (r: Self)
        ensures
            r.current == 0,
    {
        RenderGeneration { current: 0 }
    }

    /// Start a new render: move to the next generation and return it.
    pub fn start(&mut self) -> (id: u32)
        ensures
            final(self).current == next_generation(old(self).current),
            id == final(self).current,
    {
        self.current = self.current.wrapping_add(1);
        self.current
    }

    /// Cancel the render in progress by moving to the next generation.
    pub fn cancel(&mut self)
        ensures
            final(self).current == next_generation(old(self).current),
    {
        self.current = self.current.wrapping_add(1);
    }

    /// Whether work of generation `id` is still wanted.
    pub fn is_current(&self, id: u32) -> (r: bool)
        ensures
            r == (self.current == id),
    {
        self.current == id
    }
}

/// A trigger counter (cancel, subdivide) fires when its value changed since
/// it was last observed; its first observation never fires.
pub fn trigger_fired(previous: Option<u32>, current: u32) -> (r: bool)
    ensures
        r == (previous is Some && previous.unwrap() != current),
{
    match previous {
        Some(p) => p != current,
        None => false,
    }
}

/// The generation after `n` further starts or cancellations from `g`.
pub open spec fn generation_after(g: u32, n: nat) -> u32
    decreases n,
{
    if n == 0 { g } else { next_generation(generation_after(g, (n - 1) as nat)) }
}

proof fn lemma_generation_after_value(g: u32, n: nat)
    ensures
        generation_after(g, n) == (g + n) % 0x1_0000_0000,
    decreases n,
{
    if n > 0 {
        lemma_generation_after_value(g, (n - 1) as nat);
        let prev = generation_after(g, (n - 1) as nat);
        vstd::arithmetic::div_mod::lemma_add_mod_noop(g + n - 1, 1, 0x1_0000_0000);
        vstd::arithmetic::div_mod::lemma_small_mod(1, 0x1_0000_0000);
        if prev == u32::MAX {
            vstd::arithmetic::div_mod::lemma_mod_self_0(0x1_0000_0000);
        } else {
            vstd::arithmetic::div_mod::lemma_small_mod((prev + 1) as nat, 0x1_0000_0000);
        }
    }
}

/// A render is superseded by any later start or cancellation: after
/// between 1 and `u32::MAX` further generation steps its generation is no
/// longer current. (After exactly 2^32 steps the counter wraps around.)
pub proof fn lemma_later_generations_supersede(g: u32, n: nat)
    requires
        1 <= n <= u32::MAX,
    ensures
        generation_after(g, n) != g,
{
    lemma_generation_after_value(g, n);
    if (g + n) % 0x1_0000_0000 == g {
        if g + n < 0x1_0000_0000 {
            vstd::arithmetic::div_mod::lemma_small_mod((g + n) as nat, 0x1_0000_0000);
        } else {
            vstd::arithmetic::div_mod::lemma_fundamental_div_mod(g + n, 0x1_0000_0000);
            vstd::arithmetic::div_mod::lemma_mod_sub_multiples_vanish(g + n, 0x1_0000_0000);
            vstd::arithmetic::div_mod::lemma_small_mod((g + n - 0x1_0000_0000) as nat, 0x1_0000_0000);
        }
    }
}

/// Start a render on a `width`×`height` canvas: an empty canvas is skipped
/// (`None`) and cancels nothing; otherwise the render gets the next
/// generation, which supersedes any render in progress.
pub fn begin_render(generation: &mut RenderGeneration, width: u32, height: u32) -> (id: Option<u32>)
    ensures
        (width == 0 || height == 0) ==> id is None && *final(generation) == *old(generation),
        (width != 0 && height != 0) ==> id == Some(next_generation(old(generation).current))
            && final(generation).current == next_generation(old(generation).current),
{
    if width == 0 || height == 0 {
        None
    } else {
        Some(generation.start())
    }
}

/// What the tile loop of a render does at the check before tile
/// `next_tile`.
#[derive(Clone, Copy, Debug, PartialEq, Eq, Structural)]
pub enum TileLoopStep {
    /// The render was superseded: stop without touching the progress.
    Abandon,
    /// Compute, draw and count the tile with this index.
    ComputeTile(u32),
    /// Every tile was handled: mark the progress complete.
    Complete,
}

/// The loop's decision for render `id` when generation `current` is the
/// live one: a superseded render is abandoned at every check, the last
/// one included; the live render computes the next tile while tiles
/// remain and completes past the last one.
pub open spec fn tile_loop_action(current: u32, id: u32, next_tile: u32, tile_count: u32) -> TileLoopStep {
    if current != id {
        TileLoopStep::Abandon
    } else if next_tile < tile_count {
        TileLoopStep::ComputeTile(next_tile)
    } else {
        TileLoopStep::Complete
    }
}

/// The check of the tile loop of render `id` before tile `next_tile` of
/// `tile_count`; on completion the progress is marked complete, otherwise
/// it is left as it is.
pub fn tile_loop_step(
    generation: &RenderGeneration,
    id: u32,
    next_tile: u32,
    tile_count: u32,
    progress: &mut RenderProgress,
) -> (step: TileLoopStep)
    ensures
        step == tile_loop_action(generation.current, id, next_tile, tile_count),
        step == TileLoopStep::Complete ==> *final(progress) == (RenderProgress { phase: RenderPhase::Complete, ..*old(progress) }),
        step != TileLoopStep::Complete ==> *final(progress) == *old(progress),
{
    if !generation.is_current(id) {
        TileLoopStep::Abandon
    } else if next_tile < tile_count {
        TileLoopStep::ComputeTile(next_tile)
    } else {
        progress.set_complete();
        TileLoopStep::Complete
    }
}

/// Record that tile `index` was drawn: `index + 1` tiles are done.
pub fn tile_done(progress: &mut RenderProgress, index: u32)
    requires
        index < u32::MAX,
    ensures
        *final(progress) == (RenderProgress { completed_steps: (index + 1) as u32, ..*old(progress) }),
{
    progress.completed_steps = index + 1;
}

/// Outcome of the tile loop of render `id` run from tile `next` when the
/// check before tile `i` (for `i` up to `tile_count`, the final check)
/// sees generation `observed[i]`.
pub open spec fn tile_loop_outcome(observed: Seq<u32>, id: u32, next: u32, tile_count: u32) -> TileLoopStep
    decreases tile_count - next,
{
    if next < tile_count {
        match tile_loop_action(observed[next as int], id, next, tile_count) {
            TileLoopStep::ComputeTile(_) => tile_loop_outcome(observed, id, (next + 1) as u32, tile_count),
            other => other,
        }
    } else {
        tile_loop_action(observed[next as int], id, next, tile_count)
    }
}

/// A cancelled render never completes: if any check of the tile loop of
/// render `id` (before a tile, or the final one after the last tile) sees
/// a generation reached from `id` by between 1 and `u32::MAX` later starts
/// or cancellations, the loop is abandoned and never marks the progress
/// complete.
pub proof fn lemma_cancelled_render_never_completes(observed: Seq<u32>, id: u32, tile_count: u32, i: u32, n: nat)
    requires
        observed.len() > tile_count,
        i <= tile_count,
        1 <= n <= u32::MAX,
        observed[i as int] == generation_after(id, n),
    ensures
        tile_loop_outcome(observed, id, 0, tile_count) == TileLoopStep::Abandon,
{
    lemma_later_generations_supersede(id, n);
    lemma_outcome_abandons_from(observed, id, 0, tile_count, i);
}

proof fn lemma_outcome_abandons_from(observed: Seq<u32>, id: u32, next: u32, tile_count: u32, i: u32)
    requires
        observed.len() > tile_count,
        next <= i <= tile_count,
        observed[i as int] != id,
    ensures
        tile_loop_outcome(observed, id, next, tile_count) == TileLoopStep::Abandon,
    decreases tile_count - next,
{
    if next < i {
        if observed[next as int] == id {
            lemma_outcome_abandons_from(observed, id, (next + 1) as u32, tile_count, i);
        }
    }
}

/// What to do when a row-set is due.
#[derive(Clone, Copy, Debug, PartialEq, Eq, Structural)]
pub enum RowSetStart {
    /// A newer render started: stop this one.
    Stale,
    /// The GPU is executing another pass: skip this row-set.
    GpuBusy,
    /// The GPU renderer is not available: skip this row-set.
    RendererMissing,
    /// Render the row-set on the GPU.
    Dispatch,
}

/// Decide whether a due row-set is rendered. `current_generation` is the
/// render generation now, `expected_generation` the one the row-set
/// belongs to.
pub fn row_set_start(
    current_generation: u32,
    expected_generation: u32,
    gpu_in_use: bool,
    renderer_available: bool,
) -> (r: RowSetStart)
    ensures
        r == (if current_generation != expected_generation {
            RowSetStart::Stale
        } else if gpu_in_use {
            RowSetStart::GpuBusy
        } else if !renderer_available {
            RowSetStart::RendererMissing
        } else {
            RowSetStart::Dispatch
        }),
{
    if current_generation != expected_generation {
        RowSetStart::Stale
    } else if gpu_in_use {
        RowSetStart::GpuBusy
    } else if !renderer_available {
        RowSetStart::RendererMissing
    } else {
        RowSetStart::Dispatch
    }
}

/// Whether `row_set_index` is the last of `row_set_count` row-sets.
pub fn is_final_row_set(row_set_index: u32, row_set_count: u32) -> (r: bool)
    requires
        row_set_count > 0,
    ensures
        r == (row_set_index == row_set_count - 1),
{
    row_set_index == row_set_count - 1
}

/// What to do once the GPU has answered for a row-set.
#[derive(Clone, Copy, Debug, PartialEq, Eq, Structural)]
pub enum RowSetOutcome {
    /// A newer render started meanwhile: drop the result.
    Discard,
    /// The GPU reported an error: stop.
    Failed,
    /// Last row-set merged: colorize the full image and cache it.
    Finish,
    /// Merge the rows, then schedule the row-set with this index.
    Next(u32),
}

/// What follows a row-set's GPU result.
pub open spec fn row_set_outcome_spec(
    current_generation: u32,
    expected_generation: u32,
    succeeded: bool,
    row_set_index: u32,
    row_set_count: u32,
) -> RowSetOutcome {
    if current_generation != expected_generation {
        RowSetOutcome::Discard
    } else if !succeeded {
        RowSetOutcome::Failed
    } else if row_set_index == row_set_count - 1 {
        RowSetOutcome::Finish
    } else {
        RowSetOutcome::Next((row_set_index + 1) as u32)
    }
}

/// Decide what follows a row-set's GPU result.
pub fn row_set_outcome(
    current_generation: u32,
    expected_generation: u32,
    succeeded: bool,
    row_set_index: u32,
    row_set_count: u32,
) -> (r: RowSetOutcome)
    requires
        row_set_count > 0,
        row_set_index < row_set_count,
    ensures
        r == row_set_outcome_spec(current_generation, expected_generation, succeeded, row_set_index, row_set_count),
{
    if current_generation != expected_generation {
        RowSetOutcome::Discard
    } else if !succeeded {
        RowSetOutcome::Failed
    } else if is_final_row_set(row_set_index, row_set_count) {
        RowSetOutcome::Finish
    } else {
        RowSetOutcome::Next(row_set_index + 1)
    }
}

/// The row-set reached from row-set `start` after `n` successful row-sets
/// of one uninterrupted render (`None` once the render has finished).
pub open spec fn row_set_after(start: u32, n: nat, count: u32) -> Option<u32>
    decreases n,
{
    if n == 0 {
        Some(start)
    } else {
        match row_set_after(start, (n - 1) as nat, count) {
            Some(i) => match row_set_outcome_spec(0, 0, true, i, count) {
                RowSetOutcome::Next(k) => Some(k),
                _ => None,
            },
            None => None,
        }
    }
}

/// An uninterrupted progressive render visits the row-sets 0, 1, ...,
/// `count - 1` in order: after `n < count` successful row-sets it is at
/// row-set `n`, and after `count` it has finished.
pub proof fn lemma_row_sets_run_in_order(count: u32, n: nat)
    requires
        count > 0,
        n <= count,
    ensures
        n < count ==> row_set_after(0, n, count) == Some(n as u32),
        n == count ==> row_set_after(0, n, count) is None,
    decreases n,
{
    if n > 0 {
        lemma_row_sets_run_in_order(count, (n - 1) as nat);
    }
}


/// Count a merged row-set in the progress: one more completed step, and
/// the render is complete exactly when it was the last row-set (otherwise
/// it is still rendering).
pub fn row_set_progress(progress: &mut RenderProgress, row_set_index: u32, row_set_count: u32)
    requires
        row_set_count > 0,
        old(progress).completed_steps < u32::MAX,
    ensures
        *final(progress) == (RenderProgress {
            completed_steps: (old(progress).completed_steps + 1) as u32,
            phase: if row_set_index == row_set_count - 1 { RenderPhase::Complete } else { RenderPhase::Rendering },
            ..*old(progress)
        }),
{
    progress.completed_steps = progress.completed_steps + 1;
    progress.phase = if is_final_row_set(row_set_index, row_set_count) { RenderPhase::Complete } else { RenderPhase::Rendering };
}

/// What a finished progressive render keeps for recolorizing: the full
/// `width`×`height` buffer as one tile at the origin.
pub fn full_frame_tile_results<D>(buffer: Vec<D>, width: u32, height: u32) -> (r: Vec<TileResult<D>>)
    ensures
        r@.len() == 1,
        r@[0].tile == (PixelRect { x: 0, y: 0, width, height }),
        r@[0].data@ == buffer@,
{
    let mut r: Vec<TileResult<D>> = Vec::new();
    r.push(TileResult { tile: PixelRect::new(0, 0, width, height), data: buffer });
    r
}

} // verus!
