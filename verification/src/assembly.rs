//! Assembling per-tile results into one full-image buffer.

use vstd::prelude::*;
use crate::pixel::{ComputeData, MandelbrotData, PixelRect, TileResult};
use crate::arith::{lemma_row_major_in_bounds, lemma_row_major_injective};

verus! {

/// Tile `t` writes canvas pixel `(gx, gy)`: the pixel is inside both the
/// tile and the `width`×`height` canvas, and the tile holds data for it.
pub open spec fn tile_writes<D>(t: TileResult<D>, width: int, height: int, gx: int, gy: int) -> bool {
    &&& t.tile.contains_pixel(gx, gy)
    &&& 0 <= gx < width
    &&& 0 <= gy < height
    &&& (gy - t.tile.y) * t.tile.width + (gx - t.tile.x) < t.data@.len()
}

/// The value that tile `t` holds for canvas pixel `(gx, gy)`.
pub open spec fn tile_pixel<D>(t: TileResult<D>, gx: int, gy: int) -> D {
    t.data@[(gy - t.tile.y) * t.tile.width + (gx - t.tile.x)]
}

/// The value of canvas pixel `(gx, gy)` after placing `tiles` in order
/// over a buffer filled with `background`: the last tile that writes the
/// pixel wins.
pub open spec fn assembled_pixel<D>(
    tiles: Seq<TileResult<D>>,
    width: int,
    height: int,
    gx: int,
    gy: int,
    background: D,
) -> D
    decreases tiles.len(),
{
    if tiles.len() == 0 {
        background
    } else if tile_writes(tiles.last(), width, height, gx, gy) {
        tile_pixel(tiles.last(), gx, gy)
    } else {
        assembled_pixel(tiles.drop_last(), width, height, gx, gy, background)
    }
}

/// Where exactly one tile writes a pixel, the assembled pixel is that
/// tile's value whatever the order of the tiles; where no tile writes it,
/// the pixel keeps the background. So the arrival order of
/// non-overlapping tiles does not matter.
pub proof fn lemma_assembled_pixel_single_writer<D>(
    tiles: Seq<TileResult<D>>,
    width: int,
    height: int,
    gx: int,
    gy: int,
    background: D,
)
    ensures
        (forall|j: int| 0 <= j < tiles.len() ==> !tile_writes(#[trigger] tiles[j], width, height, gx, gy))
            ==> assembled_pixel(tiles, width, height, gx, gy, background) == background,
        forall|k: int| 0 <= k < tiles.len() && tile_writes(#[trigger] tiles[k], width, height, gx, gy)
            && (forall|j: int| 0 <= j < tiles.len() && j != k ==> !tile_writes(#[trigger] tiles[j], width, height, gx, gy))
            ==> assembled_pixel(tiles, width, height, gx, gy, background) == tile_pixel(tiles[k], gx, gy),
    decreases tiles.len(),
{
    if tiles.len() > 0 {
        let rest = tiles.drop_last();
        lemma_assembled_pixel_single_writer(rest, width, height, gx, gy, background);
        assert forall|j: int| 0 <= j < rest.len() implies #[trigger] rest[j] == tiles[j] by {}
        if forall|j: int| 0 <= j < tiles.len() ==> !tile_writes(#[trigger] tiles[j], width, height, gx, gy) {
            assert(!tile_writes(tiles[tiles.len() - 1], width, height, gx, gy));
        }
        assert forall|k: int| 0 <= k < tiles.len() && tile_writes(#[trigger] tiles[k], width, height, gx, gy)
            && (forall|j: int| 0 <= j < tiles.len() && j != k ==> !tile_writes(#[trigger] tiles[j], width, height, gx, gy))
            implies assembled_pixel(tiles, width, height, gx, gy, background) == tile_pixel(tiles[k], gx, gy) by {
            if k < tiles.len() - 1 {
                assert(!tile_writes(tiles[tiles.len() - 1], width, height, gx, gy));
                assert(rest[k] == tiles[k]);
                assert forall|j: int| 0 <= j < rest.len() && j != k implies !tile_writes(#[trigger] rest[j], width, height, gx, gy) by {
                    assert(rest[j] == tiles[j]);
                }
            }
        }
    }
}

/// `buffer` is the row-major `width`×`height` image that placing `tiles`
/// over `background` produces.
pub open spec fn is_assembly_of<D>(buffer: Seq<D>, tiles: Seq<TileResult<D>>, width: int, height: int, background: D) -> bool {
    &&& buffer.len() == width * height
    &&& forall|gx: int, gy: int| 0 <= gx < width && 0 <= gy < height ==>
        buffer[gy * width + gx] == #[trigger] assembled_pixel(tiles, width, height, gx, gy, background)
}

/// Pixel `(gx, gy)` while tile `t` is being copied row by row, with rows
/// before `ly` and the first `lx` pixels of row `ly` already copied.
pub open spec fn partially_placed<D>(
    old: Seq<D>,
    t: TileResult<D>,
    width: int,
    height: int,
    gx: int,
    gy: int,
    ly: int,
    lx: int,
) -> D {
    let local_x = gx - t.tile.x;
    let local_y = gy - t.tile.y;
    if tile_writes(t, width, height, gx, gy) && (local_y < ly || (local_y == ly && local_x < lx)) {
        tile_pixel(t, gx, gy)
    } else {
        old[gy * width + gx]
    }
}

/// Copy the pixels of tile `t` into the row-major `width`×`height` buffer.
fn place_tile<D: Copy>(buffer: &mut Vec<D>, t: &TileResult<D>, width: usize, height: usize)
    requires
        old(buffer)@.len() == width * height,
        width * height <= usize::MAX,
    ensures
        final(buffer)@.len() == width * height,
        forall|gx: int, gy: int| 0 <= gx < width && 0 <= gy < height ==>
            final(buffer)@[gy * width + gx] == #[trigger] partially_placed(old(buffer)@, *t, width as int, height as int, gx, gy, t.tile.height as int, 0),
{
    let ghost w = width as int;
    let ghost h = height as int;
    let ghost start = buffer@;
    let tx = t.tile.x as u64;
    let ty = t.tile.y as u64;
    let tw = t.tile.width as u64;
    let th = t.tile.height as u64;
    let mut ly: u64 = 0;
    while ly < th && ty + ly < height as u64
        invariant
            buffer@.len() == w * h,
            w == width, h == height,
            w * h <= usize::MAX,
            start.len() == w * h,
            tx == t.tile.x, ty == t.tile.y, tw == t.tile.width, th == t.tile.height,
            ly <= th,
            forall|gx: int, gy: int| 0 <= gx < w && 0 <= gy < h ==>
                buffer@[gy * w + gx] == #[trigger] partially_placed(start, *t, w, h, gx, gy, ly as int, 0),
        decreases th - ly,
    {
        let gy = ty + ly;
        let mut lx: u64 = 0;
        while lx < tw && tx + lx < width as u64
            invariant
                buffer@.len() == w * h,
                w == width, h == height,
                w * h <= usize::MAX,
                start.len() == w * h,
                tx == t.tile.x, ty == t.tile.y, tw == t.tile.width, th == t.tile.height,
                ly < th,
                gy == ty + ly,
                gy < h,
                lx <= tw,
                forall|gx: int, gy2: int| 0 <= gx < w && 0 <= gy2 < h ==>
                    buffer@[gy2 * w + gx] == #[trigger] partially_placed(start, *t, w, h, gx, gy2, ly as int, lx as int),
            decreases tw - lx,
        {
            let gx = tx + lx;
            proof {
                assert(ly * tw + lx < 0x1_0000_0000_0000_0000) by (nonlinear_arith)
                    requires ly < 0x1_0000_0000, tw <= 0x1_0000_0000, lx < tw;
            }
            let local_idx: u64 = ly * tw + lx;
            let ghost before = buffer@;
            if local_idx < t.data.len() as u64 {
                proof {
                    lemma_row_major_in_bounds(w, h, gx as int, gy as int);
                    assert((gy as int) * w <= gy * w + gx);
                }
                let global_idx: usize = (gy as usize) * width + (gx as usize);
                let v = t.data[local_idx as usize];
                buffer.set(global_idx, v);
                proof {
                    assert forall|px: int, py: int| 0 <= px < w && 0 <= py < h implies
                        buffer@[py * w + px] == #[trigger] partially_placed(start, *t, w, h, px, py, ly as int, lx + 1) by {
                        lemma_row_major_in_bounds(w, h, px, py);
                        if px == gx && py == gy {
                            assert(tile_writes(*t, w, h, px, py));
                        } else {
                            if py * w + px == gy * w + gx {
                                lemma_row_major_injective(w, px, py, gx as int, gy as int);
                            }
                            assert(partially_placed(start, *t, w, h, px, py, ly as int, lx as int) == before[py * w + px]);
                        }
                    }
                }
            } else {
                proof {
                    assert forall|px: int, py: int| 0 <= px < w && 0 <= py < h implies
                        buffer@[py * w + px] == #[trigger] partially_placed(start, *t, w, h, px, py, ly as int, lx + 1) by {
                        assert(partially_placed(start, *t, w, h, px, py, ly as int, lx as int) == before[py * w + px]);
                    }
                }
            }
            lx = lx + 1;
        }
        proof {
            assert forall|px: int, py: int| 0 <= px < w && 0 <= py < h implies
                buffer@[py * w + px] == #[trigger] partially_placed(start, *t, w, h, px, py, ly + 1, 0) by {
                assert(partially_placed(start, *t, w, h, px, py, ly as int, lx as int) == buffer@[py * w + px]);
            }
        }
        ly = ly + 1;
    }
    proof {
        assert forall|px: int, py: int| 0 <= px < w && 0 <= py < h implies
            buffer@[py * w + px] == #[trigger] partially_placed(start, *t, w, h, px, py, th as int, 0) by {
            assert(partially_placed(start, *t, w, h, px, py, ly as int, 0) == buffer@[py * w + px]);
        }
    }
}

/// Place tile results into one row-major `width`×`height` buffer. Pixels
/// that no tile covers keep `background`; where tiles overlap, the later
/// tile wins. Tile pixels outside the canvas, or beyond the tile's data,
/// are skipped.
pub fn assemble_tiles_with_background<D: Copy>(
    tiles: &[TileResult<D>],
    width: usize,
    height: usize,
    background: D,
) -> (buffer: Vec<D>)
    requires
        width * height <= usize::MAX,
    ensures
        is_assembly_of(buffer@, tiles@, width as int, height as int, background),
{
    let ghost w = width as int;
    let ghost h = height as int;
    let n: usize = width * height;
    let mut buffer: Vec<D> = Vec::new();
    let mut i: usize = 0;
    while i < n
        invariant
            n == w * h,
            i <= n,
            buffer@.len() == i,
            forall|k: int| 0 <= k < i ==> buffer@[k] == background,
        decreases n - i,
    {
        buffer.push(background);
        i = i + 1;
    }
    proof {
        assert forall|gx: int, gy: int| 0 <= gx < w && 0 <= gy < h implies
            buffer@[gy * w + gx] == #[trigger] assembled_pixel(tiles@.take(0), w, h, gx, gy, background) by {
            lemma_row_major_in_bounds(w, h, gx, gy);
        }
    }
    let mut k: usize = 0;
    while k < tiles.len()
        invariant
            w == width, h == height,
            buffer@.len() == w * h,
            w * h <= usize::MAX,
            k <= tiles@.len(),
            forall|gx: int, gy: int| 0 <= gx < w && 0 <= gy < h ==>
                buffer@[gy * w + gx] == #[trigger] assembled_pixel(tiles@.take(k as int), w, h, gx, gy, background),
        decreases tiles@.len() - k,
    {
        let ghost before = buffer@;
        place_tile(&mut buffer, &tiles[k], width, height);
        proof {
            assert forall|gx: int, gy: int| 0 <= gx < w && 0 <= gy < h implies
                buffer@[gy * w + gx] == #[trigger] assembled_pixel(tiles@.take(k + 1), w, h, gx, gy, background) by {
                let pre = tiles@.take(k + 1);
                assert(pre.last() == tiles@[k as int]);
                assert(pre.drop_last() =~= tiles@.take(k as int));
                assert(partially_placed(before, tiles@[k as int], w, h, gx, gy, tiles@[k as int].tile.height as int, 0)
                    == buffer@[gy * w + gx]);
                assert(assembled_pixel(tiles@.take(k as int), w, h, gx, gy, background) == before[gy * w + gx]);
            }
        }
        k = k + 1;
    }
    proof {
        assert(tiles@.take(tiles@.len() as int) =~= tiles@);
    }
    buffer
}

/// The interior (never escaped, zero-iteration) pixel that fills a
/// buffer before any tile arrives.
pub open spec fn interior_pixel<E, T>(extra: E) -> ComputeData<E, T> {
    ComputeData::Mandelbrot(MandelbrotData { iterations: 0, max_iterations: 0, escaped: false, glitched: false, extra })
}

/// Assemble tile results into a single full-image buffer. Tiles may arrive
/// out of order; each tile's data is placed at its position, later tiles
/// overwriting earlier ones. Uncovered pixels are interior pixels whose
/// escape-state values are `E::default()`.
pub fn assemble_tiles_to_buffer<E: Copy + Default, T: Copy>(
    tiles: &[TileResult<ComputeData<E, T>>],
    width: usize,
    height: usize,
) -> (buffer: Vec<ComputeData<E, T>>)
    requires
        width * height <= usize::MAX,
    ensures
        buffer@.len() == width * height,
        exists|extra: E| call_ensures(E::default, (), extra)
            && #[trigger] is_assembly_of(buffer@, tiles@, width as int, height as int, interior_pixel(extra)),
{
    let extra = E::default();
    let background = ComputeData::Mandelbrot(
        MandelbrotData { iterations: 0, max_iterations: 0, escaped: false, glitched: false, extra },
    );
    let buffer = assemble_tiles_with_background(tiles, width, height, background);
    proof {
        assert(background == interior_pixel::<E, T>(extra));
    }
    buffer
}

/// Row `row` belongs to row-set `index` of `count` row-sets (the rows
/// `index`, `index + count`, `index + 2 * count`, ...).
pub open spec fn in_row_set(row: int, index: int, count: int) -> bool {
    row >= index && (row - index) % count == 0
}

/// Position in a row-set's data of pixel `(col, row)`: the row-set holds
/// its rows one after another, top to bottom.
pub open spec fn row_set_data_index(col: int, row: int, width: int, index: int, count: int) -> int {
    ((row - index) / count) * width + col
}

/// Pixel `(col, row)` of a buffer after merging a row-set's data into it:
/// rows of the set take the row-set's data where it has some, every other
/// pixel keeps its old value.
pub open spec fn row_set_merged<D>(
    old: Seq<D>,
    data: Seq<D>,
    width: int,
    index: int,
    count: int,
    col: int,
    row: int,
) -> D {
    if in_row_set(row, index, count) && row_set_data_index(col, row, width, index, count) < data.len() {
        data[row_set_data_index(col, row, width, index, count)]
    } else {
        old[row * width + col]
    }
}

/// Every row belongs to exactly one of the row-sets `0..count`: the one
/// whose index is the row's remainder modulo `count`.
pub proof fn lemma_row_sets_partition_rows(row: nat, count: nat, index: nat)
    requires
        count > 0,
        index < count,
    ensures
        in_row_set(row as int, index as int, count as int) <==> index == row % count,
{
    vstd::arithmetic::div_mod::lemma_fundamental_div_mod(row as int, count as int);
    if in_row_set(row as int, index as int, count as int) {
        let q = (row - index) / (count as int);
        vstd::arithmetic::div_mod::lemma_fundamental_div_mod(row - index, count as int);
        vstd::arithmetic::div_mod::lemma_fundamental_div_mod_converse(row as int, count as int, q, index as int);
    } else if index == row % count {
        let q = row as int / count as int;
        vstd::arithmetic::div_mod::lemma_mod_multiples_basic(q, count as int);
        assert(row - index == q * count) by (nonlinear_arith)
            requires
                row == count * q + row % count,
                index == row % count,
        ;
    }
}

/// Copy the data of GPU row-set `row_set_index` (of `row_set_count`
/// row-sets, a venetian-blind pattern) into the row-major full-image
/// buffer: the set's rows in order, `width` pixels each. Pixels beyond the
/// row-set's data or the buffer are skipped.
pub fn merge_row_set<D: Copy>(
    buffer: &mut Vec<D>,
    row_data: &[D],
    width: u32,
    height: u32,
    row_set_index: u32,
    row_set_count: u32,
)
    requires
        row_set_count > 0,
        width * height <= u32::MAX,
        height + row_set_index <= u32::MAX,
    ensures
        final(buffer)@.len() == old(buffer)@.len(),
        forall|col: int, row: int| 0 <= col < width && 0 <= row < height && row * width + col < old(buffer)@.len() ==>
            final(buffer)@[row * width + col] == #[trigger] row_set_merged(
                old(buffer)@, row_data@, width as int, row_set_index as int, row_set_count as int, col, row),
        forall|i: int| width * height <= i < old(buffer)@.len() ==> #[trigger] final(buffer)@[i] == old(buffer)@[i],
{
    let ghost w = width as int;
    let ghost h = height as int;
    let ghost idx = row_set_index as int;
    let ghost c = row_set_count as int;
    let ghost start = buffer@;
    let count = row_set_count as u64;
    let rows_per_set: u64 = ((height as u64) + count - 1) / count;
    proof {
        vstd::arithmetic::div_mod::lemma_fundamental_div_mod((height as u64 + count - 1) as int, c);
        vstd::arithmetic::div_mod::lemma_mod_bound((height as u64 + count - 1) as int, c);
        assert(rows_per_set * c >= h) by (nonlinear_arith)
            requires
                (h + c - 1) == c * rows_per_set + (h + c - 1) % c,
                (h + c - 1) % c < c,
        ;
    }
    let n_data = row_data.len();
    let n_buf = buffer.len();
    let mut local_row: u64 = 0;
    let mut data_idx: u64 = 0;
    while local_row < rows_per_set && local_row * count + (row_set_index as u64) < height as u64
        invariant
            w == width, h == height, idx == row_set_index, c == row_set_count, c > 0,
            count == c,
            w * h <= u32::MAX,
            h + idx <= u32::MAX,
            rows_per_set * c >= h,
            n_data == row_data@.len(),
            n_buf == start.len(),
            buffer@.len() == start.len(),
            local_row <= rows_per_set,
            local_row * c <= h + c,
            data_idx == local_row * w,
            forall|col: int, row: int| 0 <= col < w && 0 <= row < h && row * w + col < start.len() ==>
                buffer@[row * w + col] == #[trigger] row_set_merged_upto(start, row_data@, w, idx, c, col, row, local_row as int, 0),
            forall|i: int| w * h <= i < start.len() ==> #[trigger] buffer@[i] == start[i],
        decreases rows_per_set - local_row,
    {
        let global_row: u64 = local_row * count + (row_set_index as u64);
        proof {
            vstd::arithmetic::div_mod::lemma_div_multiples_vanish(local_row as int, c);
            vstd::arithmetic::div_mod::lemma_mod_multiples_basic(local_row as int, c);
            assert((global_row - idx) / c == local_row as int);
            assert((global_row - idx) % c == 0);
        }
        let mut col: u64 = 0;
        while col < width as u64
            invariant
                w == width, h == height, idx == row_set_index, c == row_set_count, c > 0,
                count == c,
                w * h <= u32::MAX,
                h + idx <= u32::MAX,
                rows_per_set * c >= h,
                n_data == row_data@.len(),
                n_buf == start.len(),
                buffer@.len() == start.len(),
                local_row < rows_per_set,
                global_row == local_row * c + idx,
                global_row < h,
                (global_row - idx) / c == local_row as int,
                (global_row - idx) % c == 0,
                col <= w,
                data_idx == local_row * w + col,
                forall|col2: int, row: int| 0 <= col2 < w && 0 <= row < h && row * w + col2 < start.len() ==>
                    buffer@[row * w + col2] == #[trigger] row_set_merged_upto(start, row_data@, w, idx, c, col2, row, local_row as int, col as int),
                forall|i: int| w * h <= i < start.len() ==> #[trigger] buffer@[i] == start[i],
            decreases w - col,
        {
            proof {
                lemma_row_major_in_bounds(w, h, col as int, global_row as int);
                assert(data_idx <= w * h) by (nonlinear_arith)
                    requires
                        data_idx == local_row * w + col,
                        local_row * c + idx < h,
                        c > 0,
                        col < w,
                        w >= 0,
                        local_row >= 0,
                        idx >= 0,
                ;
            }
            let image_idx: u64 = global_row * (width as u64) + col;
            let ghost before = buffer@;
            if data_idx < n_data as u64 && image_idx < n_buf as u64 {
                buffer.set(image_idx as usize, row_data[data_idx as usize]);
            }
            proof {
                assert forall|col2: int, row: int| 0 <= col2 < w && 0 <= row < h && row * w + col2 < start.len() implies
                    buffer@[row * w + col2] == #[trigger] row_set_merged_upto(start, row_data@, w, idx, c, col2, row, local_row as int, col + 1) by {
                    lemma_row_major_in_bounds(w, h, col2, row);
                    if row * w + col2 == image_idx {
                        lemma_row_major_injective(w, col2, row, col as int, global_row as int);
                    }
                    if col2 == col && row == global_row {
                        assert(row_set_data_index(col2, row, w, idx, c) == data_idx);
                        assert(row * w + col2 == image_idx);
                        assert(in_row_set(row, idx, c));
                        if data_idx < n_data {
                            assert(buffer@[row * w + col2] == row_data@[data_idx as int]);
                        } else {
                            assert(buffer@[row * w + col2] == before[row * w + col2]);
                            assert(row_set_merged_upto(start, row_data@, w, idx, c, col2, row, local_row as int, col as int)
                                == before[row * w + col2]);
                        }
                    } else {
                        if in_row_set(row, idx, c) && (row - idx) / c == local_row && col2 == col {
                            vstd::arithmetic::div_mod::lemma_fundamental_div_mod(row - idx, c);
                            assert(row - idx == local_row * c) by (nonlinear_arith)
                                requires
                                    row - idx == c * ((row - idx) / c) + (row - idx) % c,
                                    (row - idx) % c == 0,
                                    (row - idx) / c == local_row,
                            ;
                        }
                        assert(row_set_merged_upto(start, row_data@, w, idx, c, col2, row, local_row as int, col as int) == before[row * w + col2]);
                    }
                }
            }
            col = col + 1;
            data_idx = data_idx + 1;
        }
        proof {
            assert(local_row * c + c <= h + c) by (nonlinear_arith)
                requires local_row * c + idx < h, idx >= 0;
            assert((local_row + 1) * c == local_row * c + c) by (nonlinear_arith);
            assert(data_idx == (local_row + 1) * w) by (nonlinear_arith)
                requires data_idx == local_row * w + w;
            assert forall|col2: int, row: int| 0 <= col2 < w && 0 <= row < h && row * w + col2 < start.len() implies
                buffer@[row * w + col2] == #[trigger] row_set_merged_upto(start, row_data@, w, idx, c, col2, row, local_row + 1, 0) by {
                assert(row_set_merged_upto(start, row_data@, w, idx, c, col2, row, local_row as int, col as int) == buffer@[row * w + col2]);
            }
        }
        local_row = local_row + 1;
    }
    proof {
        assert(local_row * c + idx >= h) by (nonlinear_arith)
            requires
                local_row == rows_per_set || local_row * c + idx >= h,
                rows_per_set * c >= h,
                idx >= 0,
        ;
        assert forall|col: int, row: int| 0 <= col < w && 0 <= row < h && row * w + col < start.len() implies
            buffer@[row * w + col] == #[trigger] row_set_merged(start, row_data@, w, idx, c, col, row) by {
            assert(buffer@[row * w + col] == row_set_merged_upto(start, row_data@, w, idx, c, col, row, local_row as int, 0));
            if in_row_set(row, idx, c) {
                vstd::arithmetic::div_mod::lemma_fundamental_div_mod(row - idx, c);
                let q = (row - idx) / c;
                assert(q < local_row) by (nonlinear_arith)
                    requires
                        row - idx == c * q + (row - idx) % c,
                        (row - idx) % c == 0,
                        row < h,
                        local_row * c + idx >= h,
                        c > 0,
                ;
            }
        }
    }
}

/// Pixel `(col, row)` while a row-set is being merged, with the set's
/// rows before `upto_row` and the first `upto_col` pixels of row
/// `upto_row` already copied.
pub open spec fn row_set_merged_upto<D>(
    old: Seq<D>,
    data: Seq<D>,
    width: int,
    index: int,
    count: int,
    col: int,
    row: int,
    upto_row: int,
    upto_col: int,
) -> D {
    let q = (row - index) / count;
    if in_row_set(row, index, count) && (q < upto_row || (q == upto_row && col < upto_col)) {
        row_set_merged(old, data, width, index, count, col, row)
    } else {
        old[row * width + col]
    }
}

} // verus!
