//! Tiling of the canvas for progressive rendering, ordered center-out.

use vstd::prelude::*;
use crate::pixel::PixelRect;
use crate::arith::{lemma_close_multiples_equal, lemma_multiple_plus, lemma_round_down_multiple};

verus! {

pub open spec fn min_int(a: int, b: int) -> int {
    if a < b { a } else { b }
}

/// `t` is one cell of the grid that cuts a `width`×`height` canvas into
/// `tile_size` squares, the cells in the last column and row clipped to
/// the canvas.
pub open spec fn is_grid_tile(t: PixelRect, width: u32, height: u32, tile_size: u32) -> bool {
    &&& t.x as int % tile_size as int == 0
    &&& t.x < width
    &&& t.y as int % tile_size as int == 0
    &&& t.y < height
    &&& t.width == min_int(tile_size as int, width - t.x)
    &&& t.height == min_int(tile_size as int, height - t.y)
}

/// Four times the squared distance from the tile's center to the canvas
/// center (exact in integers).
pub open spec fn center_distance_key(t: PixelRect, width: u32, height: u32) -> int {
    let dx = 2 * t.x + t.width - width;
    let dy = 2 * t.y + t.height - height;
    dx * dx + dy * dy
}

/// `a` comes before `b` in center-out order: nearer the center first, and
/// among equally distant tiles in row-major grid order.
pub open spec fn tile_before(a: PixelRect, b: PixelRect, width: u32, height: u32) -> bool {
    let ka = center_distance_key(a, width, height);
    let kb = center_distance_key(b, width, height);
    ||| ka < kb
    ||| ka == kb && a.y < b.y
    ||| ka == kb && a.y == b.y && a.x < b.x
}

/// Every tile of `s` strictly precedes every later tile in center-out order.
pub open spec fn center_out_sorted(s: Seq<PixelRect>, width: u32, height: u32) -> bool {
    forall|i: int, j: int| 0 <= i < j < s.len() ==> #[trigger] tile_before(s[i], s[j], width, height)
}

/// `(a.y, a.x)` comes before `(y, x)` in row-major order.
pub open spec fn row_major_before(a: PixelRect, y: int, x: int) -> bool {
    a.y < y || (a.y == y && a.x < x)
}

proof fn lemma_seq_insert_contains(s: Seq<PixelRect>, p: int, t: PixelRect)
    requires
        0 <= p <= s.len(),
    ensures
        forall|u: PixelRect| #[trigger] s.insert(p, t).contains(u) <==> (s.contains(u) || u == t),
{
    let r = s.insert(p, t);
    assert forall|u: PixelRect| r.contains(u) <==> (s.contains(u) || u == t) by {
        if r.contains(u) {
            let k = choose|k: int| 0 <= k < r.len() && r[k] == u;
            if k < p {
                assert(s[k] == u);
            } else if k > p {
                assert(s[k - 1] == u);
            }
        }
        if s.contains(u) {
            let k = choose|k: int| 0 <= k < s.len() && s[k] == u;
            if k < p {
                assert(r[k] == u);
            } else {
                assert(r[k + 1] == u);
            }
        }
        if u == t {
            assert(r[p] == u);
        }
    }
}

/// `dx * dx` for a coordinate difference, computed without overflow.
fn square_i128(d: i128) -> (r: i128)
    requires
        -0x4_0000_0000 <= d <= 0x4_0000_0000,
    ensures
        r == d * d,
{
    proof {
        let a: int = if d < 0 { -d } else { d as int };
        vstd::arithmetic::mul::lemma_mul_upper_bound(a, 0x4_0000_0000, a, 0x4_0000_0000);
        assert(d * d == a * a) by (nonlinear_arith)
            requires a == d || a == -d;
        assert(a * a >= 0) by (nonlinear_arith);
    }
    d * d
}

/// The center-out ordering key of `t`.
pub fn center_distance(t: PixelRect, width: u32, height: u32) -> (r: i128)
    ensures
        r == center_distance_key(t, width, height),
{
    let dx: i128 = 2 * (t.x as i128) + (t.width as i128) - (width as i128);
    let dy: i128 = 2 * (t.y as i128) + (t.height as i128) - (height as i128);
    let sx = square_i128(dx);
    let sy = square_i128(dy);
    proof {
        assert(0 <= sx <= 0x10_0000_0000_0000_0000) by (nonlinear_arith)
            requires sx == dx * dx, -0x4_0000_0000 <= dx <= 0x4_0000_0000;
        assert(0 <= sy <= 0x10_0000_0000_0000_0000) by (nonlinear_arith)
            requires sy == dy * dy, -0x4_0000_0000 <= dy <= 0x4_0000_0000;
    }
    sx + sy
}

/// Whether `a` comes before `b` in center-out order.
pub fn is_tile_before(a: PixelRect, b: PixelRect, width: u32, height: u32) -> (r: bool)
    ensures
        r == tile_before(a, b, width, height),
{
    let ka = center_distance(a, width, height);
    let kb = center_distance(b, width, height);
    ka < kb || (ka == kb && a.y < b.y) || (ka == kb && a.y == b.y && a.x < b.x)
}

/// Insert `t` into a center-out sorted list of tiles, keeping it sorted.
fn insert_center_out(tiles: &mut Vec<PixelRect>, t: PixelRect, width: u32, height: u32) -> (p: usize)
    requires
        center_out_sorted(old(tiles)@, width, height),
        forall|i: int| 0 <= i < old(tiles)@.len() ==> (#[trigger] old(tiles)@[i]).x != t.x || old(tiles)@[i].y != t.y,
    ensures
        p <= old(tiles)@.len(),
        final(tiles)@ == old(tiles)@.insert(p as int, t),
        center_out_sorted(final(tiles)@, width, height),
{
    let n = tiles.len();
    let mut p: usize = 0;
    while p < n && !is_tile_before(t, tiles[p], width, height)
        invariant
            n == tiles@.len(),
            p <= n,
            center_out_sorted(tiles@, width, height),
            forall|i: int| 0 <= i < n ==> (#[trigger] tiles@[i]).x != t.x || tiles@[i].y != t.y,
            forall|i: int| 0 <= i < p ==> tile_before(#[trigger] tiles@[i], t, width, height),
        decreases n - p,
    {
        proof {
            let q = p as int;
            assert(tiles@[q].x != t.x || tiles@[q].y != t.y);
        }
        p = p + 1;
    }
    let ghost before = tiles@;
    proof {
        if p < n {
            assert forall|j: int| p <= j < n implies tile_before(t, #[trigger] before[j], width, height) by {
                if j > p {
                    assert(tile_before(before[p as int], before[j], width, height));
                }
            }
        }
    }
    tiles.insert(p, t);
    proof {
        let s = tiles@;
        assert forall|i: int, j: int| 0 <= i < j < s.len() implies #[trigger] tile_before(s[i], s[j], width, height) by {
            let q = p as int;
            if j < q {
                assert(s[i] == before[i] && s[j] == before[j]);
            } else if j == q {
                assert(s[i] == before[i]);
            } else if i < q {
                assert(s[i] == before[i] && s[j] == before[j - 1]);
                assert(tile_before(before[i], t, width, height));
                assert(tile_before(t, before[j - 1], width, height));
            } else if i == q {
                assert(s[j] == before[j - 1]);
            } else {
                assert(s[i] == before[i - 1] && s[j] == before[j - 1]);
            }
        }
    }
    p
}

/// Tiles covering a `width`×`height` canvas, each at most
/// `tile_size`×`tile_size`, sorted center-out (nearest the canvas center
/// first; equally distant tiles in row-major order).
pub fn generate_tiles(width: u32, height: u32, tile_size: u32) -> (tiles: Vec<PixelRect>)
    requires
        tile_size > 0,
    ensures
        forall|i: int| 0 <= i < tiles@.len() ==> is_grid_tile(#[trigger] tiles@[i], width, height, tile_size),
        forall|t: PixelRect| is_grid_tile(t, width, height, tile_size) ==> #[trigger] tiles@.contains(t),
        center_out_sorted(tiles@, width, height),
{
    let mut tiles: Vec<PixelRect> = Vec::new();
    let ts: u64 = tile_size as u64;
    let mut y: u64 = 0;
    while y < height as u64
        invariant
            ts == tile_size as u64,
            tile_size > 0,
            y as int % ts as int == 0,
            y <= height as u64 + ts,
            center_out_sorted(tiles@, width, height),
            forall|i: int| 0 <= i < tiles@.len() ==> is_grid_tile(#[trigger] tiles@[i], width, height, tile_size),
            forall|i: int| 0 <= i < tiles@.len() ==> (#[trigger] tiles@[i]).y < y,
            forall|t: PixelRect| is_grid_tile(t, width, height, tile_size) && t.y < y ==> #[trigger] tiles@.contains(t),
        decreases height as u64 + ts - y,
    {
        let mut x: u64 = 0;
        while x < width as u64
            invariant
                ts == tile_size as u64,
                tile_size > 0,
                y < height,
                y as int % ts as int == 0,
                x as int % ts as int == 0,
                x <= width as u64 + ts,
                center_out_sorted(tiles@, width, height),
                forall|i: int| 0 <= i < tiles@.len() ==> is_grid_tile(#[trigger] tiles@[i], width, height, tile_size),
                forall|i: int| 0 <= i < tiles@.len() ==> row_major_before(#[trigger] tiles@[i], y as int, x as int),
                forall|t: PixelRect| is_grid_tile(t, width, height, tile_size) && row_major_before(t, y as int, x as int)
                    ==> #[trigger] tiles@.contains(t),
            decreases width as u64 + ts - x,
        {
            let w: u64 = if ts < width as u64 - x { ts } else { width as u64 - x };
            let h: u64 = if ts < height as u64 - y { ts } else { height as u64 - y };
            let t = PixelRect::new(x as u32, y as u32, w as u32, h as u32);
            let ghost before = tiles@;
            let p = insert_center_out(&mut tiles, t, width, height);
            proof {
                lemma_seq_insert_contains(before, p as int, t);
                lemma_multiple_plus(x as int, ts as int);
                let s = tiles@;
                assert forall|i: int| 0 <= i < s.len() implies is_grid_tile(#[trigger] s[i], width, height, tile_size)
                    && row_major_before(s[i], y as int, x + ts) by {
                    if i < p {
                        assert(s[i] == before[i]);
                    } else if i > p {
                        assert(s[i] == before[i - 1]);
                    }
                }
                assert forall|u: PixelRect| is_grid_tile(u, width, height, tile_size)
                    && row_major_before(u, y as int, x + ts) implies #[trigger] s.contains(u) by {
                    if u.y == y && u.x >= x {
                        lemma_close_multiples_equal(u.x as int, x as int, ts as int);
                        assert(u == t);
                    } else {
                        assert(before.contains(u));
                    }
                }
            }
            x = x + ts;
        }
        proof {
            lemma_multiple_plus(y as int, ts as int);
            assert forall|u: PixelRect| is_grid_tile(u, width, height, tile_size) && u.y < y + ts
                implies #[trigger] tiles@.contains(u) by {
                if u.y >= y {
                    lemma_close_multiples_equal(u.y as int, y as int, ts as int);
                    assert(row_major_before(u, y as int, x as int));
                }
            }
            assert forall|i: int| 0 <= i < tiles@.len() implies (#[trigger] tiles@[i]).y < y + ts by {
                assert(row_major_before(tiles@[i], y as int, x as int));
            }
        }
        y = y + ts;
    }
    tiles
}

/// Some tile of `tiles` contains pixel `(px, py)`.
pub open spec fn pixel_covered(tiles: Seq<PixelRect>, px: int, py: int) -> bool {
    exists|i: int| 0 <= i < tiles.len() && (#[trigger] tiles[i].contains_pixel(px, py))
}

/// Center-out tiling partitions the canvas: every tile lies inside the
/// canvas, and every canvas pixel lies in exactly one tile.
pub proof fn lemma_tiles_partition_canvas(
    tiles: Seq<PixelRect>,
    width: u32,
    height: u32,
    tile_size: u32,
)
    requires
        tile_size > 0,
        forall|i: int| 0 <= i < tiles.len() ==> is_grid_tile(#[trigger] tiles[i], width, height, tile_size),
        forall|t: PixelRect| is_grid_tile(t, width, height, tile_size) ==> #[trigger] tiles.contains(t),
        center_out_sorted(tiles, width, height),
    ensures
        forall|i: int| 0 <= i < tiles.len() ==>
            (#[trigger] tiles[i]).x + tiles[i].width <= width && tiles[i].y + tiles[i].height <= height
            && tiles[i].width > 0 && tiles[i].height > 0,
        forall|px: int, py: int| 0 <= px < width && 0 <= py < height ==> #[trigger] pixel_covered(tiles, px, py),
        forall|px: int, py: int, i: int, j: int|
            0 <= i < tiles.len() && 0 <= j < tiles.len()
            && #[trigger] tiles[i].contains_pixel(px, py) && #[trigger] tiles[j].contains_pixel(px, py) ==> i == j,
{
    let ts = tile_size as int;
    assert forall|px: int, py: int| 0 <= px < width && 0 <= py < height implies
        #[trigger] pixel_covered(tiles, px, py) by {
        lemma_round_down_multiple(px, ts);
        lemma_round_down_multiple(py, ts);
        let x0 = px - px % ts;
        let y0 = py - py % ts;
        assert(0 <= x0 <= px && 0 <= y0 <= py);
        let t = PixelRect {
            x: x0 as u32,
            y: y0 as u32,
            width: min_int(ts, width - x0) as u32,
            height: min_int(ts, height - y0) as u32,
        };
        assert(is_grid_tile(t, width, height, tile_size));
        assert(tiles.contains(t));
        let k = choose|k: int| 0 <= k < tiles.len() && tiles[k] == t;
        assert(tiles[k].contains_pixel(px, py));
    }
    assert forall|px: int, py: int, i: int, j: int|
        0 <= i < tiles.len() && 0 <= j < tiles.len()
        && #[trigger] tiles[i].contains_pixel(px, py) && #[trigger] tiles[j].contains_pixel(px, py) implies i == j by {
        let a = tiles[i];
        let b = tiles[j];
        assert(is_grid_tile(a, width, height, tile_size));
        assert(is_grid_tile(b, width, height, tile_size));
        if a.x <= b.x {
            lemma_close_multiples_equal(b.x as int, a.x as int, ts);
        } else {
            lemma_close_multiples_equal(a.x as int, b.x as int, ts);
        }
        if a.y <= b.y {
            lemma_close_multiples_equal(b.y as int, a.y as int, ts);
        } else {
            lemma_close_multiples_equal(a.y as int, b.y as int, ts);
        }
        assert(a == b);
        if i < j {
            assert(tile_before(tiles[i], tiles[j], width, height));
        } else if j < i {
            assert(tile_before(tiles[j], tiles[i], width, height));
        }
    }
}

/// Center-out order is order by distance to the canvas center
/// `(width / 2, height / 2)`: the key of a tile is
/// `(2x + w - width)² + (2y + h - height)²`, four times the squared distance
/// from its center to the canvas center, and along a center-out sorted
/// sequence (such as the result of `generate_tiles`) that distance never
/// decreases.
pub proof fn lemma_center_out_is_nearest_center_first(s: Seq<PixelRect>, width: u32, height: u32)
    requires
        center_out_sorted(s, width, height),
    ensures
        forall|t: PixelRect| #[trigger] center_distance_key(t, width, height)
            == (2 * t.x + t.width - width) * (2 * t.x + t.width - width)
             + (2 * t.y + t.height - height) * (2 * t.y + t.height - height),
        forall|i: int, j: int| 0 <= i < j < s.len() ==>
            (2 * s[i].x + s[i].width - width) * (2 * s[i].x + s[i].width - width)
                + (2 * s[i].y + s[i].height - height) * (2 * s[i].y + s[i].height - height)
            <= (2 * s[j].x + s[j].width - width) * (2 * s[j].x + s[j].width - width)
                + (2 * s[j].y + s[j].height - height) * (2 * s[j].y + s[j].height - height),
{
    assert forall|i: int, j: int| 0 <= i < j < s.len() implies
        (2 * s[i].x + s[i].width - width) * (2 * s[i].x + s[i].width - width)
            + (2 * s[i].y + s[i].height - height) * (2 * s[i].y + s[i].height - height)
        <= (2 * s[j].x + s[j].width - width) * (2 * s[j].x + s[j].width - width)
            + (2 * s[j].y + s[j].height - height) * (2 * s[j].y + s[j].height - height) by {
        assert(tile_before(s[i], s[j], width, height));
    }
}

} // verus!
