//! Adam7 interlaced progressive rendering: the seven passes and the
//! accumulator that merges each pass's pixels into one image.

use vstd::prelude::*;
use crate::pixel::{ComputeData, MandelbrotData};

verus! {

/// Iteration count that marks a pixel as not computed in the current pass.
pub const SENTINEL_NOT_COMPUTED: u32 = 0xFFFF_FFFF;

/// An Adam7 progressive rendering step: 1 to 7 are the interlacing passes,
/// 0 means "compute all pixels" (no interlacing).
#[derive(Clone, Copy, Debug, PartialEq, Eq, Structural)]
pub struct Adam7Pass(u8);

impl View for Adam7Pass {
    type V = u8;

    closed spec fn view(&self) -> u8 {
        self.0
    }
}

/// A pass is its step: two passes are equal exactly when their steps are.
pub proof fn lemma_pass_is_its_step(a: Adam7Pass, b: Adam7Pass)
    ensures
        (a@ == b@) <==> (a == b),
{
}

impl Adam7Pass {
    #[verifier::type_invariant]
    spec fn step_in_range(self) -> bool {
        self.0 <= 7
    }

    /// The pass with the given step, which must be 0 to 7.
    pub fn new(step: u8) -> (r: Self)
        requires
            step <= 7,
        ensures
            r@ == step,
    {
        Adam7Pass(step)
    }

    /// The pass that computes all pixels (step 0).
    pub fn all_pixels() -> (r: Self)
        ensures
            r@ == 0,
    {
        Adam7Pass(0)
    }

    /// The seven interlacing passes, in order.
    pub fn all() -> (r: [Adam7Pass; 7])
        ensures
            forall|i: int| 0 <= i < 7 ==> (#[trigger] r@[i])@ == i + 1,
    {
        [Adam7Pass(1), Adam7Pass(2), Adam7Pass(3), Adam7Pass(4), Adam7Pass(5), Adam7Pass(6), Adam7Pass(7)]
    }

    /// The step number (0 to 7).
    pub fn step(&self) -> (r: u8)
        ensures
            r == self@,
            r <= 7,
    {
        proof {
            use_type_invariant(self);
        }
        self.0
    }

    /// Whether this is the final pass (step 7).
    pub fn is_final(&self) -> (r: bool)
        ensures
            r == (self@ == 7),
    {
        self.0 == 7
    }

    /// Pixels computed in this pass, in sixty-fourths of the image.
    pub fn pass_sixty_fourths(&self) -> (r: u8)
        ensures
            r == pass_share(self@),
    {
        match self.0 {
            1 => 1,
            2 => 1,
            3 => 2,
            4 => 4,
            5 => 8,
            6 => 16,
            7 => 32,
            _ => 0,
        }
    }

    /// Pixels computed once this pass is done, in sixty-fourths of the image.
    pub fn cumulative_sixty_fourths(&self) -> (r: u8)
        ensures
            r == cumulative_share(self@),
    {
        match self.0 {
            1 => 1,
            2 => 2,
            3 => 4,
            4 => 8,
            5 => 16,
            6 => 32,
            7 => 64,
            _ => 0,
        }
    }
}

/// Share of the image that pass `step` computes, in sixty-fourths.
pub open spec fn pass_share(step: u8) -> u8 {
    if step == 1 { 1 }
    else if step == 2 { 1 }
    else if step == 3 { 2 }
    else if step == 4 { 4 }
    else if step == 5 { 8 }
    else if step == 6 { 16 }
    else if step == 7 { 32 }
    else { 0 }
}

/// Share of the image computed after pass `step`, in sixty-fourths.
pub open spec fn cumulative_share(step: u8) -> u8 {
    if step == 1 { 1 }
    else if step == 2 { 2 }
    else if step == 3 { 4 }
    else if step == 4 { 8 }
    else if step == 5 { 16 }
    else if step == 6 { 32 }
    else if step == 7 { 64 }
    else { 0 }
}

/// Sum of the shares of passes `1..=k`.
pub open spec fn shares_up_to(k: nat) -> nat
    decreases k,
{
    if k == 0 { 0 } else { shares_up_to((k - 1) as nat) + pass_share(k as u8) as nat }
}

/// The cumulative share after pass `k` is the sum of the shares of passes
/// 1 to `k`; in particular the seven passes together cover the whole image.
pub proof fn lemma_cumulative_is_sum_of_passes(k: u8)
    requires
        1 <= k <= 7,
    ensures
        cumulative_share(k) == shares_up_to(k as nat),
        shares_up_to(7) == 64,
{
    reveal_with_fuel(shares_up_to, 8);
}

/// The pass of the Adam7 pattern that computes pixel `(x, y)`.
pub open spec fn adam7_pass_of(x: u32, y: u32) -> u8 {
    if x % 8 == 0 && y % 8 == 0 { 1 }
    else if x % 8 == 4 && y % 8 == 0 { 2 }
    else if x % 4 == 0 && y % 8 == 4 { 3 }
    else if x % 4 == 2 && y % 4 == 0 { 4 }
    else if x % 2 == 0 && y % 4 == 2 { 5 }
    else if x % 2 != 0 && y % 2 == 0 { 6 }
    else if y % 2 != 0 { 7 }
    else { 0 }
}

/// Which Adam7 pass computes pixel `(x, y)`.
pub fn expected_adam7_pass(x: u32, y: u32) -> (r: u8)
    ensures
        r == adam7_pass_of(x, y),
{
    if x % 8 == 0 && y % 8 == 0 {
        1
    } else if x % 8 == 4 && y % 8 == 0 {
        2
    } else if x % 4 == 0 && y % 8 == 4 {
        3
    } else if x % 4 == 2 && y % 4 == 0 {
        4
    } else if x % 2 == 0 && y % 4 == 2 {
        5
    } else if x % 2 != 0 && y % 2 == 0 {
        6
    } else if y % 2 != 0 {
        7
    } else {
        0
    }
}

/// Every pixel belongs to one of the seven passes: the pattern never
/// leaves a pixel unassigned.
pub proof fn lemma_every_pixel_has_a_pass(x: u32, y: u32)
    ensures
        1 <= adam7_pass_of(x, y) <= 7,
{
    assert(x % 8 == (x % 8) % 8 && x % 4 == (x % 8) % 4 && x % 2 == (x % 8) % 2) by (bit_vector);
    assert(y % 8 == (y % 8) % 8 && y % 4 == (y % 8) % 4 && y % 2 == (y % 8) % 2) by (bit_vector);
}

/// The pass of a pixel depends only on its position within its 8×8 block.
pub proof fn lemma_pass_is_periodic(x: u32, y: u32)
    ensures
        adam7_pass_of(x, y) == adam7_pass_of(x % 8, y % 8),
{
    assert(x % 8 == (x % 8) % 8 && x % 4 == (x % 8) % 4 && x % 2 == (x % 8) % 2) by (bit_vector);
    assert(y % 8 == (y % 8) % 8 && y % 4 == (y % 8) % 4 && y % 2 == (y % 8) % 2) by (bit_vector);
}

/// Number of the pixels `(0, y)` to `(n - 1, y)` that pass `step` computes.
pub open spec fn pass_count_in_row(step: u8, y: u32, n: nat) -> nat
    decreases n,
{
    if n == 0 {
        0
    } else {
        pass_count_in_row(step, y, (n - 1) as nat) + if adam7_pass_of((n - 1) as u32, y) == step { 1nat } else { 0nat }
    }
}

/// Number of the pixels of rows 0 to `m - 1` of an 8×8 block that pass
/// `step` computes.
pub open spec fn pass_count_in_block(step: u8, m: nat) -> nat
    decreases m,
{
    if m == 0 {
        0
    } else {
        pass_count_in_block(step, (m - 1) as nat) + pass_count_in_row(step, (m - 1) as u32, 8)
    }
}

proof fn lemma_row_counts(step: u8, y: u32)
    requires
        y < 8,
    ensures
        pass_count_in_row(step, y, 8) == (
            if y == 0 { if step == 1 || step == 2 { 1nat } else if step == 4 { 2nat } else if step == 6 { 4nat } else { 0nat } }
            else if y == 4 { if step == 3 { 2nat } else if step == 4 { 2nat } else if step == 6 { 4nat } else { 0nat } }
            else if y == 2 || y == 6 { if step == 5 { 4nat } else if step == 6 { 4nat } else { 0nat } }
            else { if step == 7 { 8nat } else { 0nat } }),
{
    reveal_with_fuel(pass_count_in_row, 9);
}

/// In every 8×8 block, pass `step` computes exactly its share of the 64
/// pixels (1, 1, 2, 4, 8, 16, 32 for passes 1 to 7), so each pass doubles
/// the number of computed pixels and the seven passes cover the block.
pub proof fn lemma_block_counts_match_shares(step: u8)
    requires
        1 <= step <= 7,
    ensures
        pass_count_in_block(step, 8) == pass_share(step),
{
    lemma_row_counts(step, 0);
    lemma_row_counts(step, 1);
    lemma_row_counts(step, 2);
    lemma_row_counts(step, 3);
    lemma_row_counts(step, 4);
    lemma_row_counts(step, 5);
    lemma_row_counts(step, 6);
    lemma_row_counts(step, 7);
    reveal_with_fuel(pass_count_in_block, 9);
}

/// A pixel that has been computed: a Mandelbrot result whose iteration
/// count is not the "not computed" sentinel.
pub open spec fn is_computed<E, T>(d: ComputeData<E, T>) -> bool {
    match d {
        ComputeData::Mandelbrot(m) => m.iterations != SENTINEL_NOT_COMPUTED,
        ComputeData::TestImage(_) => false,
    }
}

/// The pixel shown for uncomputed areas that have no computed neighbor.
pub open spec fn black_pixel_with<E, T>(extra: E) -> ComputeData<E, T> {
    ComputeData::Mandelbrot(MandelbrotData { iterations: 0, max_iterations: 1, escaped: false, glitched: false, extra })
}

/// The display value of pixel `i` of a row-major image of the given
/// width: the computed value, else the display value of its left
/// neighbor, else (at the left edge) of its top neighbor, else `black`.
pub open spec fn display_pixel<D>(data: Seq<Option<D>>, width: int, i: int, black: D) -> D
    decreases i,
{
    if i < 0 || width <= 0 {
        black
    } else {
        match data[i] {
            Some(d) => d,
            None => if i % width > 0 && i > 0 {
                display_pixel(data, width, i - 1, black)
            } else if i >= width {
                display_pixel(data, width, i - width, black)
            } else {
                black
            },
        }
    }
}

/// `out` is the display buffer of `data`: every pixel holds its display value.
pub open spec fn is_display_buffer<D>(out: Seq<D>, data: Seq<Option<D>>, width: int, black: D) -> bool {
    &&& out.len() == data.len()
    &&& forall|i: int| 0 <= i < out.len() ==> out[i] == #[trigger] display_pixel(data, width, i, black)
}

/// The pixels after merging a pass's results into `data`.
pub open spec fn merged_pixels<E, T>(data: Seq<Option<ComputeData<E, T>>>, pass: Seq<ComputeData<E, T>>) -> Seq<Option<ComputeData<E, T>>> {
    Seq::new(data.len(), |i: int| if i < pass.len() && is_computed(pass[i]) { Some(pass[i]) } else { data[i] })
}

/// Merging stores every computed result of a pass: a Mandelbrot result
/// whose iteration count is not the sentinel lands in its slot, whatever
/// its iteration count (interior pixels with `iterations == max_iterations`
/// included); a sentinel, a test-image entry, or a slot past the pass
/// leaves the slot as it was.
pub proof fn lemma_merge_stores_computed_results<E, T>(data: Seq<Option<ComputeData<E, T>>>, pass: Seq<ComputeData<E, T>>)
    ensures
        merged_pixels(data, pass).len() == data.len(),
        forall|i: int| 0 <= i < data.len() && i < pass.len()
            && (#[trigger] pass[i] matches ComputeData::Mandelbrot(m) && m.iterations != SENTINEL_NOT_COMPUTED)
            ==> merged_pixels(data, pass)[i] == Some(pass[i]),
        forall|i: int| 0 <= i < data.len() && (i >= pass.len() || pass[i] is TestImage
            || (pass[i] matches ComputeData::Mandelbrot(m) && m.iterations == SENTINEL_NOT_COMPUTED))
            ==> #[trigger] merged_pixels(data, pass)[i] == data[i],
{
}

/// Merging never loses a computed pixel, so a complete image stays complete.
pub proof fn lemma_merge_keeps_computed<E, T>(data: Seq<Option<ComputeData<E, T>>>, pass: Seq<ComputeData<E, T>>)
    ensures
        merged_pixels(data, pass).len() == data.len(),
        forall|i: int| 0 <= i < data.len() && (#[trigger] data[i]) is Some ==> merged_pixels(data, pass)[i] is Some,
{
}

/// Computed pixels show as they are; once every pixel is computed the
/// display buffer equals the final buffer.
pub proof fn lemma_display_of_complete_is_final<D>(data: Seq<Option<D>>, width: int, black: D)
    requires
        width > 0,
    ensures
        forall|i: int| 0 <= i < data.len() && (#[trigger] data[i]) is Some ==> Some(display_pixel(data, width, i, black)) == data[i],
{
}

/// Collects the results of the Adam7 passes into one full-resolution image.
pub struct Adam7Accumulator<E, T> {
    data: Vec<Option<ComputeData<E, T>>>,
    width: u32,
    height: u32,
}

impl<E, T> View for Adam7Accumulator<E, T> {
    type V = Seq<Option<ComputeData<E, T>>>;

    closed spec fn view(&self) -> Seq<Option<ComputeData<E, T>>> {
        self.data@
    }
}

impl<E: Copy + Default, T: Copy> Adam7Accumulator<E, T> {
    /// Image width in pixels.
    pub closed spec fn spec_width(&self) -> u32 {
        self.width
    }

    /// Image height in pixels.
    pub closed spec fn spec_height(&self) -> u32 {
        self.height
    }

    /// The pixel buffer has one slot per pixel.
    pub closed spec fn wf(&self) -> bool {
        self.data@.len() == self.width * self.height
    }

    /// A well-formed accumulator has one slot per pixel, and that is all
    /// well-formedness asks.
    pub proof fn lemma_wf_is_one_slot_per_pixel(&self)
        ensures
            self.wf() <==> self@.len() == self.spec_width() * self.spec_height(),
    {
    }

    /// An empty accumulator for a `width`×`height` image.
    pub fn new(width: u32, height: u32) -> (r: Self)
        requires
            width * height <= u32::MAX,
        ensures
            r.wf(),
            r.spec_width() == width,
            r.spec_height() == height,
            r@.len() == width * height,
            forall|i: int| 0 <= i < r@.len() ==> (#[trigger] r@[i]) is None,
    {
        let n = (width * height) as usize;
        let mut data: Vec<Option<ComputeData<E, T>>> = Vec::new();
        let mut i: usize = 0;
        while i < n
            invariant
                i <= n,
                n == width * height,
                data@.len() == i,
                forall|k: int| 0 <= k < i ==> (#[trigger] data@[k]) is None,
            decreases n - i,
        {
            data.push(None);
            i = i + 1;
        }
        Adam7Accumulator { data, width, height }
    }

    /// Number of pixel slots.
    pub fn len(&self) -> (r: usize)
        ensures
            r == self@.len(),
    {
        self.data.len()
    }

    /// Image width in pixels.
    pub fn width(&self) -> (r: u32)
        ensures
            r == self.spec_width(),
    {
        self.width
    }

    /// Image height in pixels.
    pub fn height(&self) -> (r: u32)
        ensures
            r == self.spec_height(),
    {
        self.height
    }

    /// The stored value of pixel `i` (`None` if not computed yet).
    pub fn pixel(&self, i: usize) -> (r: Option<ComputeData<E, T>>)
        requires
            i < self@.len(),
        ensures
            r == self@[i as int],
    {
        self.data[i]
    }

    /// Merge one pass's results: every computed pixel (not the sentinel)
    /// replaces the stored value at its index; the others are left as they
    /// were. A pass may be longer than the image only with uncomputed
    /// pixels past its end.
    pub fn merge(&mut self, gpu_result: &[ComputeData<E, T>])
        requires
            old(self).wf(),
            forall|i: int| old(self)@.len() <= i < gpu_result@.len() ==> !is_computed(#[trigger] gpu_result@[i]),
        ensures
            final(self).wf(),
            final(self).spec_width() == old(self).spec_width(),
            final(self).spec_height() == old(self).spec_height(),
            final(self)@.len() == old(self)@.len(),
            final(self)@ == merged_pixels(old(self)@, gpu_result@),
    {
        let n = gpu_result.len();
        let mut i: usize = 0;
        while i < n
            invariant
                n == gpu_result@.len(),
                i <= n,
                forall|j: int| old(self).data@.len() <= j < n ==> !is_computed(#[trigger] gpu_result@[j]),
                self.data@.len() == old(self).data@.len(),
                self.width == old(self).width,
                self.height == old(self).height,
                forall|k: int| 0 <= k < self.data@.len() ==> (#[trigger] self.data@[k]) == (
                    if k < i && is_computed(gpu_result@[k]) { Some(gpu_result@[k]) } else { old(self).data@[k] }),
            decreases n - i,
        {
            let computed = gpu_result[i];
            match computed {
                ComputeData::Mandelbrot(m) => {
                    if m.iterations != SENTINEL_NOT_COMPUTED {
                        self.data.set(i, Some(computed));
                    }
                },
                ComputeData::TestImage(_) => {},
            }
            i = i + 1;
        }
        proof {
            assert(self.data@ =~= merged_pixels(old(self).data@, gpu_result@));
        }
    }

    /// The image for display: computed pixels as they are, each uncomputed
    /// pixel filled from its left neighbor, or at the left edge from its
    /// top neighbor; the first pixel falls back to black (zero iterations,
    /// one max iteration, escape-state values `E::default()`).
    pub fn to_display_buffer(&self) -> (out: Vec<ComputeData<E, T>>)
        requires
            self.wf(),
        ensures
            exists|extra: E| call_ensures(E::default, (), extra)
                && #[trigger] is_display_buffer(out@, self@, self.spec_width() as int, black_pixel_with(extra)),
    {
        let extra = E::default();
        let black = ComputeData::Mandelbrot(
            MandelbrotData { iterations: 0, max_iterations: 1, escaped: false, glitched: false, extra },
        );
        let ghost b: ComputeData<E, T> = black_pixel_with(extra);
        let ghost w = self.width as int;
        let width = self.width as usize;
        let n = self.data.len();
        let mut result: Vec<ComputeData<E, T>> = Vec::with_capacity(n);
        let mut i: usize = 0;
        while i < n
            invariant
                n == self.data@.len(),
                w == width,
                black == b,
                i <= n,
                n == w * self.height,
                result@.len() == i,
                forall|k: int| 0 <= k < i ==> result@[k] == #[trigger] display_pixel(self.data@, w, k, b),
            decreases n - i,
        {
            let pixel = self.data[i];
            proof {
                let h = self.height as int;
                assert(w > 0) by (nonlinear_arith)
                    requires i < n, n == w * h, w >= 0, h >= 0;
                if i == 0 {
                    vstd::arithmetic::div_mod::lemma_small_mod(0, w as nat);
                }
            }
            let v = match pixel {
                Some(d) => d,
                None => {
                    if i % width > 0 {
                        result[i - 1]
                    } else if i >= width {
                        result[i - width]
                    } else {
                        black
                    }
                },
            };
            proof {
                let ii = i as int;
                assert(self.data@[ii] == pixel);
                if pixel is None {
                    if ii % w > 0 {
                        assert(result@[ii - 1] == display_pixel(self.data@, w, ii - 1, b));
                    } else if ii >= w {
                        assert(result@[ii - w] == display_pixel(self.data@, w, ii - w, b));
                    }
                }
                assert(v == display_pixel(self.data@, w, ii, b));
            }
            result.push(v);
            i = i + 1;
        }
        proof {
            assert(is_display_buffer(result@, self@, w, black_pixel_with::<E, T>(extra)));
            assert(is_display_buffer(result@, self@, self.spec_width() as int, black_pixel_with::<E, T>(extra)));
        }
        result
    }

    /// Whether every pixel has been computed.
    pub fn is_complete(&self) -> (r: bool)
        ensures
            r == (forall|i: int| 0 <= i < self@.len() ==> (#[trigger] self@[i]) is Some),
    {
        let n = self.data.len();
        let mut i: usize = 0;
        while i < n
            invariant
                n == self.data@.len(),
                i <= n,
                forall|k: int| 0 <= k < i ==> (#[trigger] self.data@[k]) is Some,
            decreases n - i,
        {
            if self.data[i].is_none() {
                return false;
            }
            i = i + 1;
        }
        true
    }

    /// The complete image, for caching once the final pass is merged.
    /// Every pixel must have been computed.
    pub fn to_final_buffer(&self) -> (out: Vec<ComputeData<E, T>>)
        requires
            forall|i: int| 0 <= i < self@.len() ==> (#[trigger] self@[i]) is Some,
        ensures
            out@.len() == self@.len(),
            forall|i: int| 0 <= i < out@.len() ==> Some(#[trigger] out@[i]) == self@[i],
    {
        let n = self.data.len();
        proof {
            assert forall|k: int| 0 <= k < n implies (#[trigger] self.data@[k]) is Some by {
                assert(self@[k] is Some);
            }
        }
        let mut out: Vec<ComputeData<E, T>> = Vec::with_capacity(n);
        let mut i: usize = 0;
        while i < n
            invariant
                n == self.data@.len(),
                i <= n,
                forall|k: int| 0 <= k < n ==> (#[trigger] self.data@[k]) is Some,
                out@.len() == i,
                forall|k: int| 0 <= k < i ==> Some(#[trigger] out@[k]) == self.data@[k],
            decreases n - i,
        {
            match self.data[i] {
                Some(d) => out.push(d),
                None => {
                    assert(false);
                },
            }
            i = i + 1;
        }
        out
    }
}

} // verus!
