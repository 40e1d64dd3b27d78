//! Colorizer kinds and the palette lookup table they sample.

use vstd::prelude::*;

verus! {

/// Number of entries of a palette lookup table.
pub const LUT_SIZE: usize = 4096;

/// Colorizer that uses the smooth iteration count to avoid banding.
#[derive(Clone, Copy, Debug, PartialEq, Eq, Structural)]
pub struct SmoothIterationColorizer;

/// The available colorizer algorithms.
#[derive(Clone, Copy, Debug, PartialEq, Eq, Structural)]
pub enum ColorizerKind {
    SmoothIteration(SmoothIterationColorizer),
}

impl Default for ColorizerKind {
    fn default() -> (r: Self)
        ensures
            r == ColorizerKind::SmoothIteration(SmoothIterationColorizer),
    {
        ColorizerKind::SmoothIteration(SmoothIterationColorizer)
    }
}

/// Pre-computed 4096-entry color lookup table of a palette's gradient.
pub struct PaletteLut {
    lut: Vec<[u8; 3]>,
}

impl View for PaletteLut {
    type V = Seq<[u8; 3]>;

    closed spec fn view(&self) -> Seq<[u8; 3]> {
        self.lut@
    }
}

impl PaletteLut {
    #[verifier::type_invariant]
    spec fn has_lut_size(self) -> bool {
        self.lut@.len() == LUT_SIZE
    }

    /// The table with the given 4096 entries.
    pub fn from_entries(lut: Vec<[u8; 3]>) -> (r: Self)
        requires
            lut@.len() == LUT_SIZE,
        ensures
            r@ == lut@,
    {
        PaletteLut { lut }
    }

    /// The entry at `index`, clamped to the last entry.
    pub fn sample_index(&self, index: usize) -> (r: [u8; 3])
        ensures
            self@.len() == LUT_SIZE,
            r == self@[if index < LUT_SIZE { index as int } else { LUT_SIZE - 1 }],
    {
        proof {
            use_type_invariant(self);
        }
        let i = if index < LUT_SIZE { index } else { LUT_SIZE - 1 };
        self.lut[i]
    }
}

} // verus!
