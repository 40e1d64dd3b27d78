//! Runtime render settings that are not persisted with a palette.

use vstd::prelude::*;
use crate::cycles::{cycle_count_down_by, cycle_count_up_by, spec_cycle_down_by, spec_cycle_up_by};

verus! {

/// Runtime settings that are not persisted with the palette.
#[derive(Clone, Debug, PartialEq, Eq, Structural)]
pub struct RenderSettings {
    pub cycle_count: u32,
    pub use_gpu: bool,
    pub xray_enabled: bool,
    /// Force extended-range arithmetic for all calculations (debug option).
    pub force_hdr_float: bool,
}

impl Default for RenderSettings {
    fn default() -> (r: Self)
        ensures
            r == (RenderSettings {
                cycle_count: 1,
                use_gpu: true,
                xray_enabled: false,
                force_hdr_float: false,
            }),
    {
        RenderSettings { cycle_count: 1, use_gpu: true, xray_enabled: false, force_hdr_float: false }
    }
}

impl RenderSettings {
    /// One more palette cycle, capped at 1024.
    pub fn cycle_up(&mut self)
        requires
            old(self).cycle_count < u32::MAX,
        ensures
            *final(self) == (RenderSettings { cycle_count: spec_cycle_up_by(old(self).cycle_count, 1), ..*old(self) }),
    {
        self.cycle_count = cycle_count_up_by(self.cycle_count, 1);
    }

    /// One fewer palette cycle, floored at 1.
    pub fn cycle_down(&mut self)
        ensures
            *final(self) == (RenderSettings { cycle_count: spec_cycle_down_by(old(self).cycle_count, 1), ..*old(self) }),
    {
        self.cycle_count = cycle_count_down_by(self.cycle_count, 1);
    }

    /// `amount` more palette cycles, capped at 1024.
    pub fn cycle_up_by(&mut self, amount: u32)
        requires
            old(self).cycle_count + amount <= u32::MAX,
        ensures
            *final(self) == (RenderSettings { cycle_count: spec_cycle_up_by(old(self).cycle_count, amount), ..*old(self) }),
    {
        self.cycle_count = cycle_count_up_by(self.cycle_count, amount);
    }

    /// `amount` fewer palette cycles, floored at 1.
    pub fn cycle_down_by(&mut self, amount: u32)
        ensures
            *final(self) == (RenderSettings { cycle_count: spec_cycle_down_by(old(self).cycle_count, amount), ..*old(self) }),
    {
        self.cycle_count = cycle_count_down_by(self.cycle_count, amount);
    }
}

} // verus!
