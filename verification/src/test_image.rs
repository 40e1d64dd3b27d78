//! Colors of the ruler test pattern.

use vstd::prelude::*;

verus! {

pub const ORIGIN_COLOR: [u8; 4] = [255, 0, 0, 255];
pub const AXIS_COLOR: [u8; 4] = [100, 100, 100, 255];
pub const MAJOR_TICK_COLOR: [u8; 4] = [50, 50, 50, 255];
pub const MEDIUM_TICK_COLOR: [u8; 4] = [80, 80, 80, 255];
pub const MINOR_TICK_COLOR: [u8; 4] = [120, 120, 120, 255];
pub const BACKGROUND_LIGHT: [u8; 4] = [245, 245, 245, 255];
pub const BACKGROUND_DARK: [u8; 4] = [255, 255, 255, 255];

/// What the test-pattern renderer found at one pixel.
#[derive(Clone, Copy, Debug, PartialEq, Eq, Structural)]
pub struct TestImageData {
    pub is_on_origin: bool,
    pub is_on_x_axis: bool,
    pub is_on_y_axis: bool,
    pub is_on_major_tick_x: bool,
    pub is_on_major_tick_y: bool,
    pub is_on_medium_tick_x: bool,
    pub is_on_medium_tick_y: bool,
    pub is_on_minor_tick_x: bool,
    pub is_on_minor_tick_y: bool,
    pub is_light_cell: bool,
}

/// The color of a test-pattern pixel: origin, then major, medium and
/// minor ticks, then axes, then the checkerboard background.
pub open spec fn test_pattern_rgba(d: TestImageData) -> [u8; 4] {
    if d.is_on_origin { ORIGIN_COLOR }
    else if d.is_on_major_tick_x || d.is_on_major_tick_y { MAJOR_TICK_COLOR }
    else if d.is_on_medium_tick_x || d.is_on_medium_tick_y { MEDIUM_TICK_COLOR }
    else if d.is_on_minor_tick_x || d.is_on_minor_tick_y { MINOR_TICK_COLOR }
    else if d.is_on_x_axis || d.is_on_y_axis { AXIS_COLOR }
    else if d.is_light_cell { BACKGROUND_LIGHT }
    else { BACKGROUND_DARK }
}

/// Default colorizer for test-pattern data.
pub fn colorize(data: &TestImageData) -> (r: [u8; 4])
    ensures
        r == test_pattern_rgba(*data),
{
    if data.is_on_origin {
        return ORIGIN_COLOR;
    }
    if data.is_on_major_tick_x || data.is_on_major_tick_y {
        return MAJOR_TICK_COLOR;
    }
    if data.is_on_medium_tick_x || data.is_on_medium_tick_y {
        return MEDIUM_TICK_COLOR;
    }
    if data.is_on_minor_tick_x || data.is_on_minor_tick_y {
        return MINOR_TICK_COLOR;
    }
    if data.is_on_x_axis || data.is_on_y_axis {
        return AXIS_COLOR;
    }
    if data.is_light_cell {
        BACKGROUND_LIGHT
    } else {
        BACKGROUND_DARK
    }
}

/// Every test-pattern color is opaque.
pub proof fn lemma_test_pattern_opaque(d: TestImageData)
    ensures
        test_pattern_rgba(d)[3] == 255,
{
}

} // verus!
