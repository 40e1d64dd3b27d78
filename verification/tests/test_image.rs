use fractalwonder_ui::test_image::{
    colorize, TestImageData, AXIS_COLOR, BACKGROUND_DARK, BACKGROUND_LIGHT, MAJOR_TICK_COLOR,
    MEDIUM_TICK_COLOR, MINOR_TICK_COLOR, ORIGIN_COLOR,
};

fn blank() -> TestImageData {
    TestImageData {
        is_on_origin: false,
        is_on_x_axis: false,
        is_on_y_axis: false,
        is_on_major_tick_x: false,
        is_on_major_tick_y: false,
        is_on_medium_tick_x: false,
        is_on_medium_tick_y: false,
        is_on_minor_tick_x: false,
        is_on_minor_tick_y: false,
        is_light_cell: false,
    }
}

#[test]
fn test_pattern_priorities() {
    assert_eq!(colorize(&blank()), BACKGROUND_DARK);
    assert_eq!(colorize(&TestImageData { is_light_cell: true, ..blank() }), BACKGROUND_LIGHT);
    assert_eq!(colorize(&TestImageData { is_on_x_axis: true, is_light_cell: true, ..blank() }), AXIS_COLOR);
    assert_eq!(colorize(&TestImageData { is_on_minor_tick_y: true, is_on_y_axis: true, ..blank() }), MINOR_TICK_COLOR);
    assert_eq!(colorize(&TestImageData { is_on_medium_tick_x: true, is_on_minor_tick_x: true, ..blank() }), MEDIUM_TICK_COLOR);
    assert_eq!(colorize(&TestImageData { is_on_major_tick_y: true, is_on_medium_tick_y: true, ..blank() }), MAJOR_TICK_COLOR);
    assert_eq!(colorize(&TestImageData { is_on_origin: true, is_on_major_tick_x: true, ..blank() }), ORIGIN_COLOR);
    assert_eq!(ORIGIN_COLOR, [255, 0, 0, 255]);
}
