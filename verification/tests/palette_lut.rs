use fractalwonder_ui::palette_lut::{ColorizerKind, PaletteLut, SmoothIterationColorizer, LUT_SIZE};

#[test]
fn lut_sample_index_clamps_to_last_entry() {
    let entries: Vec<[u8; 3]> = (0..LUT_SIZE).map(|i| [(i % 256) as u8, (i / 256) as u8, 0]).collect();
    let lut = PaletteLut::from_entries(entries);
    assert_eq!(lut.sample_index(0), [0, 0, 0]);
    assert_eq!(lut.sample_index(257), [1, 1, 0]);
    assert_eq!(lut.sample_index(4095), [255, 15, 0]);
    assert_eq!(lut.sample_index(100_000), [255, 15, 0]);
}

#[test]
fn default_colorizer_is_smooth_iteration() {
    assert_eq!(ColorizerKind::default(), ColorizerKind::SmoothIteration(SmoothIterationColorizer));
}
