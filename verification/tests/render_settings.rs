use fractalwonder_ui::render_settings::RenderSettings;

#[test]
fn render_settings_default_cycle_count_is_one() {
    let settings = RenderSettings::default();
    assert_eq!(settings.cycle_count, 1);
}

#[test]
fn render_settings_cycle_bounds() {
    let mut settings = RenderSettings { cycle_count: 1024, ..Default::default() };
    settings.cycle_up();
    assert_eq!(settings.cycle_count, 1024);
    settings.cycle_count = 1;
    settings.cycle_down();
    assert_eq!(settings.cycle_count, 1);
}

#[test]
fn render_settings_defaults_and_steps() {
    let mut s = RenderSettings::default();
    assert!(s.use_gpu);
    assert!(!s.xray_enabled);
    assert!(!s.force_hdr_float);
    s.cycle_up_by(49);
    assert_eq!(s.cycle_count, 50);
    s.cycle_down_by(49);
    assert_eq!(s.cycle_count, 1);
    s.cycle_up_by(5000);
    assert_eq!(s.cycle_count, 1024);
    s.cycle_down_by(5000);
    assert_eq!(s.cycle_count, 1);
    s.cycle_count = 0;
    s.cycle_down();
    assert_eq!(s.cycle_count, 1);
}
