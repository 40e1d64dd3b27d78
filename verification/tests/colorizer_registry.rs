use fractalwonder_ui::colorizer_registry::{colorizer_registry, RegisteredColorizer};

#[test]
fn test_colorizer_registry_has_all_renderers() {
    let colorizers = colorizer_registry();
    assert_eq!(colorizers.len(), 2);
    assert!(colorizers.iter().any(|r| r.renderer_id == "mandelbrot"));
    assert!(colorizers.iter().any(|r| r.renderer_id == "test_image"));
}

#[test]
fn test_each_renderer_has_default_colorizer() {
    for renderer_colorizers in colorizer_registry().iter() {
        let has_default = renderer_colorizers.colorizers.iter().any(|c| c.is_default);
        assert!(has_default, "Renderer {} missing default colorizer", renderer_colorizers.renderer_id);
    }
}

#[test]
fn registry_contents() {
    let reg = colorizer_registry();
    let ids: Vec<&str> = reg[0].colorizers.iter().map(|c| c.id).collect();
    assert_eq!(ids, vec!["default", "fire", "opal"]);
    assert_eq!(reg[0].colorizers[1].colorizer, RegisteredColorizer::MandelbrotFire);
    assert_eq!(reg[1].colorizers[1].display_name, "Pastel");
    for r in reg.iter() {
        assert_eq!(r.colorizers.iter().filter(|c| c.is_default).count(), 1);
    }
}
