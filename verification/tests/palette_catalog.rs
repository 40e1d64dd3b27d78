use fractalwonder_ui::palette_catalog::{palettes, presets};
use fractalwonder_ui::palette_lut::{ColorizerKind, SmoothIterationColorizer};

#[test]
fn palettes_returns_12_entries() {
    assert_eq!(palettes().len(), 12);
}

#[test]
fn all_palettes_have_unique_ids() {
    let palettes = palettes();
    let ids: Vec<_> = palettes.iter().map(|p| p.id).collect();
    let mut unique = ids.clone();
    unique.sort();
    unique.dedup();
    assert_eq!(ids.len(), unique.len(), "Duplicate palette IDs found");
}

#[test]
fn classic_palette_exists() {
    let palettes = palettes();
    assert!(palettes.iter().any(|p| p.id == "classic"));
    assert_eq!(palettes[0].name, "Classic");
    assert_eq!(palettes[10].id, "stripey_inferno");
    assert_eq!(palettes[10].name, "Stripey Inferno");
}

#[test]
fn presets_not_empty() {
    assert!(!presets().is_empty());
}

#[test]
fn all_presets_have_unique_names() {
    let presets = presets();
    let names: Vec<_> = presets.iter().map(|p| p.name).collect();
    let mut unique = names.clone();
    unique.sort();
    unique.dedup();
    assert_eq!(names.len(), unique.len(), "Duplicate preset names found");
}

#[test]
fn classic_preset_exists() {
    let presets = presets();
    assert!(presets.iter().any(|p| p.name == "Classic"));
    assert!(presets.iter().all(|p| p.colorizer == ColorizerKind::SmoothIteration(SmoothIterationColorizer)));
}
