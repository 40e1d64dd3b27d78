use fractalwonder_ui::explorer_controls::{
    find_position, reorder_palettes, shortcut_for_key, ExplorerControls, Shortcut,
};
use fractalwonder_ui::render_settings::RenderSettings;

fn names(list: &[&str]) -> Vec<String> {
    list.iter().map(|s| s.to_string()).collect()
}

fn controls(palette: &str) -> ExplorerControls {
    ExplorerControls {
        xray_enabled: false,
        subdivide_trigger: 0,
        palette_id: palette.to_string(),
        render_settings: RenderSettings::default(),
    }
}

#[test]
fn keys_map_to_shortcuts() {
    assert_eq!(shortcut_for_key("x"), Some(Shortcut::ToggleXray));
    assert_eq!(shortcut_for_key("X"), Some(Shortcut::ToggleXray));
    assert_eq!(shortcut_for_key("D"), Some(Shortcut::Subdivide));
    assert_eq!(shortcut_for_key("ArrowLeft"), Some(Shortcut::PreviousPalette));
    assert_eq!(shortcut_for_key("ArrowRight"), Some(Shortcut::NextPalette));
    assert_eq!(shortcut_for_key("ArrowUp"), Some(Shortcut::CyclesUp));
    assert_eq!(shortcut_for_key("ArrowDown"), Some(Shortcut::CyclesDown));
    assert_eq!(shortcut_for_key("g"), Some(Shortcut::ToggleGpu));
    assert_eq!(shortcut_for_key("Arrow"), None);
    assert_eq!(shortcut_for_key("q"), None);
    assert_eq!(shortcut_for_key(""), None);
}

#[test]
fn xray_toggle_and_subdivide() {
    let mut c = controls("Fire");
    assert_eq!(c.apply_shortcut(Shortcut::Subdivide, false, &[]), None);
    assert_eq!(c.subdivide_trigger, 0);
    assert_eq!(c.apply_shortcut(Shortcut::ToggleXray, false, &[]).unwrap(), "X-ray: On");
    assert!(c.xray_enabled);
    c.apply_shortcut(Shortcut::Subdivide, false, &[]);
    assert_eq!(c.subdivide_trigger, 1);
    c.subdivide_trigger = u32::MAX;
    c.apply_shortcut(Shortcut::Subdivide, false, &[]);
    assert_eq!(c.subdivide_trigger, 0);
    assert_eq!(c.apply_shortcut(Shortcut::ToggleXray, false, &[]).unwrap(), "X-ray: Off");
}

#[test]
fn palette_steps_wrap_around() {
    let order = names(&["Classic", "Fire", "Ocean"]);
    let mut c = controls("Classic");
    assert_eq!(c.apply_shortcut(Shortcut::PreviousPalette, false, &order).unwrap(), "Palette: Ocean");
    assert_eq!(c.palette_id, "Ocean");
    assert_eq!(c.apply_shortcut(Shortcut::NextPalette, false, &order).unwrap(), "Palette: Classic");
    c.apply_shortcut(Shortcut::NextPalette, false, &order);
    assert_eq!(c.palette_id, "Fire");
    c.apply_shortcut(Shortcut::PreviousPalette, false, &order);
    assert_eq!(c.palette_id, "Classic");
    let mut unknown = controls("Missing");
    unknown.apply_shortcut(Shortcut::NextPalette, false, &order);
    assert_eq!(unknown.palette_id, "Fire");
}

#[test]
fn cycle_shortcuts_step_by_one_or_fifty() {
    let mut c = controls("Fire");
    assert_eq!(c.apply_shortcut(Shortcut::CyclesUp, false, &[]).unwrap(), "Cycles: 2");
    assert_eq!(c.apply_shortcut(Shortcut::CyclesUp, true, &[]).unwrap(), "Cycles: 52");
    c.render_settings.cycle_count = 1000;
    assert_eq!(c.apply_shortcut(Shortcut::CyclesUp, true, &[]).unwrap(), "Cycles: 1024");
    assert_eq!(c.apply_shortcut(Shortcut::CyclesDown, true, &[]).unwrap(), "Cycles: 974");
    c.render_settings.cycle_count = 20;
    assert_eq!(c.apply_shortcut(Shortcut::CyclesDown, true, &[]).unwrap(), "Cycles: 1");
}

#[test]
fn gpu_toggle_and_palette_select() {
    let mut c = controls("Fire");
    assert_eq!(c.apply_shortcut(Shortcut::ToggleGpu, false, &[]).unwrap(), "GPU: Off");
    assert!(!c.render_settings.use_gpu);
    assert_eq!(c.apply_shortcut(Shortcut::ToggleGpu, false, &[]).unwrap(), "GPU: On");
    assert_eq!(c.select_palette("Ocean".to_string()), "Palette: Ocean");
    assert_eq!(c.palette_id, "Ocean");
}

#[test]
fn find_position_gives_first_occurrence() {
    let order = names(&["a", "b", "a"]);
    assert_eq!(find_position(&order, &"a".to_string()), Some(0));
    assert_eq!(find_position(&order, &"b".to_string()), Some(1));
    assert_eq!(find_position(&order, &"c".to_string()), None);
}

#[test]
fn reorder_moves_dragged_palette_to_target_position() {
    let order = names(&["A", "B", "C", "D"]);
    assert_eq!(reorder_palettes(&order, &"A".to_string(), &"C".to_string()).unwrap(), names(&["B", "C", "A", "D"]));
    assert_eq!(reorder_palettes(&order, &"D".to_string(), &"B".to_string()).unwrap(), names(&["A", "D", "B", "C"]));
    assert_eq!(reorder_palettes(&order, &"B".to_string(), &"B".to_string()).unwrap(), order);
    assert_eq!(reorder_palettes(&order, &"X".to_string(), &"B".to_string()), None);
    assert_eq!(reorder_palettes(&order, &"A".to_string(), &"X".to_string()), None);
}
