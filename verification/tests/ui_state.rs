use fractalwonder_ui::render_progress::{RenderPhase, RenderProgress};
use fractalwonder_ui::ui_state::{UiHideTimer, PanelMenu, PanelMenus, should_show_progress, ToastState, UiVisibility};

#[test]
fn panel_hides_after_timeout_unless_hovered() {
    let mut v = UiVisibility::new();
    assert!(v.is_visible);
    v.on_hide_timeout();
    assert!(!v.is_visible);
    v.on_mouse_move();
    assert!(v.is_visible);
    v.set_hovering(true);
    v.on_hide_timeout();
    assert!(v.is_visible);
    v.set_hovering(false);
    v.on_hide_timeout();
    assert!(!v.is_visible);
}

#[test]
fn toast_only_when_ui_hidden() {
    let mut t = ToastState::new();
    assert!(!t.on_message("Saved".to_string(), true));
    assert!(!t.is_visible);
    assert!(t.on_message("Saved".to_string(), false));
    assert!(t.is_visible);
    assert_eq!(t.message, "Saved");
    t.on_hide_timeout();
    assert!(!t.is_visible);
}

#[test]
fn progress_indicator_visibility() {
    let p = RenderProgress::new(4);
    assert!(should_show_progress(&p, false));
    assert!(!should_show_progress(&p, true));
    let done = RenderProgress { phase: RenderPhase::Complete, ..p };
    assert!(!should_show_progress(&done, false));
}

#[test]
fn opening_a_menu_closes_the_others() {
    let mut m = PanelMenus::new();
    assert!(!m.any_open());
    m.set_open(PanelMenu::Info, true);
    assert!(m.info_open);
    m.set_open(PanelMenu::Palette, true);
    assert!(m.palette_open && !m.info_open && !m.options_open);
    m.set_open(PanelMenu::Options, true);
    assert!(m.options_open && !m.palette_open && !m.info_open);
    m.set_open(PanelMenu::Info, false);
    assert!(m.options_open);
    assert!(m.keeps_panel_hovered());
    m.close_all();
    assert!(!m.any_open());
    assert!(!m.keeps_panel_hovered());
    m.set_mouse_over(true);
    assert!(m.keeps_panel_hovered());
}

#[test]
fn panel_hides_after_four_seconds() {
    assert_eq!(fractalwonder_ui::ui_state::UI_HIDE_DELAY_MS, 4000);
}

#[test]
fn panel_hides_four_seconds_after_last_move_unless_hovered() {
    let mut tm = UiHideTimer::start(0);
    tm.on_tick(3999);
    assert!(tm.visibility.is_visible);
    tm.on_mouse_move(3000);
    tm.on_tick(6999);
    assert!(tm.visibility.is_visible);
    tm.on_tick(7000);
    assert!(!tm.visibility.is_visible);
    assert_eq!(tm.deadline, None);
    tm.on_mouse_move(8000);
    assert!(tm.visibility.is_visible);
    tm.set_hovering(true);
    tm.on_tick(20000);
    assert!(tm.visibility.is_visible);
}
