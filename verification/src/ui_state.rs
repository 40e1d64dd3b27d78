//! Auto-hiding of the UI panel, the transient toast, and when the
//! floating progress indicator shows. The view layer owns the timers and
//! hands their events to these functions.

use vstd::prelude::*;
use crate::render_progress::{phase_is_active, RenderProgress};

verus! {

/// Milliseconds of mouse inactivity after which the UI panel hides.
pub const UI_HIDE_DELAY_MS: u32 = 4000;

/// Milliseconds a toast stays visible.
pub const TOAST_DURATION_MS: u32 = 1500;

/// Visibility of the UI panel.
#[derive(Clone, Copy, Debug, PartialEq, Eq, Structural)]
pub struct UiVisibility {
    pub is_visible: bool,
    pub is_hovering: bool,
}

impl UiVisibility {
    /// The panel starts visible, not hovered (the caller starts the hide timer).
    pub fn new() -> (r: Self)
        ensures
            r == (UiVisibility { is_visible: true, is_hovering: false }),
    {
        UiVisibility { is_visible: true, is_hovering: false }
    }

    /// Mouse movement shows the panel; the caller restarts the hide timer.
    pub fn on_mouse_move(&mut self)
        ensures
            *final(self) == (UiVisibility { is_visible: true, ..*old(self) }),
    {
        self.is_visible = true;
    }

    /// The hide timer fired: hide the panel unless the pointer is over it.
    pub fn on_hide_timeout(&mut self)
        ensures
            *final(self) == (UiVisibility { is_visible: old(self).is_visible && old(self).is_hovering, ..*old(self) }),
    {
        if !self.is_hovering {
            self.is_visible = false;
        }
    }

    /// The pointer entered (`true`) or left (`false`) the panel.
    pub fn set_hovering(&mut self, hovering: bool)
        ensures
            *final(self) == (UiVisibility { is_hovering: hovering, ..*old(self) }),
    {
        self.is_hovering = hovering;
    }
}

/// The toast notification.
#[derive(Clone, Debug)]
pub struct ToastState {
    pub is_visible: bool,
    pub message: String,
}

impl ToastState {
    /// Hidden, with no message.
    pub fn new() -> (r: Self)
        ensures
            !r.is_visible,
            r.message@ == Seq::<char>::empty(),
    {
        ToastState { is_visible: false, message: String::new() }
    }

    /// A new message arrives. It is shown only while the UI panel is
    /// hidden; then the caller schedules the hide after the toast duration.
    /// Returns whether the toast was shown.
    pub fn on_message(&mut self, message: String, ui_visible: bool) -> (shown: bool)
        ensures
            shown == !ui_visible,
            shown ==> final(self).is_visible && final(self).message@ == message@,
            !shown ==> final(self).is_visible == old(self).is_visible && final(self).message@ == old(self).message@,
    {
        if ui_visible {
            return false;
        }
        self.message = message;
        self.is_visible = true;
        true
    }

    /// The hide timer fired.
    pub fn on_hide_timeout(&mut self)
        ensures
            !final(self).is_visible,
            final(self).message@ == old(self).message@,
    {
        self.is_visible = false;
    }
}

/// The floating progress indicator shows while a render is under way and
/// the UI panel is hidden.
pub fn should_show_progress(progress: &RenderProgress, ui_visible: bool) -> (r: bool)
    ensures
        r == (phase_is_active(progress.phase) && !ui_visible),
{
    progress.is_active() && !ui_visible
}

/// The drop-up menus of the UI panel.
#[derive(Clone, Copy, Debug, PartialEq, Eq, Structural)]
pub enum PanelMenu {
    Info,
    Palette,
    Options,
}

/// Which panel menus are open, and whether the pointer is over the panel.
#[derive(Clone, Copy, Debug, PartialEq, Eq, Structural)]
pub struct PanelMenus {
    pub info_open: bool,
    pub palette_open: bool,
    pub options_open: bool,
    pub mouse_over: bool,
}

/// Whether `menu` is open in `m`.
pub open spec fn menu_is_open(m: PanelMenus, menu: PanelMenu) -> bool {
    match menu {
        PanelMenu::Info => m.info_open,
        PanelMenu::Palette => m.palette_open,
        PanelMenu::Options => m.options_open,
    }
}

/// At most one menu is open.
pub open spec fn at_most_one_open(m: PanelMenus) -> bool {
    &&& !(m.info_open && m.palette_open)
    &&& !(m.info_open && m.options_open)
    &&& !(m.palette_open && m.options_open)
}

impl PanelMenus {
    /// All menus closed, pointer elsewhere.
    pub fn new() -> (r: Self)
        ensures
            r == (PanelMenus { info_open: false, palette_open: false, options_open: false, mouse_over: false }),
    {
        PanelMenus { info_open: false, palette_open: false, options_open: false, mouse_over: false }
    }

    /// Open or close one menu; opening it closes the other two.
    pub fn set_open(&mut self, menu: PanelMenu, open: bool)
        ensures
            final(self).mouse_over == old(self).mouse_over,
            menu_is_open(*final(self), menu) == open,
            forall|other: PanelMenu| other != menu ==> menu_is_open(*final(self), other) == (!open && menu_is_open(*old(self), other)),
            at_most_one_open(*old(self)) || open ==> at_most_one_open(*final(self)),
    {
        if open {
            self.info_open = false;
            self.palette_open = false;
            self.options_open = false;
        }
        match menu {
            PanelMenu::Info => self.info_open = open,
            PanelMenu::Palette => self.palette_open = open,
            PanelMenu::Options => self.options_open = open,
        }
    }

    /// Close every menu (a click outside them, or on the panel).
    pub fn close_all(&mut self)
        ensures
            *final(self) == (PanelMenus { info_open: false, palette_open: false, options_open: false, ..*old(self) }),
    {
        self.info_open = false;
        self.palette_open = false;
        self.options_open = false;
    }

    /// The pointer entered (`true`) or left (`false`) the panel.
    pub fn set_mouse_over(&mut self, over: bool)
        ensures
            *final(self) == (PanelMenus { mouse_over: over, ..*old(self) }),
    {
        self.mouse_over = over;
    }

    /// Whether any menu is open.
    pub fn any_open(&self) -> (r: bool)
        ensures
            r == (self.info_open || self.palette_open || self.options_open),
    {
        self.info_open || self.palette_open || self.options_open
    }

    /// The panel counts as hovered while the pointer is over it or a menu
    /// is open, which keeps it from auto-hiding.
    pub fn keeps_panel_hovered(&self) -> (r: bool)
        ensures
            r == (self.mouse_over || self.info_open || self.palette_open || self.options_open),
    {
        self.mouse_over || self.any_open()
    }
}

/// The panel's visibility with the deadline of its hide timer
/// (milliseconds on the caller's clock; `None` when the timer is off).
#[derive(Clone, Copy, Debug, PartialEq, Eq, Structural)]
pub struct UiHideTimer {
    pub visibility: UiVisibility,
    pub deadline: Option<u64>,
}

/// The timer after the clock reads `now`: once the deadline is reached the
/// hide timeout runs (hiding the panel unless it is hovered) and the timer
/// is off; before that nothing changes.
pub open spec fn ui_tick_transition(t: UiHideTimer, now: u64) -> UiHideTimer {
    if t.deadline is Some && now >= t.deadline.unwrap() {
        UiHideTimer {
            visibility: UiVisibility { is_visible: t.visibility.is_visible && t.visibility.is_hovering, ..t.visibility },
            deadline: None,
        }
    } else {
        t
    }
}

impl UiHideTimer {
    /// Mounted at time `now`: visible, not hovered, hide timer started.
    pub fn start(now: u64) -> (r: Self)
        requires
            now + UI_HIDE_DELAY_MS <= u64::MAX,
        ensures
            r == (UiHideTimer {
                visibility: UiVisibility { is_visible: true, is_hovering: false },
                deadline: Some((now + UI_HIDE_DELAY_MS) as u64),
            }),
    {
        UiHideTimer { visibility: UiVisibility::new(), deadline: Some(now + UI_HIDE_DELAY_MS as u64) }
    }

    /// The mouse moved at time `now`: show the panel and restart the timer.
    pub fn on_mouse_move(&mut self, now: u64)
        requires
            now + UI_HIDE_DELAY_MS <= u64::MAX,
        ensures
            *final(self) == (UiHideTimer {
                visibility: UiVisibility { is_visible: true, ..old(self).visibility },
                deadline: Some((now + UI_HIDE_DELAY_MS) as u64),
            }),
    {
        self.visibility.on_mouse_move();
        self.deadline = Some(now + UI_HIDE_DELAY_MS as u64);
    }

    /// The pointer entered (`true`) or left (`false`) the panel.
    pub fn set_hovering(&mut self, hovering: bool)
        ensures
            *final(self) == (UiHideTimer { visibility: UiVisibility { is_hovering: hovering, ..old(self).visibility }, ..*old(self) }),
    {
        self.visibility.set_hovering(hovering);
    }

    /// The clock reads `now`.
    pub fn on_tick(&mut self, now: u64)
        ensures
            *final(self) == ui_tick_transition(*old(self), now),
    {
        match self.deadline {
            Some(d) => {
                if now >= d {
                    self.visibility.on_hide_timeout();
                    self.deadline = None;
                }
            },
            None => {},
        }
    }
}

/// The panel hides `UI_HIDE_DELAY_MS` (4 s) after the last mouse movement:
/// after mounting or a movement at time `t`, ticks before
/// `t + UI_HIDE_DELAY_MS` leave it visible; a tick at or after that time
/// hides it unless it is hovered; a hovered panel never hides.
pub proof fn lemma_panel_hides_after_delay(tm: UiHideTimer, t: u64, now: u64)
    requires
        t + UI_HIDE_DELAY_MS <= u64::MAX,
        tm.visibility.is_visible,
        tm.deadline == Some((t + UI_HIDE_DELAY_MS) as u64),
    ensures
        now < t + UI_HIDE_DELAY_MS ==> ui_tick_transition(tm, now).visibility.is_visible,
        now >= t + UI_HIDE_DELAY_MS && !tm.visibility.is_hovering ==> !ui_tick_transition(tm, now).visibility.is_visible,
        tm.visibility.is_hovering ==> ui_tick_transition(tm, now).visibility.is_visible,
{
}

/// Hovering keeps the panel visible: a hide timeout while hovering leaves a
/// visible panel visible; without hovering it always hides the panel.
pub proof fn lemma_hover_keeps_panel(v: UiVisibility)
    ensures
        v.is_hovering ==> (UiVisibility { is_visible: v.is_visible && v.is_hovering, ..v }).is_visible == v.is_visible,
        !v.is_hovering ==> !(UiVisibility { is_visible: v.is_visible && v.is_hovering, ..v }).is_visible,
{
}

} // verus!
