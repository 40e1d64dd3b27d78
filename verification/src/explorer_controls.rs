//! The explorer's global controls: keyboard shortcuts and the panel buttons
//! that share their effects (x-ray mode, quadtree subdivision, palette
//! stepping, color cycles, GPU use), the toast text each one shows, and
//! drag-and-drop reordering of the palette list. The view layer decodes
//! the key event, skips keys typed into input fields, and shows the toast.

use vstd::prelude::*;
use crate::cycles::{spec_cycle_down_by, spec_cycle_up_by};
use crate::palette_names::{decimal, decimal_string, name_views};
use crate::render_settings::RenderSettings;

verus! {

broadcast use vstd::seq_lib::group_to_multiset_ensures;

/// A control action.
#[derive(Clone, Copy, Debug, PartialEq, Eq, Structural)]
pub enum Shortcut {
    /// Toggle the x-ray view of glitched pixels ("x").
    ToggleXray,
    /// Subdivide the glitch quadtree, in x-ray mode only ("d").
    Subdivide,
    /// Previous palette in the ordered list, wrapping around (left arrow).
    PreviousPalette,
    /// Next palette in the ordered list, wrapping around (right arrow).
    NextPalette,
    /// More color cycles: 1, or 50 with Shift (up arrow).
    CyclesUp,
    /// Fewer color cycles: 1, or 50 with Shift (down arrow).
    CyclesDown,
    /// Toggle GPU rendering ("g").
    ToggleGpu,
}

/// The action bound to a key name (letter keys in either case).
pub open spec fn key_shortcut(key: Seq<char>) -> Option<Shortcut> {
    if key == "x"@ || key == "X"@ {
        Some(Shortcut::ToggleXray)
    } else if key == "d"@ || key == "D"@ {
        Some(Shortcut::Subdivide)
    } else if key == "ArrowLeft"@ {
        Some(Shortcut::PreviousPalette)
    } else if key == "ArrowRight"@ {
        Some(Shortcut::NextPalette)
    } else if key == "ArrowUp"@ {
        Some(Shortcut::CyclesUp)
    } else if key == "ArrowDown"@ {
        Some(Shortcut::CyclesDown)
    } else if key == "g"@ || key == "G"@ {
        Some(Shortcut::ToggleGpu)
    } else {
        None
    }
}

/// Letter shortcuts ignore case: a key name gives the x-ray toggle exactly
/// when it is "x" or "X", subdivision exactly when it is "d" or "D", the
/// GPU toggle exactly when it is "g" or "G"; each arrow key gives its own
/// action.
pub proof fn lemma_letter_shortcuts_ignore_case(key: Seq<char>)
    ensures
        key_shortcut("x"@) == key_shortcut("X"@),
        key_shortcut("d"@) == key_shortcut("D"@),
        key_shortcut("g"@) == key_shortcut("G"@),
        key_shortcut("X"@) == Some(Shortcut::ToggleXray),
        key_shortcut("D"@) == Some(Shortcut::Subdivide),
        key_shortcut("G"@) == Some(Shortcut::ToggleGpu),
        (key_shortcut(key) == Some(Shortcut::ToggleXray)) <==> (key == "X"@ || key == "x"@),
        (key_shortcut(key) == Some(Shortcut::Subdivide)) <==> (key == "D"@ || key == "d"@),
        (key_shortcut(key) == Some(Shortcut::ToggleGpu)) <==> (key == "G"@ || key == "g"@),
        (key_shortcut(key) == Some(Shortcut::PreviousPalette)) <==> key == "ArrowLeft"@,
        (key_shortcut(key) == Some(Shortcut::NextPalette)) <==> key == "ArrowRight"@,
        (key_shortcut(key) == Some(Shortcut::CyclesUp)) <==> key == "ArrowUp"@,
        (key_shortcut(key) == Some(Shortcut::CyclesDown)) <==> key == "ArrowDown"@,
{
    reveal_strlit("x");
    reveal_strlit("X");
    reveal_strlit("d");
    reveal_strlit("D");
    reveal_strlit("g");
    reveal_strlit("G");
    reveal_strlit("ArrowLeft");
    reveal_strlit("ArrowRight");
    reveal_strlit("ArrowUp");
    reveal_strlit("ArrowDown");
    assert("x"@[0] != "X"@[0]);
    assert("x"@[0] != "d"@[0]);
    assert("x"@[0] != "D"@[0]);
    assert("x"@[0] != "g"@[0]);
    assert("x"@[0] != "G"@[0]);
    assert("X"@[0] != "d"@[0]);
    assert("X"@[0] != "D"@[0]);
    assert("X"@[0] != "g"@[0]);
    assert("X"@[0] != "G"@[0]);
    assert("d"@[0] != "D"@[0]);
    assert("d"@[0] != "g"@[0]);
    assert("d"@[0] != "G"@[0]);
    assert("D"@[0] != "g"@[0]);
    assert("D"@[0] != "G"@[0]);
    assert("g"@[0] != "G"@[0]);
    assert("ArrowLeft"@[5] != "ArrowDown"@[5]);
    assert("ArrowLeft"@.len() != "ArrowRight"@.len() && "ArrowLeft"@.len() != "ArrowUp"@.len());
    assert("ArrowRight"@.len() != "ArrowUp"@.len() && "ArrowRight"@.len() != "ArrowDown"@.len());
    assert("ArrowUp"@.len() != "ArrowDown"@.len());
}

/// Whether two texts are the same.
fn same_text(a: &str, b: &str) -> (r: bool)
    ensures
        r == (a@ == b@),
{
    let n = a.unicode_len();
    if n != b.unicode_len() {
        return false;
    }
    let mut i: usize = 0;
    while i < n
        invariant
            n == a@.len(),
            n == b@.len(),
            i <= n,
            forall|k: int| 0 <= k < i ==> a@[k] == b@[k],
        decreases n - i,
    {
        if a.get_char(i) != b.get_char(i) {
            return false;
        }
        i = i + 1;
    }
    proof {
        assert(a@ =~= b@);
    }
    true
}

/// The action bound to the key named `key`, if any.
pub fn shortcut_for_key(key: &str) -> (r: Option<Shortcut>)
    ensures
        r == key_shortcut(key@),
{
    if same_text(key, "x") || same_text(key, "X") {
        Some(Shortcut::ToggleXray)
    } else if same_text(key, "d") || same_text(key, "D") {
        Some(Shortcut::Subdivide)
    } else if same_text(key, "ArrowLeft") {
        Some(Shortcut::PreviousPalette)
    } else if same_text(key, "ArrowRight") {
        Some(Shortcut::NextPalette)
    } else if same_text(key, "ArrowUp") {
        Some(Shortcut::CyclesUp)
    } else if same_text(key, "ArrowDown") {
        Some(Shortcut::CyclesDown)
    } else if same_text(key, "g") || same_text(key, "G") {
        Some(Shortcut::ToggleGpu)
    } else {
        None
    }
}

/// `i` is the first position of `x` in `s`.
pub open spec fn is_first_position(s: Seq<Seq<char>>, x: Seq<char>, i: int) -> bool {
    &&& 0 <= i < s.len()
    &&& s[i] == x
    &&& forall|j: int| 0 <= j < i ==> s[j] != x
}

/// The first position of `x` in `s` (meaningful when `s` contains `x`).
pub open spec fn first_position(s: Seq<Seq<char>>, x: Seq<char>) -> int {
    choose|i: int| is_first_position(s, x, i)
}

proof fn lemma_first_position_unique(s: Seq<Seq<char>>, x: Seq<char>, i: int)
    requires
        is_first_position(s, x, i),
    ensures
        first_position(s, x) == i,
{
    let k = first_position(s, x);
    assert(is_first_position(s, x, k));
    if k < i {
        assert(s[k] == x);
    } else if i < k {
        assert(s[i] == x);
    }
}

/// The first position of `name` in `names`, or `None` when absent.
pub fn find_position(names: &[String], name: &String) -> (r: Option<usize>)
    ensures
        r is Some <==> name_views(names@).contains(name@),
        r is Some ==> is_first_position(name_views(names@), name@, r.unwrap() as int),
        r is Some ==> r.unwrap() == first_position(name_views(names@), name@),
{
    let n = names.len();
    let mut i: usize = 0;
    while i < n
        invariant
            n == names@.len(),
            i <= n,
            forall|k: int| 0 <= k < i ==> names@[k]@ != name@,
        decreases n - i,
    {
        if names[i] == *name {
            proof {
                let s = name_views(names@);
                assert(s[i as int] == name@);
                assert(is_first_position(s, name@, i as int));
                lemma_first_position_unique(s, name@, i as int);
            }
            return Some(i);
        }
        i = i + 1;
    }
    proof {
        let s = name_views(names@);
        if s.contains(name@) {
            let k = choose|k: int| 0 <= k < s.len() && s[k] == name@;
            assert(names@[k]@ == name@);
        }
    }
    None
}

/// The position before `i` among `len` positions, wrapping to the last.
pub open spec fn previous_index(i: int, len: int) -> int {
    if i == 0 { len - 1 } else { i - 1 }
}

/// The position after `i` among `len` positions, wrapping to the first.
pub open spec fn next_index(i: int, len: int) -> int {
    (i + 1) % len
}

/// Stepping forward then back, or back then forward, returns to the same
/// palette, and both steps stay in the list.
pub proof fn lemma_palette_steps_undo(i: int, len: int)
    requires
        0 <= i < len,
    ensures
        0 <= next_index(i, len) < len,
        0 <= previous_index(i, len) < len,
        previous_index(next_index(i, len), len) == i,
        next_index(previous_index(i, len), len) == i,
{
    if i + 1 < len {
        vstd::arithmetic::div_mod::lemma_small_mod((i + 1) as nat, len as nat);
    } else {
        vstd::arithmetic::div_mod::lemma_mod_self_0(len);
    }
    if i == 0 {
        vstd::arithmetic::div_mod::lemma_mod_self_0(len);
    } else {
        vstd::arithmetic::div_mod::lemma_small_mod(i as nat, len as nat);
    }
}

/// The position the palette steppers start from: that of the current
/// palette, or the first when it is not in the list.
pub open spec fn current_index(order: Seq<String>, id: String) -> int {
    if name_views(order).contains(id@) { first_position(name_views(order), id@) } else { 0 }
}

/// The palette a stepper selects.
pub open spec fn stepped_palette(order: Seq<String>, id: String, forward: bool) -> String {
    let i = current_index(order, id);
    order[if forward { next_index(i, order.len() as int) } else { previous_index(i, order.len() as int) }]
}

/// Cycle-count change of one up or down step: 50 with Shift, else 1.
pub open spec fn cycle_step(shift: bool) -> u32 {
    if shift { 50 } else { 1 }
}

/// Toast text of an on/off switch.
pub open spec fn switch_text(prefix: Seq<char>, on: bool) -> Seq<char> {
    prefix + if on { "On"@ } else { "Off"@ }
}

/// The state the controls act on.
#[derive(Clone, Debug)]
pub struct ExplorerControls {
    /// X-ray view of glitched pixels.
    pub xray_enabled: bool,
    /// Bumped (wrapping) to request a quadtree subdivision.
    pub subdivide_trigger: u32,
    /// Name of the selected palette.
    pub palette_id: String,
    pub render_settings: RenderSettings,
}

fn on_off_text(prefix: &str, on: bool) -> (r: String)
    ensures
        r@ == switch_text(prefix@, on),
{
    let mut s = String::from_str(prefix);
    if on {
        s.append("On");
    } else {
        s.append("Off");
    }
    s
}

impl ExplorerControls {
    /// Select the palette named `name`; returns the toast text
    /// `"Palette: <name>"`.
    pub fn select_palette(&mut self, name: String) -> (toast: String)
        ensures
            *final(self) == (ExplorerControls { palette_id: name, ..*old(self) }),
            toast@ == "Palette: "@ + name@,
    {
        let mut toast = String::from_str("Palette: ");
        toast.append(name.as_str());
        self.palette_id = name;
        toast
    }

    /// Perform a control action with the palettes in display order
    /// `palette_order`; returns the toast text to show, if any.
    pub fn apply_shortcut(&mut self, shortcut: Shortcut, shift: bool, palette_order: &[String]) -> (toast: Option<String>)
        requires
            (shortcut == Shortcut::PreviousPalette || shortcut == Shortcut::NextPalette) ==> palette_order@.len() > 0,
            shortcut == Shortcut::CyclesUp ==> old(self).render_settings.cycle_count + cycle_step(shift) <= u32::MAX,
        ensures
            shortcut == Shortcut::ToggleXray ==> {
                &&& *final(self) == (ExplorerControls { xray_enabled: !old(self).xray_enabled, ..*old(self) })
                &&& toast is Some && toast.unwrap()@ == switch_text("X-ray: "@, final(self).xray_enabled)
            },
            shortcut == Shortcut::Subdivide ==> {
                &&& old(self).xray_enabled ==> *final(self) == (ExplorerControls {
                    subdivide_trigger: if old(self).subdivide_trigger == u32::MAX { 0 } else { (old(self).subdivide_trigger + 1) as u32 },
                    ..*old(self)
                })
                &&& !old(self).xray_enabled ==> *final(self) == *old(self)
                &&& toast is None
            },
            (shortcut == Shortcut::PreviousPalette || shortcut == Shortcut::NextPalette) ==> {
                &&& *final(self) == (ExplorerControls {
                    palette_id: stepped_palette(palette_order@, old(self).palette_id, shortcut == Shortcut::NextPalette),
                    ..*old(self)
                })
                &&& toast is Some && toast.unwrap()@ == "Palette: "@ + final(self).palette_id@
            },
            shortcut == Shortcut::CyclesUp ==> {
                &&& *final(self) == (ExplorerControls {
                    render_settings: RenderSettings {
                        cycle_count: spec_cycle_up_by(old(self).render_settings.cycle_count, cycle_step(shift)),
                        ..old(self).render_settings
                    },
                    ..*old(self)
                })
                &&& toast is Some && toast.unwrap()@ == "Cycles: "@ + decimal(final(self).render_settings.cycle_count as nat)
            },
            shortcut == Shortcut::CyclesDown ==> {
                &&& *final(self) == (ExplorerControls {
                    render_settings: RenderSettings {
                        cycle_count: spec_cycle_down_by(old(self).render_settings.cycle_count, cycle_step(shift)),
                        ..old(self).render_settings
                    },
                    ..*old(self)
                })
                &&& toast is Some && toast.unwrap()@ == "Cycles: "@ + decimal(final(self).render_settings.cycle_count as nat)
            },
            shortcut == Shortcut::ToggleGpu ==> {
                &&& *final(self) == (ExplorerControls {
                    render_settings: RenderSettings { use_gpu: !old(self).render_settings.use_gpu, ..old(self).render_settings },
                    ..*old(self)
                })
                &&& toast is Some && toast.unwrap()@ == switch_text("GPU: "@, final(self).render_settings.use_gpu)
            },
    {
        match shortcut {
            Shortcut::ToggleXray => {
                self.xray_enabled = !self.xray_enabled;
                Some(on_off_text("X-ray: ", self.xray_enabled))
            },
            Shortcut::Subdivide => {
                if self.xray_enabled {
                    self.subdivide_trigger = if self.subdivide_trigger == u32::MAX { 0 } else { self.subdivide_trigger + 1 };
                }
                None
            },
            Shortcut::PreviousPalette | Shortcut::NextPalette => {
                let len = palette_order.len();
                let i = match find_position(palette_order, &self.palette_id) {
                    Some(p) => p,
                    None => 0,
                };
                proof {
                    lemma_palette_steps_undo(i as int, len as int);
                }
                let new_index = if shortcut == Shortcut::NextPalette {
                    (i + 1) % len
                } else if i == 0 {
                    len - 1
                } else {
                    i - 1
                };
                let name = palette_order[new_index].clone();
                let mut toast = String::from_str("Palette: ");
                toast.append(name.as_str());
                self.palette_id = name;
                Some(toast)
            },
            Shortcut::CyclesUp => {
                self.render_settings.cycle_up_by(if shift { 50 } else { 1 });
                let mut toast = String::from_str("Cycles: ");
                let n = decimal_string(self.render_settings.cycle_count as u128);
                toast.append(n.as_str());
                Some(toast)
            },
            Shortcut::CyclesDown => {
                self.render_settings.cycle_down_by(if shift { 50 } else { 1 });
                let mut toast = String::from_str("Cycles: ");
                let n = decimal_string(self.render_settings.cycle_count as u128);
                toast.append(n.as_str());
                Some(toast)
            },
            Shortcut::ToggleGpu => {
                self.render_settings.use_gpu = !self.render_settings.use_gpu;
                Some(on_off_text("GPU: ", self.render_settings.use_gpu))
            },
        }
    }
}

/// The palette order after dropping the palette `from_id` onto the palette
/// `to_id`: the dragged palette is taken out and reinserted at the target's
/// former position. `None` when either is not in the list.
pub fn reorder_palettes(order: &[String], from_id: &String, to_id: &String) -> (r: Option<Vec<String>>)
    ensures
        r is Some <==> (name_views(order@).contains(from_id@) && name_views(order@).contains(to_id@)),
        r is Some ==> ({
            let f = first_position(name_views(order@), from_id@);
            let t = first_position(name_views(order@), to_id@);
            &&& r.unwrap()@ == order@.remove(f).insert(t, order@[f])
            &&& r.unwrap()@.len() == order@.len()
            &&& r.unwrap()@[t] == order@[f]
            &&& r.unwrap()@.to_multiset() == order@.to_multiset()
        }),
{
    let from = match find_position(order, from_id) {
        Some(p) => p,
        None => return None,
    };
    let to = match find_position(order, to_id) {
        Some(p) => p,
        None => return None,
    };
    let mut new_order: Vec<String> = Vec::new();
    let mut i: usize = 0;
    while i < order.len()
        invariant
            i <= order@.len(),
            new_order@ == order@.subrange(0, i as int),
        decreases order@.len() - i,
    {
        new_order.push(order[i].clone());
        proof {
            assert(new_order@ =~= order@.subrange(0, i + 1));
        }
        i = i + 1;
    }
    proof {
        assert(new_order@ =~= order@);
    }
    let item = new_order.remove(from);
    new_order.insert(to, item);
    proof {
        let s = order@;
        assert(s.remove(from as int).insert(to as int, s[from as int]).to_multiset() == s.to_multiset()) by {
            vstd::seq_lib::to_multiset_remove(s, from as int);
            vstd::seq_lib::to_multiset_insert(s.remove(from as int), to as int, s[from as int]);
            assert(s.to_multiset().remove(s[from as int]).insert(s[from as int]) =~= s.to_multiset()) by {
                assert(s.to_multiset().count(s[from as int]) > 0) by {
                    vstd::seq_lib::to_multiset_contains(s, s[from as int]);
                }
            }
        }
    }
    Some(new_order)
}

} // verus!
