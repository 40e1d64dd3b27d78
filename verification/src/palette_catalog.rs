//! The catalog of built-in palettes and color-scheme presets: their ids and
//! display names. The gradients themselves (floating-point stops) are kept
//! by the view layer under these ids.

use vstd::prelude::*;
use crate::palette_lut::{ColorizerKind, SmoothIterationColorizer};

verus! {

/// A built-in palette: unique id and display name.
#[derive(Clone, Copy, Debug, PartialEq, Eq)]
pub struct PaletteEntry {
    pub id: &'static str,
    pub name: &'static str,
}

/// The ids of the built-in palettes, in menu order.
pub open spec fn builtin_palette_ids() -> Seq<Seq<char>> {
    seq![
        "classic"@, "fire"@, "ocean"@, "electric"@, "grayscale"@, "rainbow"@,
        "neon"@, "twilight"@, "candy"@, "inferno"@, "stripey_inferno"@, "aurora"@,
    ]
}

/// The display names of the built-in palettes, in menu order.
pub open spec fn builtin_palette_names() -> Seq<Seq<char>> {
    seq![
        "Classic"@, "Fire"@, "Ocean"@, "Electric"@, "Grayscale"@, "Rainbow"@,
        "Neon"@, "Twilight"@, "Candy"@, "Inferno"@, "Stripey Inferno"@, "Aurora"@,
    ]
}

/// No two entries of `s` are equal.
pub open spec fn all_distinct(s: Seq<Seq<char>>) -> bool {
    forall|i: int, j: int| 0 <= i < j < s.len() ==> s[i] != s[j]
}

fn entry(id: &'static str, name: &'static str) -> (r: PaletteEntry)
    ensures
        r.id@ == id@,
        r.name@ == name@,
{
    PaletteEntry { id, name }
}

/// The built-in palettes, in menu order: twelve entries with distinct ids,
/// the first of which is "classic".
pub fn palettes() -> (r: Vec<PaletteEntry>)
    ensures
        r@.len() == 12,
        forall|i: int| 0 <= i < 12 ==> (#[trigger] r@[i]).id@ == builtin_palette_ids()[i] && r@[i].name@ == builtin_palette_names()[i],
        all_distinct(builtin_palette_ids()),
{
    let r = vec![
        entry("classic", "Classic"),
        entry("fire", "Fire"),
        entry("ocean", "Ocean"),
        entry("electric", "Electric"),
        entry("grayscale", "Grayscale"),
        entry("rainbow", "Rainbow"),
        entry("neon", "Neon"),
        entry("twilight", "Twilight"),
        entry("candy", "Candy"),
        entry("inferno", "Inferno"),
        entry("stripey_inferno", "Stripey Inferno"),
        entry("aurora", "Aurora"),
    ];
    proof {
        reveal_strlit("classic");
        reveal_strlit("fire");
        reveal_strlit("ocean");
        reveal_strlit("electric");
        reveal_strlit("grayscale");
        reveal_strlit("rainbow");
        reveal_strlit("neon");
        reveal_strlit("twilight");
        reveal_strlit("candy");
        reveal_strlit("inferno");
        reveal_strlit("stripey_inferno");
        reveal_strlit("aurora");
        let ids = builtin_palette_ids();
        assert forall|i: int, j: int| 0 <= i < j < ids.len() implies ids[i] != ids[j] by {
            if ids[i].len() == ids[j].len() {
                assert(ids[i][0] != ids[j][0]);
            }
        }
    }
    r
}

/// A color-scheme preset: a palette name and the colorizer it uses.
#[derive(Clone, Copy, Debug, PartialEq, Eq)]
pub struct ColorSchemePreset {
    pub name: &'static str,
    pub colorizer: ColorizerKind,
}

/// The names of the presets, in order.
pub open spec fn preset_names() -> Seq<Seq<char>> {
    seq!["Classic"@, "Fire"@, "Ocean"@, "Electric"@, "Grayscale"@]
}

/// The color-scheme presets: five with distinct names, all using the
/// smooth-iteration colorizer, the first of which is "Classic".
pub fn presets() -> (r: Vec<ColorSchemePreset>)
    ensures
        r@.len() == 5,
        forall|i: int| 0 <= i < 5 ==> (#[trigger] r@[i]).name@ == preset_names()[i]
            && r@[i].colorizer == ColorizerKind::SmoothIteration(SmoothIterationColorizer),
        all_distinct(preset_names()),
{
    let smooth = ColorizerKind::SmoothIteration(SmoothIterationColorizer);
    let r = vec![
        ColorSchemePreset { name: "Classic", colorizer: smooth },
        ColorSchemePreset { name: "Fire", colorizer: smooth },
        ColorSchemePreset { name: "Ocean", colorizer: smooth },
        ColorSchemePreset { name: "Electric", colorizer: smooth },
        ColorSchemePreset { name: "Grayscale", colorizer: smooth },
    ];
    proof {
        reveal_strlit("Classic");
        reveal_strlit("Fire");
        reveal_strlit("Ocean");
        reveal_strlit("Electric");
        reveal_strlit("Grayscale");
        let names = preset_names();
        assert forall|i: int, j: int| 0 <= i < j < names.len() implies names[i] != names[j] by {
            assert(names[i][0] != names[j][0]);
        }
    }
    r
}

} // verus!
