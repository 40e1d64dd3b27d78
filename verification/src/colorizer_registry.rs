//! Registry of the per-renderer colorizers offered in the UI.

use vstd::prelude::*;

verus! {

/// A colorizer function of the registry.
#[derive(Clone, Copy, Debug, PartialEq, Eq, Structural)]
pub enum RegisteredColorizer {
    MandelbrotDefault,
    MandelbrotFire,
    MandelbrotOpal,
    TestImageDefault,
    TestImagePastel,
}

/// One colorizer offered for a renderer.
#[derive(Clone, Copy, Debug)]
pub struct ColorizerInfo {
    pub id: &'static str,
    pub display_name: &'static str,
    pub is_default: bool,
    pub colorizer: RegisteredColorizer,
}

/// The colorizers offered for one renderer.
#[derive(Clone, Debug)]
pub struct RendererColorizers {
    pub renderer_id: &'static str,
    pub colorizers: Vec<ColorizerInfo>,
}

/// Exactly one colorizer of `cs` is the default.
pub open spec fn has_one_default(cs: Seq<ColorizerInfo>) -> bool {
    exists|c: int| #![trigger cs[c]]
        0 <= c < cs.len() && cs[c].is_default
        && forall|c2: int| 0 <= c2 < cs.len() && (#[trigger] cs[c2]).is_default ==> c2 == c
}

/// Every renderer of `reg` offers exactly one default colorizer.
pub open spec fn each_renderer_has_one_default(reg: Seq<RendererColorizers>) -> bool {
    forall|r: int| 0 <= r < reg.len() ==> #[trigger] has_one_default(reg[r].colorizers@)
}

/// The registry: the Mandelbrot renderer offers Default (the default),
/// Fire and Opal; the test-image renderer offers Default (the default)
/// and Pastel.
pub fn colorizer_registry() -> (reg: Vec<RendererColorizers>)
    ensures
        reg@.len() == 2,
        reg@[0].renderer_id@ == "mandelbrot"@,
        reg@[1].renderer_id@ == "test_image"@,
        reg@[0].colorizers@.len() == 3,
        reg@[0].colorizers@[0].id@ == "default"@ && reg@[0].colorizers@[0].display_name@ == "Default"@
            && reg@[0].colorizers@[0].is_default && reg@[0].colorizers@[0].colorizer == RegisteredColorizer::MandelbrotDefault,
        reg@[0].colorizers@[1].id@ == "fire"@ && reg@[0].colorizers@[1].display_name@ == "Fire"@
            && !reg@[0].colorizers@[1].is_default && reg@[0].colorizers@[1].colorizer == RegisteredColorizer::MandelbrotFire,
        reg@[0].colorizers@[2].id@ == "opal"@ && reg@[0].colorizers@[2].display_name@ == "Opal"@
            && !reg@[0].colorizers@[2].is_default && reg@[0].colorizers@[2].colorizer == RegisteredColorizer::MandelbrotOpal,
        reg@[1].colorizers@.len() == 2,
        reg@[1].colorizers@[0].id@ == "default"@ && reg@[1].colorizers@[0].display_name@ == "Default"@
            && reg@[1].colorizers@[0].is_default && reg@[1].colorizers@[0].colorizer == RegisteredColorizer::TestImageDefault,
        reg@[1].colorizers@[1].id@ == "pastel"@ && reg@[1].colorizers@[1].display_name@ == "Pastel"@
            && !reg@[1].colorizers@[1].is_default && reg@[1].colorizers@[1].colorizer == RegisteredColorizer::TestImagePastel,
        each_renderer_has_one_default(reg@),
{
    let mandelbrot = vec![
        ColorizerInfo { id: "default", display_name: "Default", is_default: true, colorizer: RegisteredColorizer::MandelbrotDefault },
        ColorizerInfo { id: "fire", display_name: "Fire", is_default: false, colorizer: RegisteredColorizer::MandelbrotFire },
        ColorizerInfo { id: "opal", display_name: "Opal", is_default: false, colorizer: RegisteredColorizer::MandelbrotOpal },
    ];
    let test_image = vec![
        ColorizerInfo { id: "default", display_name: "Default", is_default: true, colorizer: RegisteredColorizer::TestImageDefault },
        ColorizerInfo { id: "pastel", display_name: "Pastel", is_default: false, colorizer: RegisteredColorizer::TestImagePastel },
    ];
    let reg = vec![
        RendererColorizers { renderer_id: "mandelbrot", colorizers: mandelbrot },
        RendererColorizers { renderer_id: "test_image", colorizers: test_image },
    ];
    proof {
        let s = reg@;
        assert forall|r: int| 0 <= r < s.len() implies #[trigger] has_one_default(s[r].colorizers@) by {
            assert(s[r].colorizers@[0].is_default);
        }
    }
    reg
}

} // verus!
