//! The layer-shell surface of the launcher.
use vstd::prelude::*;
use crate::layer_shell::{ExclusiveZone, KeyboardMode, Layer, SurfaceConfig};
use crate::text::owned;

verus! {

/// The launcher's surface: an overlay anchored to no edge (it floats centred at its
/// declared size), reserving nothing, without margins, with an exclusive keyboard grab.
pub fn launcher_surface_config() -> (r: SurfaceConfig)
    ensures
        r.namespace@ == "mantle-launcher"@,
        r.layer == Layer::Overlay,
        r.anchors@ == seq![false, false, false, false],
        r.exclusive_zone == ExclusiveZone::NoZone,
        r.margins == (0i32, 0i32, 0i32, 0i32),
        r.keyboard_mode == KeyboardMode::Exclusive,
{
    let r = SurfaceConfig {
        namespace: owned("mantle-launcher"),
        layer: Layer::Overlay,
        anchors: [false, false, false, false],
        exclusive_zone: ExclusiveZone::NoZone,
        margins: (0, 0, 0, 0),
        keyboard_mode: KeyboardMode::Exclusive,
    };
    proof {
        assert(r.anchors@ =~= seq![false, false, false, false]);
    }
    r
}

} // verus!
