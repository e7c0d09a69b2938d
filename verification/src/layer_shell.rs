//! Layer-shell surfaces: which layer a window sits on, its anchors, exclusive zone,
//! margins and keyboard interaction, and the monitors it can be put on.
use vstd::prelude::*;
use crate::text::{chars_of, decimal, decimal_chars, owned, push_all, string_from_chars};

verus! {

/// Which wlr-layer-shell layer to use.
#[derive(Debug, Clone, Copy, PartialEq, Eq, Structural)]
pub enum Layer {
    Background,
    Bottom,
    Top,
    Overlay,
}

/// How the surface handles keyboard events.
#[derive(Debug, Clone, Copy, PartialEq, Eq, Structural)]
pub enum KeyboardMode {
    /// No keyboard interaction.
    NoFocus,
    OnDemand,
    Exclusive,
}

/// How the exclusive zone is determined.
#[derive(Debug, Clone, Copy, PartialEq, Eq, Structural)]
pub enum ExclusiveZone {
    /// Reserve space automatically based on the surface size.
    Auto,
    /// Reserve exactly this many pixels.
    Fixed(i32),
    /// Do not reserve any space (overlapping surface).
    NoZone,
}

/// All parameters for a single layer-shell surface.
#[derive(Debug)]
pub struct SurfaceConfig {
    pub layer: Layer,
    /// `[top, right, bottom, left]` — true = anchored to that edge.
    pub anchors: [bool; 4],
    pub exclusive_zone: ExclusiveZone,
    /// Margin in pixels: `(top, right, bottom, left)`.
    pub margins: (i32, i32, i32, i32),
    pub keyboard_mode: KeyboardMode,
    pub namespace: String,
}

impl SurfaceConfig {
    /// A full-width top bar of `height` pixels: on the top layer, anchored top, right and
    /// left, reserving its height, without margins or keyboard interaction.
    pub fn top_bar(height: i32, namespace: String) -> (r: Self)
        ensures
            r.layer == Layer::Top,
            r.anchors@ == seq![true, true, false, true],
            r.exclusive_zone == ExclusiveZone::Fixed(height),
            r.margins == (0i32, 0i32, 0i32, 0i32),
            r.keyboard_mode == KeyboardMode::NoFocus,
            r.namespace == namespace,
    {
        let r = SurfaceConfig {
            layer: Layer::Top,
            anchors: [true, true, false, true],
            exclusive_zone: ExclusiveZone::Fixed(height),
            margins: (0, 0, 0, 0),
            keyboard_mode: KeyboardMode::NoFocus,
            namespace,
        };
        proof {
            assert(r.anchors@ =~= seq![true, true, false, true]);
        }
        r
    }
}

/// The surface of the notification popups: an overlay in the top-right corner, 40 px
/// below the top edge (clearing the bar), reserving nothing and taking no keyboard.
pub fn notifications_surface_config() -> (r: SurfaceConfig)
    ensures
        r.namespace@ == "mantle-notifications"@,
        r.layer == Layer::Overlay,
        r.anchors@ == seq![true, true, false, false],
        r.exclusive_zone == ExclusiveZone::NoZone,
        r.margins == (40i32, 0i32, 0i32, 0i32),
        r.keyboard_mode == KeyboardMode::NoFocus,
{
    let r = SurfaceConfig {
        namespace: owned("mantle-notifications"),
        layer: Layer::Overlay,
        anchors: [true, true, false, false],
        exclusive_zone: ExclusiveZone::NoZone,
        margins: (40, 0, 0, 0),
        keyboard_mode: KeyboardMode::NoFocus,
    };
    proof {
        assert(r.anchors@ =~= seq![true, true, false, false]);
    }
    r
}

/// Information about a physical monitor.
#[derive(Debug, Clone)]
pub struct MonitorInfo {
    pub index: u32,
    /// Human-readable model name.
    pub name: String,
    /// Connector name as reported by the compositor (e.g. "DP-1").
    pub connector: Option<String>,
}

/// Turns windows into layer-shell surfaces; the GTK side lives with the application.
#[derive(Debug, Clone, Copy)]
pub struct LayerShellManager;

/// The name of monitor `index`: its model, or `monitor-<index>` when it reports none.
pub open spec fn monitor_name_spec(index: u32, model: Option<String>) -> Seq<char> {
    match model {
        Some(m) => m@,
        None => "monitor-"@ + decimal(index as nat),
    }
}

impl LayerShellManager {
    /// The description of monitor `index`, given the model and connector it reports.
    pub fn monitor_info(index: u32, model: Option<String>, connector: Option<String>) -> (r:
        MonitorInfo)
        ensures
            r.index == index,
            r.name@ == monitor_name_spec(index, model),
            r.connector == connector,
    {
        let name = match model {
            Some(m) => m,
            None => {
                let mut v = chars_of("monitor-");
                let d = decimal_chars(index as u64);
                push_all(&mut v, d.as_slice());
                string_from_chars(v.as_slice())
            },
        };
        MonitorInfo { index, name, connector }
    }
}

} // verus!
