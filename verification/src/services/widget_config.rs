//! The widget layer's configuration.
use vstd::prelude::*;
use crate::text::owned;

verus! {

/// One widget of the widget layer.
#[derive(Debug, Clone)]
pub struct WidgetConfig {
    pub id: String,
    pub anchor: String,
    pub visible: bool,
}

/// The widgets of the widget layer, in order.
#[derive(Debug, Clone)]
pub struct WidgetLayerConfig {
    pub widgets: Vec<WidgetConfig>,
}

/// Whether `w` is the widget `id` at `anchor`, visible.
pub open spec fn is_widget(w: WidgetConfig, id: Seq<char>, anchor: Seq<char>) -> bool {
    w.id@ == id && w.anchor@ == anchor && w.visible
}

fn widget(id: &str, anchor: &str) -> (r: WidgetConfig)
    ensures
        is_widget(r, id@, anchor@),
{
    WidgetConfig { id: owned(id), anchor: owned(anchor), visible: true }
}

impl Default for WidgetLayerConfig {
    /// The calendar and the system monitor at the top right, the media controls at the
    /// bottom right, all visible.
    fn default() -> (r: Self)
        ensures
            r.widgets@.len() == 3,
            is_widget(r.widgets@[0], "calendar"@, "top-right"@),
            is_widget(r.widgets@[1], "system-monitor"@, "top-right"@),
            is_widget(r.widgets@[2], "media-controls"@, "bottom-right"@),
    {
        let mut widgets: Vec<WidgetConfig> = Vec::new();
        widgets.push(widget("calendar", "top-right"));
        widgets.push(widget("system-monitor", "top-right"));
        widgets.push(widget("media-controls", "bottom-right"));
        WidgetLayerConfig { widgets }
    }
}

} // verus!
