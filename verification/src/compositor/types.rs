//! Normalized compositor state shared by the sway and Hyprland backends.
use vstd::prelude::*;
use crate::launcher::types::opt_view;

verus! {

/// A compositor workspace.
///
/// Sway's scratchpad (`__i3_scratch`) and Hyprland's special workspaces (negative id,
/// `special:` names) are both marked `is_special`.
#[derive(Debug)]
pub struct Workspace {
    /// Compositor-native id; negative on Hyprland for special workspaces.
    pub id: i32,
    pub name: String,
    /// Output (monitor) this workspace lives on, if known.
    pub output: Option<String>,
    pub focused: bool,
    pub urgent: bool,
    pub is_special: bool,
    /// Ids of the windows on this workspace.
    pub window_ids: Vec<u64>,
}

/// The content of a [`Workspace`].
pub struct WorkspaceView {
    pub id: i32,
    pub name: Seq<char>,
    pub output: Option<Seq<char>>,
    pub focused: bool,
    pub urgent: bool,
    pub is_special: bool,
    pub window_ids: Seq<u64>,
}

impl View for Workspace {
    type V = WorkspaceView;

    open spec fn view(&self) -> WorkspaceView {
        WorkspaceView {
            id: self.id,
            name: self.name@,
            output: opt_view(self.output),
            focused: self.focused,
            urgent: self.urgent,
            is_special: self.is_special,
            window_ids: self.window_ids@,
        }
    }
}

/// The content of each workspace.
pub open spec fn workspace_views(s: Seq<Workspace>) -> Seq<WorkspaceView> {
    s.map_values(|w: Workspace| w@)
}

/// A compositor window.
///
/// Sway: `id` is the container id. Hyprland: `id` is the hex client address as a number.
#[derive(Debug)]
pub struct Window {
    pub id: u64,
    pub title: String,
    /// Wayland app_id or X11 class, whichever is present.
    pub app_id: Option<String>,
    pub workspace_id: Option<i32>,
    pub output: Option<String>,
    pub focused: bool,
    pub floating: bool,
    pub fullscreen: bool,
    pub pid: Option<u32>,
}

/// The content of a [`Window`].
pub struct WindowView {
    pub id: u64,
    pub title: Seq<char>,
    pub app_id: Option<Seq<char>>,
    pub workspace_id: Option<i32>,
    pub output: Option<Seq<char>>,
    pub focused: bool,
    pub floating: bool,
    pub fullscreen: bool,
    pub pid: Option<u32>,
}

impl View for Window {
    type V = WindowView;

    open spec fn view(&self) -> WindowView {
        WindowView {
            id: self.id,
            title: self.title@,
            app_id: opt_view(self.app_id),
            workspace_id: self.workspace_id,
            output: opt_view(self.output),
            focused: self.focused,
            floating: self.floating,
            fullscreen: self.fullscreen,
            pid: self.pid,
        }
    }
}

/// The content of each window.
pub open spec fn window_views(s: Seq<Window>) -> Seq<WindowView> {
    s.map_values(|w: Window| w@)
}

/// The content of an optional window.
pub open spec fn opt_window_view(w: Option<Window>) -> Option<WindowView> {
    match w {
        Some(x) => Some(x@),
        None => None,
    }
}

/// A physical output (monitor).
///
/// The refresh rate (Hz) and the scale are carried as the IEEE-754 bit patterns of the
/// `f64` values the compositor reported; this crate never interprets them.
#[derive(Debug)]
pub struct Output {
    pub name: String,
    pub make: Option<String>,
    pub model: Option<String>,
    pub width: u32,
    pub height: u32,
    pub refresh_hz_bits: u64,
    pub x: i32,
    pub y: i32,
    pub active: bool,
    pub scale_bits: u64,
    pub focused: bool,
}

/// The content of an [`Output`].
pub struct OutputView {
    pub name: Seq<char>,
    pub make: Option<Seq<char>>,
    pub model: Option<Seq<char>>,
    pub width: u32,
    pub height: u32,
    pub refresh_hz_bits: u64,
    pub x: i32,
    pub y: i32,
    pub active: bool,
    pub scale_bits: u64,
    pub focused: bool,
}

impl View for Output {
    type V = OutputView;

    open spec fn view(&self) -> OutputView {
        OutputView {
            name: self.name@,
            make: opt_view(self.make),
            model: opt_view(self.model),
            width: self.width,
            height: self.height,
            refresh_hz_bits: self.refresh_hz_bits,
            x: self.x,
            y: self.y,
            active: self.active,
            scale_bits: self.scale_bits,
            focused: self.focused,
        }
    }
}

/// The content of each output.
pub open spec fn output_views(s: Seq<Output>) -> Seq<OutputView> {
    s.map_values(|o: Output| o@)
}

/// A point-in-time snapshot of compositor state.
#[derive(Debug)]
pub struct CompositorSnapshot {
    pub workspaces: Vec<Workspace>,
    pub windows: Vec<Window>,
    pub outputs: Vec<Output>,
    /// The currently focused window, if any.
    pub focused_window: Option<Window>,
    /// Id of the workspace that has focus.
    pub active_workspace_id: Option<i32>,
}

/// The content of a [`CompositorSnapshot`].
pub struct SnapshotView {
    pub workspaces: Seq<WorkspaceView>,
    pub windows: Seq<WindowView>,
    pub outputs: Seq<OutputView>,
    pub focused_window: Option<WindowView>,
    pub active_workspace_id: Option<i32>,
}

impl View for CompositorSnapshot {
    type V = SnapshotView;

    open spec fn view(&self) -> SnapshotView {
        SnapshotView {
            workspaces: workspace_views(self.workspaces@),
            windows: window_views(self.windows@),
            outputs: output_views(self.outputs@),
            focused_window: opt_window_view(self.focused_window),
            active_workspace_id: self.active_workspace_id,
        }
    }
}

/// Normalized event emitted by either backend.
#[derive(Debug)]
pub enum CompositorEvent {
    WorkspaceChanged { workspace: Workspace },
    WorkspaceAdded { workspace: Workspace },
    WorkspaceRemoved { workspace_id: i32 },
    WindowFocused { window: Window },
    WindowOpened { window: Window },
    WindowClosed { window_id: u64 },
    WindowMoved { window: Window },
    WindowTitleChanged { window: Window },
    OutputAdded { output: Output },
    OutputRemoved { name: String },
    Disconnected,
    Reconnecting { attempt: u32 },
    Connected,
}

/// An action the frontend can request of the compositor.
#[derive(Debug)]
pub enum CompositorAction {
    FocusWorkspace { id: i32 },
    FocusWindow { id: u64 },
    MoveWindowToWorkspace { window_id: u64, workspace_id: i32 },
    CloseWindow { id: u64 },
    ToggleFloating { id: u64 },
    ToggleFullscreen { id: u64 },
    Exec { command: String },
    SetLayout { layout: String },
}

/// Which compositor was detected from the environment.
#[derive(Debug, Clone, Copy, PartialEq, Eq, Structural)]
pub enum Detected {
    Sway,
    Hyprland,
}

/// The compositor to talk to, given whether `SWAYSOCK` and `HYPRLAND_INSTANCE_SIGNATURE`
/// are set; sway wins when both are.
pub fn detect_from(swaysock_set: bool, hyprland_signature_set: bool) -> (r: Option<Detected>)
    ensures
        r == if swaysock_set {
            Some(Detected::Sway)
        } else if hyprland_signature_set {
            Some(Detected::Hyprland)
        } else {
            None
        },
{
    if swaysock_set {
        Some(Detected::Sway)
    } else if hyprland_signature_set {
        Some(Detected::Hyprland)
    } else {
        None
    }
}

/// The name of a backend, for logging and diagnostics.
pub fn backend_name(d: Detected) -> (r: &'static str)
    ensures
        r@ == match d {
            Detected::Sway => "sway"@,
            Detected::Hyprland => "hyprland"@,
        },
{
    match d {
        Detected::Sway => "sway",
        Detected::Hyprland => "hyprland",
    }
}

/// Why talking to the compositor failed; payloads hold the text of the underlying error.
#[derive(Debug, Clone)]
pub enum CompositorError {
    SwayIpc(String),
    HyprlandIpc(String),
    Disconnected,
    Unsupported,
    TaskPanicked,
    Io(String),
    Json(String),
}

/// The message of a compositor error.
pub open spec fn compositor_error_message(e: CompositorError) -> Seq<char> {
    match e {
        CompositorError::SwayIpc(m) => "sway IPC error: "@ + m@,
        CompositorError::HyprlandIpc(m) => "Hyprland IPC error: "@ + m@,
        CompositorError::Disconnected => "compositor connection lost"@,
        CompositorError::Unsupported => "no supported compositor detected (set SWAYSOCK or HYPRLAND_INSTANCE_SIGNATURE)"@,
        CompositorError::TaskPanicked => "background task panicked"@,
        CompositorError::Io(m) => "IO error: "@ + m@,
        CompositorError::Json(m) => "serialization error: "@ + m@,
    }
}

impl CompositorError {
    /// The message of the error, as the frontend receives it.
    pub fn message(&self) -> (r: String)
        ensures
            r@ == compositor_error_message(*self),
    {
        match self {
            CompositorError::SwayIpc(m) => crate::text::concat("sway IPC error: ", m),
            CompositorError::HyprlandIpc(m) => crate::text::concat("Hyprland IPC error: ", m),
            CompositorError::Disconnected => crate::text::owned("compositor connection lost"),
            CompositorError::Unsupported => crate::text::owned(
                "no supported compositor detected (set SWAYSOCK or HYPRLAND_INSTANCE_SIGNATURE)",
            ),
            CompositorError::TaskPanicked => crate::text::owned("background task panicked"),
            CompositorError::Io(m) => crate::text::concat("IO error: ", m),
            CompositorError::Json(m) => crate::text::concat("serialization error: ", m),
        }
    }
}

impl Window {
    /// A field-by-field copy of this window.
    pub fn duplicate(&self) -> (r: Window)
        ensures
            r == *self,
    {
        Window {
            id: self.id,
            title: self.title.clone(),
            app_id: crate::launcher::types::copy_opt_string(&self.app_id),
            workspace_id: self.workspace_id,
            output: crate::launcher::types::copy_opt_string(&self.output),
            focused: self.focused,
            floating: self.floating,
            fullscreen: self.fullscreen,
            pid: self.pid,
        }
    }
}

/// IEEE-754 bit pattern of the `f64` value 1.0.
pub open spec fn one_f64_bits() -> u64 {
    0x3FF0_0000_0000_0000
}


/// The ids of the windows on workspace `id`, in window order.
pub open spec fn window_ids_on(ws: Seq<WindowView>, id: i32) -> Seq<u64>
    decreases ws.len(),
{
    if ws.len() == 0 {
        Seq::empty()
    } else if ws.last().workspace_id == Some(id) {
        window_ids_on(ws.drop_last(), id).push(ws.last().id)
    } else {
        window_ids_on(ws.drop_last(), id)
    }
}

/// The first focused window.
pub open spec fn first_focused_window(ws: Seq<WindowView>) -> Option<WindowView>
    decreases ws.len(),
{
    if ws.len() == 0 {
        None
    } else {
        match first_focused_window(ws.drop_last()) {
            Some(w) => Some(w),
            None => if ws.last().focused {
                Some(ws.last())
            } else {
                None
            },
        }
    }
}

/// The ids of the windows on workspace `id`, in window order.
pub fn collect_window_ids(wins: &Vec<Window>, id: i32) -> (r: Vec<u64>)
    ensures
        r@ == window_ids_on(window_views(wins@), id),
{
    let mut r: Vec<u64> = Vec::new();
    let mut i: usize = 0;
    while i < wins.len()
        invariant
            i <= wins.len(),
            r@ == window_ids_on(window_views(wins@).take(i as int), id),
        decreases wins.len() - i,
    {
        proof {
            assert(window_views(wins@).take(i + 1).drop_last() =~= window_views(wins@).take(
                i as int,
            ));
        }
        if wins[i].workspace_id == Some(id) {
            r.push(wins[i].id);
        }
        i += 1;
    }
    proof {
        assert(window_views(wins@).take(wins.len() as int) =~= window_views(wins@));
    }
    r
}

/// A copy of the first focused window.
pub fn find_focused_window(wins: &Vec<Window>) -> (r: Option<Window>)
    ensures
        opt_window_view(r) == first_focused_window(window_views(wins@)),
{
    let ghost views = window_views(wins@);
    let mut i: usize = 0;
    while i < wins.len()
        invariant
            i <= wins.len(),
            views == window_views(wins@),
            first_focused_window(views.take(i as int)) is None,
        decreases wins.len() - i,
    {
        proof {
            assert(views.take(i + 1).drop_last() =~= views.take(i as int));
        }
        if wins[i].focused {
            proof {
                lemma_first_focused_window_prefix(views, i + 1);
            }
            return Some(wins[i].duplicate());
        }
        i += 1;
    }
    proof {
        assert(views.take(wins.len() as int) =~= views);
    }
    None
}

proof fn lemma_first_focused_window_prefix(ws: Seq<WindowView>, k: int)
    requires
        0 <= k <= ws.len(),
        first_focused_window(ws.take(k)) is Some,
    ensures
        first_focused_window(ws) == first_focused_window(ws.take(k)),
    decreases ws.len(),
{
    if k < ws.len() {
        assert(ws.drop_last().take(k) =~= ws.take(k));
        lemma_first_focused_window_prefix(ws.drop_last(), k);
    } else {
        assert(ws.take(k) =~= ws);
    }
}

} // verus!
