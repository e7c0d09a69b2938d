//! Hyprland backend logic: normalizing what Hyprland reports into the shared compositor
//! types, assembling a snapshot, turning listener callbacks into events, and choosing the
//! dispatch for each action.
use vstd::prelude::*;
use crate::compositor::hex::{address_text, address_value, hypr_address, parse_address};
use crate::compositor::types::{
    collect_window_ids, find_focused_window, first_focused_window, one_f64_bits, output_views,
    window_ids_on, window_views, workspace_views, CompositorAction, CompositorEvent,
    CompositorSnapshot, Output, OutputView, SnapshotView, Window, WindowView, Workspace,
    WorkspaceView,
};
use crate::launcher::types::opt_view;
use crate::text::{has_prefix, starts_with};

verus! {

/// What this crate reads of a Hyprland workspace.
#[derive(Debug)]
pub struct HyprWorkspaceInfo {
    pub id: i32,
    pub name: String,
    pub monitor: String,
}

/// What this crate reads of a Hyprland client (window).
#[derive(Debug)]
pub struct HyprClientInfo {
    /// Client address, e.g. `0x55f4a1b2c3d0`.
    pub address: String,
    pub title: String,
    pub class: String,
    pub workspace_id: i32,
    /// Id of the monitor the client is on.
    pub monitor: i128,
    pub floating: bool,
    pub fullscreen: bool,
    pub pid: i32,
}

/// What this crate reads of a Hyprland monitor. Refresh rate and scale are the IEEE-754
/// bit patterns of the `f64` values Hyprland reported.
#[derive(Debug)]
pub struct HyprMonitorInfo {
    pub id: u8,
    pub name: String,
    pub make: String,
    pub model: String,
    pub width: u16,
    pub height: u16,
    pub refresh_hz_bits: u64,
    pub x: i32,
    pub y: i32,
    pub scale_bits: u64,
    pub focused: bool,
    pub active_workspace_id: i32,
    /// Id of the special workspace shown on this monitor; 0 when none is.
    pub special_workspace_id: i32,
    pub special_workspace_name: String,
}

/// The prefix of Hyprland's special workspace names.
pub open spec fn special_prefix() -> Seq<char> {
    seq!['s', 'p', 'e', 'c', 'i', 'a', 'l', ':']
}

/// `Some(s)` unless `s` is empty.
pub open spec fn nonempty(s: String) -> Option<Seq<char>> {
    if s@.len() == 0 {
        None
    } else {
        Some(s@)
    }
}

fn nonempty_copy(s: &String) -> (r: Option<String>)
    ensures
        opt_view(r) == nonempty(*s),
{
    if s.unicode_len() == 0 {
        None
    } else {
        Some(s.clone())
    }
}

fn has_special_prefix(s: &str) -> (r: bool)
    ensures
        r == has_prefix(s@, special_prefix()),
{
    proof {
        reveal_strlit("special:");
        assert("special:"@ =~= special_prefix());
    }
    starts_with(s, "special:")
}

/// The normalized form of a Hyprland workspace, before the snapshot fills in focus and
/// windows.
pub open spec fn hypr_workspace_view(ws: HyprWorkspaceInfo) -> WorkspaceView {
    WorkspaceView {
        id: ws.id,
        name: ws.name@,
        output: Some(ws.monitor@),
        focused: false,
        urgent: false,
        is_special: ws.id < 0 || has_prefix(ws.name@, special_prefix()),
        window_ids: Seq::empty(),
    }
}

/// Converts a Hyprland workspace. Special workspaces (negative id, `special:` names) are
/// flagged; Hyprland reports no urgency.
pub fn workspace_from_hyprland(ws: &HyprWorkspaceInfo) -> (r: Workspace)
    ensures
        r@ == hypr_workspace_view(*ws),
{
    let is_special = ws.id < 0 || has_special_prefix(&ws.name);
    let r = Workspace {
        id: ws.id,
        name: ws.name.clone(),
        output: Some(ws.monitor.clone()),
        focused: false,
        urgent: false,
        is_special,
        window_ids: Vec::new(),
    };
    proof {
        assert(r@.window_ids =~= Seq::<u64>::empty());
    }
    r
}

/// The normalized form of a Hyprland monitor.
pub open spec fn hypr_output(m: HyprMonitorInfo) -> OutputView {
    OutputView {
        name: m.name@,
        make: nonempty(m.make),
        model: nonempty(m.model),
        width: m.width as u32,
        height: m.height as u32,
        refresh_hz_bits: m.refresh_hz_bits,
        x: m.x,
        y: m.y,
        active: true,
        scale_bits: m.scale_bits,
        focused: m.focused,
    }
}

/// Converts a Hyprland monitor; Hyprland only reports active monitors.
pub fn output_from_hyprland(m: &HyprMonitorInfo) -> (r: Output)
    ensures
        r@ == hypr_output(*m),
{
    Output {
        name: m.name.clone(),
        make: nonempty_copy(&m.make),
        model: nonempty_copy(&m.model),
        width: m.width as u32,
        height: m.height as u32,
        refresh_hz_bits: m.refresh_hz_bits,
        x: m.x,
        y: m.y,
        active: true,
        scale_bits: m.scale_bits,
        focused: m.focused,
    }
}

/// The normalized form of a Hyprland client, before the snapshot fills in its output and
/// focus. The id is the client address read as a hexadecimal number.
pub open spec fn hypr_window(c: HyprClientInfo) -> WindowView {
    WindowView {
        id: address_value(c.address@),
        title: c.title@,
        app_id: nonempty(c.class),
        workspace_id: Some(c.workspace_id),
        output: None,
        focused: false,
        floating: c.floating,
        fullscreen: c.fullscreen,
        pid: Some(c.pid as u32),
    }
}

/// Converts a Hyprland client.
pub fn window_from_hyprland(c: &HyprClientInfo) -> (r: Window)
    ensures
        r@ == hypr_window(*c),
{
    Window {
        id: parse_address(&c.address),
        title: c.title.clone(),
        app_id: nonempty_copy(&c.class),
        workspace_id: Some(c.workspace_id),
        output: None,
        focused: false,
        floating: c.floating,
        fullscreen: c.fullscreen,
        pid: Some(c.pid as u32),
    }
}

// ── Snapshot ──────────────────────────────────────────────────────────────────

/// The index of the first focused monitor.
pub open spec fn first_focused_monitor(ms: Seq<HyprMonitorInfo>) -> Option<int>
    decreases ms.len(),
{
    if ms.len() == 0 {
        None
    } else {
        match first_focused_monitor(ms.drop_last()) {
            Some(i) => Some(i),
            None => if ms.last().focused {
                Some(ms.len() - 1)
            } else {
                None
            },
        }
    }
}

/// The active workspace of the first focused monitor.
pub open spec fn active_workspace_of(ms: Seq<HyprMonitorInfo>) -> Option<i32> {
    match first_focused_monitor(ms) {
        Some(i) => Some(ms[i].active_workspace_id),
        None => None,
    }
}

/// The name of the last monitor with id `id` (a map from id to name built in monitor
/// order keeps the last one).
pub open spec fn monitor_name(ms: Seq<HyprMonitorInfo>, id: u8) -> Option<Seq<char>>
    decreases ms.len(),
{
    if ms.len() == 0 {
        None
    } else if ms.last().id == id {
        Some(ms.last().name@)
    } else {
        monitor_name(ms.drop_last(), id)
    }
}

/// A client as it stands in a snapshot: on the output named by its monitor id, focused
/// when its address is the active client's.
pub open spec fn snapshot_window(
    c: HyprClientInfo,
    ms: Seq<HyprMonitorInfo>,
    active: Option<String>,
) -> WindowView {
    WindowView {
        output: monitor_name(ms, c.monitor as u8),
        focused: match active {
            Some(a) => a@ == c.address@,
            None => false,
        },
        ..hypr_window(c)
    }
}

/// The windows of a snapshot, in client order.
pub open spec fn snapshot_windows(
    cs: Seq<HyprClientInfo>,
    ms: Seq<HyprMonitorInfo>,
    active: Option<String>,
) -> Seq<WindowView> {
    Seq::new(cs.len(), |i: int| snapshot_window(cs[i], ms, active))
}

/// A listed workspace as it stands in a snapshot.
pub open spec fn snapshot_workspace(
    ws: HyprWorkspaceInfo,
    active_ws: Option<i32>,
    wins: Seq<WindowView>,
) -> WorkspaceView {
    WorkspaceView {
        focused: active_ws == Some(ws.id),
        window_ids: window_ids_on(wins, ws.id),
        ..hypr_workspace_view(ws)
    }
}

/// The special workspace shown on monitor `m`, as it stands in a snapshot.
pub open spec fn special_workspace(m: HyprMonitorInfo, wins: Seq<WindowView>) -> WorkspaceView {
    WorkspaceView {
        id: m.special_workspace_id,
        name: m.special_workspace_name@,
        output: Some(m.name@),
        focused: false,
        urgent: false,
        is_special: true,
        window_ids: window_ids_on(wins, m.special_workspace_id),
    }
}

/// The special workspaces shown on the monitors (id not 0), in monitor order.
pub open spec fn special_workspaces(ms: Seq<HyprMonitorInfo>, wins: Seq<WindowView>) -> Seq<
    WorkspaceView,
>
    decreases ms.len(),
{
    if ms.len() == 0 {
        Seq::empty()
    } else if ms.last().special_workspace_id != 0 {
        special_workspaces(ms.drop_last(), wins).push(special_workspace(ms.last(), wins))
    } else {
        special_workspaces(ms.drop_last(), wins)
    }
}

/// The snapshot assembled from Hyprland's workspace, client and monitor lists and the
/// address of the active client.
pub open spec fn hypr_snapshot_view(
    wss: Seq<HyprWorkspaceInfo>,
    cs: Seq<HyprClientInfo>,
    ms: Seq<HyprMonitorInfo>,
    active: Option<String>,
) -> SnapshotView {
    let active_ws = active_workspace_of(ms);
    let wins = snapshot_windows(cs, ms, active);
    SnapshotView {
        workspaces: Seq::new(wss.len(), |i: int| snapshot_workspace(wss[i], active_ws, wins))
            + special_workspaces(ms, wins),
        windows: wins,
        outputs: Seq::new(ms.len(), |i: int| hypr_output(ms[i])),
        focused_window: first_focused_window(wins),
        active_workspace_id: active_ws,
    }
}

fn find_active_workspace(ms: &Vec<HyprMonitorInfo>) -> (r: Option<i32>)
    ensures
        r == active_workspace_of(ms@),
{
    let mut i: usize = 0;
    while i < ms.len()
        invariant
            i <= ms.len(),
            first_focused_monitor(ms@.take(i as int)) is None,
        decreases ms.len() - i,
    {
        proof {
            assert(ms@.take(i + 1).drop_last() =~= ms@.take(i as int));
        }
        if ms[i].focused {
            proof {
                lemma_first_focused_prefix(ms@, i + 1);
            }
            return Some(ms[i].active_workspace_id);
        }
        i += 1;
    }
    proof {
        assert(ms@.take(ms.len() as int) =~= ms@);
    }
    None
}

proof fn lemma_first_focused_prefix(ms: Seq<HyprMonitorInfo>, k: int)
    requires
        0 <= k <= ms.len(),
        first_focused_monitor(ms.take(k)) is Some,
    ensures
        first_focused_monitor(ms) == first_focused_monitor(ms.take(k)),
    decreases ms.len(),
{
    if k < ms.len() {
        assert(ms.drop_last().take(k) =~= ms.take(k));
        lemma_first_focused_prefix(ms.drop_last(), k);
    } else {
        assert(ms.take(k) =~= ms);
    }
}

fn lookup_monitor_name(ms: &Vec<HyprMonitorInfo>, id: u8) -> (r: Option<String>)
    ensures
        opt_view(r) == monitor_name(ms@, id),
{
    let mut r: Option<String> = None;
    let mut i: usize = 0;
    while i < ms.len()
        invariant
            i <= ms.len(),
            opt_view(r) == monitor_name(ms@.take(i as int), id),
        decreases ms.len() - i,
    {
        proof {
            assert(ms@.take(i + 1).drop_last() =~= ms@.take(i as int));
        }
        if ms[i].id == id {
            r = Some(ms[i].name.clone());
        }
        i += 1;
    }
    proof {
        assert(ms@.take(ms.len() as int) =~= ms@);
    }
    r
}

fn address_is(active: &Option<String>, address: &String) -> (r: bool)
    ensures
        r == match *active {
            Some(a) => a@ == address@,
            None => false,
        },
{
    match active {
        Some(a) => crate::text::str_eq(a, address),
        None => false,
    }
}

/// Assembles a snapshot from Hyprland's workspace, client and monitor lists and the address
/// of the active client: each listed workspace is focused when it is the focused monitor's
/// active workspace; each monitor's special workspace (id not 0) follows the listed ones;
/// each window carries the name of its monitor and is focused when its address is the
/// active one; each workspace lists the ids of the windows on it.
pub fn hypr_snapshot(
    workspaces: &Vec<HyprWorkspaceInfo>,
    clients: &Vec<HyprClientInfo>,
    monitors: &Vec<HyprMonitorInfo>,
    active_address: Option<String>,
) -> (r: CompositorSnapshot)
    ensures
        r@ == hypr_snapshot_view(workspaces@, clients@, monitors@, active_address),
{
    let ghost spec_view = hypr_snapshot_view(workspaces@, clients@, monitors@, active_address);
    let active_ws = find_active_workspace(monitors);

    let mut outputs: Vec<Output> = Vec::new();
    let mut i: usize = 0;
    while i < monitors.len()
        invariant
            i <= monitors.len(),
            output_views(outputs@) == Seq::new(i as nat, |k: int| hypr_output(monitors@[k])),
        decreases monitors.len() - i,
    {
        let o = output_from_hyprland(&monitors[i]);
        let ghost before = outputs@;
        outputs.push(o);
        proof {
            assert(output_views(outputs@) =~= output_views(before).push(o@));
            assert(output_views(outputs@) =~= Seq::new(
                (i + 1) as nat,
                |k: int| hypr_output(monitors@[k]),
            ));
        }
        i += 1;
    }

    let ghost wins_spec = snapshot_windows(clients@, monitors@, active_address);
    let mut windows: Vec<Window> = Vec::new();
    let mut i: usize = 0;
    while i < clients.len()
        invariant
            i <= clients.len(),
            window_views(windows@) == wins_spec.take(i as int),
            wins_spec == snapshot_windows(clients@, monitors@, active_address),
        decreases clients.len() - i,
    {
        let c = &clients[i];
        let mut w = window_from_hyprland(c);
        w.output = lookup_monitor_name(monitors, #[verifier::truncate] (c.monitor as u8));
        w.focused = address_is(&active_address, &c.address);
        let ghost before = windows@;
        windows.push(w);
        proof {
            assert(window_views(windows@) =~= window_views(before).push(w@));
            assert(wins_spec.take(i + 1) =~= wins_spec.take(i as int).push(wins_spec[i as int]));
            assert(window_views(windows@) =~= wins_spec.take(i + 1));
        }
        i += 1;
    }
    proof {
        assert(wins_spec.take(clients.len() as int) =~= wins_spec);
    }

    let ghost listed = Seq::new(
        workspaces@.len(),
        |k: int| snapshot_workspace(workspaces@[k], active_ws, wins_spec),
    );
    let mut wss: Vec<Workspace> = Vec::new();
    let mut i: usize = 0;
    while i < workspaces.len()
        invariant
            i <= workspaces.len(),
            window_views(windows@) == wins_spec,
            active_ws == active_workspace_of(monitors@),
            listed == Seq::new(
                workspaces@.len(),
                |k: int| snapshot_workspace(workspaces@[k], active_ws, wins_spec),
            ),
            workspace_views(wss@) == listed.take(i as int),
        decreases workspaces.len() - i,
    {
        let ws = &workspaces[i];
        let mut nws = workspace_from_hyprland(ws);
        nws.focused = active_ws == Some(ws.id);
        nws.window_ids = collect_window_ids(&windows, ws.id);
        proof {
            assert(nws@ == snapshot_workspace(workspaces@[i as int], active_ws, wins_spec));
        }
        let ghost old_wss = wss@;
        wss.push(nws);
        proof {
            assert(wss@ == old_wss.push(nws));
            assert(workspace_views(wss@) =~= workspace_views(old_wss).push(nws@));
            assert(workspace_views(wss@) =~= listed.take(i + 1));
        }
        i += 1;
    }
    proof {
        assert(listed.take(workspaces.len() as int) =~= listed);
    }

    let mut i: usize = 0;
    while i < monitors.len()
        invariant
            i <= monitors.len(),
            window_views(windows@) == wins_spec,
            workspace_views(wss@) == listed + special_workspaces(monitors@.take(i as int), wins_spec),
        decreases monitors.len() - i,
    {
        let m = &monitors[i];
        proof {
            assert(monitors@.take(i + 1).drop_last() =~= monitors@.take(i as int));
        }
        if m.special_workspace_id != 0 {
            proof {
                assert(monitors@.take(i + 1).last() == monitors@[i as int]);
            }
            let ids = collect_window_ids(&windows, m.special_workspace_id);
            let sp = Workspace {
                id: m.special_workspace_id,
                name: m.special_workspace_name.clone(),
                output: Some(m.name.clone()),
                focused: false,
                urgent: false,
                is_special: true,
                window_ids: ids,
            };
            let ghost old_wss = wss@;
            wss.push(sp);
            proof {
                assert(sp@ == special_workspace(monitors@[i as int], wins_spec));
                assert(workspace_views(wss@) =~= workspace_views(old_wss).push(sp@));
                assert(special_workspaces(monitors@.take(i + 1), wins_spec) == special_workspaces(
                    monitors@.take(i as int),
                    wins_spec,
                ).push(sp@));
                assert(workspace_views(wss@) =~= listed + special_workspaces(
                    monitors@.take(i + 1),
                    wins_spec,
                ));
            }
        } else {
            proof {
                assert(monitors@.take(i + 1).last() == monitors@[i as int]);
            }
        }
        i += 1;
    }
    proof {
        assert(monitors@.take(monitors.len() as int) =~= monitors@);
    }

    let focused_window = find_focused_window(&windows);
    let r = CompositorSnapshot {
        workspaces: wss,
        windows,
        outputs,
        focused_window,
        active_workspace_id: active_ws,
    };
    proof {
        assert(r@.workspaces =~= spec_view.workspaces);
        assert(r@.outputs =~= spec_view.outputs);
        assert(r@.windows =~= spec_view.windows);
    }
    r
}

// ── Events ────────────────────────────────────────────────────────────────────

/// An event as Hyprland's event listener reports it; each variant maps to one listener
/// callback.
#[derive(Debug)]
pub enum HyprRawEvent {
    WorkspaceChanged(String),
    WorkspaceAdded(String),
    WorkspaceDeleted(String),
    ActiveWindowChanged { class: String, title: String, address: String },
    WindowOpened { address: String, workspace_name: String, class: String, title: String },
    WindowClosed(String),
    WindowMoved { address: String, workspace_name: String },
    WindowTitleChanged(String),
    MonitorAdded(String),
    MonitorRemoved(String),
}

/// A workspace known only by name (Hyprland's workspace events carry nothing else): id 0,
/// no output, no windows.
pub open spec fn named_workspace(name: String, focused: bool) -> WorkspaceView {
    WorkspaceView {
        id: 0,
        name: name@,
        output: None,
        focused: focused,
        urgent: false,
        is_special: has_prefix(name@, special_prefix()),
        window_ids: Seq::empty(),
    }
}

/// A window known only by address and, where the event gives them, title and class.
pub open spec fn event_window(
    address: Seq<char>,
    title: Seq<char>,
    app_id: Option<Seq<char>>,
    focused: bool,
) -> WindowView {
    WindowView {
        id: address_value(address),
        title: title,
        app_id: app_id,
        workspace_id: None,
        output: None,
        focused: focused,
        floating: false,
        fullscreen: false,
        pid: None,
    }
}

/// An output known only by name: active, nothing measured, scale 1.
pub open spec fn named_output(name: String) -> OutputView {
    OutputView {
        name: name@,
        make: None,
        model: None,
        width: 0,
        height: 0,
        refresh_hz_bits: 0,
        x: 0,
        y: 0,
        active: true,
        scale_bits: one_f64_bits(),
        focused: false,
    }
}

/// The normalized event for a Hyprland listener event.
pub open spec fn hypr_event_is(raw: HyprRawEvent, e: CompositorEvent) -> bool {
    match raw {
        HyprRawEvent::WorkspaceChanged(name) => e matches CompositorEvent::WorkspaceChanged {
            workspace,
        } && workspace@ == named_workspace(name, true),
        HyprRawEvent::WorkspaceAdded(name) => e matches CompositorEvent::WorkspaceAdded {
            workspace,
        } && workspace@ == named_workspace(name, false),
        HyprRawEvent::WorkspaceDeleted(_) => e == CompositorEvent::WorkspaceRemoved {
            workspace_id: 0,
        },
        HyprRawEvent::ActiveWindowChanged { class, title, address } => e matches CompositorEvent::WindowFocused {
            window,
        } && window@ == event_window(address@, title@, Some(class@), true),
        HyprRawEvent::WindowOpened { address, class, title, .. } => e matches CompositorEvent::WindowOpened {
            window,
        } && window@ == event_window(address@, title@, Some(class@), false),
        HyprRawEvent::WindowClosed(address) => e == CompositorEvent::WindowClosed {
            window_id: address_value(address@),
        },
        HyprRawEvent::WindowMoved { address, .. } => e matches CompositorEvent::WindowMoved {
            window,
        } && window@ == event_window(address@, Seq::empty(), None, false),
        HyprRawEvent::WindowTitleChanged(address) => e matches CompositorEvent::WindowTitleChanged {
            window,
        } && window@ == event_window(address@, Seq::empty(), None, false),
        HyprRawEvent::MonitorAdded(name) => e matches CompositorEvent::OutputAdded { output }
            && output@ == named_output(name),
        HyprRawEvent::MonitorRemoved(name) => e == CompositorEvent::OutputRemoved { name: name },
    }
}

fn named_workspace_of(name: String, focused: bool) -> (r: Workspace)
    ensures
        r@ == named_workspace(name, focused),
{
    let is_special = has_special_prefix(&name);
    let r = Workspace {
        id: 0,
        name,
        output: None,
        focused,
        urgent: false,
        is_special,
        window_ids: Vec::new(),
    };
    proof {
        assert(r@.window_ids =~= Seq::<u64>::empty());
    }
    r
}

fn bare_window(address: &str) -> (r: Window)
    ensures
        r@ == event_window(address@, Seq::empty(), None, false),
{
    Window {
        id: parse_address(address),
        title: String::new(),
        app_id: None,
        workspace_id: None,
        output: None,
        focused: false,
        floating: false,
        fullscreen: false,
        pid: None,
    }
}

/// Normalizes a Hyprland listener event. Workspace events carry only a name, so their
/// workspace has id 0 (the frontend re-syncs from a snapshot); a closed, moved or retitled
/// window is known by its address alone.
pub fn event_from_hypr(raw: HyprRawEvent) -> (r: CompositorEvent)
    ensures
        hypr_event_is(raw, r),
{
    match raw {
        HyprRawEvent::WorkspaceChanged(name) => CompositorEvent::WorkspaceChanged {
            workspace: named_workspace_of(name, true),
        },
        HyprRawEvent::WorkspaceAdded(name) => CompositorEvent::WorkspaceAdded {
            workspace: named_workspace_of(name, false),
        },
        HyprRawEvent::WorkspaceDeleted(_) => CompositorEvent::WorkspaceRemoved { workspace_id: 0 },
        HyprRawEvent::ActiveWindowChanged { class, title, address } => {
            CompositorEvent::WindowFocused {
                window: Window {
                    id: parse_address(&address),
                    title,
                    app_id: Some(class),
                    workspace_id: None,
                    output: None,
                    focused: true,
                    floating: false,
                    fullscreen: false,
                    pid: None,
                },
            }
        },
        HyprRawEvent::WindowOpened { address, class, title, .. } => {
            CompositorEvent::WindowOpened {
                window: Window {
                    id: parse_address(&address),
                    title,
                    app_id: Some(class),
                    workspace_id: None,
                    output: None,
                    focused: false,
                    floating: false,
                    fullscreen: false,
                    pid: None,
                },
            }
        },
        HyprRawEvent::WindowClosed(address) => CompositorEvent::WindowClosed {
            window_id: parse_address(&address),
        },
        HyprRawEvent::WindowMoved { address, .. } => CompositorEvent::WindowMoved {
            window: bare_window(&address),
        },
        HyprRawEvent::WindowTitleChanged(address) => CompositorEvent::WindowTitleChanged {
            window: bare_window(&address),
        },
        HyprRawEvent::MonitorAdded(name) => CompositorEvent::OutputAdded {
            output: Output {
                name,
                make: None,
                model: None,
                width: 0,
                height: 0,
                refresh_hz_bits: 0,
                x: 0,
                y: 0,
                active: true,
                scale_bits: 0x3FF0_0000_0000_0000u64,
                focused: false,
            },
        },
        HyprRawEvent::MonitorRemoved(name) => CompositorEvent::OutputRemoved { name },
    }
}

// ── Dispatch ──────────────────────────────────────────────────────────────────

/// A Hyprland dispatcher call; windows are named by address.
#[derive(Debug)]
pub enum HyprDispatch {
    Workspace { id: i32 },
    FocusWindow { address: String },
    MoveToWorkspaceSilent { workspace_id: i32, address: String },
    CloseWindow { address: String },
    ToggleFloating { address: String },
    /// Toggles real fullscreen of the window at `address`.
    ToggleFullscreen { address: String },
    Exec { command: String },
}

/// The dispatcher call that performs `action`; `None` for a layout change, which Hyprland
/// does not offer.
pub open spec fn hypr_dispatch_is(action: CompositorAction, d: Option<HyprDispatch>) -> bool {
    match action {
        CompositorAction::FocusWorkspace { id } => d == Some(HyprDispatch::Workspace { id }),
        CompositorAction::FocusWindow { id } => d matches Some(HyprDispatch::FocusWindow { address })
            && address@ == address_text(id),
        CompositorAction::MoveWindowToWorkspace { window_id, workspace_id } => d matches Some(
            HyprDispatch::MoveToWorkspaceSilent { workspace_id: w, address },
        ) && w == workspace_id && address@ == address_text(window_id),
        CompositorAction::CloseWindow { id } => d matches Some(HyprDispatch::CloseWindow { address })
            && address@ == address_text(id),
        CompositorAction::ToggleFloating { id } => d matches Some(
            HyprDispatch::ToggleFloating { address },
        ) && address@ == address_text(id),
        CompositorAction::ToggleFullscreen { id } => d matches Some(
            HyprDispatch::ToggleFullscreen { address },
        ) && address@ == address_text(id),
        CompositorAction::Exec { command } => d == Some(HyprDispatch::Exec { command }),
        CompositorAction::SetLayout { .. } => d is None,
    }
}

/// The Hyprland dispatcher call for a compositor action.
pub fn hypr_dispatch_for(action: CompositorAction) -> (r: Option<HyprDispatch>)
    ensures
        hypr_dispatch_is(action, r),
{
    match action {
        CompositorAction::FocusWorkspace { id } => Some(HyprDispatch::Workspace { id }),
        CompositorAction::FocusWindow { id } => Some(
            HyprDispatch::FocusWindow { address: hypr_address(id) },
        ),
        CompositorAction::MoveWindowToWorkspace { window_id, workspace_id } => Some(
            HyprDispatch::MoveToWorkspaceSilent { workspace_id, address: hypr_address(window_id) },
        ),
        CompositorAction::CloseWindow { id } => Some(
            HyprDispatch::CloseWindow { address: hypr_address(id) },
        ),
        CompositorAction::ToggleFloating { id } => Some(
            HyprDispatch::ToggleFloating { address: hypr_address(id) },
        ),
        CompositorAction::ToggleFullscreen { id } => Some(
            HyprDispatch::ToggleFullscreen { address: hypr_address(id) },
        ),
        CompositorAction::Exec { command } => Some(HyprDispatch::Exec { command }),
        CompositorAction::SetLayout { .. } => None,
    }
}


/// A focus event names the focused window by the event's address, with the event's title
/// as its title and the event's class as its app id; an opened window likewise, unfocused.
pub proof fn lemma_window_events_carry_title_and_class(
    class: String,
    title: String,
    address: String,
    workspace_name: String,
    e: CompositorEvent,
    f: CompositorEvent,
)
    requires
        hypr_event_is(HyprRawEvent::ActiveWindowChanged { class, title, address }, e),
        hypr_event_is(HyprRawEvent::WindowOpened { address, workspace_name, class, title }, f),
    ensures
        e matches CompositorEvent::WindowFocused { window } && window@.title == title@
            && window@.app_id == Some(class@) && window@.focused && window@.id == address_value(
            address@,
        ),
        f matches CompositorEvent::WindowOpened { window } && window@.title == title@
            && window@.app_id == Some(class@) && !window@.focused && window@.id == address_value(
            address@,
        ),
{
}

} // verus!
