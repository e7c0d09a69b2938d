use mantle::compositor::hex::{hypr_address, parse_address};
use mantle::compositor::hypr_ipc::{
    focused_from_activewindow, focused_window_from_active, hypr_dispatch_command, hypr_line_action,
    next_backoff_secs, socket_path, split_at_first_comma, workspace_state_from_hyprland,
    HyprLineAction, RawHyprWorkspace,
};
use mantle::compositor::hyprland::{
    event_from_hypr, hypr_dispatch_for, hypr_snapshot, output_from_hyprland, window_from_hyprland,
    workspace_from_hyprland, HyprClientInfo, HyprDispatch, HyprMonitorInfo, HyprRawEvent,
    HyprWorkspaceInfo,
};
use mantle::compositor::supervisor::{backoff, next_retry, session_end, MAX_BACKOFF_MILLIS};
use mantle::compositor::sway::{
    collect_windows, event_from_sway, output_from_sway, sway_command, sway_snapshot,
    window_from_node, workspace_from_sway, SwayEvent, SwayModeInfo, SwayNode, SwayNodeType,
    SwayOutputInfo, SwayWindowChange, SwayWorkspaceInfo,
};
use mantle::compositor::sway_ipc::{
    decode_header, encode_message, find_focused_window, is_empty_representation, sway_reaction,
    subscription_accepted, sway_workspace_state, SwayRawWorkspace, SwayTreeNode, EVT_WINDOW,
    EVT_WORKSPACE, MSG_GET_WORKSPACES,
};
use mantle::compositor::types::{
    backend_name, detect_from, CompositorAction, CompositorError, CompositorEvent, Detected,
};

fn hypr_workspace(id: i32, name: &str, monitor: &str) -> HyprWorkspaceInfo {
    HyprWorkspaceInfo { id, name: name.to_string(), monitor: monitor.to_string() }
}

fn hypr_monitor() -> HyprMonitorInfo {
    HyprMonitorInfo {
        id: 0,
        name: "eDP-1".to_string(),
        make: "LG".to_string(),
        model: "LG IPS".to_string(),
        width: 1920,
        height: 1080,
        refresh_hz_bits: 60.0f64.to_bits(),
        x: 0,
        y: 0,
        scale_bits: 1.0f64.to_bits(),
        focused: true,
        active_workspace_id: 1,
        special_workspace_id: 0,
        special_workspace_name: String::new(),
    }
}

fn hypr_client() -> HyprClientInfo {
    HyprClientInfo {
        address: "0x00000000002a".to_string(),
        title: "My Window".to_string(),
        class: "firefox".to_string(),
        workspace_id: 1,
        monitor: 0,
        floating: false,
        fullscreen: false,
        pid: 1234,
    }
}

#[test]
fn activewindow_event_splits_at_first_comma() {
    let data = "firefox,mozilla - GitHub, Inc.";
    let (class, title) = split_at_first_comma(data).unwrap();
    assert_eq!(class, "firefox");
    assert_eq!(title, "mozilla - GitHub, Inc.");
}

#[test]
fn activewindow_event_title_preserves_commas() {
    let data = "kitty,nvim: src/main.rs, 120:5";
    let (class, title) = split_at_first_comma(data).unwrap();
    assert_eq!(class, "kitty");
    assert_eq!(title, "nvim: src/main.rs, 120:5");
}

#[test]
fn activewindow_event_no_comma_yields_default() {
    let focused = focused_from_activewindow("");
    assert!(focused.title.is_none());
    assert!(focused.app_id.is_none());
}

#[test]
fn workspace_empty_when_windows_zero() {
    let raw = vec![RawHyprWorkspace {
        id: 1,
        name: "1".to_string(),
        monitor: "eDP-1".to_string(),
        windows: 0,
    }];
    let state = workspace_state_from_hyprland(&raw, None, None);
    assert!(state.workspaces[0].empty);
}

#[test]
fn activewindow_empty_object_is_default() {
    let f = focused_window_from_active(false, Some("t".to_string()), Some("c".to_string()));
    assert!(f.title.is_none());
    assert!(f.app_id.is_none());
}

#[test]
fn workspace_basic() {
    let ws = workspace_from_hyprland(&hypr_workspace(1, "1", "eDP-1"));
    assert_eq!(ws.id, 1);
    assert_eq!(ws.name, "1");
    assert_eq!(ws.output.as_deref(), Some("eDP-1"));
    assert!(!ws.is_special);
}

#[test]
fn special_workspace_detected() {
    let ws = workspace_from_hyprland(&hypr_workspace(-99, "special:magic", "eDP-1"));
    assert!(ws.is_special);
    assert!(ws.id < 0);
    assert!(ws.name.starts_with("special:"));
}

#[test]
fn output_from_monitor() {
    let o = output_from_hyprland(&hypr_monitor());
    assert_eq!(o.name, "eDP-1");
    assert_eq!(o.width, 1920);
    assert_eq!(o.height, 1080);
    assert_eq!(f64::from_bits(o.refresh_hz_bits), 60.0);
    assert!(o.focused);
    assert_eq!(f64::from_bits(o.scale_bits), 1.0);
}

#[test]
fn window_from_client() {
    let w = window_from_hyprland(&hypr_client());
    assert_eq!(w.id, 42);
    assert_eq!(w.title, "My Window");
    assert_eq!(w.app_id.as_deref(), Some("firefox"));
    assert_eq!(w.workspace_id, Some(1));
    assert!(!w.floating);
    assert!(!w.fullscreen);
}

#[test]
fn parse_address_strips_prefix() {
    assert_eq!(parse_address("0x2a"), 42);
    assert_eq!(parse_address("2a"), 42);
    assert_eq!(parse_address("0x0"), 0);
}

#[test]
fn parse_address_rejects_garbage_and_overflow() {
    assert_eq!(parse_address("0xzz"), 0);
    assert_eq!(parse_address(""), 0);
    assert_eq!(parse_address("0x"), 0);
    assert_eq!(parse_address("0x+ff"), 255);
    assert_eq!(parse_address("0x1ffffffffffffffff"), 0);
    assert_eq!(parse_address("0xFFFFFFFFFFFFFFFF"), u64::MAX);
}

#[test]
fn address_round_trips() {
    for id in [0u64, 1, 42, 0x55f4_a1b2_c3d0, u64::MAX] {
        let a = hypr_address(id);
        assert_eq!(a, format!("0x{id:x}"));
        assert_eq!(parse_address(&a), id);
    }
}

#[test]
fn backoff_caps_at_max() {
    assert!(backoff(20) <= MAX_BACKOFF_MILLIS);
}

#[test]
fn backoff_increases() {
    assert!(backoff(1) < backoff(2));
    assert!(backoff(2) < backoff(3));
}

#[test]
fn backoff_exact_values() {
    assert_eq!(backoff(0), 100);
    assert_eq!(backoff(1), 200);
    assert_eq!(backoff(2), 400);
    assert_eq!(backoff(3), 800);
    assert_eq!(backoff(6), 6400);
    assert_eq!(backoff(7), 30000);
    assert_eq!(backoff(8), 30000);
    assert_eq!(backoff(u32::MAX), MAX_BACKOFF_MILLIS);
    let plan = next_retry(u32::MAX);
    assert_eq!(plan.attempt, u32::MAX);
    let plan = next_retry(0);
    assert_eq!(plan.attempt, 1);
    assert_eq!(plan.delay_millis, 200);
}

#[test]
fn hyprland_event_loop_backoff_doubles_to_thirty() {
    assert_eq!(next_backoff_secs(1), 2);
    assert_eq!(next_backoff_secs(8), 16);
    assert_eq!(next_backoff_secs(16), 30);
    assert_eq!(next_backoff_secs(30), 30);
}

#[test]
fn hyprland_dispatch_command_is_prefixed() {
    assert_eq!(hypr_dispatch_command("workspace 1"), "dispatch workspace 1");
}

#[test]
fn hyprland_event_lines_are_routed() {
    assert!(matches!(hypr_line_action("workspace>>2"), HyprLineAction::RefreshWorkspaces));
    assert!(matches!(hypr_line_action("openwindow>>abc,1,kitty,t"), HyprLineAction::RefreshWorkspaces));
    assert!(matches!(hypr_line_action("closewindow>>abc"), HyprLineAction::RefreshWorkspaces));
    assert!(matches!(hypr_line_action("activewindowv2>>abc"), HyprLineAction::Ignore));
    match hypr_line_action("activewindow>>kitty,vim a, b") {
        HyprLineAction::Focus(f) => {
            assert_eq!(f.app_id.as_deref(), Some("kitty"));
            assert_eq!(f.title.as_deref(), Some("vim a, b"));
        }
        _ => panic!("expected a focus change"),
    }
}

#[test]
fn hyprland_workspace_state_marks_focus() {
    let raw = vec![
        RawHyprWorkspace { id: 1, name: "1".to_string(), monitor: "DP-1".to_string(), windows: 2 },
        RawHyprWorkspace { id: 2, name: "2".to_string(), monitor: "DP-2".to_string(), windows: 0 },
    ];
    let s = workspace_state_from_hyprland(&raw, Some(2), Some("DP-2".to_string()));
    assert!(!s.workspaces[0].focused);
    assert!(s.workspaces[1].focused);
    assert!(!s.workspaces[0].empty);
    assert_eq!(s.focused_output.as_deref(), Some("DP-2"));
}

#[test]
fn hyprland_snapshot_wires_windows_and_focus() {
    let mut m = hypr_monitor();
    m.special_workspace_id = -98;
    m.special_workspace_name = "special:scratch".to_string();
    let mut c2 = hypr_client();
    c2.address = "0x10".to_string();
    c2.workspace_id = -98;
    let snap = hypr_snapshot(
        &vec![hypr_workspace(1, "1", "eDP-1"), hypr_workspace(2, "2", "eDP-1")],
        &vec![hypr_client(), c2],
        &vec![m],
        Some("0x10".to_string()),
    );
    assert_eq!(snap.active_workspace_id, Some(1));
    assert_eq!(snap.workspaces.len(), 3);
    assert!(snap.workspaces[0].focused);
    assert_eq!(snap.workspaces[0].window_ids, vec![42]);
    assert!(snap.workspaces[1].window_ids.is_empty());
    assert!(snap.workspaces[2].is_special);
    assert_eq!(snap.workspaces[2].window_ids, vec![16]);
    assert_eq!(snap.windows[0].output.as_deref(), Some("eDP-1"));
    assert_eq!(snap.focused_window.as_ref().map(|w| w.id), Some(16));
    assert_eq!(snap.outputs.len(), 1);
}

#[test]
fn hyprland_events_are_normalized() {
    match event_from_hypr(HyprRawEvent::WorkspaceChanged("special:x".to_string())) {
        CompositorEvent::WorkspaceChanged { workspace } => {
            assert_eq!(workspace.id, 0);
            assert!(workspace.focused);
            assert!(workspace.is_special);
        }
        _ => panic!("wrong event"),
    }
    match event_from_hypr(HyprRawEvent::WindowClosed("0x2a".to_string())) {
        CompositorEvent::WindowClosed { window_id } => assert_eq!(window_id, 42),
        _ => panic!("wrong event"),
    }
    match event_from_hypr(HyprRawEvent::MonitorAdded("HDMI-A-1".to_string())) {
        CompositorEvent::OutputAdded { output } => {
            assert_eq!(output.name, "HDMI-A-1");
            assert_eq!(f64::from_bits(output.scale_bits), 1.0);
            assert!(output.active);
        }
        _ => panic!("wrong event"),
    }
    assert!(matches!(
        event_from_hypr(HyprRawEvent::WorkspaceDeleted("3".to_string())),
        CompositorEvent::WorkspaceRemoved { workspace_id: 0 }
    ));
}

#[test]
fn hyprland_dispatches_for_actions() {
    match hypr_dispatch_for(CompositorAction::FocusWindow { id: 42 }) {
        Some(HyprDispatch::FocusWindow { address }) => assert_eq!(address, "0x2a"),
        _ => panic!("wrong dispatch"),
    }
    match hypr_dispatch_for(CompositorAction::MoveWindowToWorkspace { window_id: 255, workspace_id: 3 }) {
        Some(HyprDispatch::MoveToWorkspaceSilent { workspace_id, address }) => {
            assert_eq!(workspace_id, 3);
            assert_eq!(address, "0xff");
        }
        _ => panic!("wrong dispatch"),
    }
    assert!(hypr_dispatch_for(CompositorAction::SetLayout { layout: "splith".to_string() }).is_none());
}

fn tree(node_type: &str, focused: bool, name: Option<&str>, app_id: Option<&str>, nodes: Vec<SwayTreeNode>, floating: Vec<SwayTreeNode>) -> SwayTreeNode {
    SwayTreeNode {
        focused,
        node_type: node_type.to_string(),
        name: name.map(String::from),
        app_id: app_id.map(String::from),
        nodes,
        floating_nodes: floating,
    }
}

#[test]
fn find_focused_window_in_nested_tree() {
    let con = tree("con", true, Some("Terminal"), Some("kitty"), vec![], vec![]);
    let ws = tree("workspace", false, None, None, vec![con], vec![]);
    let output = tree("output", false, None, None, vec![ws], vec![]);
    let root = tree("root", false, None, None, vec![output], vec![]);
    let win = find_focused_window(&root).unwrap();
    assert_eq!(win.title.as_deref(), Some("Terminal"));
    assert_eq!(win.app_id.as_deref(), Some("kitty"));
}

#[test]
fn find_focused_window_floating_con() {
    let f = tree("floating_con", true, Some("Floating App"), Some("floatapp"), vec![], vec![]);
    let root = tree("root", false, None, None, vec![], vec![f]);
    let win = find_focused_window(&root).unwrap();
    assert_eq!(win.app_id.as_deref(), Some("floatapp"));
}

#[test]
fn find_focused_window_returns_none_on_empty_tree() {
    let root = tree("root", false, None, None, vec![], vec![]);
    assert!(find_focused_window(&root).is_none());
}

#[test]
fn find_focused_window_skips_workspace_node() {
    let ws = tree("workspace", true, Some("1"), None, vec![], vec![]);
    let root = tree("root", false, None, None, vec![ws], vec![]);
    assert!(find_focused_window(&root).is_none());
}

#[test]
fn workspace_empty_flag_from_representation() {
    assert!(is_empty_representation(None));
    assert!(is_empty_representation(Some("")));
    assert!(!is_empty_representation(Some("H[kitty]")));
}

#[test]
fn sway_workspace_state_takes_focused_output() {
    let raw = vec![
        SwayRawWorkspace { num: 1, name: "1".to_string(), output: "DP-1".to_string(), focused: false, urgent: true, representation: None },
        SwayRawWorkspace { num: 2, name: "2".to_string(), output: "DP-2".to_string(), focused: true, urgent: false, representation: Some("H[kitty]".to_string()) },
    ];
    let s = sway_workspace_state(&raw);
    assert_eq!(s.focused_output.as_deref(), Some("DP-2"));
    assert!(s.workspaces[0].empty);
    assert!(!s.workspaces[1].empty);
    assert!(s.workspaces[0].urgent);
}

#[test]
fn sway_ipc_frames_round_trip() {
    let msg = encode_message(MSG_GET_WORKSPACES, b"[]");
    assert_eq!(&msg[..6], b"i3-ipc");
    assert_eq!(msg.len(), 16);
    let mut header = [0u8; 14];
    header.copy_from_slice(&msg[..14]);
    assert_eq!(decode_header(&header), Ok((2, MSG_GET_WORKSPACES)));
    header[0] = b'x';
    assert!(decode_header(&header).is_err());
}

#[test]
fn sway_events_trigger_reactions() {
    let r = sway_reaction(EVT_WORKSPACE, "", None, None);
    assert!(r.refresh_workspaces && r.focus.is_none());
    let r = sway_reaction(EVT_WINDOW, "close", Some("t".to_string()), Some(String::new()));
    assert!(r.refresh_workspaces);
    let f = r.focus.unwrap();
    assert_eq!(f.title.as_deref(), Some("t"));
    assert!(f.app_id.is_none());
    let r = sway_reaction(EVT_WINDOW, "new", None, None);
    assert!(!r.refresh_workspaces && r.focus.is_none());
}

fn sway_ws(id: i32, name: &str, focused: bool) -> SwayWorkspaceInfo {
    SwayWorkspaceInfo { id, name: name.to_string(), output: "eDP-1".to_string(), focused, urgent: false }
}

fn node(id: i64, node_type: SwayNodeType, name: Option<&str>, nodes: Vec<SwayNode>) -> SwayNode {
    SwayNode {
        id,
        node_type,
        name: name.map(String::from),
        focused: false,
        urgent: false,
        app_id: None,
        window_class: None,
        window_title: None,
        fullscreen_mode: None,
        pid: None,
        nodes,
        floating_nodes: vec![],
    }
}

fn sway_window_node() -> SwayNode {
    let mut n = node(42, SwayNodeType::Con, Some("My Window"), vec![]);
    n.focused = true;
    n.app_id = Some("firefox".to_string());
    n.fullscreen_mode = Some(0);
    n.pid = Some(1234);
    n
}

#[test]
fn workspace_basic_fields() {
    let ws = workspace_from_sway(&sway_ws(1, "1", true));
    assert_eq!(ws.id, 1);
    assert_eq!(ws.name, "1");
    assert_eq!(ws.output.as_deref(), Some("eDP-1"));
    assert!(ws.focused);
    assert!(!ws.is_special);
}

#[test]
fn scratchpad_is_special() {
    let ws = workspace_from_sway(&sway_ws(99, "__i3_scratch", false));
    assert!(ws.is_special);
    assert_eq!(ws.name, "__i3_scratch");
}

#[test]
fn output_refresh_converts_from_millihertz() {
    let o = output_from_sway(&SwayOutputInfo {
        name: "eDP-1".to_string(),
        make: "LG".to_string(),
        model: "LG IPS".to_string(),
        current_mode: Some(SwayModeInfo { width: 1920, height: 1080, refresh_hz_bits: (60000 as f64 / 1000.0).to_bits() }),
        x: 0,
        y: 0,
        active: true,
        scale_bits: Some(1.0f64.to_bits()),
    });
    assert_eq!(f64::from_bits(o.refresh_hz_bits), 60.0);
    assert_eq!(o.width, 1920);
    assert_eq!(o.height, 1080);
    assert_eq!(o.name, "eDP-1");
}

#[test]
fn window_from_node_basic() {
    let w = window_from_node(&sway_window_node());
    assert_eq!(w.id, 42);
    assert_eq!(w.title, "My Window");
    assert_eq!(w.app_id.as_deref(), Some("firefox"));
    assert!(w.focused);
    assert!(!w.fullscreen);
}

#[test]
fn sway_snapshot_annotates_windows() {
    let win = sway_window_node();
    let ws_node = node(7, SwayNodeType::Workspace, Some("1"), vec![win]);
    let out = node(3, SwayNodeType::Output, Some("eDP-1"), vec![ws_node]);
    let root = node(1, SwayNodeType::Root, Some("root"), vec![out]);
    let mut collected = Vec::new();
    collect_windows(&root, &mut collected);
    assert_eq!(collected.len(), 1);
    let snap = sway_snapshot(
        &vec![sway_ws(7, "1", true)],
        &vec![SwayOutputInfo {
            name: "eDP-1".to_string(),
            make: String::new(),
            model: String::new(),
            current_mode: None,
            x: 0,
            y: 0,
            active: true,
            scale_bits: None,
        }],
        &root,
    );
    assert_eq!(snap.windows[0].workspace_id, Some(7));
    assert_eq!(snap.windows[0].output.as_deref(), Some("eDP-1"));
    assert_eq!(snap.workspaces[0].window_ids, vec![42]);
    assert!(snap.outputs[0].focused);
    assert!(snap.outputs[0].make.is_none());
    assert_eq!(f64::from_bits(snap.outputs[0].scale_bits), 1.0);
    assert_eq!(snap.active_workspace_id, Some(7));
    assert_eq!(snap.focused_window.as_ref().map(|w| w.id), Some(42));
}

#[test]
fn sway_events_are_normalized() {
    match event_from_sway(SwayEvent::Window { change: SwayWindowChange::Floating, container: sway_window_node() }) {
        Some(CompositorEvent::WindowMoved { window }) => assert_eq!(window.id, 42),
        _ => panic!("wrong event"),
    }
    assert!(matches!(event_from_sway(SwayEvent::Shutdown), Some(CompositorEvent::Disconnected)));
    assert!(event_from_sway(SwayEvent::Output).is_none());
}

#[test]
fn sway_commands_for_actions() {
    assert_eq!(sway_command(CompositorAction::FocusWorkspace { id: -1 }), "workspace -1");
    assert_eq!(sway_command(CompositorAction::FocusWindow { id: 42 }), "[con_id=42] focus");
    assert_eq!(
        sway_command(CompositorAction::MoveWindowToWorkspace { window_id: 7, workspace_id: 3 }),
        "[con_id=7] move container to workspace 3"
    );
    assert_eq!(sway_command(CompositorAction::CloseWindow { id: 1 }), "[con_id=1] kill");
    assert_eq!(sway_command(CompositorAction::Exec { command: "foot".to_string() }), "exec foot");
    assert_eq!(sway_command(CompositorAction::SetLayout { layout: "tabbed".to_string() }), "layout tabbed");
}

#[test]
fn sway_wins_detection() {
    assert_eq!(detect_from(true, true), Some(Detected::Sway));
    assert_eq!(detect_from(false, true), Some(Detected::Hyprland));
    assert_eq!(detect_from(false, false), None);
}

#[test]
fn subscription_needs_explicit_success() {
    assert!(subscription_accepted(Some(true)));
    assert!(!subscription_accepted(Some(false)));
    assert!(!subscription_accepted(None));
}

#[test]
fn backend_names() {
    assert_eq!(backend_name(Detected::Sway), "sway");
    assert_eq!(backend_name(Detected::Hyprland), "hyprland");
}

#[test]
fn socket_path_without_signature_is_an_error() {
    assert_eq!(
        socket_path(None, ".socket.sock"),
        Err("HYPRLAND_INSTANCE_SIGNATURE not set".to_string())
    );
    match socket_path(Some("abc".to_string()), ".socket2.sock") {
        Ok(p) => assert!(p.ends_with("/hypr/abc/.socket2.sock")),
        Err(m) => assert_eq!(m, "XDG_RUNTIME_DIR not set"),
    }
}

#[test]
fn compositor_error_messages() {
    assert_eq!(CompositorError::SwayIpc("x".into()).message(), "sway IPC error: x");
    assert_eq!(CompositorError::Disconnected.message(), "compositor connection lost");
}

#[test]
fn hyprland_fullscreen_names_the_window() {
    match hypr_dispatch_for(CompositorAction::ToggleFullscreen { id: 0x5f00 }) {
        Some(HyprDispatch::ToggleFullscreen { address }) => assert_eq!(address, "0x5f00"),
        _ => panic!("wrong dispatch"),
    }
}

#[test]
fn session_end_restarts_after_a_connection() {
    let e = session_end(5, true);
    assert!(e.announce_disconnected);
    assert_eq!(e.plan.attempt, 1);
    assert_eq!(e.plan.delay_millis, 200);
    let e = session_end(6, false);
    assert!(!e.announce_disconnected);
    assert_eq!(e.plan.attempt, 7);
    assert_eq!(e.plan.delay_millis, MAX_BACKOFF_MILLIS);
}
