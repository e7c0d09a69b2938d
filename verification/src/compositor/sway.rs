//! sway backend logic: normalizing what sway reports (workspaces, outputs, the layout
//! tree, events) into the shared compositor types, assembling a snapshot, and the command
//! for each action.
use vstd::prelude::*;
use crate::compositor::types::{
    collect_window_ids, find_focused_window, first_focused_window, one_f64_bits, window_ids_on,
    output_views, window_views, workspace_views, CompositorAction, CompositorEvent,
    CompositorSnapshot, Output, OutputView, SnapshotView, Window, WindowView, Workspace,
    WorkspaceView,
};
use crate::launcher::types::{copy_opt_string, opt_view};
use crate::text::{
    concat, decimal, decimal_chars, owned, push_all, signed_decimal, signed_decimal_chars,
    string_from_chars,
};

verus! {

/// What this crate reads of a sway workspace.
#[derive(Debug)]
pub struct SwayWorkspaceInfo {
    pub id: i32,
    pub name: String,
    pub output: String,
    pub focused: bool,
    pub urgent: bool,
}

/// An output mode; the refresh rate is the IEEE-754 bit pattern of the `f64` value in Hz
/// (sway reports millihertz).
#[derive(Debug)]
pub struct SwayModeInfo {
    pub width: i32,
    pub height: i32,
    pub refresh_hz_bits: u64,
}

/// What this crate reads of a sway output. The scale is the IEEE-754 bit pattern of an
/// `f64`.
#[derive(Debug)]
pub struct SwayOutputInfo {
    pub name: String,
    pub make: String,
    pub model: String,
    pub current_mode: Option<SwayModeInfo>,
    pub x: i32,
    pub y: i32,
    pub active: bool,
    pub scale_bits: Option<u64>,
}

/// The kind of a node of sway's layout tree.
#[derive(Debug, Clone, Copy, PartialEq, Eq, Structural)]
pub enum SwayNodeType {
    Root,
    Output,
    Workspace,
    Con,
    FloatingCon,
    Dockarea,
}

/// What this crate reads of a node of sway's layout tree; `window_class` and `window_title`
/// come from the X11 window properties, when there are any.
#[derive(Debug)]
pub struct SwayNode {
    pub id: i64,
    pub node_type: SwayNodeType,
    pub name: Option<String>,
    pub focused: bool,
    pub urgent: bool,
    pub app_id: Option<String>,
    pub window_class: Option<String>,
    pub window_title: Option<String>,
    pub fullscreen_mode: Option<u8>,
    pub pid: Option<i32>,
    pub nodes: Vec<SwayNode>,
    pub floating_nodes: Vec<SwayNode>,
}

/// The name sway gives its scratchpad.
pub open spec fn scratchpad_name() -> Seq<char> {
    "__i3_scratch"@
}

/// The normalized form of a sway workspace; the scratchpad is special.
pub open spec fn sway_workspace_view(ws: SwayWorkspaceInfo) -> WorkspaceView {
    WorkspaceView {
        id: ws.id,
        name: ws.name@,
        output: Some(ws.output@),
        focused: ws.focused,
        urgent: ws.urgent,
        is_special: ws.name@ == scratchpad_name(),
        window_ids: Seq::empty(),
    }
}

/// Converts a sway workspace.
pub fn workspace_from_sway(ws: &SwayWorkspaceInfo) -> (r: Workspace)
    ensures
        r@ == sway_workspace_view(*ws),
{
    let r = Workspace {
        id: ws.id,
        name: ws.name.clone(),
        output: Some(ws.output.clone()),
        focused: ws.focused,
        urgent: ws.urgent,
        is_special: crate::text::str_eq(&ws.name, "__i3_scratch"),
        window_ids: Vec::new(),
    };
    proof {
        assert(r@.window_ids =~= Seq::<u64>::empty());
    }
    r
}

/// `Some(s)` unless `s` is empty.
pub open spec fn nonempty(s: String) -> Option<Seq<char>> {
    if s@.len() == 0 {
        None
    } else {
        Some(s@)
    }
}

fn nonempty_copy(s: &String) -> (r: Option<String>)
    ensures
        opt_view(r) == nonempty(*s),
{
    if s.unicode_len() == 0 {
        None
    } else {
        Some(s.clone())
    }
}

/// The normalized form of a sway output; without a current mode it measures nothing, and
/// without a scale it is at scale 1. Focus is decided by the snapshot.
pub open spec fn sway_output(o: SwayOutputInfo) -> OutputView {
    OutputView {
        name: o.name@,
        make: nonempty(o.make),
        model: nonempty(o.model),
        width: match o.current_mode {
            Some(m) => m.width as u32,
            None => 0,
        },
        height: match o.current_mode {
            Some(m) => m.height as u32,
            None => 0,
        },
        refresh_hz_bits: match o.current_mode {
            Some(m) => m.refresh_hz_bits,
            None => 0,
        },
        x: o.x,
        y: o.y,
        active: o.active,
        scale_bits: match o.scale_bits {
            Some(s) => s,
            None => one_f64_bits(),
        },
        focused: false,
    }
}

/// Converts a sway output.
pub fn output_from_sway(o: &SwayOutputInfo) -> (r: Output)
    ensures
        r@ == sway_output(*o),
{
    let (width, height, refresh_hz_bits) = match &o.current_mode {
        Some(m) => (m.width as u32, m.height as u32, m.refresh_hz_bits),
        None => (0u32, 0u32, 0u64),
    };
    Output {
        name: o.name.clone(),
        make: nonempty_copy(&o.make),
        model: nonempty_copy(&o.model),
        width,
        height,
        refresh_hz_bits,
        x: o.x,
        y: o.y,
        active: o.active,
        scale_bits: match o.scale_bits {
            Some(s) => s,
            None => 0x3FF0_0000_0000_0000u64,
        },
        focused: false,
    }
}

/// `a`, or else `b`.
pub open spec fn or_else(a: Option<Seq<char>>, b: Option<Seq<char>>) -> Option<Seq<char>> {
    match a {
        Some(x) => Some(x),
        None => b,
    }
}

/// The window a container node stands for: its app id (else its X11 class), its name (else
/// its X11 title, else nothing), fullscreen when its fullscreen mode is set and not 0,
/// floating when it is a floating container. Workspace and output are filled in by the
/// snapshot.
pub open spec fn node_window(n: SwayNode) -> WindowView {
    WindowView {
        id: n.id as u64,
        title: match or_else(opt_view(n.name), opt_view(n.window_title)) {
            Some(t) => t,
            None => Seq::empty(),
        },
        app_id: or_else(opt_view(n.app_id), opt_view(n.window_class)),
        workspace_id: None,
        output: None,
        focused: n.focused,
        floating: n.node_type == SwayNodeType::FloatingCon,
        fullscreen: match n.fullscreen_mode {
            Some(m) => m != 0,
            None => false,
        },
        pid: match n.pid {
            Some(p) => Some(p as u32),
            None => None,
        },
    }
}

fn first_of(a: &Option<String>, b: &Option<String>) -> (r: Option<String>)
    ensures
        opt_view(r) == or_else(opt_view(*a), opt_view(*b)),
{
    match a {
        Some(x) => Some(x.clone()),
        None => copy_opt_string(b),
    }
}

/// Converts a sway container node to a window.
pub fn window_from_node(node: &SwayNode) -> (r: Window)
    ensures
        r@ == node_window(*node),
{
    let title = match first_of(&node.name, &node.window_title) {
        Some(t) => t,
        None => String::new(),
    };
    Window {
        id: node.id as u64,
        title,
        app_id: first_of(&node.app_id, &node.window_class),
        workspace_id: None,
        output: None,
        focused: node.focused,
        floating: node.node_type == SwayNodeType::FloatingCon,
        fullscreen: match node.fullscreen_mode {
            Some(m) => m != 0,
            None => false,
        },
        pid: match node.pid {
            Some(p) => Some(p as u32),
            None => None,
        },
    }
}

/// Whether a node is a window: a (floating) container without children.
pub open spec fn is_window_node(n: SwayNode) -> bool {
    (n.node_type == SwayNodeType::Con || n.node_type == SwayNodeType::FloatingCon)
        && n.nodes@.len() == 0 && n.floating_nodes@.len() == 0
}

/// The windows of a tree, depth-first: the node itself, then its tiled children, then its
/// floating ones.
pub open spec fn tree_windows(n: SwayNode) -> Seq<WindowView>
    decreases n,
{
    (if is_window_node(n) {
        seq![node_window(n)]
    } else {
        Seq::empty()
    }) + forest_windows(n.nodes@) + forest_windows(n.floating_nodes@)
}

/// The windows of a list of trees, in order.
pub open spec fn forest_windows(s: Seq<SwayNode>) -> Seq<WindowView>
    decreases s,
{
    if s.len() == 0 {
        Seq::empty()
    } else {
        forest_windows(s.drop_last()) + tree_windows(s.last())
    }
}

/// Appends the windows of a tree to `out`, depth-first.
pub fn collect_windows(node: &SwayNode, out: &mut Vec<Window>)
    ensures
        window_views(final(out)@) == window_views(old(out)@) + tree_windows(*node),
    decreases node,
{
    let ghost start = window_views(out@);
    let is_window = (node.node_type == SwayNodeType::Con || node.node_type
        == SwayNodeType::FloatingCon) && node.nodes.len() == 0 && node.floating_nodes.len() == 0;
    if is_window {
        let w = window_from_node(node);
        let ghost before = out@;
        out.push(w);
        proof {
            assert(window_views(out@) =~= window_views(before).push(w@));
        }
    }
    let ghost mid = window_views(out@);
    proof {
        assert(mid =~= start + (if is_window_node(*node) {
            seq![node_window(*node)]
        } else {
            Seq::empty()
        }));
    }
    collect_forest(&node.nodes, out);
    collect_forest(&node.floating_nodes, out);
    proof {
        assert(window_views(out@) =~= start + tree_windows(*node));
    }
}

fn collect_forest(nodes: &Vec<SwayNode>, out: &mut Vec<Window>)
    ensures
        window_views(final(out)@) == window_views(old(out)@) + forest_windows(nodes@),
    decreases nodes,
{
    let ghost start = window_views(out@);
    let mut i: usize = 0;
    while i < nodes.len()
        invariant
            i <= nodes.len(),
            window_views(out@) == start + forest_windows(nodes@.take(i as int)),
        decreases nodes.len() - i,
    {
        proof {
            assert(nodes@.take(i + 1).drop_last() =~= nodes@.take(i as int));
            assert(decreases_to!(nodes => nodes@[i as int]));
        }
        collect_windows(&nodes[i], out);
        proof {
            assert(window_views(out@) =~= start + forest_windows(nodes@.take(i + 1)));
        }
        i += 1;
    }
    proof {
        assert(nodes@.take(nodes.len() as int) =~= nodes@);
    }
}

// ── Workspace and output of each window ───────────────────────────────────────

/// The workspace and output a node lies under: the nearest workspace and output ancestors
/// (the node itself included).
pub open spec fn node_context(n: SwayNode, ws: Option<i32>, out: Option<Seq<char>>) -> (
    Option<i32>,
    Option<Seq<char>>,
) {
    (
        if n.node_type == SwayNodeType::Workspace {
            Some(n.id as i32)
        } else {
            ws
        },
        if n.node_type == SwayNodeType::Output {
            opt_view(n.name)
        } else {
            out
        },
    )
}

/// For each window of a tree lying under both a workspace and an output, its id with
/// them, depth-first.
pub open spec fn tree_contexts(n: SwayNode, ws: Option<i32>, out: Option<Seq<char>>) -> Seq<
    (i64, i32, Seq<char>),
>
    decreases n,
{
    let (w, o) = node_context(n, ws, out);
    (if is_window_node(n) && w is Some && o is Some {
        seq![(n.id, w->0, o->0)]
    } else {
        Seq::empty()
    }) + forest_contexts(n.nodes@, w, o) + forest_contexts(n.floating_nodes@, w, o)
}

/// The window contexts of a list of trees, in order.
pub open spec fn forest_contexts(
    s: Seq<SwayNode>,
    ws: Option<i32>,
    out: Option<Seq<char>>,
) -> Seq<(i64, i32, Seq<char>)>
    decreases s,
{
    if s.len() == 0 {
        Seq::empty()
    } else {
        forest_contexts(s.drop_last(), ws, out) + tree_contexts(s.last(), ws, out)
    }
}

/// The context of each recorded entry.
pub open spec fn entry_views(s: Seq<(i64, i32, String)>) -> Seq<(i64, i32, Seq<char>)> {
    s.map_values(|e: (i64, i32, String)| (e.0, e.1, e.2@))
}

fn walk_for_context(
    node: &SwayNode,
    current_ws: Option<i32>,
    current_output: &Option<String>,
    out: &mut Vec<(i64, i32, String)>,
)
    ensures
        entry_views(final(out)@) == entry_views(old(out)@) + tree_contexts(
            *node,
            current_ws,
            opt_view(*current_output),
        ),
    decreases node,
{
    let ghost start = entry_views(out@);
    let ws = if node.node_type == SwayNodeType::Workspace {
        Some(node.id as i32)
    } else {
        current_ws
    };
    let output_name: Option<String> = if node.node_type == SwayNodeType::Output {
        copy_opt_string(&node.name)
    } else {
        copy_opt_string(current_output)
    };
    let ghost (w, o) = node_context(*node, current_ws, opt_view(*current_output));
    proof {
        assert(w == ws && o == opt_view(output_name));
    }
    let is_window = (node.node_type == SwayNodeType::Con || node.node_type
        == SwayNodeType::FloatingCon) && node.nodes.len() == 0 && node.floating_nodes.len() == 0;
    if is_window {
        match (ws, &output_name) {
            (Some(ws_id), Some(name)) => {
                let e = (node.id, ws_id, name.clone());
                let ghost before = out@;
                out.push(e);
                proof {
                    assert(entry_views(out@) =~= entry_views(before).push((e.0, e.1, e.2@)));
                }
            },
            _ => {},
        }
    }
    let ghost mid = entry_views(out@);
    proof {
        assert(mid =~= start + (if is_window_node(*node) && w is Some && o is Some {
            seq![(node.id, w->0, o->0)]
        } else {
            Seq::empty()
        }));
    }
    walk_forest(&node.nodes, ws, &output_name, out);
    walk_forest(&node.floating_nodes, ws, &output_name, out);
    proof {
        assert(entry_views(out@) =~= start + tree_contexts(
            *node,
            current_ws,
            opt_view(*current_output),
        ));
    }
}

fn walk_forest(
    nodes: &Vec<SwayNode>,
    ws: Option<i32>,
    output: &Option<String>,
    out: &mut Vec<(i64, i32, String)>,
)
    ensures
        entry_views(final(out)@) == entry_views(old(out)@) + forest_contexts(
            nodes@,
            ws,
            opt_view(*output),
        ),
    decreases nodes,
{
    let ghost start = entry_views(out@);
    let mut i: usize = 0;
    while i < nodes.len()
        invariant
            i <= nodes.len(),
            entry_views(out@) == start + forest_contexts(
                nodes@.take(i as int),
                ws,
                opt_view(*output),
            ),
        decreases nodes.len() - i,
    {
        proof {
            assert(nodes@.take(i + 1).drop_last() =~= nodes@.take(i as int));
            assert(decreases_to!(nodes => nodes@[i as int]));
        }
        walk_for_context(&nodes[i], ws, output, out);
        proof {
            assert(entry_views(out@) =~= start + forest_contexts(
                nodes@.take(i + 1),
                ws,
                opt_view(*output),
            ));
        }
        i += 1;
    }
    proof {
        assert(nodes@.take(nodes.len() as int) =~= nodes@);
    }
}

/// The context recorded last for container `id` (recording it again replaces it).
pub open spec fn context_of(entries: Seq<(i64, i32, Seq<char>)>, id: i64) -> Option<
    (i32, Seq<char>),
>
    decreases entries.len(),
{
    if entries.len() == 0 {
        None
    } else if entries.last().0 == id {
        Some((entries.last().1, entries.last().2))
    } else {
        context_of(entries.drop_last(), id)
    }
}

fn lookup_context(entries: &Vec<(i64, i32, String)>, id: i64) -> (r: Option<(i32, String)>)
    ensures
        match r {
            Some((ws, o)) => context_of(entry_views(entries@), id) == Some((ws, o@)),
            None => context_of(entry_views(entries@), id) is None,
        },
{
    let ghost views = entry_views(entries@);
    let mut r: Option<(i32, String)> = None;
    let mut i: usize = 0;
    while i < entries.len()
        invariant
            i <= entries.len(),
            views == entry_views(entries@),
            match r {
                Some((ws, o)) => context_of(views.take(i as int), id) == Some((ws, o@)),
                None => context_of(views.take(i as int), id) is None,
            },
        decreases entries.len() - i,
    {
        proof {
            assert(views.take(i + 1).drop_last() =~= views.take(i as int));
        }
        if entries[i].0 == id {
            r = Some((entries[i].1, entries[i].2.clone()));
        }
        i += 1;
    }
    proof {
        assert(views.take(entries.len() as int) =~= views);
    }
    r
}

/// A window with the workspace and output found for it in the tree, when there are any.
pub open spec fn annotated(w: WindowView, entries: Seq<(i64, i32, Seq<char>)>) -> WindowView {
    match context_of(entries, w.id as i64) {
        Some((ws, o)) => WindowView { workspace_id: Some(ws), output: Some(o), ..w },
        None => w,
    }
}

// ── Snapshot ──────────────────────────────────────────────────────────────────

/// The first focused workspace.
pub open spec fn first_focused_workspace(wss: Seq<SwayWorkspaceInfo>) -> Option<int>
    decreases wss.len(),
{
    if wss.len() == 0 {
        None
    } else {
        match first_focused_workspace(wss.drop_last()) {
            Some(i) => Some(i),
            None => if wss.last().focused {
                Some(wss.len() - 1)
            } else {
                None
            },
        }
    }
}

proof fn lemma_first_focused_workspace_prefix(wss: Seq<SwayWorkspaceInfo>, k: int)
    requires
        0 <= k <= wss.len(),
        first_focused_workspace(wss.take(k)) is Some,
    ensures
        first_focused_workspace(wss) == first_focused_workspace(wss.take(k)),
    decreases wss.len(),
{
    if k < wss.len() {
        assert(wss.drop_last().take(k) =~= wss.take(k));
        lemma_first_focused_workspace_prefix(wss.drop_last(), k);
    } else {
        assert(wss.take(k) =~= wss);
    }
}

proof fn lemma_first_focused_workspace_bounds(wss: Seq<SwayWorkspaceInfo>)
    ensures
        first_focused_workspace(wss) matches Some(i) ==> 0 <= i < wss.len(),
    decreases wss.len(),
{
    if wss.len() > 0 {
        lemma_first_focused_workspace_bounds(wss.drop_last());
    }
}

fn find_focused_workspace(wss: &Vec<SwayWorkspaceInfo>) -> (r: Option<usize>)
    ensures
        match r {
            Some(i) => first_focused_workspace(wss@) == Some(i as int) && i < wss.len(),
            None => first_focused_workspace(wss@) is None,
        },
{
    let mut i: usize = 0;
    while i < wss.len()
        invariant
            i <= wss.len(),
            first_focused_workspace(wss@.take(i as int)) is None,
        decreases wss.len() - i,
    {
        proof {
            assert(wss@.take(i + 1).drop_last() =~= wss@.take(i as int));
        }
        if wss[i].focused {
            proof {
                lemma_first_focused_workspace_prefix(wss@, i + 1);
            }
            return Some(i);
        }
        i += 1;
    }
    proof {
        assert(wss@.take(wss.len() as int) =~= wss@);
    }
    None
}

/// The snapshot assembled from sway's workspaces, outputs and layout tree: each output is
/// focused when it holds the focused workspace; each window of the tree carries the
/// workspace and output it lies under; each workspace lists the ids of its windows.
pub open spec fn sway_snapshot_view(
    wss: Seq<SwayWorkspaceInfo>,
    outs: Seq<SwayOutputInfo>,
    tree: SwayNode,
) -> SnapshotView {
    let focused = first_focused_workspace(wss);
    let entries = tree_contexts(tree, None, None);
    let raw = tree_windows(tree);
    let wins = Seq::new(raw.len(), |i: int| annotated(raw[i], entries));
    SnapshotView {
        workspaces: Seq::new(
            wss.len(),
            |i: int|
                WorkspaceView {
                    window_ids: window_ids_on(wins, wss[i].id),
                    ..sway_workspace_view(wss[i])
                },
        ),
        windows: wins,
        outputs: Seq::new(
            outs.len(),
            |i: int|
                OutputView {
                    focused: match focused {
                        Some(k) => wss[k].output@ == outs[i].name@,
                        None => false,
                    },
                    ..sway_output(outs[i])
                },
        ),
        focused_window: first_focused_window(wins),
        active_workspace_id: match focused {
            Some(k) => Some(wss[k].id),
            None => None,
        },
    }
}

/// Assembles a snapshot from sway's workspaces, outputs and layout tree.
pub fn sway_snapshot(
    workspaces: &Vec<SwayWorkspaceInfo>,
    outputs: &Vec<SwayOutputInfo>,
    tree: &SwayNode,
) -> (r: CompositorSnapshot)
    ensures
        r@ == sway_snapshot_view(workspaces@, outputs@, *tree),
{
    let ghost sv = sway_snapshot_view(workspaces@, outputs@, *tree);
    let focused = find_focused_workspace(workspaces);
    proof {
        lemma_first_focused_workspace_bounds(workspaces@);
    }

    let mut outs: Vec<Output> = Vec::new();
    let mut i: usize = 0;
    while i < outputs.len()
        invariant
            i <= outputs.len(),
            focused matches Some(k) ==> k < workspaces.len(),
            output_views(outs@) == sv.outputs.take(i as int),
            sv == sway_snapshot_view(workspaces@, outputs@, *tree),
            match focused {
                Some(k) => first_focused_workspace(workspaces@) == Some(k as int),
                None => first_focused_workspace(workspaces@) is None,
            },
        decreases outputs.len() - i,
    {
        let mut o = output_from_sway(&outputs[i]);
        o.focused = match focused {
            Some(k) => crate::text::str_eq(&workspaces[k].output, &outputs[i].name),
            None => false,
        };
        let ghost before = outs@;
        outs.push(o);
        proof {
            assert(output_views(outs@) =~= output_views(before).push(o@));
            assert(output_views(outs@) =~= sv.outputs.take(i + 1));
        }
        i += 1;
    }
    proof {
        assert(sv.outputs.take(outputs.len() as int) =~= sv.outputs);
    }

    let mut raw: Vec<Window> = Vec::new();
    collect_windows(tree, &mut raw);
    let mut entries: Vec<(i64, i32, String)> = Vec::new();
    walk_for_context(tree, None, &None, &mut entries);
    proof {
        assert(window_views(raw@) =~= tree_windows(*tree));
        assert(entry_views(entries@) =~= tree_contexts(*tree, None, None));
    }

    let mut windows: Vec<Window> = Vec::new();
    let mut i: usize = 0;
    while i < raw.len()
        invariant
            i <= raw.len(),
            window_views(raw@) == tree_windows(*tree),
            entry_views(entries@) == tree_contexts(*tree, None, None),
            window_views(windows@) == sv.windows.take(i as int),
            sv == sway_snapshot_view(workspaces@, outputs@, *tree),
        decreases raw.len() - i,
    {
        let mut w = raw[i].duplicate();
        match lookup_context(&entries, #[verifier::truncate] (w.id as i64)) {
            Some((ws_id, out_name)) => {
                w.workspace_id = Some(ws_id);
                w.output = Some(out_name);
            },
            None => {},
        }
        let ghost before = windows@;
        windows.push(w);
        proof {
            assert(window_views(windows@) =~= window_views(before).push(w@));
            assert(window_views(windows@) =~= sv.windows.take(i + 1));
        }
        i += 1;
    }
    proof {
        assert(sv.windows.take(raw.len() as int) =~= sv.windows);
    }

    let mut wss: Vec<Workspace> = Vec::new();
    let mut i: usize = 0;
    while i < workspaces.len()
        invariant
            i <= workspaces.len(),
            window_views(windows@) == sv.windows,
            workspace_views(wss@) == sv.workspaces.take(i as int),
            sv == sway_snapshot_view(workspaces@, outputs@, *tree),
        decreases workspaces.len() - i,
    {
        let mut ws = workspace_from_sway(&workspaces[i]);
        ws.window_ids = collect_window_ids(&windows, workspaces[i].id);
        let ghost old_wss = wss@;
        wss.push(ws);
        proof {
            assert(workspace_views(wss@) =~= workspace_views(old_wss).push(ws@));
            assert(workspace_views(wss@) =~= sv.workspaces.take(i + 1));
        }
        i += 1;
    }
    proof {
        assert(sv.workspaces.take(workspaces.len() as int) =~= sv.workspaces);
    }

    let focused_window = find_focused_window(&windows);
    let active_workspace_id = match focused {
        Some(k) => Some(workspaces[k].id),
        None => None,
    };
    let r = CompositorSnapshot {
        workspaces: wss,
        windows,
        outputs: outs,
        focused_window,
        active_workspace_id,
    };
    proof {
        assert(r@.workspaces =~= sv.workspaces);
    }
    r
}

// ── Events ────────────────────────────────────────────────────────────────────

/// What changed in a workspace event.
#[derive(Debug, Clone, Copy, PartialEq, Eq, Structural)]
pub enum SwayWorkspaceChange {
    Init,
    Empty,
    Focus,
    Move,
    Rename,
    Urgent,
    Reload,
}

/// What changed in a window event.
#[derive(Debug, Clone, Copy, PartialEq, Eq, Structural)]
pub enum SwayWindowChange {
    New,
    Close,
    Focus,
    Title,
    FullscreenMode,
    Move,
    Floating,
    Urgent,
    Mark,
}

/// An event from sway's subscription.
#[derive(Debug)]
pub enum SwayEvent {
    Workspace { change: SwayWorkspaceChange, current: Option<SwayNode> },
    Window { change: SwayWindowChange, container: SwayNode },
    Output,
    Shutdown,
    /// Mode, binding, tick, bar and input events.
    Other,
}

/// The workspace a workspace node stands for (from workspace events): its name, or "" when
/// it has none; the scratchpad is special.
pub open spec fn node_workspace(n: SwayNode) -> WorkspaceView {
    let name = match opt_view(n.name) {
        Some(t) => t,
        None => Seq::empty(),
    };
    WorkspaceView {
        id: n.id as i32,
        name: name,
        output: None,
        focused: n.focused,
        urgent: n.urgent,
        is_special: name == scratchpad_name(),
        window_ids: Seq::empty(),
    }
}

/// Converts a workspace node.
pub fn node_to_workspace(node: &SwayNode) -> (r: Workspace)
    ensures
        r@ == node_workspace(*node),
{
    let name = match &node.name {
        Some(n) => n.clone(),
        None => String::new(),
    };
    let is_special = crate::text::str_eq(&name, "__i3_scratch");
    let r = Workspace {
        id: #[verifier::truncate] (node.id as i32),
        name,
        output: None,
        focused: node.focused,
        urgent: node.urgent,
        is_special,
        window_ids: Vec::new(),
    };
    proof {
        assert(r@.window_ids =~= Seq::<u64>::empty());
    }
    r
}

/// The normalized event for a sway event, if there is one: workspace focus, creation and
/// emptying (when the event names the workspace); a window's opening, closing, focus, title
/// change and move (a change of floating counts as a move); sway's shutdown as a
/// disconnection. Output events carry too little and are left to a new snapshot.
pub open spec fn sway_event_is(raw: SwayEvent, r: Option<CompositorEvent>) -> bool {
    match raw {
        SwayEvent::Workspace { change, current } => match current {
            Some(n) => if change == SwayWorkspaceChange::Focus {
                r matches Some(CompositorEvent::WorkspaceChanged { workspace }) && workspace@
                    == node_workspace(n)
            } else if change == SwayWorkspaceChange::Init {
                r matches Some(CompositorEvent::WorkspaceAdded { workspace }) && workspace@
                    == node_workspace(n)
            } else if change == SwayWorkspaceChange::Empty {
                r == Some(CompositorEvent::WorkspaceRemoved { workspace_id: n.id as i32 })
            } else {
                r is None
            },
            None => r is None,
        },
        SwayEvent::Window { change, container } => if change == SwayWindowChange::New {
            r matches Some(CompositorEvent::WindowOpened { window }) && window@ == node_window(
                container,
            )
        } else if change == SwayWindowChange::Close {
            r == Some(CompositorEvent::WindowClosed { window_id: container.id as u64 })
        } else if change == SwayWindowChange::Focus {
            r matches Some(CompositorEvent::WindowFocused { window }) && window@ == node_window(
                container,
            )
        } else if change == SwayWindowChange::Title {
            r matches Some(CompositorEvent::WindowTitleChanged { window }) && window@
                == node_window(container)
        } else if change == SwayWindowChange::Move || change == SwayWindowChange::Floating {
            r matches Some(CompositorEvent::WindowMoved { window }) && window@ == node_window(
                container,
            )
        } else {
            r is None
        },
        SwayEvent::Shutdown => r == Some(CompositorEvent::Disconnected),
        SwayEvent::Output => r is None,
        SwayEvent::Other => r is None,
    }
}

/// Normalizes a sway event.
pub fn event_from_sway(raw: SwayEvent) -> (r: Option<CompositorEvent>)
    ensures
        sway_event_is(raw, r),
{
    match raw {
        SwayEvent::Workspace { change, current } => match current {
            Some(n) => match change {
                SwayWorkspaceChange::Focus => Some(
                    CompositorEvent::WorkspaceChanged { workspace: node_to_workspace(&n) },
                ),
                SwayWorkspaceChange::Init => Some(
                    CompositorEvent::WorkspaceAdded { workspace: node_to_workspace(&n) },
                ),
                SwayWorkspaceChange::Empty => Some(
                    CompositorEvent::WorkspaceRemoved {
                        workspace_id: #[verifier::truncate] (n.id as i32),
                    },
                ),
                _ => None,
            },
            None => None,
        },
        SwayEvent::Window { change, container } => match change {
            SwayWindowChange::New => Some(
                CompositorEvent::WindowOpened { window: window_from_node(&container) },
            ),
            SwayWindowChange::Close => Some(
                CompositorEvent::WindowClosed {
                    window_id: #[verifier::truncate] (container.id as u64),
                },
            ),
            SwayWindowChange::Focus => Some(
                CompositorEvent::WindowFocused { window: window_from_node(&container) },
            ),
            SwayWindowChange::Title => Some(
                CompositorEvent::WindowTitleChanged { window: window_from_node(&container) },
            ),
            SwayWindowChange::Move => Some(
                CompositorEvent::WindowMoved { window: window_from_node(&container) },
            ),
            SwayWindowChange::Floating => Some(
                CompositorEvent::WindowMoved { window: window_from_node(&container) },
            ),
            _ => None,
        },
        SwayEvent::Output => None,
        SwayEvent::Shutdown => Some(CompositorEvent::Disconnected),
        SwayEvent::Other => None,
    }
}

// ── Commands ──────────────────────────────────────────────────────────────────

/// A command on container `id`: `[con_id=<id>] ` followed by `what`.
pub open spec fn con_command(id: u64, what: Seq<char>) -> Seq<char> {
    "[con_id="@ + decimal(id as nat) + "] "@ + what
}

/// The sway command that performs an action.
pub open spec fn sway_command_text(action: CompositorAction) -> Seq<char> {
    match action {
        CompositorAction::FocusWorkspace { id } => "workspace "@ + signed_decimal(id as int),
        CompositorAction::FocusWindow { id } => con_command(id, "focus"@),
        CompositorAction::MoveWindowToWorkspace { window_id, workspace_id } => con_command(
            window_id,
            "move container to workspace "@ + signed_decimal(workspace_id as int),
        ),
        CompositorAction::CloseWindow { id } => con_command(id, "kill"@),
        CompositorAction::ToggleFloating { id } => con_command(id, "floating toggle"@),
        CompositorAction::ToggleFullscreen { id } => con_command(id, "fullscreen toggle"@),
        CompositorAction::Exec { command } => "exec "@ + command@,
        CompositorAction::SetLayout { layout } => "layout "@ + layout@,
    }
}

fn con_command_of(id: u64, what: &str) -> (r: String)
    ensures
        r@ == con_command(id, what@),
{
    let mut v = crate::text::chars_of("[con_id=");
    let d = decimal_chars(id);
    push_all(&mut v, d.as_slice());
    let close = crate::text::chars_of("] ");
    push_all(&mut v, close.as_slice());
    let w = crate::text::chars_of(what);
    push_all(&mut v, w.as_slice());
    string_from_chars(v.as_slice())
}

/// The sway IPC command for a compositor action.
pub fn sway_command(action: CompositorAction) -> (r: String)
    ensures
        r@ == sway_command_text(action),
{
    match action {
        CompositorAction::FocusWorkspace { id } => {
            let mut v = crate::text::chars_of("workspace ");
            let d = signed_decimal_chars(id as i64);
            push_all(&mut v, d.as_slice());
            string_from_chars(v.as_slice())
        },
        CompositorAction::FocusWindow { id } => con_command_of(id, "focus"),
        CompositorAction::MoveWindowToWorkspace { window_id, workspace_id } => {
            let mut v = crate::text::chars_of("move container to workspace ");
            let d = signed_decimal_chars(workspace_id as i64);
            push_all(&mut v, d.as_slice());
            let what = string_from_chars(v.as_slice());
            con_command_of(window_id, &what)
        },
        CompositorAction::CloseWindow { id } => con_command_of(id, "kill"),
        CompositorAction::ToggleFloating { id } => con_command_of(id, "floating toggle"),
        CompositorAction::ToggleFullscreen { id } => con_command_of(id, "fullscreen toggle"),
        CompositorAction::Exec { command } => concat("exec ", &command),
        CompositorAction::SetLayout { layout } => concat("layout ", &layout),
    }
}


/// A window's app id is its Wayland app id, and for an X11 window (no app id) its window
/// class; its title is the node's name, else its X11 title, else empty.
pub proof fn lemma_window_identity(n: SwayNode)
    ensures
        n.app_id matches Some(a) ==> node_window(n).app_id == Some(a@),
        n.app_id is None ==> node_window(n).app_id == match n.window_class {
            Some(c) => Some(c@),
            None => None::<Seq<char>>,
        },
        n.name matches Some(t) ==> node_window(n).title == t@,
        n.name is None ==> node_window(n).title == match n.window_title {
            Some(t) => t@,
            None => Seq::<char>::empty(),
        },
{
}

/// Toggling floating or fullscreen targets the container by id and toggles, so sending
/// the command twice restores the window: `[con_id=<id>] floating toggle` and
/// `[con_id=<id>] fullscreen toggle`.
pub proof fn lemma_toggle_commands(id: u64)
    ensures
        sway_command_text(CompositorAction::ToggleFloating { id }) == "[con_id="@ + decimal(id as nat)
            + "] floating toggle"@,
        sway_command_text(CompositorAction::ToggleFullscreen { id }) == "[con_id="@ + decimal(
            id as nat,
        ) + "] fullscreen toggle"@,
{
    reveal_strlit("] ");
    reveal_strlit("floating toggle");
    reveal_strlit("fullscreen toggle");
    reveal_strlit("] floating toggle");
    reveal_strlit("] fullscreen toggle");
    let p = "[con_id="@ + decimal(id as nat);
    assert(p + "] "@ + "floating toggle"@ =~= p + "] floating toggle"@);
    assert(p + "] "@ + "fullscreen toggle"@ =~= p + "] fullscreen toggle"@);
}

} // verus!
