//! sway's raw IPC: message framing (`i3-ipc` magic, little-endian payload length and
//! message type, then the JSON payload), what its replies become, and how each event is
//! handled.
use vstd::prelude::*;
use crate::config::schema::{FocusedWindow, Workspace, WorkspaceState};
use crate::text::owned;

verus! {

/// Message type: run a command.
pub const MSG_RUN_COMMAND: u32 = 0;
/// Message type: list the workspaces.
pub const MSG_GET_WORKSPACES: u32 = 1;
/// Message type: subscribe to events.
pub const MSG_SUBSCRIBE: u32 = 2;
/// Message type: the layout tree.
pub const MSG_GET_TREE: u32 = 4;
/// Event type: a workspace changed.
pub const EVT_WORKSPACE: u32 = 0x8000_0000;
/// Event type: a window changed.
pub const EVT_WINDOW: u32 = 0x8000_0003;

/// The six bytes that open every message: `i3-ipc`.
pub open spec fn magic() -> Seq<u8> {
    seq![105u8, 51u8, 45u8, 105u8, 112u8, 99u8]
}

/// The four little-endian bytes of `n`.
pub open spec fn le32(n: u32) -> Seq<u8> {
    seq![
        (n % 256) as u8,
        ((n / 256) % 256) as u8,
        ((n / 65536) % 256) as u8,
        (n / 16777216) as u8,
    ]
}

/// The number whose little-endian bytes are `b[0..4]`.
pub open spec fn le32_value(b: Seq<u8>) -> u32 {
    (b[0] + b[1] * 256 + b[2] * 65536 + b[3] * 16777216) as u32
}

/// A framed message: magic, payload length, message type, payload.
pub open spec fn framed(msg_type: u32, payload: Seq<u8>) -> Seq<u8> {
    magic() + le32(payload.len() as u32) + le32(msg_type) + payload
}

fn le32_bytes(n: u32) -> (r: [u8; 4])
    ensures
        r@ == le32(n),
{
    let r = [
        (n % 256) as u8,
        ((n / 256) % 256) as u8,
        ((n / 65536) % 256) as u8,
        (n / 16777216) as u8,
    ];
    proof {
        assert(r@ =~= le32(n));
    }
    r
}

/// Frames a message of type `msg_type` carrying `payload`.
pub fn encode_message(msg_type: u32, payload: &[u8]) -> (r: Vec<u8>)
    requires
        payload.len() <= u32::MAX,
    ensures
        r@ == framed(msg_type, payload@),
{
    let mut buf: Vec<u8> = Vec::new();
    buf.push(105u8);
    buf.push(51u8);
    buf.push(45u8);
    buf.push(105u8);
    buf.push(112u8);
    buf.push(99u8);
    let len = le32_bytes(payload.len() as u32);
    let ty = le32_bytes(msg_type);
    let mut i: usize = 0;
    while i < 4
        invariant
            i <= 4,
            buf@ == magic() + len@.take(i as int),
        decreases 4 - i,
    {
        buf.push(len[i]);
        proof {
            assert(buf@ =~= magic() + len@.take(i + 1));
        }
        i += 1;
    }
    let mut i: usize = 0;
    while i < 4
        invariant
            i <= 4,
            buf@ == magic() + len@ + ty@.take(i as int),
        decreases 4 - i,
    {
        buf.push(ty[i]);
        proof {
            assert(buf@ =~= magic() + len@ + ty@.take(i + 1));
        }
        i += 1;
    }
    let mut i: usize = 0;
    while i < payload.len()
        invariant
            i <= payload.len(),
            buf@ == magic() + len@ + ty@ + payload@.take(i as int),
        decreases payload.len() - i,
    {
        buf.push(payload[i]);
        proof {
            assert(buf@ =~= magic() + len@ + ty@ + payload@.take(i + 1));
        }
        i += 1;
    }
    proof {
        assert(len@ =~= le32(payload.len() as u32));
        assert(buf@ =~= framed(msg_type, payload@));
    }
    buf
}

/// Why a reply header was refused.
#[derive(Debug, Clone, Copy, PartialEq, Eq, Structural)]
pub enum HeaderError {
    /// The first six bytes are not `i3-ipc`.
    BadMagic,
}

impl HeaderError {
    /// The message of the error.
    pub fn message(&self) -> (r: String)
        ensures
            r@ == "invalid sway IPC magic"@,
    {
        owned("invalid sway IPC magic")
    }
}

fn le32_read(b: &[u8], at: usize) -> (r: u32)
    requires
        at + 4 <= b.len(),
    ensures
        r == le32_value(b@.skip(at as int)),
{
    let v = (b[at] as u32) + (b[at + 1] as u32) * 256 + (b[at + 2] as u32) * 65536 + (b[at + 3]
        as u32) * 16777216;
    proof {
        let s = b@.skip(at as int);
        assert(s[0] == b@[at as int] && s[1] == b@[at + 1] && s[2] == b@[at + 2] && s[3] == b@[at
            + 3]);
    }
    v
}

/// The payload length and message type of a 14-byte reply header, or `BadMagic` when it
/// does not open with `i3-ipc`.
pub fn decode_header(header: &[u8; 14]) -> (r: Result<(u32, u32), HeaderError>)
    ensures
        header@.take(6) == magic() ==> r == Ok::<(u32, u32), HeaderError>(
            (le32_value(header@.skip(6)), le32_value(header@.skip(10))),
        ),
        header@.take(6) != magic() ==> r == Err::<(u32, u32), HeaderError>(HeaderError::BadMagic),
{
    let h: &[u8] = header.as_slice();
    let ok = h[0] == 105u8 && h[1] == 51u8 && h[2] == 45u8 && h[3] == 105u8 && h[4] == 112u8
        && h[5] == 99u8;
    proof {
        if ok {
            assert(header@.take(6) =~= magic());
        } else {
            assert(header@.take(6) != magic()) by {
                if header@.take(6) == magic() {
                    assert(header@.take(6)[0] == header@[0]);
                    assert(header@.take(6)[1] == header@[1]);
                    assert(header@.take(6)[2] == header@[2]);
                    assert(header@.take(6)[3] == header@[3]);
                    assert(header@.take(6)[4] == header@[4]);
                    assert(header@.take(6)[5] == header@[5]);
                }
            }
        }
    }
    if !ok {
        return Err(HeaderError::BadMagic);
    }
    Ok((le32_read(h, 6), le32_read(h, 10)))
}

proof fn lemma_le32_round_trip(n: u32)
    ensures
        le32_value(le32(n)) == n,
{
    let b = le32(n);
    assert(b[0] == n % 256);
    assert(b[1] == (n / 256) % 256);
    assert(b[2] == (n / 65536) % 256);
    assert(b[3] == n / 16777216);
    assert(n % 256 + ((n / 256) % 256) * 256 + ((n / 65536) % 256) * 65536 + (n / 16777216)
        * 16777216 == n) by (nonlinear_arith);
}

/// A framed message's header reads back as what was sent: its magic is accepted and it
/// gives the payload's length and the message type.
pub proof fn lemma_frame_round_trip(msg_type: u32, payload: Seq<u8>)
    requires
        payload.len() <= u32::MAX,
    ensures
        framed(msg_type, payload).take(6) == magic(),
        le32_value(framed(msg_type, payload).skip(6)) == payload.len(),
        le32_value(framed(msg_type, payload).skip(10)) == msg_type,
{
    let f = framed(msg_type, payload);
    assert(f.take(6) =~= magic());
    lemma_le32_round_trip(payload.len() as u32);
    lemma_le32_round_trip(msg_type);
    let a = f.skip(6);
    let b = f.skip(10);
    let l = le32(payload.len() as u32);
    let t = le32(msg_type);
    assert(a[0] == l[0] && a[1] == l[1] && a[2] == l[2] && a[3] == l[3]);
    assert(b[0] == t[0] && b[1] == t[1] && b[2] == t[2] && b[3] == t[3]);
}

// ── Replies ───────────────────────────────────────────────────────────────────

/// One entry of sway's workspace list. A missing `output` or `urgent` reads as empty or
/// false.
#[derive(Debug)]
pub struct SwayRawWorkspace {
    pub num: i32,
    pub name: String,
    pub output: String,
    pub focused: bool,
    pub urgent: bool,
    pub representation: Option<String>,
}

/// Whether a workspace is empty: sway omits its representation, or sets it to "", when it
/// holds no window.
pub open spec fn representation_empty(r: Option<String>) -> bool {
    match r {
        Some(s) => s@.len() == 0,
        None => true,
    }
}

/// Whether a workspace is empty, by its representation.
pub fn is_empty_representation(r: Option<&str>) -> (b: bool)
    ensures
        b == match r {
            Some(s) => s@.len() == 0,
            None => true,
        },
{
    match r {
        Some(s) => s.unicode_len() == 0,
        None => true,
    }
}

/// A listed sway workspace as the bar shows it.
pub open spec fn sway_bar_workspace(w: SwayRawWorkspace) -> Workspace {
    Workspace {
        id: w.num,
        name: w.name,
        output: w.output,
        focused: w.focused,
        urgent: w.urgent,
        empty: representation_empty(w.representation),
        representation: w.representation,
    }
}

/// The output of the first focused workspace.
pub open spec fn focused_output_of(ws: Seq<SwayRawWorkspace>) -> Option<String>
    decreases ws.len(),
{
    if ws.len() == 0 {
        None
    } else {
        match focused_output_of(ws.drop_last()) {
            Some(o) => Some(o),
            None => if ws.last().focused {
                Some(ws.last().output)
            } else {
                None
            },
        }
    }
}

/// The workspace state from sway's workspace list.
pub fn sway_workspace_state(raw: &Vec<SwayRawWorkspace>) -> (r: WorkspaceState)
    ensures
        r.workspaces@ == Seq::new(raw@.len(), |i: int| sway_bar_workspace(raw@[i])),
        r.focused_output == focused_output_of(raw@),
{
    let mut workspaces: Vec<Workspace> = Vec::new();
    let mut focused_output: Option<String> = None;
    let mut i: usize = 0;
    while i < raw.len()
        invariant
            i <= raw.len(),
            workspaces@ == Seq::new(i as nat, |k: int| sway_bar_workspace(raw@[k])),
            focused_output == focused_output_of(raw@.take(i as int)),
        decreases raw.len() - i,
    {
        let w = &raw[i];
        proof {
            assert(raw@.take(i + 1).drop_last() =~= raw@.take(i as int));
        }
        if focused_output.is_none() && w.focused {
            focused_output = Some(w.output.clone());
        }
        let rep = crate::launcher::types::copy_opt_string(&w.representation);
        let empty = match &rep {
            Some(s) => s.unicode_len() == 0,
            None => true,
        };
        workspaces.push(
            Workspace {
                id: w.num,
                name: w.name.clone(),
                output: w.output.clone(),
                focused: w.focused,
                urgent: w.urgent,
                empty,
                representation: rep,
            },
        );
        proof {
            assert(workspaces@ =~= Seq::new((i + 1) as nat, |k: int| sway_bar_workspace(raw@[k])));
        }
        i += 1;
    }
    proof {
        assert(raw@.take(raw.len() as int) =~= raw@);
    }
    WorkspaceState { workspaces, focused_output }
}

/// A node of sway's layout tree, as read from its JSON: a missing `focused` reads as false,
/// a missing `type` as "", a `name` or `app_id` that is no string as absent.
#[derive(Debug)]
pub struct SwayTreeNode {
    pub focused: bool,
    pub node_type: String,
    pub name: Option<String>,
    pub app_id: Option<String>,
    pub nodes: Vec<SwayTreeNode>,
    pub floating_nodes: Vec<SwayTreeNode>,
}

/// Whether a node type names a window container.
pub open spec fn is_window_type(t: Seq<char>) -> bool {
    t == "con"@ || t == "floating_con"@
}

/// `Some(s)` unless `s` is empty.
pub open spec fn present(s: Option<String>) -> Option<String> {
    match s {
        Some(t) => if t@.len() == 0 {
            None
        } else {
            Some(t)
        },
        None => None,
    }
}

/// The window a node names itself when it is a focused window container with a title or
/// an app id.
pub open spec fn own_focus(n: SwayTreeNode) -> Option<FocusedWindow> {
    if n.focused && is_window_type(n.node_type@) && (present(n.name) is Some || present(
        n.app_id,
    ) is Some) {
        Some(FocusedWindow { title: present(n.name), app_id: present(n.app_id) })
    } else {
        None
    }
}

/// The focused window of a tree, searched depth-first: the node itself, then its tiled
/// children, then its floating ones.
pub open spec fn tree_focus(n: SwayTreeNode) -> Option<FocusedWindow>
    decreases n,
{
    match own_focus(n) {
        Some(f) => Some(f),
        None => match forest_focus(n.nodes@) {
            Some(f) => Some(f),
            None => forest_focus(n.floating_nodes@),
        },
    }
}

/// The first focused window found in a list of trees.
pub open spec fn forest_focus(s: Seq<SwayTreeNode>) -> Option<FocusedWindow>
    decreases s,
{
    if s.len() == 0 {
        None
    } else {
        match forest_focus(s.drop_last()) {
            Some(f) => Some(f),
            None => tree_focus(s.last()),
        }
    }
}

fn keep_present(s: &Option<String>) -> (r: Option<String>)
    ensures
        r == present(*s),
{
    match s {
        Some(t) => if t.unicode_len() == 0 {
            None
        } else {
            Some(t.clone())
        },
        None => None,
    }
}

/// The focused window of sway's layout tree: the first focused `con` or `floating_con`
/// with a title or an app id, depth-first.
pub fn find_focused_window(node: &SwayTreeNode) -> (r: Option<FocusedWindow>)
    ensures
        r == tree_focus(*node),
    decreases node,
{
    let is_window = crate::text::str_eq(&node.node_type, "con") || crate::text::str_eq(
        &node.node_type,
        "floating_con",
    );
    if node.focused && is_window {
        let title = keep_present(&node.name);
        let app_id = keep_present(&node.app_id);
        if title.is_some() || app_id.is_some() {
            return Some(FocusedWindow { title, app_id });
        }
    }
    match find_in_forest(&node.nodes) {
        Some(f) => Some(f),
        None => find_in_forest(&node.floating_nodes),
    }
}

fn find_in_forest(nodes: &Vec<SwayTreeNode>) -> (r: Option<FocusedWindow>)
    ensures
        r == forest_focus(nodes@),
    decreases nodes,
{
    let mut i: usize = 0;
    while i < nodes.len()
        invariant
            i <= nodes.len(),
            forest_focus(nodes@.take(i as int)) is None,
        decreases nodes.len() - i,
    {
        proof {
            assert(nodes@.take(i + 1).drop_last() =~= nodes@.take(i as int));
            assert(decreases_to!(nodes => nodes@[i as int]));
        }
        match find_focused_window(&nodes[i]) {
            Some(f) => {
                proof {
                    lemma_forest_focus_prefix(nodes@, i + 1);
                }
                return Some(f);
            },
            None => {},
        }
        i += 1;
    }
    proof {
        assert(nodes@.take(nodes.len() as int) =~= nodes@);
    }
    None
}

proof fn lemma_forest_focus_prefix(s: Seq<SwayTreeNode>, k: int)
    requires
        0 <= k <= s.len(),
        forest_focus(s.take(k)) is Some,
    ensures
        forest_focus(s) == forest_focus(s.take(k)),
    decreases s.len(),
{
    if k < s.len() {
        assert(s.drop_last().take(k) =~= s.take(k));
        lemma_forest_focus_prefix(s.drop_last(), k);
    } else {
        assert(s.take(k) =~= s);
    }
}

/// The workspace and focused-window events the bar emits for one sway event.
#[derive(Debug)]
pub struct SwayReaction {
    /// Re-query the workspaces and emit them.
    pub refresh_workspaces: bool,
    /// Emit this focused window.
    pub focus: Option<FocusedWindow>,
}

/// How the bar reacts to a sway event of type `evt_type`: a workspace event refreshes the
/// workspaces; a window event whose `change` is `title`, `focus` or `close` names the
/// container's title and app id as the focused window, and a `close` also refreshes the
/// workspaces (it may have emptied one); everything else is ignored.
pub open spec fn sway_reaction_is(
    evt_type: u32,
    change: Seq<char>,
    title: Option<String>,
    app_id: Option<String>,
    r: SwayReaction,
) -> bool {
    if evt_type == EVT_WORKSPACE {
        r.refresh_workspaces && r.focus is None
    } else if evt_type == EVT_WINDOW && (change == "title"@ || change == "focus"@ || change
        == "close"@) {
        r.refresh_workspaces == (change == "close"@) && r.focus == Some(
            FocusedWindow { title: present(title), app_id: present(app_id) },
        )
    } else {
        !r.refresh_workspaces && r.focus is None
    }
}

/// How the bar reacts to one sway event; `change`, `title` and `app_id` are the event's
/// `change` field and its container's `name` and `app_id`.
pub fn sway_reaction(evt_type: u32, change: &str, title: Option<String>, app_id: Option<String>) -> (r:
    SwayReaction)
    ensures
        sway_reaction_is(evt_type, change@, title, app_id, r),
{
    if evt_type == EVT_WORKSPACE {
        return SwayReaction { refresh_workspaces: true, focus: None };
    }
    if evt_type == EVT_WINDOW {
        let is_close = crate::text::str_eq(change, "close");
        if crate::text::str_eq(change, "title") || crate::text::str_eq(change, "focus") || is_close {
            return SwayReaction {
                refresh_workspaces: is_close,
                focus: Some(
                    FocusedWindow { title: keep_present(&title), app_id: keep_present(&app_id) },
                ),
            };
        }
    }
    SwayReaction { refresh_workspaces: false, focus: None }
}

/// Whether a subscription acknowledgement accepts it: its `success` field is `true`.
pub fn subscription_accepted(success: Option<bool>) -> (r: bool)
    ensures
        r == (success == Some(true)),
{
    match success {
        Some(b) => b,
        None => false,
    }
}

} // verus!
