//! Hyprland's raw IPC: what the command socket's JSON replies become, the command that
//! dispatches, and how each line of the event socket (`EVENT>>DATA`) is handled.
use vstd::prelude::*;
use crate::config::schema::{FocusedWindow, Workspace, WorkspaceState};
use crate::text::{
    chars_of, concat, has_prefix, join_path, path_join, starts_with, string_from_chars, strip_prefix,
};

verus! {

/// `dirs::runtime_dir()` (`$XDG_RUNTIME_DIR`), as a string. It reads the environment, so
/// nothing is stated of its result.
#[verifier::external_body]
fn runtime_dir() -> (r: Option<String>)
{
    match dirs::runtime_dir() {
        Some(p) => Some(p.to_string_lossy().into_owned()),
        None => None,
    }
}

/// The path of Hyprland's socket `file` for the instance `signature` under the runtime
/// directory `runtime`: `<runtime>/hypr/<signature>/<file>`.
pub open spec fn socket_path_for(runtime: Seq<char>, signature: Seq<char>, file: Seq<char>) -> Seq<char> {
    path_join(path_join(path_join(runtime, "hypr"@), signature), file)
}

/// The path of Hyprland's socket `file`, for the instance signature found in
/// `$HYPRLAND_INSTANCE_SIGNATURE`; an error when that or the runtime directory is unknown.
pub fn socket_path(signature: Option<String>, file: &str) -> (r: Result<String, String>)
    ensures
        signature is None ==> (r matches Err(m) && m@ == "HYPRLAND_INSTANCE_SIGNATURE not set"@),
        signature matches Some(sig) ==> (match r {
            Ok(p) => exists|rt: Seq<char>| p@ == socket_path_for(rt, sig@, file@),
            Err(m) => m@ == "XDG_RUNTIME_DIR not set"@,
        }),
{
    let sig = match signature {
        Some(s) => s,
        None => return Err(crate::text::owned("HYPRLAND_INSTANCE_SIGNATURE not set")),
    };
    let runtime = match runtime_dir() {
        Some(r) => r,
        None => return Err(crate::text::owned("XDG_RUNTIME_DIR not set")),
    };
    let a = join_path(&runtime, "hypr");
    let b = join_path(&a, &sig);
    let p = join_path(&b, file);
    proof {
        assert(p@ == socket_path_for(runtime@, sig@, file@));
    }
    Ok(p)
}

/// One entry of Hyprland's `j/workspaces` reply.
#[derive(Debug)]
pub struct RawHyprWorkspace {
    pub id: i32,
    pub name: String,
    pub monitor: String,
    pub windows: u32,
}

/// A listed workspace as the bar shows it; Hyprland's list carries no urgency.
pub open spec fn bar_workspace(w: RawHyprWorkspace, focused_id: Option<i64>) -> Workspace {
    Workspace {
        id: w.id,
        name: w.name,
        output: w.monitor,
        focused: match focused_id {
            Some(i) => i as i32 == w.id,
            None => false,
        },
        urgent: false,
        empty: w.windows == 0,
        representation: None,
    }
}

/// The workspace state from the `j/workspaces` list and the `id` and `monitor` of the
/// `j/activeworkspace` reply.
pub fn workspace_state_from_hyprland(
    raw: &Vec<RawHyprWorkspace>,
    active_id: Option<i64>,
    active_monitor: Option<String>,
) -> (r: WorkspaceState)
    ensures
        r.workspaces@ == Seq::new(raw@.len(), |i: int| bar_workspace(raw@[i], active_id)),
        r.focused_output == active_monitor,
{
    let focused_id: Option<i32> = match active_id {
        Some(i) => Some(i as i32),
        None => None,
    };
    let mut workspaces: Vec<Workspace> = Vec::new();
    let mut i: usize = 0;
    while i < raw.len()
        invariant
            i <= raw.len(),
            focused_id == match active_id {
                Some(k) => Some(k as i32),
                None => None,
            },
            workspaces@ == Seq::new(i as nat, |k: int| bar_workspace(raw@[k], active_id)),
        decreases raw.len() - i,
    {
        let w = &raw[i];
        let focused = match focused_id {
            Some(id) => id == w.id,
            None => false,
        };
        workspaces.push(
            Workspace {
                id: w.id,
                name: w.name.clone(),
                output: w.monitor.clone(),
                focused,
                urgent: false,
                empty: w.windows == 0,
                representation: None,
            },
        );
        proof {
            assert(workspaces@ =~= Seq::new((i + 1) as nat, |k: int| bar_workspace(raw@[k], active_id)));
        }
        i += 1;
    }
    WorkspaceState { workspaces, focused_output: active_monitor }
}

/// `Some(s)` unless `s` is empty.
pub open spec fn nonempty_text(s: Option<String>) -> Option<String> {
    match s {
        Some(t) => if t@.len() == 0 {
            None
        } else {
            Some(t)
        },
        None => None,
    }
}

fn keep_nonempty(s: Option<String>) -> (r: Option<String>)
    ensures
        r == nonempty_text(s),
{
    match s {
        Some(t) => if t.unicode_len() == 0 {
            None
        } else {
            Some(t)
        },
        None => None,
    }
}

/// The focused window from the `j/activewindow` reply: nothing when the reply is not a
/// non-empty object (an empty workspace answers `{}`), else its `title` and `class`, each
/// only when present and not empty.
pub fn focused_window_from_active(
    is_nonempty_object: bool,
    title: Option<String>,
    class: Option<String>,
) -> (r: FocusedWindow)
    ensures
        is_nonempty_object ==> r.title == nonempty_text(title) && r.app_id == nonempty_text(class),
        !is_nonempty_object ==> r.title is None && r.app_id is None,
{
    if !is_nonempty_object {
        return FocusedWindow::default();
    }
    FocusedWindow { title: keep_nonempty(title), app_id: keep_nonempty(class) }
}

/// The command-socket request for a dispatch: `dispatch ` followed by the command.
pub fn hypr_dispatch_command(command: &str) -> (r: String)
    ensures
        r@ == "dispatch "@ + command@,
{
    concat("dispatch ", command)
}

/// The wait before the next reconnection of the event loop: double the last one, at most
/// 30 seconds.
pub fn next_backoff_secs(backoff_secs: u64) -> (r: u64)
    requires
        backoff_secs <= u64::MAX / 2,
    ensures
        r == if 2 * backoff_secs < 30 { 2 * backoff_secs } else { 30 },
{
    let d = backoff_secs * 2;
    if d < 30 {
        d
    } else {
        30
    }
}

/// The index of the first comma in `s`.
pub open spec fn first_comma(s: Seq<char>) -> Option<int>
    decreases s.len(),
{
    if s.len() == 0 {
        None
    } else {
        match first_comma(s.drop_last()) {
            Some(i) => Some(i),
            None => if s.last() == ',' {
                Some(s.len() - 1)
            } else {
                None
            },
        }
    }
}

proof fn lemma_first_comma_prefix(s: Seq<char>, k: int)
    requires
        0 <= k <= s.len(),
        first_comma(s.take(k)) is Some,
    ensures
        first_comma(s) == first_comma(s.take(k)),
    decreases s.len(),
{
    if k < s.len() {
        assert(s.drop_last().take(k) =~= s.take(k));
        lemma_first_comma_prefix(s.drop_last(), k);
    } else {
        assert(s.take(k) =~= s);
    }
}

proof fn lemma_first_comma_bounds(s: Seq<char>)
    ensures
        first_comma(s) matches Some(i) ==> 0 <= i < s.len() && s[i] == ',',
    decreases s.len(),
{
    if s.len() > 0 {
        lemma_first_comma_bounds(s.drop_last());
    }
}

/// `s` split around its first comma, as `str::split_once(',')` does.
pub fn split_at_first_comma(s: &str) -> (r: Option<(String, String)>)
    ensures
        match first_comma(s@) {
            Some(i) => r matches Some((a, b)) && a@ == s@.take(i) && b@ == s@.skip(i + 1),
            None => r is None,
        },
{
    let v = chars_of(s);
    let mut i: usize = 0;
    while i < v.len()
        invariant
            v@ == s@,
            i <= v.len(),
            first_comma(s@.take(i as int)) is None,
        decreases v.len() - i,
    {
        proof {
            assert(s@.take(i + 1).drop_last() =~= s@.take(i as int));
        }
        if v[i] == ',' {
            proof {
                lemma_first_comma_prefix(s@, i + 1);
            }
            let (a, rest) = v.as_slice().split_at(i);
            let b = rest.split_at(1).1;
            proof {
                assert(a@ =~= s@.take(i as int));
                assert(b@ =~= s@.skip(i + 1));
            }
            return Some((string_from_chars(a), string_from_chars(b)));
        }
        i += 1;
    }
    proof {
        assert(s@.take(v.len() as int) =~= s@);
    }
    None
}

/// The focused window an `activewindow>>` event names: its data is `class,title`, split at
/// the first comma (titles may hold commas); each part counts only when not empty, and
/// data without a comma names no window.
pub open spec fn activewindow_focus(data: Seq<char>, r: FocusedWindow) -> bool {
    match first_comma(data) {
        Some(i) => (if i + 1 == data.len() {
            r.title is None
        } else {
            r.title matches Some(t) && t@ == data.skip(i + 1)
        }) && (if i == 0 {
            r.app_id is None
        } else {
            r.app_id matches Some(c) && c@ == data.take(i)
        }),
        None => r.title is None && r.app_id is None,
    }
}

/// The focused window of an `activewindow>>` event's data.
pub fn focused_from_activewindow(data: &str) -> (r: FocusedWindow)
    ensures
        activewindow_focus(data@, r),
{
    proof {
        lemma_first_comma_bounds(data@);
    }
    match split_at_first_comma(data) {
        Some((class, title)) => FocusedWindow {
            title: if title.unicode_len() == 0 {
                None
            } else {
                Some(title)
            },
            app_id: if class.unicode_len() == 0 {
                None
            } else {
                Some(class)
            },
        },
        None => FocusedWindow::default(),
    }
}

/// What the event loop does with one line of the event socket.
#[derive(Debug)]
pub enum HyprLineAction {
    /// Re-query the workspaces and emit them.
    RefreshWorkspaces,
    /// Emit this focused window.
    Focus(FocusedWindow),
    /// Nothing.
    Ignore,
}

/// The handling of an event-socket line: workspace changes and opened or closed windows
/// refresh the workspace list (a window count changed); `activewindow>>` names the focused
/// window; everything else is ignored.
pub open spec fn line_action_is(line: Seq<char>, r: HyprLineAction) -> bool {
    if has_prefix(line, "workspace>>"@) {
        r is RefreshWorkspaces
    } else if has_prefix(line, "activewindow>>"@) {
        r matches HyprLineAction::Focus(f) && activewindow_focus(line.skip("activewindow>>"@.len() as int), f)
    } else if has_prefix(line, "openwindow>>"@) || has_prefix(line, "closewindow>>"@) {
        r is RefreshWorkspaces
    } else {
        r is Ignore
    }
}

/// How the event loop handles one line of the event socket.
pub fn hypr_line_action(line: &str) -> (r: HyprLineAction)
    ensures
        line_action_is(line@, r),
{
    if starts_with(line, "workspace>>") {
        HyprLineAction::RefreshWorkspaces
    } else if let Some(data) = strip_prefix(line, "activewindow>>") {
        HyprLineAction::Focus(focused_from_activewindow(&data))
    } else if starts_with(line, "openwindow>>") || starts_with(line, "closewindow>>") {
        HyprLineAction::RefreshWorkspaces
    } else {
        HyprLineAction::Ignore
    }
}

} // verus!
