//! The power menu's actions as systemd-logind calls.
use vstd::prelude::*;
use crate::config::schema::PowerAction;
use crate::text::concat;

verus! {

/// A call on logind: the manager's power methods (never interactive), or a method of the
/// user's session.
#[derive(Debug, Clone, Copy, PartialEq, Eq, Structural)]
pub enum LogindCall {
    PowerOff,
    Reboot,
    Suspend,
    Hibernate,
    HybridSleep,
    /// `Lock` on the session.
    LockSession,
    /// `Terminate` on the session.
    TerminateSession,
}

/// The logind call that performs a power action; logging out terminates the session.
pub fn logind_call_for(action: PowerAction) -> (r: LogindCall)
    ensures
        r == match action {
            PowerAction::Poweroff => LogindCall::PowerOff,
            PowerAction::Reboot => LogindCall::Reboot,
            PowerAction::Suspend => LogindCall::Suspend,
            PowerAction::Hibernate => LogindCall::Hibernate,
            PowerAction::HybridSleep => LogindCall::HybridSleep,
            PowerAction::Lock => LogindCall::LockSession,
            PowerAction::Logout => LogindCall::TerminateSession,
        },
{
    match action {
        PowerAction::Poweroff => LogindCall::PowerOff,
        PowerAction::Reboot => LogindCall::Reboot,
        PowerAction::Suspend => LogindCall::Suspend,
        PowerAction::Hibernate => LogindCall::Hibernate,
        PowerAction::HybridSleep => LogindCall::HybridSleep,
        PowerAction::Lock => LogindCall::LockSession,
        PowerAction::Logout => LogindCall::TerminateSession,
    }
}

/// The object path of the session with id `session_id` (`$XDG_SESSION_ID`); without one,
/// logind's alias `auto` for the caller's session.
pub fn session_object_path(session_id: Option<String>) -> (r: String)
    ensures
        r@ == "/org/freedesktop/login1/session/"@ + match session_id {
            Some(id) => id@,
            None => "auto"@,
        },
{
    let id = match session_id {
        Some(id) => id,
        None => crate::text::owned("auto"),
    };
    concat("/org/freedesktop/login1/session/", &id)
}

} // verus!
