//! Which file-system events reload the configuration.
use vstd::prelude::*;
use crate::launcher::types::views;
use crate::text::str_eq;

verus! {

/// The kind of a file-system event, as far as reloading cares.
#[derive(Debug, Clone, Copy, PartialEq, Eq, Structural)]
pub enum FsEventKind {
    Create,
    Modify,
    /// Access, removal and anything else.
    Other,
}

/// Whether an event is a write to the configuration file: a creation or modification
/// among whose paths is the file itself (the directory is watched, to catch editors that
/// save by renaming a temporary file).
pub fn is_write_to(kind: FsEventKind, paths: &Vec<String>, target: &str) -> (r: bool)
    ensures
        r == ((kind == FsEventKind::Create || kind == FsEventKind::Modify) && views(paths@).contains(
            target@,
        )),
{
    if kind == FsEventKind::Other {
        return false;
    }
    let mut i: usize = 0;
    while i < paths.len()
        invariant
            i <= paths.len(),
            kind != FsEventKind::Other,
            forall|j: int| 0 <= j < i ==> views(paths@)[j] != target@,
        decreases paths.len() - i,
    {
        if str_eq(&paths[i], target) {
            proof {
                assert(views(paths@)[i as int] == target@);
            }
            return true;
        }
        i += 1;
    }
    false
}

} // verus!
