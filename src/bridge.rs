use vstd::prelude::*;

use crate::registry::FilePath;

verus! {

/// A notification of the debounced file watcher, with the paths it names.
pub enum Notice {
    Create(FilePath),
    Write(FilePath),
    NoticeWrite(FilePath),
    NoticeRemove(FilePath),
    Remove(FilePath),
    Rename(FilePath, FilePath),
    Chmod(FilePath),
    Rescan,
    Error,
}

/// The origin file whose change a notification reports. Only a completed
/// creation or write counts as a change; advisory notices, removals,
/// renames, permission changes, rescans and errors are ignored, so that a
/// half-written file is never loaded.
pub fn changed_path(n: Notice) -> (r: Option<FilePath>)
    ensures
        match n {
            Notice::Create(p) => r == Some(p),
            Notice::Write(p) => r == Some(p),
            _ => r is None,
        },
{
    match n {
        Notice::Create(p) => Some(p),
        Notice::Write(p) => Some(p),
        _ => None,
    }
}

} // verus!
