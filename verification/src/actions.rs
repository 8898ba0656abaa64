use vstd::prelude::*;

verus! {

/// The files and directories that an update touches. Everything but the
/// sources and the installed executable lives in the installation directory
/// under the name that `layout::slot_file_name` gives it.
#[derive(Clone, Copy, Debug, PartialEq, Eq, Structural)]
pub enum Slot {
    /// The installed `NyaTerm.exe`.
    TargetExe,
    /// Where the previous `NyaTerm.exe` is kept until the update is committed.
    BackupExe,
    /// The new `NyaTerm.exe`, copied next to the installed one.
    NewExe,
    /// The installed `nyaterm-mcp.exe`.
    TargetMcp,
    /// Where the previous `nyaterm-mcp.exe` is kept until the update is committed.
    BackupMcp,
    /// The new `nyaterm-mcp.exe`, copied next to the installed one.
    NewMcp,
    /// The installed `conpty` directory.
    TargetConpty,
    /// Where the previous `conpty` directory is kept until the update is committed.
    BackupConpty,
    /// The new `conpty` directory, staged next to the installed one.
    NewConpty,
    /// The staged `NyaTerm.exe` of the update payload.
    SourceExe,
    /// The staged `nyaterm-mcp.exe` of the update payload.
    SourceMcp,
    /// The staged `conpty` directory of the update payload.
    SourceConpty,
}

/// What a path turned out to be when inspected.
#[derive(Clone, Copy, Debug, PartialEq, Eq, Structural)]
pub enum EntryKind {
    Missing,
    File,
    Directory,
    Other,
}

/// A file-system operation that the update protocol asks its driver to perform.
#[derive(Clone, Copy, Debug, PartialEq, Eq, Structural)]
pub enum FileAction {
    /// Report what the slot currently is.
    Inspect(Slot),
    /// Delete the stale `nyaterm-mcp.exe` backups of earlier updates (best effort).
    CleanStaleMcpBackups,
    /// Move a file with the commit's move operation.
    Move { from: Slot, to: Slot },
    /// Rename a file or directory.
    Rename { from: Slot, to: Slot },
    /// Delete a file.
    RemoveFile(Slot),
    /// Delete a directory tree.
    RemoveDir(Slot),
    /// Copy a file.
    Copy { from: Slot, to: Slot },
    /// Copy the ConPTY files of a directory into a new directory.
    StageConpty { from: Slot, to: Slot },
}

/// What the driver reports back after performing a `FileAction`.
#[derive(Debug)]
pub enum ActionOutcome {
    /// The operation succeeded.
    Succeeded,
    /// The operation failed with this error text.
    Failed(String),
    /// The answer to an `Inspect`.
    Inspected(EntryKind),
}

/// The error text of a failed operation, if it failed.
pub open spec fn failure_of(outcome: ActionOutcome) -> Option<String> {
    match outcome {
        ActionOutcome::Failed(e) => Some(e),
        _ => None,
    }
}

/// The kind reported by an `Inspect`; any other outcome counts as a missing entry.
pub open spec fn kind_of(outcome: ActionOutcome) -> EntryKind {
    match outcome {
        ActionOutcome::Inspected(k) => k,
        _ => EntryKind::Missing,
    }
}

/// Takes the error text out of an outcome.
pub fn take_failure(outcome: ActionOutcome) -> (res: Option<String>)
    ensures
        res == failure_of(outcome),
{
    match outcome {
        ActionOutcome::Failed(e) => Some(e),
        _ => None,
    }
}

/// Reads the kind out of an outcome.
pub fn outcome_kind(outcome: &ActionOutcome) -> (res: EntryKind)
    ensures
        res == kind_of(*outcome),
{
    match outcome {
        ActionOutcome::Inspected(k) => *k,
        _ => EntryKind::Missing,
    }
}

} // verus!
