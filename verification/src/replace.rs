use vstd::prelude::*;

use crate::actions::{failure_of, kind_of, outcome_kind, take_failure, ActionOutcome, EntryKind, FileAction, Slot};
use crate::commit::{CommitMachine, CommitPhase};
use crate::error::UpdateError;

verus! {

/// Where the replacement of the installed program files stands.
#[derive(Debug)]
pub enum ReplacePhase {
    /// Delete stale MCP backups of earlier updates.
    CleanStale,
    /// Delete a leftover new executable.
    RemoveNewExe,
    /// Delete a leftover executable backup.
    RemoveBackupExe,
    /// Delete a leftover new MCP server.
    RemoveNewMcp,
    /// Look for a leftover new ConPTY directory.
    InspectNewConpty,
    /// Delete the leftover new ConPTY directory.
    RemoveStaleConpty,
    /// Copy the new executable next to the installed one.
    CopyExe,
    /// Copy the new MCP server next to the installed one.
    CopyMcp,
    /// Copying the MCP server failed: delete the copied executable.
    UndoCopyExe { error: String },
    /// Copy the new ConPTY files next to the installed ones.
    StageConpty,
    /// Staging ConPTY failed: delete the copied executable.
    UndoStageExe { error: String },
    /// Staging ConPTY failed: delete the copied MCP server.
    UndoStageMcp { error: String },
    /// Staging ConPTY failed: delete the partly staged directory.
    UndoStageConpty { error: String },
    /// Find out what the installed `conpty` path holds.
    InspectTargetConpty,
    /// The installed `conpty` path is not a directory: drop the staged one and give up.
    DropNewConpty,
    /// Move the installed ConPTY directory to its backup.
    BackupConpty,
    /// Move the staged ConPTY directory into place.
    InstallConpty,
    /// Installing ConPTY failed: put the previous directory back.
    RestoreConptyAfterInstall { error: String },
    /// Swap the executable and MCP server (see `CommitMachine`).
    Commit(CommitMachine),
    /// After the commit: delete what is left of the new executable.
    DropNewExe { result: Result<(), UpdateError> },
    /// After the commit: delete what is left of the new MCP server.
    DropNewMcp { result: Result<(), UpdateError> },
    /// The commit failed: delete the installed new ConPTY directory.
    RemoveInstalledConpty { cause: UpdateError },
    /// The commit failed: put the previous ConPTY directory back.
    RestoreConpty { cause: UpdateError, remove_error: Option<String> },
    /// The commit succeeded: delete the executable backup.
    DropBackupExe,
    /// The commit succeeded: delete the MCP backup.
    DropBackupMcp,
    /// The commit succeeded: delete the ConPTY backup.
    DropBackupConpty,
    /// The replacement is over.
    Done(Result<(), UpdateError>),
}

/// The protocol that installs staged program files over a portable
/// installation: the ConPTY directory first, then the executable and MCP
/// server, undoing what was done when a later step fails.
#[derive(Debug)]
pub struct ReplaceMachine {
    pub phase: ReplacePhase,
    /// Whether a `conpty` directory was installed before the update.
    pub had_conpty: bool,
}

/// The error reported when the commit failed, given how the ConPTY rollback went.
pub open spec fn conpty_rollback_error(
    cause: UpdateError,
    remove_error: Option<String>,
    restore_error: Option<String>,
) -> UpdateError {
    if remove_error is None && restore_error is None {
        cause
    } else {
        UpdateError::ConptyRollbackFailed { cause: Box::new(cause), remove_error, restore_error }
    }
}

impl ReplaceMachine {
    /// The replacement before its first step.
    pub open spec fn initial() -> ReplaceMachine {
        ReplaceMachine { phase: ReplacePhase::CleanStale, had_conpty: false }
    }

    /// Whether the replacement is over.
    pub open spec fn is_done(self) -> bool {
        self.phase is Done
    }

    /// The operation the replacement waits for, or `None` once it is over.
    pub open spec fn next_action(self) -> Option<FileAction> {
        match self.phase {
            ReplacePhase::CleanStale => Some(FileAction::CleanStaleMcpBackups),
            ReplacePhase::RemoveNewExe => Some(FileAction::RemoveFile(Slot::NewExe)),
            ReplacePhase::RemoveBackupExe => Some(FileAction::RemoveFile(Slot::BackupExe)),
            ReplacePhase::RemoveNewMcp => Some(FileAction::RemoveFile(Slot::NewMcp)),
            ReplacePhase::InspectNewConpty => Some(FileAction::Inspect(Slot::NewConpty)),
            ReplacePhase::RemoveStaleConpty => Some(FileAction::RemoveDir(Slot::NewConpty)),
            ReplacePhase::CopyExe => Some(FileAction::Copy { from: Slot::SourceExe, to: Slot::NewExe }),
            ReplacePhase::CopyMcp => Some(FileAction::Copy { from: Slot::SourceMcp, to: Slot::NewMcp }),
            ReplacePhase::UndoCopyExe { .. } => Some(FileAction::RemoveFile(Slot::NewExe)),
            ReplacePhase::StageConpty => Some(FileAction::StageConpty { from: Slot::SourceConpty, to: Slot::NewConpty }),
            ReplacePhase::UndoStageExe { .. } => Some(FileAction::RemoveFile(Slot::NewExe)),
            ReplacePhase::UndoStageMcp { .. } => Some(FileAction::RemoveFile(Slot::NewMcp)),
            ReplacePhase::UndoStageConpty { .. } => Some(FileAction::RemoveDir(Slot::NewConpty)),
            ReplacePhase::InspectTargetConpty => Some(FileAction::Inspect(Slot::TargetConpty)),
            ReplacePhase::DropNewConpty => Some(FileAction::RemoveDir(Slot::NewConpty)),
            ReplacePhase::BackupConpty => Some(FileAction::Rename { from: Slot::TargetConpty, to: Slot::BackupConpty }),
            ReplacePhase::InstallConpty => Some(FileAction::Rename { from: Slot::NewConpty, to: Slot::TargetConpty }),
            ReplacePhase::RestoreConptyAfterInstall { .. } => Some(FileAction::Rename { from: Slot::BackupConpty, to: Slot::TargetConpty }),
            ReplacePhase::Commit(c) => c.next_action(),
            ReplacePhase::DropNewExe { .. } => Some(FileAction::RemoveFile(Slot::NewExe)),
            ReplacePhase::DropNewMcp { .. } => Some(FileAction::RemoveFile(Slot::NewMcp)),
            ReplacePhase::RemoveInstalledConpty { .. } => Some(FileAction::RemoveDir(Slot::TargetConpty)),
            ReplacePhase::RestoreConpty { .. } => Some(FileAction::Rename { from: Slot::BackupConpty, to: Slot::TargetConpty }),
            ReplacePhase::DropBackupExe => Some(FileAction::RemoveFile(Slot::BackupExe)),
            ReplacePhase::DropBackupMcp => Some(FileAction::RemoveFile(Slot::BackupMcp)),
            ReplacePhase::DropBackupConpty => Some(FileAction::RemoveDir(Slot::BackupConpty)),
            ReplacePhase::Done(_) => None,
        }
    }

    /// The replacement after the pending operation ended with `outcome`.
    pub open spec fn after(self, outcome: ActionOutcome) -> ReplaceMachine {
        let had_conpty = self.had_conpty;
        let failure = failure_of(outcome);
        let phase = match self.phase {
            ReplacePhase::CleanStale => ReplacePhase::RemoveNewExe,
            ReplacePhase::RemoveNewExe => ReplacePhase::RemoveBackupExe,
            ReplacePhase::RemoveBackupExe => ReplacePhase::RemoveNewMcp,
            ReplacePhase::RemoveNewMcp => ReplacePhase::InspectNewConpty,
            ReplacePhase::InspectNewConpty => if kind_of(outcome) == EntryKind::Missing {
                ReplacePhase::CopyExe
            } else {
                ReplacePhase::RemoveStaleConpty
            },
            ReplacePhase::RemoveStaleConpty => match failure {
                Some(e) => ReplacePhase::Done(Err(UpdateError::Io(e))),
                None => ReplacePhase::CopyExe,
            },
            ReplacePhase::CopyExe => match failure {
                Some(e) => ReplacePhase::Done(Err(UpdateError::Io(e))),
                None => ReplacePhase::CopyMcp,
            },
            ReplacePhase::CopyMcp => match failure {
                Some(e) => ReplacePhase::UndoCopyExe { error: e },
                None => ReplacePhase::StageConpty,
            },
            ReplacePhase::UndoCopyExe { error } => ReplacePhase::Done(Err(UpdateError::Io(error))),
            ReplacePhase::StageConpty => match failure {
                Some(e) => ReplacePhase::UndoStageExe { error: e },
                None => ReplacePhase::InspectTargetConpty,
            },
            ReplacePhase::UndoStageExe { error } => ReplacePhase::UndoStageMcp { error },
            ReplacePhase::UndoStageMcp { error } => ReplacePhase::UndoStageConpty { error },
            ReplacePhase::UndoStageConpty { error } => ReplacePhase::Done(Err(UpdateError::Io(error))),
            ReplacePhase::InspectTargetConpty => match kind_of(outcome) {
                EntryKind::Missing => ReplacePhase::InstallConpty,
                EntryKind::Directory => ReplacePhase::BackupConpty,
                _ => ReplacePhase::DropNewConpty,
            },
            ReplacePhase::DropNewConpty => ReplacePhase::Done(Err(UpdateError::ConptyTargetNotDirectory)),
            ReplacePhase::BackupConpty => match failure {
                Some(e) => ReplacePhase::Done(Err(UpdateError::Io(e))),
                None => ReplacePhase::InstallConpty,
            },
            ReplacePhase::InstallConpty => match failure {
                Some(e) => if had_conpty {
                    ReplacePhase::RestoreConptyAfterInstall { error: e }
                } else {
                    ReplacePhase::Done(Err(UpdateError::Io(e)))
                },
                None => ReplacePhase::Commit(CommitMachine::initial()),
            },
            ReplacePhase::RestoreConptyAfterInstall { error } => ReplacePhase::Done(Err(UpdateError::Io(error))),
            ReplacePhase::Commit(c) => {
                let c2 = c.after(outcome);
                match c2.phase {
                    CommitPhase::Done(result) => ReplacePhase::DropNewExe { result },
                    _ => ReplacePhase::Commit(c2),
                }
            },
            ReplacePhase::DropNewExe { result } => ReplacePhase::DropNewMcp { result },
            ReplacePhase::DropNewMcp { result } => match result {
                Err(cause) => ReplacePhase::RemoveInstalledConpty { cause },
                Ok(()) => ReplacePhase::DropBackupExe,
            },
            ReplacePhase::RemoveInstalledConpty { cause } => if had_conpty {
                ReplacePhase::RestoreConpty { cause, remove_error: failure }
            } else {
                ReplacePhase::Done(Err(conpty_rollback_error(cause, failure, None)))
            },
            ReplacePhase::RestoreConpty { cause, remove_error } => ReplacePhase::Done(
                Err(conpty_rollback_error(cause, remove_error, failure)),
            ),
            ReplacePhase::DropBackupExe => ReplacePhase::DropBackupMcp,
            ReplacePhase::DropBackupMcp => if had_conpty {
                ReplacePhase::DropBackupConpty
            } else {
                ReplacePhase::Done(Ok(()))
            },
            ReplacePhase::DropBackupConpty => ReplacePhase::Done(Ok(())),
            ReplacePhase::Done(r) => ReplacePhase::Done(r),
        };
        let had_conpty = match self.phase {
            ReplacePhase::InspectTargetConpty => kind_of(outcome) == EntryKind::Directory,
            _ => had_conpty,
        };
        ReplaceMachine { phase, had_conpty }
    }

    /// Starts a replacement.
    pub fn new() -> (res: ReplaceMachine)
        ensures
            res == ReplaceMachine::initial(),
    {
        ReplaceMachine { phase: ReplacePhase::CleanStale, had_conpty: false }
    }

    /// The operation to perform next, or `None` once the replacement is over.
    pub fn action(&self) -> (res: Option<FileAction>)
        ensures
            res == self.next_action(),
    {
        match &self.phase {
            ReplacePhase::CleanStale => Some(FileAction::CleanStaleMcpBackups),
            ReplacePhase::RemoveNewExe => Some(FileAction::RemoveFile(Slot::NewExe)),
            ReplacePhase::RemoveBackupExe => Some(FileAction::RemoveFile(Slot::BackupExe)),
            ReplacePhase::RemoveNewMcp => Some(FileAction::RemoveFile(Slot::NewMcp)),
            ReplacePhase::InspectNewConpty => Some(FileAction::Inspect(Slot::NewConpty)),
            ReplacePhase::RemoveStaleConpty => Some(FileAction::RemoveDir(Slot::NewConpty)),
            ReplacePhase::CopyExe => Some(FileAction::Copy { from: Slot::SourceExe, to: Slot::NewExe }),
            ReplacePhase::CopyMcp => Some(FileAction::Copy { from: Slot::SourceMcp, to: Slot::NewMcp }),
            ReplacePhase::UndoCopyExe { .. } => Some(FileAction::RemoveFile(Slot::NewExe)),
            ReplacePhase::StageConpty => Some(FileAction::StageConpty { from: Slot::SourceConpty, to: Slot::NewConpty }),
            ReplacePhase::UndoStageExe { .. } => Some(FileAction::RemoveFile(Slot::NewExe)),
            ReplacePhase::UndoStageMcp { .. } => Some(FileAction::RemoveFile(Slot::NewMcp)),
            ReplacePhase::UndoStageConpty { .. } => Some(FileAction::RemoveDir(Slot::NewConpty)),
            ReplacePhase::InspectTargetConpty => Some(FileAction::Inspect(Slot::TargetConpty)),
            ReplacePhase::DropNewConpty => Some(FileAction::RemoveDir(Slot::NewConpty)),
            ReplacePhase::BackupConpty => Some(FileAction::Rename { from: Slot::TargetConpty, to: Slot::BackupConpty }),
            ReplacePhase::InstallConpty => Some(FileAction::Rename { from: Slot::NewConpty, to: Slot::TargetConpty }),
            ReplacePhase::RestoreConptyAfterInstall { .. } => Some(FileAction::Rename { from: Slot::BackupConpty, to: Slot::TargetConpty }),
            ReplacePhase::Commit(c) => c.action(),
            ReplacePhase::DropNewExe { .. } => Some(FileAction::RemoveFile(Slot::NewExe)),
            ReplacePhase::DropNewMcp { .. } => Some(FileAction::RemoveFile(Slot::NewMcp)),
            ReplacePhase::RemoveInstalledConpty { .. } => Some(FileAction::RemoveDir(Slot::TargetConpty)),
            ReplacePhase::RestoreConpty { .. } => Some(FileAction::Rename { from: Slot::BackupConpty, to: Slot::TargetConpty }),
            ReplacePhase::DropBackupExe => Some(FileAction::RemoveFile(Slot::BackupExe)),
            ReplacePhase::DropBackupMcp => Some(FileAction::RemoveFile(Slot::BackupMcp)),
            ReplacePhase::DropBackupConpty => Some(FileAction::RemoveDir(Slot::BackupConpty)),
            ReplacePhase::Done(_) => None,
        }
    }

    /// Records the outcome of the pending operation and moves to the next step.
    pub fn advance(self, outcome: ActionOutcome) -> (res: ReplaceMachine)
        ensures
            res == self.after(outcome),
    {
        let had_conpty = self.had_conpty;
        match self.phase {
            ReplacePhase::CleanStale => ReplaceMachine { phase: ReplacePhase::RemoveNewExe, had_conpty },
            ReplacePhase::RemoveNewExe => ReplaceMachine { phase: ReplacePhase::RemoveBackupExe, had_conpty },
            ReplacePhase::RemoveBackupExe => ReplaceMachine { phase: ReplacePhase::RemoveNewMcp, had_conpty },
            ReplacePhase::RemoveNewMcp => ReplaceMachine { phase: ReplacePhase::InspectNewConpty, had_conpty },
            ReplacePhase::InspectNewConpty => {
                let phase = match outcome_kind(&outcome) {
                    EntryKind::Missing => ReplacePhase::CopyExe,
                    _ => ReplacePhase::RemoveStaleConpty,
                };
                ReplaceMachine { phase, had_conpty }
            },
            ReplacePhase::RemoveStaleConpty => {
                let phase = match take_failure(outcome) {
                    Some(e) => ReplacePhase::Done(Err(UpdateError::Io(e))),
                    None => ReplacePhase::CopyExe,
                };
                ReplaceMachine { phase, had_conpty }
            },
            ReplacePhase::CopyExe => {
                let phase = match take_failure(outcome) {
                    Some(e) => ReplacePhase::Done(Err(UpdateError::Io(e))),
                    None => ReplacePhase::CopyMcp,
                };
                ReplaceMachine { phase, had_conpty }
            },
            ReplacePhase::CopyMcp => {
                let phase = match take_failure(outcome) {
                    Some(e) => ReplacePhase::UndoCopyExe { error: e },
                    None => ReplacePhase::StageConpty,
                };
                ReplaceMachine { phase, had_conpty }
            },
            ReplacePhase::UndoCopyExe { error } => ReplaceMachine {
                phase: ReplacePhase::Done(Err(UpdateError::Io(error))),
                had_conpty,
            },
            ReplacePhase::StageConpty => {
                let phase = match take_failure(outcome) {
                    Some(e) => ReplacePhase::UndoStageExe { error: e },
                    None => ReplacePhase::InspectTargetConpty,
                };
                ReplaceMachine { phase, had_conpty }
            },
            ReplacePhase::UndoStageExe { error } => ReplaceMachine { phase: ReplacePhase::UndoStageMcp { error }, had_conpty },
            ReplacePhase::UndoStageMcp { error } => ReplaceMachine { phase: ReplacePhase::UndoStageConpty { error }, had_conpty },
            ReplacePhase::UndoStageConpty { error } => ReplaceMachine {
                phase: ReplacePhase::Done(Err(UpdateError::Io(error))),
                had_conpty,
            },
            ReplacePhase::InspectTargetConpty => {
                let kind = outcome_kind(&outcome);
                let phase = match kind {
                    EntryKind::Missing => ReplacePhase::InstallConpty,
                    EntryKind::Directory => ReplacePhase::BackupConpty,
                    _ => ReplacePhase::DropNewConpty,
                };
                let had_conpty = match kind {
                    EntryKind::Directory => true,
                    _ => false,
                };
                ReplaceMachine { phase, had_conpty }
            },
            ReplacePhase::DropNewConpty => ReplaceMachine {
                phase: ReplacePhase::Done(Err(UpdateError::ConptyTargetNotDirectory)),
                had_conpty,
            },
            ReplacePhase::BackupConpty => {
                let phase = match take_failure(outcome) {
                    Some(e) => ReplacePhase::Done(Err(UpdateError::Io(e))),
                    None => ReplacePhase::InstallConpty,
                };
                ReplaceMachine { phase, had_conpty }
            },
            ReplacePhase::InstallConpty => {
                let phase = match take_failure(outcome) {
                    Some(e) => if had_conpty {
                        ReplacePhase::RestoreConptyAfterInstall { error: e }
                    } else {
                        ReplacePhase::Done(Err(UpdateError::Io(e)))
                    },
                    None => ReplacePhase::Commit(CommitMachine::new()),
                };
                ReplaceMachine { phase, had_conpty }
            },
            ReplacePhase::RestoreConptyAfterInstall { error } => ReplaceMachine {
                phase: ReplacePhase::Done(Err(UpdateError::Io(error))),
                had_conpty,
            },
            ReplacePhase::Commit(c) => {
                let c2 = c.advance(outcome);
                let phase = match c2.phase {
                    CommitPhase::Done(result) => ReplacePhase::DropNewExe { result },
                    other => ReplacePhase::Commit(CommitMachine { phase: other, had_mcp: c2.had_mcp }),
                };
                ReplaceMachine { phase, had_conpty }
            },
            ReplacePhase::DropNewExe { result } => ReplaceMachine { phase: ReplacePhase::DropNewMcp { result }, had_conpty },
            ReplacePhase::DropNewMcp { result } => {
                let phase = match result {
                    Err(cause) => ReplacePhase::RemoveInstalledConpty { cause },
                    Ok(()) => ReplacePhase::DropBackupExe,
                };
                ReplaceMachine { phase, had_conpty }
            },
            ReplacePhase::RemoveInstalledConpty { cause } => {
                let failure = take_failure(outcome);
                let phase = if had_conpty {
                    ReplacePhase::RestoreConpty { cause, remove_error: failure }
                } else {
                    ReplacePhase::Done(Err(make_conpty_rollback_error(cause, failure, None)))
                };
                ReplaceMachine { phase, had_conpty }
            },
            ReplacePhase::RestoreConpty { cause, remove_error } => {
                let failure = take_failure(outcome);
                ReplaceMachine {
                    phase: ReplacePhase::Done(Err(make_conpty_rollback_error(cause, remove_error, failure))),
                    had_conpty,
                }
            },
            ReplacePhase::DropBackupExe => ReplaceMachine { phase: ReplacePhase::DropBackupMcp, had_conpty },
            ReplacePhase::DropBackupMcp => {
                let phase = if had_conpty {
                    ReplacePhase::DropBackupConpty
                } else {
                    ReplacePhase::Done(Ok(()))
                };
                ReplaceMachine { phase, had_conpty }
            },
            ReplacePhase::DropBackupConpty => ReplaceMachine { phase: ReplacePhase::Done(Ok(())), had_conpty },
            ReplacePhase::Done(r) => ReplaceMachine { phase: ReplacePhase::Done(r), had_conpty },
        }
    }

    /// The result of a finished replacement.
    pub fn into_result(self) -> (res: Result<(), UpdateError>)
        requires
            self.is_done(),
        ensures
            self.phase == ReplacePhase::Done(res),
    {
        match self.phase {
            ReplacePhase::Done(r) => r,
            _ => Ok(()),
        }
    }
}

fn make_conpty_rollback_error(
    cause: UpdateError,
    remove_error: Option<String>,
    restore_error: Option<String>,
) -> (res: UpdateError)
    ensures
        res == conpty_rollback_error(cause, remove_error, restore_error),
{
    if remove_error.is_none() && restore_error.is_none() {
        cause
    } else {
        UpdateError::ConptyRollbackFailed { cause: Box::new(cause), remove_error, restore_error }
    }
}

} // verus!
