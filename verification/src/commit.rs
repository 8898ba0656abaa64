use vstd::prelude::*;

use crate::actions::{failure_of, kind_of, outcome_kind, take_failure, ActionOutcome, EntryKind, FileAction, Slot};
use crate::error::UpdateError;

verus! {

/// Where the commit of `NyaTerm.exe` and `nyaterm-mcp.exe` stands.
#[derive(Debug)]
pub enum CommitPhase {
    /// Move the installed executable to its backup.
    BackupExe,
    /// Find out what the installed `nyaterm-mcp.exe` path holds.
    InspectMcp,
    /// The MCP target is not a file: put the executable back and give up.
    AbortMcpNotFile,
    /// Move the installed `nyaterm-mcp.exe` to its backup.
    BackupMcp,
    /// Backing up the MCP server failed: put the executable back.
    RestoreExeAfterMcp { error: String },
    /// Move the new executable into place.
    InstallExe,
    /// Installing the executable failed: restore it.
    ExeRollbackExe { error: String },
    /// Installing the executable failed: restore the MCP server.
    ExeRollbackMcp { error: String, restore_exe: Option<String> },
    /// Move the new `nyaterm-mcp.exe` into place.
    InstallMcp,
    /// Installing the MCP server failed: remove the new executable.
    McpRollbackRemove { error: String },
    /// Installing the MCP server failed: restore the executable.
    McpRollbackExe { error: String, remove_exe: Option<String> },
    /// Installing the MCP server failed: restore the previous MCP server.
    McpRollbackMcp { error: String, remove_exe: Option<String>, restore_exe: Option<String> },
    /// The commit is over.
    Done(Result<(), UpdateError>),
}

/// The protocol that swaps the new executable and MCP server into place,
/// keeping backups of the installed ones and putting them back on failure.
/// The driver performs `action()` and hands the outcome to `advance`.
#[derive(Debug)]
pub struct CommitMachine {
    pub phase: CommitPhase,
    /// Whether an `nyaterm-mcp.exe` file was installed before the commit.
    pub had_mcp: bool,
}

/// The error reported when installing the executable failed.
pub open spec fn exe_install_error(
    error: String,
    restore_exe: Option<String>,
    restore_mcp: Option<String>,
) -> UpdateError {
    if restore_exe is None && restore_mcp is None {
        UpdateError::Io(error)
    } else {
        UpdateError::ExeInstallFailed { error, restore_exe, restore_mcp }
    }
}

/// The error reported when installing the MCP server failed.
pub open spec fn mcp_install_error(
    error: String,
    remove_exe: Option<String>,
    restore_exe: Option<String>,
    restore_mcp: Option<String>,
) -> UpdateError {
    if remove_exe is None && restore_exe is None && restore_mcp is None {
        UpdateError::Io(error)
    } else {
        UpdateError::McpInstallFailed { error, remove_exe, restore_exe, restore_mcp }
    }
}

impl CommitMachine {
    /// The commit before its first step.
    pub open spec fn initial() -> CommitMachine {
        CommitMachine { phase: CommitPhase::BackupExe, had_mcp: false }
    }

    /// Whether the commit is over.
    pub open spec fn is_done(self) -> bool {
        self.phase is Done
    }

    /// The operation the commit waits for, or `None` once it is over.
    pub open spec fn next_action(self) -> Option<FileAction> {
        match self.phase {
            CommitPhase::BackupExe => Some(FileAction::Move { from: Slot::TargetExe, to: Slot::BackupExe }),
            CommitPhase::InspectMcp => Some(FileAction::Inspect(Slot::TargetMcp)),
            CommitPhase::AbortMcpNotFile => Some(FileAction::Rename { from: Slot::BackupExe, to: Slot::TargetExe }),
            CommitPhase::BackupMcp => Some(FileAction::Move { from: Slot::TargetMcp, to: Slot::BackupMcp }),
            CommitPhase::RestoreExeAfterMcp { .. } => Some(FileAction::Rename { from: Slot::BackupExe, to: Slot::TargetExe }),
            CommitPhase::InstallExe => Some(FileAction::Move { from: Slot::NewExe, to: Slot::TargetExe }),
            CommitPhase::ExeRollbackExe { .. } => Some(FileAction::Rename { from: Slot::BackupExe, to: Slot::TargetExe }),
            CommitPhase::ExeRollbackMcp { .. } => Some(FileAction::Rename { from: Slot::BackupMcp, to: Slot::TargetMcp }),
            CommitPhase::InstallMcp => Some(FileAction::Move { from: Slot::NewMcp, to: Slot::TargetMcp }),
            CommitPhase::McpRollbackRemove { .. } => Some(FileAction::RemoveFile(Slot::TargetExe)),
            CommitPhase::McpRollbackExe { .. } => Some(FileAction::Rename { from: Slot::BackupExe, to: Slot::TargetExe }),
            CommitPhase::McpRollbackMcp { .. } => Some(FileAction::Rename { from: Slot::BackupMcp, to: Slot::TargetMcp }),
            CommitPhase::Done(_) => None,
        }
    }

    /// The commit after the pending operation ended with `outcome`.
    pub open spec fn after(self, outcome: ActionOutcome) -> CommitMachine {
        let had_mcp = self.had_mcp;
        let failure = failure_of(outcome);
        match self.phase {
            CommitPhase::BackupExe => match failure {
                Some(e) => CommitMachine { phase: CommitPhase::Done(Err(UpdateError::Io(e))), had_mcp },
                None => CommitMachine { phase: CommitPhase::InspectMcp, had_mcp },
            },
            CommitPhase::InspectMcp => match kind_of(outcome) {
                EntryKind::File => CommitMachine { phase: CommitPhase::BackupMcp, had_mcp: true },
                EntryKind::Missing => CommitMachine { phase: CommitPhase::InstallExe, had_mcp: false },
                _ => CommitMachine { phase: CommitPhase::AbortMcpNotFile, had_mcp: false },
            },
            CommitPhase::AbortMcpNotFile => CommitMachine {
                phase: CommitPhase::Done(Err(UpdateError::McpTargetNotFile)),
                had_mcp,
            },
            CommitPhase::BackupMcp => match failure {
                Some(e) => CommitMachine { phase: CommitPhase::RestoreExeAfterMcp { error: e }, had_mcp },
                None => CommitMachine { phase: CommitPhase::InstallExe, had_mcp },
            },
            CommitPhase::RestoreExeAfterMcp { error } => match failure {
                Some(r) => CommitMachine {
                    phase: CommitPhase::Done(Err(UpdateError::McpPrepareFailed { error, rollback: r })),
                    had_mcp,
                },
                None => CommitMachine { phase: CommitPhase::Done(Err(UpdateError::Io(error))), had_mcp },
            },
            CommitPhase::InstallExe => match failure {
                Some(e) => CommitMachine { phase: CommitPhase::ExeRollbackExe { error: e }, had_mcp },
                None => CommitMachine { phase: CommitPhase::InstallMcp, had_mcp },
            },
            CommitPhase::ExeRollbackExe { error } => if had_mcp {
                CommitMachine { phase: CommitPhase::ExeRollbackMcp { error, restore_exe: failure }, had_mcp }
            } else {
                CommitMachine {
                    phase: CommitPhase::Done(Err(exe_install_error(error, failure, None))),
                    had_mcp,
                }
            },
            CommitPhase::ExeRollbackMcp { error, restore_exe } => CommitMachine {
                phase: CommitPhase::Done(Err(exe_install_error(error, restore_exe, failure))),
                had_mcp,
            },
            CommitPhase::InstallMcp => match failure {
                Some(e) => CommitMachine { phase: CommitPhase::McpRollbackRemove { error: e }, had_mcp },
                None => CommitMachine { phase: CommitPhase::Done(Ok(())), had_mcp },
            },
            CommitPhase::McpRollbackRemove { error } => CommitMachine {
                phase: CommitPhase::McpRollbackExe { error, remove_exe: failure },
                had_mcp,
            },
            CommitPhase::McpRollbackExe { error, remove_exe } => if had_mcp {
                CommitMachine {
                    phase: CommitPhase::McpRollbackMcp { error, remove_exe, restore_exe: failure },
                    had_mcp,
                }
            } else {
                CommitMachine {
                    phase: CommitPhase::Done(Err(mcp_install_error(error, remove_exe, failure, None))),
                    had_mcp,
                }
            },
            CommitPhase::McpRollbackMcp { error, remove_exe, restore_exe } => CommitMachine {
                phase: CommitPhase::Done(Err(mcp_install_error(error, remove_exe, restore_exe, failure))),
                had_mcp,
            },
            CommitPhase::Done(r) => CommitMachine { phase: CommitPhase::Done(r), had_mcp },
        }
    }

    /// Starts a commit.
    pub fn new() -> (res: CommitMachine)
        ensures
            res == CommitMachine::initial(),
    {
        CommitMachine { phase: CommitPhase::BackupExe, had_mcp: false }
    }

    /// The operation to perform next, or `None` once the commit is over.
    pub fn action(&self) -> (res: Option<FileAction>)
        ensures
            res == self.next_action(),
    {
        match &self.phase {
            CommitPhase::BackupExe => Some(FileAction::Move { from: Slot::TargetExe, to: Slot::BackupExe }),
            CommitPhase::InspectMcp => Some(FileAction::Inspect(Slot::TargetMcp)),
            CommitPhase::AbortMcpNotFile => Some(FileAction::Rename { from: Slot::BackupExe, to: Slot::TargetExe }),
            CommitPhase::BackupMcp => Some(FileAction::Move { from: Slot::TargetMcp, to: Slot::BackupMcp }),
            CommitPhase::RestoreExeAfterMcp { .. } => Some(FileAction::Rename { from: Slot::BackupExe, to: Slot::TargetExe }),
            CommitPhase::InstallExe => Some(FileAction::Move { from: Slot::NewExe, to: Slot::TargetExe }),
            CommitPhase::ExeRollbackExe { .. } => Some(FileAction::Rename { from: Slot::BackupExe, to: Slot::TargetExe }),
            CommitPhase::ExeRollbackMcp { .. } => Some(FileAction::Rename { from: Slot::BackupMcp, to: Slot::TargetMcp }),
            CommitPhase::InstallMcp => Some(FileAction::Move { from: Slot::NewMcp, to: Slot::TargetMcp }),
            CommitPhase::McpRollbackRemove { .. } => Some(FileAction::RemoveFile(Slot::TargetExe)),
            CommitPhase::McpRollbackExe { .. } => Some(FileAction::Rename { from: Slot::BackupExe, to: Slot::TargetExe }),
            CommitPhase::McpRollbackMcp { .. } => Some(FileAction::Rename { from: Slot::BackupMcp, to: Slot::TargetMcp }),
            CommitPhase::Done(_) => None,
        }
    }

    /// Records the outcome of the pending operation and moves to the next step.
    pub fn advance(self, outcome: ActionOutcome) -> (res: CommitMachine)
        ensures
            res == self.after(outcome),
    {
        let had_mcp = self.had_mcp;
        match self.phase {
            CommitPhase::BackupExe => match take_failure(outcome) {
                Some(e) => CommitMachine { phase: CommitPhase::Done(Err(UpdateError::Io(e))), had_mcp },
                None => CommitMachine { phase: CommitPhase::InspectMcp, had_mcp },
            },
            CommitPhase::InspectMcp => match outcome_kind(&outcome) {
                EntryKind::File => CommitMachine { phase: CommitPhase::BackupMcp, had_mcp: true },
                EntryKind::Missing => CommitMachine { phase: CommitPhase::InstallExe, had_mcp: false },
                _ => CommitMachine { phase: CommitPhase::AbortMcpNotFile, had_mcp: false },
            },
            CommitPhase::AbortMcpNotFile => CommitMachine {
                phase: CommitPhase::Done(Err(UpdateError::McpTargetNotFile)),
                had_mcp,
            },
            CommitPhase::BackupMcp => match take_failure(outcome) {
                Some(e) => CommitMachine { phase: CommitPhase::RestoreExeAfterMcp { error: e }, had_mcp },
                None => CommitMachine { phase: CommitPhase::InstallExe, had_mcp },
            },
            CommitPhase::RestoreExeAfterMcp { error } => match take_failure(outcome) {
                Some(r) => CommitMachine {
                    phase: CommitPhase::Done(Err(UpdateError::McpPrepareFailed { error, rollback: r })),
                    had_mcp,
                },
                None => CommitMachine { phase: CommitPhase::Done(Err(UpdateError::Io(error))), had_mcp },
            },
            CommitPhase::InstallExe => match take_failure(outcome) {
                Some(e) => CommitMachine { phase: CommitPhase::ExeRollbackExe { error: e }, had_mcp },
                None => CommitMachine { phase: CommitPhase::InstallMcp, had_mcp },
            },
            CommitPhase::ExeRollbackExe { error } => {
                let failure = take_failure(outcome);
                if had_mcp {
                    CommitMachine { phase: CommitPhase::ExeRollbackMcp { error, restore_exe: failure }, had_mcp }
                } else {
                    CommitMachine { phase: CommitPhase::Done(Err(make_exe_install_error(error, failure, None))), had_mcp }
                }
            },
            CommitPhase::ExeRollbackMcp { error, restore_exe } => {
                let failure = take_failure(outcome);
                CommitMachine {
                    phase: CommitPhase::Done(Err(make_exe_install_error(error, restore_exe, failure))),
                    had_mcp,
                }
            },
            CommitPhase::InstallMcp => match take_failure(outcome) {
                Some(e) => CommitMachine { phase: CommitPhase::McpRollbackRemove { error: e }, had_mcp },
                None => CommitMachine { phase: CommitPhase::Done(Ok(())), had_mcp },
            },
            CommitPhase::McpRollbackRemove { error } => {
                let failure = take_failure(outcome);
                CommitMachine { phase: CommitPhase::McpRollbackExe { error, remove_exe: failure }, had_mcp }
            },
            CommitPhase::McpRollbackExe { error, remove_exe } => {
                let failure = take_failure(outcome);
                if had_mcp {
                    CommitMachine {
                        phase: CommitPhase::McpRollbackMcp { error, remove_exe, restore_exe: failure },
                        had_mcp,
                    }
                } else {
                    CommitMachine {
                        phase: CommitPhase::Done(Err(make_mcp_install_error(error, remove_exe, failure, None))),
                        had_mcp,
                    }
                }
            },
            CommitPhase::McpRollbackMcp { error, remove_exe, restore_exe } => {
                let failure = take_failure(outcome);
                CommitMachine {
                    phase: CommitPhase::Done(Err(make_mcp_install_error(error, remove_exe, restore_exe, failure))),
                    had_mcp,
                }
            },
            CommitPhase::Done(r) => CommitMachine { phase: CommitPhase::Done(r), had_mcp },
        }
    }

    /// The result of a finished commit.
    pub fn into_result(self) -> (res: Result<(), UpdateError>)
        requires
            self.is_done(),
        ensures
            self.phase == CommitPhase::Done(res),
    {
        match self.phase {
            CommitPhase::Done(r) => r,
            _ => Ok(()),
        }
    }
}

fn make_exe_install_error(error: String, restore_exe: Option<String>, restore_mcp: Option<String>) -> (res: UpdateError)
    ensures
        res == exe_install_error(error, restore_exe, restore_mcp),
{
    if restore_exe.is_none() && restore_mcp.is_none() {
        UpdateError::Io(error)
    } else {
        UpdateError::ExeInstallFailed { error, restore_exe, restore_mcp }
    }
}

fn make_mcp_install_error(
    error: String,
    remove_exe: Option<String>,
    restore_exe: Option<String>,
    restore_mcp: Option<String>,
) -> (res: UpdateError)
    ensures
        res == mcp_install_error(error, remove_exe, restore_exe, restore_mcp),
{
    if remove_exe.is_none() && restore_exe.is_none() && restore_mcp.is_none() {
        UpdateError::Io(error)
    } else {
        UpdateError::McpInstallFailed { error, remove_exe, restore_exe, restore_mcp }
    }
}

} // verus!
