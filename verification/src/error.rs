use vstd::prelude::*;

verus! {

/// Every way the portable updater can refuse or fail.
#[derive(Debug)]
pub enum UpdateError {
    /// Updates only run in the Windows portable edition.
    NotPortableRuntime,
    /// The running architecture has no portable update target.
    UnsupportedArchitecture(String),
    /// The updater plugin could not be configured.
    UpdaterConfigFailed(String),
    /// The update server could not be queried.
    UpdateCheckFailed(String),
    /// A download is already in flight.
    DownloadInProgress,
    /// The server offers no portable update.
    NoUpdateAvailable,
    /// Download or signature verification failed.
    DownloadFailed(String),
    /// The shared update state could not be locked.
    StateUnavailable,
    /// `apply` was called while a download is still running.
    StillDownloading,
    /// `apply` was called with nothing staged.
    NothingStaged,
    /// The staged files are no longer all present.
    StagedIncomplete,
    /// The archive (or the sum of its program files) exceeds the size limit.
    ArchiveTooLarge,
    /// The archive could not be opened as a zip file.
    InvalidArchive(String),
    /// The archive lists more entries than allowed.
    TooManyEntries,
    /// An archive entry could not be read.
    ArchiveReadFailed(String),
    /// An entry name escapes the extraction directory.
    UnsafePath,
    /// An entry does not live under the portable root directory.
    UnexpectedRoot,
    /// An entry path holds a component that is not a plain name.
    UnsafeRelativePath,
    /// An entry is a symbolic link.
    SymbolicLink,
    /// `NyaTerm.exe` occurs twice.
    DuplicateExe,
    /// `nyaterm-mcp.exe` occurs twice.
    DuplicateMcp,
    /// `portable.flag` occurs twice.
    DuplicateMarker,
    /// A ConPTY file occurs twice; the payload is its path below the portable root, by components.
    DuplicateConpty(Vec<String>),
    /// An entry is none of the expected program files; the payload is its path
    /// below the portable root, by components.
    UnexpectedFile(Vec<String>),
    /// A single extracted file is larger than the size limit.
    EntryTooLarge,
    /// The archive lacks one of the required program or ConPTY files.
    MissingRequiredFile,
    /// The helper process was started with the wrong number of arguments.
    InvalidHelperArguments,
    /// The helper's parent process ID is not a decimal `u32`.
    InvalidParentPid,
    /// The helper could not open its parent process.
    ParentOpenFailed(String),
    /// The parent process did not exit in time.
    ParentWaitTimedOut,
    /// The helper runs on a platform without process waiting support.
    HelperUnsupported,
    /// The installed executable path has no parent directory.
    NoParentDirectory,
    /// The installed `conpty` path exists but is not a directory.
    ConptyTargetNotDirectory,
    /// The installed `nyaterm-mcp.exe` path exists but is not a file.
    McpTargetNotFile,
    /// Backing up `nyaterm-mcp.exe` failed, and so did restoring `NyaTerm.exe`.
    McpPrepareFailed { error: String, rollback: String },
    /// Installing `NyaTerm.exe` failed, and restoring the previous files failed too;
    /// each `Some` holds the error of the rollback step that failed.
    ExeInstallFailed { error: String, restore_exe: Option<String>, restore_mcp: Option<String> },
    /// Installing `nyaterm-mcp.exe` failed, and undoing the partial install failed too;
    /// each `Some` holds the error of the rollback step that failed.
    McpInstallFailed {
        error: String,
        remove_exe: Option<String>,
        restore_exe: Option<String>,
        restore_mcp: Option<String>,
    },
    /// The update failed and putting the previous ConPTY directory back failed as well.
    ConptyRollbackFailed {
        cause: Box<UpdateError>,
        remove_error: Option<String>,
        restore_error: Option<String>,
    },
    /// A file-system operation failed; the payload is its error text.
    Io(String),
}

impl UpdateError {
    /// Whether the error reports that a rollback step failed, so that the previous
    /// installation may not have been fully restored.
    pub open spec fn reports_rollback_failure(self) -> bool {
        ||| self is McpPrepareFailed
        ||| self is ExeInstallFailed
        ||| self is McpInstallFailed
        ||| self is ConptyRollbackFailed
    }
}

} // verus!
