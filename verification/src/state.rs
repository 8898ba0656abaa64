use vstd::prelude::*;

use crate::error::UpdateError;

verus! {

#[verifier::external_type_specification]
#[verifier::external_body]
pub struct ExPathBuf(std::path::PathBuf);

/// What the update server offers.
#[derive(Debug)]
pub struct PortableUpdateInfo {
    version: String,
    date: Option<String>,
    body: Option<String>,
}

impl PortableUpdateInfo {
    /// The offered version, its release date (RFC 3339) and release notes.
    pub fn new(version: String, date: Option<String>, body: Option<String>) -> (res: PortableUpdateInfo)
        ensures
            res.version_spec() == version,
            res.date_spec() == date,
            res.body_spec() == body,
    {
        PortableUpdateInfo { version, date, body }
    }

    pub closed spec fn version_spec(&self) -> String {
        self.version
    }

    pub closed spec fn date_spec(&self) -> Option<String> {
        self.date
    }

    pub closed spec fn body_spec(&self) -> Option<String> {
        self.body
    }

    /// The offered version.
    pub fn version(&self) -> (res: &String)
        ensures
            *res == self.version_spec(),
    {
        &self.version
    }

    /// The release date, if the server gave one.
    pub fn date(&self) -> (res: &Option<String>)
        ensures
            *res == self.date_spec(),
    {
        &self.date
    }

    /// The release notes, if the server gave any.
    pub fn body(&self) -> (res: &Option<String>)
        ensures
            *res == self.body_spec(),
    {
        &self.body
    }
}

/// How far a download has come, in bytes; `total` is 0 when unknown.
#[derive(Clone, Copy, Debug)]
pub struct PortableUpdateProgress {
    downloaded: u64,
    total: u64,
}

impl PortableUpdateProgress {
    pub closed spec fn downloaded_spec(&self) -> u64 {
        self.downloaded
    }

    pub closed spec fn total_spec(&self) -> u64 {
        self.total
    }

    /// The progress after a chunk of `chunk_len` bytes arrived on top of
    /// `downloaded` bytes: the count saturates at `u64::MAX` and never goes
    /// down; an unknown total is reported as 0.
    pub fn after_chunk(downloaded: u64, chunk_len: usize, total: Option<u64>) -> (res: PortableUpdateProgress)
        ensures
            res.downloaded_spec() == if downloaded + chunk_len > u64::MAX {
                u64::MAX as int
            } else {
                downloaded + chunk_len
            },
            res.downloaded_spec() >= downloaded,
            res.total_spec() == match total {
                Some(t) => t,
                None => 0,
            },
    {
        let downloaded = downloaded.saturating_add(chunk_len as u64);
        let total = match total {
            Some(t) => t,
            None => 0,
        };
        PortableUpdateProgress { downloaded, total }
    }

    /// The progress of a finished download of `len` bytes.
    pub fn completed(len: usize) -> (res: PortableUpdateProgress)
        ensures
            res.downloaded_spec() == len,
            res.total_spec() == len,
    {
        PortableUpdateProgress { downloaded: len as u64, total: len as u64 }
    }

    /// Bytes downloaded so far.
    pub fn downloaded(&self) -> (res: u64)
        ensures
            res == self.downloaded_spec(),
    {
        self.downloaded
    }

    /// The expected size, or 0 when unknown.
    pub fn total(&self) -> (res: u64)
        ensures
            res == self.total_spec(),
    {
        self.total
    }
}

/// A verified archive extracted into a work directory, waiting to be applied.
#[derive(Debug)]
pub struct StagedPortableUpdate {
    /// The work directory; its layout is given by `layout::staged_required_files`.
    pub work_dir: std::path::PathBuf,
}

/// What the updater remembers between its commands: whether a download is
/// running and which update is staged.
#[derive(Debug)]
pub struct PortableUpdateState {
    downloading: bool,
    staged: Option<StagedPortableUpdate>,
}

impl PortableUpdateState {
    /// Whether a download is running.
    pub closed spec fn is_downloading(&self) -> bool {
        self.downloading
    }

    /// The staged update, if any.
    pub closed spec fn staged_spec(&self) -> Option<StagedPortableUpdate> {
        self.staged
    }

    /// The same state with the download flag set to `downloading`.
    pub closed spec fn with_downloading(self, downloading: bool) -> PortableUpdateState {
        PortableUpdateState { downloading, staged: self.staged }
    }

    /// The same state with `staged` staged.
    pub closed spec fn with_staged(self, staged: Option<StagedPortableUpdate>) -> PortableUpdateState {
        PortableUpdateState { downloading: self.downloading, staged }
    }

    /// What setting the download flag or the staged update changes, and what it keeps.
    pub proof fn lemma_with_fields(self, downloading: bool, staged: Option<StagedPortableUpdate>)
        ensures
            self.with_downloading(downloading).is_downloading() == downloading,
            self.with_downloading(downloading).staged_spec() == self.staged_spec(),
            self.with_staged(staged).staged_spec() == staged,
            self.with_staged(staged).is_downloading() == self.is_downloading(),
    {
    }

    /// A state with nothing running and nothing staged.
    pub open spec fn is_idle(&self) -> bool {
        !self.is_downloading() && self.staged_spec() is None
    }

    /// The state once a download has claimed the slot, or `None` when one is already running.
    pub open spec fn begun(self) -> Option<PortableUpdateState> {
        if self.is_downloading() {
            None
        } else {
            Some(self.with_downloading(true))
        }
    }

    /// The state once the staged update has been taken, and that update; `None`
    /// while a download runs or when nothing is staged.
    pub open spec fn taken(self) -> Option<(PortableUpdateState, StagedPortableUpdate)> {
        if self.is_downloading() || self.staged_spec() is None {
            None
        } else {
            Some((self.with_staged(None), self.staged_spec().unwrap()))
        }
    }

    /// Claims the download slot: refused while another download runs.
    pub fn begin_download(&mut self) -> (res: Result<(), UpdateError>)
        ensures
            match old(self).begun() {
                Some(next) => res is Ok && *final(self) == next && final(self).is_downloading()
                    && final(self).staged_spec() == old(self).staged_spec(),
                None => (res matches Err(e) && e is DownloadInProgress) && *final(self) == *old(self),
            },
    {
        if self.downloading {
            Err(UpdateError::DownloadInProgress)
        } else {
            self.downloading = true;
            Ok(())
        }
    }

    /// Releases the download slot, however the download ended.
    pub fn end_download(&mut self)
        ensures
            *final(self) == old(self).with_downloading(false),
            !final(self).is_downloading(),
            final(self).staged_spec() == old(self).staged_spec(),
    {
        self.downloading = false;
    }

    /// Stages a downloaded update in place of any earlier one, which is handed
    /// back so that its work directory can be deleted.
    pub fn stage(&mut self, staged: StagedPortableUpdate) -> (res: Option<StagedPortableUpdate>)
        ensures
            res == old(self).staged_spec(),
            *final(self) == old(self).with_staged(Some(staged)),
            final(self).staged_spec() == Some(staged),
            final(self).is_downloading() == old(self).is_downloading(),
    {
        let previous = self.staged.take();
        self.staged = Some(staged);
        previous
    }

    /// Takes the staged update to apply it: refused while a download runs or
    /// when nothing is staged; a taken update is no longer staged.
    pub fn take_for_apply(&mut self) -> (res: Result<StagedPortableUpdate, UpdateError>)
        ensures
            match old(self).taken() {
                Some((next, staged)) => res == Ok::<StagedPortableUpdate, UpdateError>(staged) && *final(self) == next
                    && final(self).staged_spec() is None && !final(self).is_downloading(),
                None => *final(self) == *old(self) && (res matches Err(e) && if old(self).is_downloading() {
                    e is StillDownloading
                } else {
                    e is NothingStaged
                }),
            },
    {
        if self.downloading {
            return Err(UpdateError::StillDownloading);
        }
        match self.staged.take() {
            Some(s) => Ok(s),
            None => Err(UpdateError::NothingStaged),
        }
    }
}

/// Only one download runs at a time, and no update is applied while one runs.
pub proof fn lemma_download_is_exclusive(s: PortableUpdateState)
    ensures
        s.begun() matches Some(running) ==> running.begun() is None && running.taken() is None,
{
}

/// A staged update is applied at most once: once taken, nothing is left to
/// take until another update is staged.
pub proof fn lemma_staged_update_is_applied_once(s: PortableUpdateState)
    ensures
        s.taken() matches Some((after, _)) ==> after.taken() is None,
{
}

/// A download that has begun and then ended, however it ended, leaves the
/// download flag cleared and the staged update as it was.
pub proof fn lemma_ended_download_clears_flag(s: PortableUpdateState)
    ensures
        s.begun() matches Some(running) ==> {
            &&& !running.with_downloading(false).is_downloading()
            &&& running.with_downloading(false).staged_spec() == s.staged_spec()
        },
{
}

/// Once its download has ended, the update a download staged last is the one applied.
pub proof fn lemma_last_staged_update_is_applied(s: PortableUpdateState, staged: StagedPortableUpdate)
    ensures
        s.with_staged(Some(staged)).with_downloading(false).taken() matches Some((_, applied)) && applied == staged,
{
}

impl Default for PortableUpdateState {
    fn default() -> (res: PortableUpdateState)
        ensures
            res.is_idle(),
    {
        PortableUpdateState { downloading: false, staged: None }
    }
}

/// How asking the updater plugin for an update failed.
#[derive(Debug)]
pub enum UpdaterCheckFailure {
    /// The server has no build for this target.
    TargetMissing,
    /// Any other failure, with its error text.
    Other(String),
}

/// The update check's answer: a missing target means no update; any other
/// failure is reported.
pub fn update_check_outcome<T>(checked: Result<Option<T>, UpdaterCheckFailure>) -> (res: Result<Option<T>, UpdateError>)
    ensures
        match checked {
            Ok(u) => res == Ok::<Option<T>, UpdateError>(u),
            Err(UpdaterCheckFailure::TargetMissing) => res == Ok::<Option<T>, UpdateError>(None),
            Err(UpdaterCheckFailure::Other(t)) => res matches Err(UpdateError::UpdateCheckFailed(u)) && u == t,
        },
{
    match checked {
        Ok(u) => Ok(u),
        Err(UpdaterCheckFailure::TargetMissing) => Ok(None),
        Err(UpdaterCheckFailure::Other(t)) => Err(UpdateError::UpdateCheckFailed(t)),
    }
}

} // verus!
