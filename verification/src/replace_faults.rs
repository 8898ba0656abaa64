use vstd::prelude::*;

use crate::actions::Slot;
use crate::model::{commit_rank, commit_tracks, is_commit_rollback, lemma_commit_tracks_step, perform, Fs};
use crate::replace::{ReplaceMachine, ReplacePhase};
use crate::replace_model::{replace_installed, replace_restored};

verus! {

/// Whether the operation of phase `p` puts the previous installation back.
pub open spec fn is_replace_rollback(p: ReplacePhase) -> bool {
    match p {
        ReplacePhase::RestoreConptyAfterInstall { .. } => true,
        ReplacePhase::Commit(c) => is_commit_rollback(c.phase),
        ReplacePhase::RemoveInstalledConpty { .. } => true,
        ReplacePhase::RestoreConpty { .. } => true,
        _ => false,
    }
}

/// Runs a replacement on the model for at most `fuel` operations, numbering
/// them from `step`; operation number `i` fails by injection when `fails(i)`,
/// however many there are. Gives the final slots, the finished replacement and
/// whether any rollback operation failed (`rolled_back_badly` before the run
/// counts too), or `None` when the fuel runs out first.
pub open spec fn run_replace_failing(
    m: ReplaceMachine,
    fs: Fs,
    fails: spec_fn(int) -> bool,
    step: int,
    msg: String,
    fuel: nat,
    rolled_back_badly: bool,
) -> Option<(Fs, ReplaceMachine, bool)>
    decreases fuel,
{
    match m.next_action() {
        None => Some((fs, m, rolled_back_badly)),
        Some(action) => if fuel == 0 {
            None
        } else {
            let (fs2, outcome) = perform(fs, action, fails(step), msg);
            run_replace_failing(
                m.after(outcome),
                fs2,
                fails,
                step + 1,
                msg,
                (fuel - 1) as nat,
                rolled_back_badly || (is_replace_rollback(m.phase) && outcome is Failed),
            )
        },
    }
}

/// How a finished replacement accounts for itself: success means the payload
/// is installed and no rollback ran; an error reports a rollback failure only
/// when a rollback operation failed, and a failed rollback operation is
/// reported unless it was a put-back whose failure goes unreported (after an
/// MCP target that is not a file, or after the ConPTY directory could not be
/// installed); an error without a failed rollback leaves the previous
/// executable, MCP server and ConPTY directory in place.
pub open spec fn replace_accounted(before: Fs, after: Fs, m: ReplaceMachine, rolled_back_badly: bool) -> bool {
    &&& m.is_done()
    &&& (m.phase matches ReplacePhase::Done(Ok(())) ==> !rolled_back_badly && replace_installed(before, after))
    &&& (m.phase matches ReplacePhase::Done(Err(e)) ==> {
        &&& (e.reports_rollback_failure() ==> rolled_back_badly)
        &&& (rolled_back_badly ==> e.reports_rollback_failure() || e is McpTargetNotFile || e is Io)
        &&& (!rolled_back_badly ==> replace_restored(before, after))
    })
}

/// The most operations a replacement in this phase still performs.
pub open spec fn replace_rank(m: ReplaceMachine) -> nat {
    match m.phase {
        ReplacePhase::CleanStale => 25,
        ReplacePhase::RemoveNewExe => 24,
        ReplacePhase::RemoveBackupExe => 23,
        ReplacePhase::RemoveNewMcp => 22,
        ReplacePhase::InspectNewConpty => 21,
        ReplacePhase::RemoveStaleConpty => 20,
        ReplacePhase::CopyExe => 19,
        ReplacePhase::CopyMcp => 18,
        ReplacePhase::UndoCopyExe { .. } => 1,
        ReplacePhase::StageConpty => 17,
        ReplacePhase::UndoStageExe { .. } => 3,
        ReplacePhase::UndoStageMcp { .. } => 2,
        ReplacePhase::UndoStageConpty { .. } => 1,
        ReplacePhase::InspectTargetConpty => 16,
        ReplacePhase::DropNewConpty => 1,
        ReplacePhase::BackupConpty => 15,
        ReplacePhase::InstallConpty => 14,
        ReplacePhase::RestoreConptyAfterInstall { .. } => 1,
        ReplacePhase::Commit(c) => 5 + commit_rank(c),
        ReplacePhase::DropNewExe { .. } => 5,
        ReplacePhase::DropNewMcp { .. } => 4,
        ReplacePhase::RemoveInstalledConpty { .. } => 2,
        ReplacePhase::RestoreConpty { .. } => 1,
        ReplacePhase::DropBackupExe => 3,
        ReplacePhase::DropBackupMcp => 2,
        ReplacePhase::DropBackupConpty => 1,
        ReplacePhase::Done(_) => 0,
    }
}

/// The installed files and the sources are as the replacement found them.
pub open spec fn targets_untouched(before: Fs, fs: Fs) -> bool {
    &&& fs(Slot::TargetExe) == before(Slot::TargetExe)
    &&& fs(Slot::TargetMcp) == before(Slot::TargetMcp)
    &&& fs(Slot::TargetConpty) == before(Slot::TargetConpty)
    &&& fs(Slot::SourceExe) == before(Slot::SourceExe)
    &&& fs(Slot::SourceMcp) == before(Slot::SourceMcp)
    &&& fs(Slot::SourceConpty) == before(Slot::SourceConpty)
}

/// The previous ConPTY directory, if there was one, is in its backup slot.
pub open spec fn conpty_backed_up(before: Fs, fs: Fs, had_conpty: bool) -> bool {
    &&& (had_conpty ==> before(Slot::TargetConpty) is Dir && fs(Slot::BackupConpty) == before(Slot::TargetConpty))
    &&& (!had_conpty ==> before(Slot::TargetConpty) is Absent)
}

/// The slots when the commit starts, in terms of the slots the replacement started from.
pub open spec fn commit_start(before: Fs, start: Fs, had_conpty: bool) -> bool {
    &&& start(Slot::TargetExe) == before(Slot::TargetExe)
    &&& start(Slot::TargetMcp) == before(Slot::TargetMcp)
    &&& start(Slot::NewExe) == before(Slot::SourceExe)
    &&& start(Slot::NewMcp) == before(Slot::SourceMcp)
    &&& start(Slot::TargetConpty) == before(Slot::SourceConpty)
    &&& before(Slot::SourceConpty) is Dir
    &&& conpty_backed_up(before, start, had_conpty)
}

/// The slots once the commit ended with `result`.
pub open spec fn commit_ended(before: Fs, fs: Fs, had_conpty: bool, result: Result<(), crate::error::UpdateError>, rb: bool) -> bool {
    &&& before(Slot::SourceConpty) is Dir
    &&& conpty_backed_up(before, fs, had_conpty)
    &&& match result {
        Ok(()) => {
            &&& !rb
            &&& fs(Slot::TargetExe) == before(Slot::SourceExe)
            &&& fs(Slot::TargetMcp) == before(Slot::SourceMcp)
        },
        Err(e) => {
            &&& (e.reports_rollback_failure() ==> rb)
            &&& (rb ==> e.reports_rollback_failure() || e is McpTargetNotFile)
            &&& (!rb ==> fs(Slot::TargetExe) == before(Slot::TargetExe) && fs(Slot::TargetMcp) == before(Slot::TargetMcp))
        },
    }
}

/// Where the slots stand in each phase of a replacement run from `before`;
/// `start` is the slots when the commit started.
pub open spec fn replace_tracks(before: Fs, start: Fs, fs: Fs, m: ReplaceMachine, rb: bool) -> bool {
    let had = m.had_conpty;
    match m.phase {
        ReplacePhase::CleanStale | ReplacePhase::RemoveNewExe | ReplacePhase::RemoveBackupExe
        | ReplacePhase::RemoveNewMcp | ReplacePhase::InspectNewConpty | ReplacePhase::RemoveStaleConpty
        | ReplacePhase::UndoCopyExe { .. } | ReplacePhase::UndoStageExe { .. } | ReplacePhase::UndoStageMcp { .. }
        | ReplacePhase::UndoStageConpty { .. } | ReplacePhase::DropNewConpty => {
            !rb && targets_untouched(before, fs)
        },
        ReplacePhase::CopyExe => !rb && targets_untouched(before, fs) && fs(Slot::NewConpty) is Absent,
        ReplacePhase::CopyMcp => {
            !rb && targets_untouched(before, fs) && fs(Slot::NewConpty) is Absent
                && fs(Slot::NewExe) == before(Slot::SourceExe)
        },
        ReplacePhase::StageConpty => {
            !rb && targets_untouched(before, fs) && fs(Slot::NewConpty) is Absent
                && fs(Slot::NewExe) == before(Slot::SourceExe) && fs(Slot::NewMcp) == before(Slot::SourceMcp)
        },
        ReplacePhase::InspectTargetConpty => {
            &&& !rb && targets_untouched(before, fs)
            &&& fs(Slot::NewExe) == before(Slot::SourceExe)
            &&& fs(Slot::NewMcp) == before(Slot::SourceMcp)
            &&& fs(Slot::NewConpty) == before(Slot::SourceConpty)
            &&& before(Slot::SourceConpty) is Dir
        },
        ReplacePhase::BackupConpty => {
            &&& !rb && targets_untouched(before, fs) && had && before(Slot::TargetConpty) is Dir
            &&& fs(Slot::NewExe) == before(Slot::SourceExe)
            &&& fs(Slot::NewMcp) == before(Slot::SourceMcp)
            &&& fs(Slot::NewConpty) == before(Slot::SourceConpty)
            &&& before(Slot::SourceConpty) is Dir
        },
        ReplacePhase::InstallConpty => {
            &&& !rb
            &&& fs(Slot::TargetExe) == before(Slot::TargetExe)
            &&& fs(Slot::TargetMcp) == before(Slot::TargetMcp)
            &&& fs(Slot::TargetConpty) is Absent
            &&& conpty_backed_up(before, fs, had)
            &&& fs(Slot::NewExe) == before(Slot::SourceExe)
            &&& fs(Slot::NewMcp) == before(Slot::SourceMcp)
            &&& fs(Slot::NewConpty) == before(Slot::SourceConpty)
            &&& before(Slot::SourceConpty) is Dir
        },
        ReplacePhase::RestoreConptyAfterInstall { .. } => {
            &&& !rb && had
            &&& fs(Slot::TargetExe) == before(Slot::TargetExe)
            &&& fs(Slot::TargetMcp) == before(Slot::TargetMcp)
            &&& fs(Slot::TargetConpty) is Absent
            &&& conpty_backed_up(before, fs, had)
        },
        ReplacePhase::Commit(c) => {
            &&& !c.is_done()
            &&& commit_start(before, start, had)
            &&& commit_tracks(start, fs, c, rb)
        },
        ReplacePhase::DropNewExe { result } | ReplacePhase::DropNewMcp { result } => {
            &&& fs(Slot::TargetConpty) == before(Slot::SourceConpty)
            &&& commit_ended(before, fs, had, result, rb)
        },
        ReplacePhase::RemoveInstalledConpty { cause } => {
            &&& fs(Slot::TargetConpty) == before(Slot::SourceConpty)
            &&& commit_ended(before, fs, had, Err(cause), rb)
        },
        ReplacePhase::RestoreConpty { cause, remove_error } => {
            &&& had
            &&& conpty_backed_up(before, fs, had)
            &&& (remove_error is Some ==> rb)
            &&& (remove_error is None ==> commit_ended(before, fs, had, Err(cause), rb) && fs(Slot::TargetConpty) is Absent)
        },
        ReplacePhase::DropBackupExe | ReplacePhase::DropBackupMcp | ReplacePhase::DropBackupConpty => {
            &&& fs(Slot::TargetConpty) == before(Slot::SourceConpty)
            &&& commit_ended(before, fs, had, Ok(()), rb)
        },
        ReplacePhase::Done(_) => replace_accounted(before, fs, m, rb),
    }
}

/// The slots when the commit starts, once the phase `m` has been left.
pub open spec fn next_start(m: ReplaceMachine, start: Fs, fs2: Fs) -> Fs {
    if m.phase is InstallConpty { fs2 } else { start }
}

/// One operation of a replacement keeps `replace_tracks` and lowers the rank.
pub open spec fn replace_step_ok(before: Fs, start: Fs, fs: Fs, m: ReplaceMachine, rb: bool, fail: bool, msg: String) -> bool {
    &&& m.next_action() is Some
    &&& ({
        let (fs2, outcome) = perform(fs, m.next_action().unwrap(), fail, msg);
        &&& replace_tracks(before, next_start(m, start, fs2), fs2, m.after(outcome),
            rb || (is_replace_rollback(m.phase) && outcome is Failed))
        &&& replace_rank(m.after(outcome)) < replace_rank(m)
    })
}

proof fn lemma_replace_tracks_step(before: Fs, start: Fs, fs: Fs, m: ReplaceMachine, rb: bool, fail: bool, msg: String)
    requires
        replace_tracks(before, start, fs, m, rb),
        !m.is_done(),
    ensures
        replace_step_ok(before, start, fs, m, rb, fail, msg),
{
    if let ReplacePhase::Commit(c) = m.phase {
        lemma_commit_tracks_step(start, fs, c, rb, fail, msg);
    }
}

proof fn lemma_replace_tracks_run(
    before: Fs,
    start: Fs,
    fs: Fs,
    m: ReplaceMachine,
    fails: spec_fn(int) -> bool,
    step: int,
    msg: String,
    fuel: nat,
    rb: bool,
)
    requires
        replace_tracks(before, start, fs, m, rb),
        fuel >= replace_rank(m),
    ensures
        run_replace_failing(m, fs, fails, step, msg, fuel, rb) matches Some((after, m2, rb2))
            && replace_accounted(before, after, m2, rb2),
    decreases fuel,
{
    if !m.is_done() {
        lemma_replace_tracks_step(before, start, fs, m, rb, fails(step), msg);
        let (fs2, outcome) = perform(fs, m.next_action().unwrap(), fails(step), msg);
        lemma_replace_tracks_run(
            before,
            next_start(m, start, fs2),
            fs2,
            m.after(outcome),
            fails,
            step + 1,
            msg,
            (fuel - 1) as nat,
            rb || (is_replace_rollback(m.phase) && outcome is Failed),
        );
    }
}

/// Whatever the installation holds and however many operations fail, a
/// replacement finishes within 25 operations and accounts for itself: it
/// succeeds only with the payload's executable, MCP server and ConPTY
/// directory installed; its error reports a rollback failure only when a
/// rollback operation failed; and when every rollback operation succeeded, the
/// previous executable, MCP server and ConPTY directory are back in place.
pub proof fn lemma_replace_accounts_for_failures(fs: Fs, fails: spec_fn(int) -> bool, step: int, msg: String)
    ensures
        run_replace_failing(ReplaceMachine::initial(), fs, fails, step, msg, 25, false) matches Some((after, m, rb))
            && replace_accounted(fs, after, m, rb),
{
    lemma_replace_tracks_run(fs, fs, fs, ReplaceMachine::initial(), fails, step, msg, 25, false);
}

} // verus!
