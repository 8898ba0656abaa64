use vstd::prelude::*;

use crate::actions::{FileAction, Slot};
use crate::commit::{CommitMachine, CommitPhase};
use crate::model::{
    absent_or_file, commit_frame, commit_installed, commit_ready, commit_restored, commit_run_settles,
    lemma_commit_installs_or_restores, perform, run_commit, Fs, Node,
};
use crate::replace::{ReplaceMachine, ReplacePhase};

verus! {

/// Runs a replacement on the model for at most `fuel` operations, numbering
/// them from `step`; operation number `fault` fails by injection. Gives the
/// final slots, the finished replacement and the number after the last
/// operation, or `None` when the fuel runs out first.
pub open spec fn run_replace(
    m: ReplaceMachine,
    fs: Fs,
    fault: int,
    step: int,
    msg: String,
    fuel: nat,
) -> Option<(Fs, ReplaceMachine, int)>
    decreases fuel,
{
    match m.next_action() {
        None => Some((fs, m, step)),
        Some(action) => if fuel == 0 {
            None
        } else {
            let (fs2, outcome) = perform(fs, action, step == fault, msg);
            run_replace(m.after(outcome), fs2, fault, step + 1, msg, (fuel - 1) as nat)
        },
    }
}

/// The slots a replacement may start from: the payload is staged, an
/// executable is installed, and the executable and MCP backup slots hold
/// nothing or stale files.
pub open spec fn replace_ready(fs: Fs) -> bool {
    &&& fs(Slot::SourceExe) is File
    &&& fs(Slot::SourceMcp) is File
    &&& fs(Slot::SourceConpty) is Dir
    &&& fs(Slot::TargetExe) is File
    &&& absent_or_file(fs(Slot::BackupExe))
    &&& absent_or_file(fs(Slot::BackupMcp))
}

/// An installation that an undisturbed update leaves clean: nothing but files
/// where files go, nothing but a directory where the ConPTY directory goes, and
/// a free ConPTY backup name.
pub open spec fn replace_unobstructed(fs: Fs) -> bool {
    &&& absent_or_file(fs(Slot::TargetMcp))
    &&& absent_or_file(fs(Slot::NewExe))
    &&& absent_or_file(fs(Slot::NewMcp))
    &&& (fs(Slot::NewConpty) is Absent || fs(Slot::NewConpty) is Dir)
    &&& (fs(Slot::TargetConpty) is Absent || fs(Slot::TargetConpty) is Dir)
    &&& fs(Slot::BackupConpty) is Absent
}

/// After a successful replacement: the payload's files are the installed ones.
pub open spec fn replace_installed(before: Fs, after: Fs) -> bool {
    &&& after(Slot::TargetExe) == before(Slot::SourceExe)
    &&& after(Slot::TargetMcp) == before(Slot::SourceMcp)
    &&& after(Slot::TargetConpty) == before(Slot::SourceConpty)
}

/// After a failed replacement: the installed files are the previous ones.
pub open spec fn replace_restored(before: Fs, after: Fs) -> bool {
    &&& after(Slot::TargetExe) == before(Slot::TargetExe)
    &&& after(Slot::TargetMcp) == before(Slot::TargetMcp)
    &&& after(Slot::TargetConpty) == before(Slot::TargetConpty)
}

/// No staging or backup entry is left behind.
pub open spec fn replace_cleaned(after: Fs) -> bool {
    &&& after(Slot::NewExe) is Absent
    &&& after(Slot::NewMcp) is Absent
    &&& after(Slot::NewConpty) is Absent
    &&& after(Slot::BackupExe) is Absent
    &&& after(Slot::BackupMcp) is Absent
    &&& after(Slot::BackupConpty) is Absent
}

/// What a finished replacement run must satisfy, relative to the slots it started from.
pub open spec fn replace_settled(before: Fs, after: Fs, m: ReplaceMachine) -> bool {
    &&& m.is_done()
    &&& (m.phase matches ReplacePhase::Done(Ok(())) ==> replace_installed(before, after))
    &&& (m.phase matches ReplacePhase::Done(Err(e)) ==> replace_restored(before, after)
        && !e.reports_rollback_failure())
}

/// A replacement run finished and settled; when `clean` it also succeeded and
/// left nothing behind.
pub open spec fn replace_run_settles(run: Option<(Fs, ReplaceMachine, int)>, before: Fs, clean: bool) -> bool {
    run matches Some((after, m, end)) && {
        &&& replace_settled(before, after, m)
        &&& (clean ==> (m.phase matches ReplacePhase::Done(Ok(()))) && replace_cleaned(after))
    }
}

/// The result a finished commit holds.
pub open spec fn commit_result(c: CommitMachine) -> Result<(), crate::error::UpdateError> {
    match c.phase {
        CommitPhase::Done(r) => r,
        _ => Ok(()),
    }
}

/// While a replacement runs its commit, it performs exactly the commit's
/// operations and then carries on with the commit's result.
proof fn lemma_replace_runs_commit(
    c: CommitMachine,
    had_conpty: bool,
    fs: Fs,
    fault: int,
    step: int,
    msg: String,
    fuel_c: nat,
    fuel: nat,
)
    requires
        !c.is_done(),
        run_commit(c, fs, fault, step, msg, fuel_c) is Some,
        fuel >= fuel_c,
    ensures
        run_commit(c, fs, fault, step, msg, fuel_c) matches Some((after, c2, end)) && {
            &&& step < end <= step + fuel_c
            &&& run_replace(ReplaceMachine { phase: ReplacePhase::Commit(c), had_conpty }, fs, fault, step, msg, fuel)
                == run_replace(
                    ReplaceMachine { phase: ReplacePhase::DropNewExe { result: commit_result(c2) }, had_conpty },
                    after,
                    fault,
                    end,
                    msg,
                    (fuel - (end - step)) as nat,
                )
        },
    decreases fuel_c,
{
    let m = ReplaceMachine { phase: ReplacePhase::Commit(c), had_conpty };
    let action = c.next_action().unwrap();
    let (fs2, outcome) = perform(fs, action, step == fault, msg);
    let c2 = c.after(outcome);
    assert(m.next_action() == Some(action));
    assert(run_replace(m, fs, fault, step, msg, fuel) == run_replace(m.after(outcome), fs2, fault, step + 1, msg, (fuel - 1) as nat));
    assert(run_commit(c, fs, fault, step, msg, fuel_c) == run_commit(c2, fs2, fault, step + 1, msg, (fuel_c - 1) as nat));
    if c2.is_done() {
        assert(run_commit(c2, fs2, fault, step + 1, msg, (fuel_c - 1) as nat) == Some((fs2, c2, step + 1)));
    } else {
        lemma_replace_runs_commit(c2, had_conpty, fs2, fault, step + 1, msg, (fuel_c - 1) as nat, (fuel - 1) as nat);
    }
}

/// The slots when the commit has finished, in terms of the slots the replacement started from.
pub open spec fn after_commit(before: Fs, fs: Fs, had_conpty: bool, result: Result<(), crate::error::UpdateError>) -> bool {
    &&& fs(Slot::TargetConpty) == before(Slot::SourceConpty)
    &&& fs(Slot::NewConpty) is Absent
    &&& (had_conpty ==> fs(Slot::BackupConpty) == before(Slot::TargetConpty) && before(Slot::TargetConpty) is Dir)
    &&& (!had_conpty ==> fs(Slot::BackupConpty) == before(Slot::BackupConpty) && before(Slot::TargetConpty) is Absent)
    &&& before(Slot::SourceConpty) is Dir
    &&& match result {
        Ok(()) => {
            &&& fs(Slot::TargetExe) == before(Slot::SourceExe)
            &&& fs(Slot::TargetMcp) == before(Slot::SourceMcp)
            &&& fs(Slot::NewExe) is Absent
            &&& fs(Slot::NewMcp) is Absent
            &&& absent_or_file(fs(Slot::BackupExe))
            &&& absent_or_file(fs(Slot::BackupMcp))
        },
        Err(e) => {
            &&& fs(Slot::TargetExe) == before(Slot::TargetExe)
            &&& fs(Slot::TargetMcp) == before(Slot::TargetMcp)
            &&& !e.reports_rollback_failure()
        },
    }
}

proof fn lemma_replace_from_drop_new_exe(m: ReplaceMachine, before: Fs, fs: Fs, fault: int, step: int, msg: String, fuel: nat)
    requires
        m.phase is DropNewExe,
        0 <= step,
        after_commit(before, fs, m.had_conpty, m.phase->DropNewExe_result),
        m.phase->DropNewExe_result is Err ==> fault < step,
        fault < 0 && replace_unobstructed(before) ==> m.phase->DropNewExe_result is Ok,
        fuel >= 5,
    ensures
        replace_run_settles(run_replace(m, fs, fault, step, msg, fuel), before, fault < 0 && replace_unobstructed(before)),
{
    reveal_with_fuel(run_replace, 2);
    let result = m.phase->DropNewExe_result;
    let had = m.had_conpty;
    let (fs1, o1) = perform(fs, FileAction::RemoveFile(Slot::NewExe), step == fault, msg);
    let m1 = m.after(o1);
    assert(m1.phase == ReplacePhase::DropNewMcp { result });
    let (fs2, o2) = perform(fs1, FileAction::RemoveFile(Slot::NewMcp), step + 1 == fault, msg);
    let m2 = m1.after(o2);
    assert(run_replace(m, fs, fault, step, msg, fuel) == run_replace(m1, fs1, fault, step + 1, msg, (fuel - 1) as nat));
    assert(run_replace(m1, fs1, fault, step + 1, msg, (fuel - 1) as nat) == run_replace(m2, fs2, fault, step + 2, msg, (fuel - 2) as nat));
    assert(fs2(Slot::TargetExe) == fs(Slot::TargetExe));
    assert(fs2(Slot::TargetConpty) == fs(Slot::TargetConpty));
    assert(fs2(Slot::BackupConpty) == fs(Slot::BackupConpty));
    if result is Ok {
        assert(m2.phase == ReplacePhase::DropBackupExe);
        let (fs3, o3) = perform(fs2, FileAction::RemoveFile(Slot::BackupExe), step + 2 == fault, msg);
        let m3 = m2.after(o3);
        assert(m3.phase == ReplacePhase::DropBackupMcp);
        let (fs4, o4) = perform(fs3, FileAction::RemoveFile(Slot::BackupMcp), step + 3 == fault, msg);
        let m4 = m3.after(o4);
        assert(run_replace(m2, fs2, fault, step + 2, msg, (fuel - 2) as nat) == run_replace(m3, fs3, fault, step + 3, msg, (fuel - 3) as nat));
        assert(run_replace(m3, fs3, fault, step + 3, msg, (fuel - 3) as nat) == run_replace(m4, fs4, fault, step + 4, msg, (fuel - 4) as nat));
        assert(fs4(Slot::TargetExe) == fs(Slot::TargetExe));
        assert(fs4(Slot::TargetMcp) == fs(Slot::TargetMcp));
        assert(fs4(Slot::TargetConpty) == fs(Slot::TargetConpty));
        if had {
            assert(m4.phase == ReplacePhase::DropBackupConpty);
            let (fs5, o5) = perform(fs4, FileAction::RemoveDir(Slot::BackupConpty), step + 4 == fault, msg);
            let m5 = m4.after(o5);
            assert(m5.phase == ReplacePhase::Done(Ok(())));
            assert(run_replace(m4, fs4, fault, step + 4, msg, (fuel - 4) as nat) == run_replace(m5, fs5, fault, step + 5, msg, (fuel - 5) as nat));
            assert(run_replace(m5, fs5, fault, step + 5, msg, (fuel - 5) as nat) == Some((fs5, m5, step + 5)));
            assert(replace_settled(before, fs5, m5));
        } else {
            assert(m4.phase == ReplacePhase::Done(Ok(())));
            assert(run_replace(m4, fs4, fault, step + 4, msg, (fuel - 4) as nat) == Some((fs4, m4, step + 4)));
            assert(replace_settled(before, fs4, m4));
        }
    } else {
        let cause = result->Err_0;
        assert(m2.phase == ReplacePhase::RemoveInstalledConpty { cause });
        let (fs3, o3) = perform(fs2, FileAction::RemoveDir(Slot::TargetConpty), step + 2 == fault, msg);
        assert(o3 == crate::actions::ActionOutcome::Succeeded);
        let m3 = m2.after(o3);
        if had {
            let (fs4, o4) = perform(fs3, FileAction::Rename { from: Slot::BackupConpty, to: Slot::TargetConpty }, step + 3 == fault, msg);
            assert(o4 == crate::actions::ActionOutcome::Succeeded);
            let m4 = m3.after(o4);
            assert(m4.phase == ReplacePhase::Done(Err(cause)));
            assert(run_replace(m4, fs4, fault, step + 4, msg, (fuel - 4) as nat) == Some((fs4, m4, step + 4)));
            assert(replace_run_settles(run_replace(m, fs, fault, step, msg, fuel), before, fault < 0 && replace_unobstructed(before)));
        } else {
            assert(m3.phase == ReplacePhase::Done(Err(cause)));
            assert(replace_run_settles(run_replace(m, fs, fault, step, msg, fuel), before, fault < 0 && replace_unobstructed(before)));
        }
    }
}

proof fn lemma_replace_from_commit(m: ReplaceMachine, before: Fs, fs: Fs, fault: int, step: int, msg: String, fuel: nat)
    requires
        m.phase == ReplacePhase::Commit(CommitMachine::initial()),
        0 <= step,
        replace_ready(before),
        fault < step || absent_or_file(before(Slot::TargetMcp)),
        fs(Slot::TargetConpty) == before(Slot::SourceConpty),
        fs(Slot::NewConpty) is Absent,
        m.had_conpty ==> fs(Slot::BackupConpty) == before(Slot::TargetConpty) && before(Slot::TargetConpty) is Dir,
        !m.had_conpty ==> fs(Slot::BackupConpty) == before(Slot::BackupConpty) && before(Slot::TargetConpty) is Absent,
        fs(Slot::NewExe) == before(Slot::SourceExe),
        fs(Slot::NewMcp) == before(Slot::SourceMcp),
        fs(Slot::TargetExe) == before(Slot::TargetExe),
        fs(Slot::TargetMcp) == before(Slot::TargetMcp),
        absent_or_file(fs(Slot::BackupExe)),
        absent_or_file(fs(Slot::BackupMcp)),
        fault < 0 && replace_unobstructed(before) ==> fs(Slot::BackupConpty) is Absent || m.had_conpty,
        fuel >= 15,
    ensures
        replace_run_settles(run_replace(m, fs, fault, step, msg, fuel), before, fault < 0 && replace_unobstructed(before)),
{
    let c = CommitMachine::initial();
    assert(commit_ready(fs));
    lemma_commit_installs_or_restores(fs, fault, step, msg, 10);
    let (after, c2, end) = run_commit(c, fs, fault, step, msg, 10).unwrap();
    lemma_replace_runs_commit(c, m.had_conpty, fs, fault, step, msg, 10, fuel);
    lemma_replace_from_drop_new_exe(
        ReplaceMachine { phase: ReplacePhase::DropNewExe { result: commit_result(c2) }, had_conpty: m.had_conpty },
        before,
        after,
        fault,
        end,
        msg,
        (fuel - (end - step)) as nat,
    );
}

/// The slots while the payload is staged next to the installation.
pub open spec fn payload_staged(before: Fs, fs: Fs) -> bool {
    &&& fs(Slot::NewExe) == before(Slot::SourceExe)
    &&& fs(Slot::NewMcp) == before(Slot::SourceMcp)
    &&& fs(Slot::NewConpty) == before(Slot::SourceConpty)
    &&& fs(Slot::TargetExe) == before(Slot::TargetExe)
    &&& fs(Slot::TargetMcp) == before(Slot::TargetMcp)
    &&& absent_or_file(fs(Slot::BackupExe))
    &&& absent_or_file(fs(Slot::BackupMcp))
}

proof fn lemma_replace_from_install_conpty(m: ReplaceMachine, before: Fs, fs: Fs, fault: int, step: int, msg: String, fuel: nat)
    requires
        m.phase is InstallConpty,
        0 <= step,
        replace_ready(before),
        fault < step || absent_or_file(before(Slot::TargetMcp)),
        payload_staged(before, fs),
        m.had_conpty ==> fs(Slot::TargetConpty) is Absent && fs(Slot::BackupConpty) == before(Slot::TargetConpty)
            && before(Slot::TargetConpty) is Dir,
        !m.had_conpty ==> fs(Slot::TargetConpty) == before(Slot::TargetConpty) && before(Slot::TargetConpty) is Absent
            && fs(Slot::BackupConpty) == before(Slot::BackupConpty),
        fuel >= 16,
    ensures
        replace_run_settles(run_replace(m, fs, fault, step, msg, fuel), before, fault < 0 && replace_unobstructed(before)),
{
    reveal_with_fuel(run_replace, 3);
    let (fs1, o1) = perform(fs, FileAction::Rename { from: Slot::NewConpty, to: Slot::TargetConpty }, step == fault, msg);
    let m1 = m.after(o1);
    assert(run_replace(m, fs, fault, step, msg, fuel) == run_replace(m1, fs1, fault, step + 1, msg, (fuel - 1) as nat));
    if step != fault {
        lemma_replace_from_commit(m1, before, fs1, fault, step + 1, msg, (fuel - 1) as nat);
    }
}

proof fn lemma_replace_from_inspect_target(m: ReplaceMachine, before: Fs, fs: Fs, fault: int, step: int, msg: String, fuel: nat)
    requires
        m.phase is InspectTargetConpty,
        0 <= step,
        replace_ready(before),
        fault < step || absent_or_file(before(Slot::TargetMcp)),
        payload_staged(before, fs),
        fs(Slot::TargetConpty) == before(Slot::TargetConpty),
        fs(Slot::BackupConpty) == before(Slot::BackupConpty),
        fuel >= 18,
    ensures
        replace_run_settles(run_replace(m, fs, fault, step, msg, fuel), before, fault < 0 && replace_unobstructed(before)),
{
    reveal_with_fuel(run_replace, 3);
    let (fs1, o1) = perform(fs, FileAction::Inspect(Slot::TargetConpty), step == fault, msg);
    let m1 = m.after(o1);
    assert(run_replace(m, fs, fault, step, msg, fuel) == run_replace(m1, fs1, fault, step + 1, msg, (fuel - 1) as nat));
    match before(Slot::TargetConpty) {
        Node::Absent => {
            lemma_replace_from_install_conpty(m1, before, fs1, fault, step + 1, msg, (fuel - 1) as nat);
        },
        Node::Dir(_) => {
            let (fs2, o2) = perform(fs1, FileAction::Rename { from: Slot::TargetConpty, to: Slot::BackupConpty }, step + 1 == fault, msg);
            let m2 = m1.after(o2);
            assert(run_replace(m1, fs1, fault, step + 1, msg, (fuel - 1) as nat) == run_replace(m2, fs2, fault, step + 2, msg, (fuel - 2) as nat));
            if o2 == crate::actions::ActionOutcome::Succeeded {
                lemma_replace_from_install_conpty(m2, before, fs2, fault, step + 2, msg, (fuel - 2) as nat);
            }
        },
        _ => {},
    }
}

proof fn lemma_replace_from_copy_exe(m: ReplaceMachine, before: Fs, fs: Fs, fault: int, step: int, msg: String, fuel: nat)
    requires
        m.phase is CopyExe,
        0 <= step,
        replace_ready(before),
        fault < step || absent_or_file(before(Slot::TargetMcp)),
        fs(Slot::NewConpty) is Absent,
        fs(Slot::TargetExe) == before(Slot::TargetExe),
        fs(Slot::TargetMcp) == before(Slot::TargetMcp),
        fs(Slot::TargetConpty) == before(Slot::TargetConpty),
        fs(Slot::BackupConpty) == before(Slot::BackupConpty),
        fs(Slot::SourceExe) == before(Slot::SourceExe),
        fs(Slot::SourceMcp) == before(Slot::SourceMcp),
        fs(Slot::SourceConpty) == before(Slot::SourceConpty),
        absent_or_file(fs(Slot::BackupExe)),
        absent_or_file(fs(Slot::BackupMcp)),
        fault < 0 && replace_unobstructed(before) ==> absent_or_file(fs(Slot::NewExe)) && absent_or_file(fs(Slot::NewMcp)),
        fuel >= 21,
    ensures
        replace_run_settles(run_replace(m, fs, fault, step, msg, fuel), before, fault < 0 && replace_unobstructed(before)),
{
    reveal_with_fuel(run_replace, 5);
    let (fs1, o1) = perform(fs, FileAction::Copy { from: Slot::SourceExe, to: Slot::NewExe }, step == fault, msg);
    let m1 = m.after(o1);
    assert(run_replace(m, fs, fault, step, msg, fuel) == run_replace(m1, fs1, fault, step + 1, msg, (fuel - 1) as nat));
    if o1 == crate::actions::ActionOutcome::Succeeded {
        let (fs2, o2) = perform(fs1, FileAction::Copy { from: Slot::SourceMcp, to: Slot::NewMcp }, step + 1 == fault, msg);
        let m2 = m1.after(o2);
        assert(run_replace(m1, fs1, fault, step + 1, msg, (fuel - 1) as nat) == run_replace(m2, fs2, fault, step + 2, msg, (fuel - 2) as nat));
        if o2 == crate::actions::ActionOutcome::Succeeded {
            let (fs3, o3) = perform(fs2, FileAction::StageConpty { from: Slot::SourceConpty, to: Slot::NewConpty }, step + 2 == fault, msg);
            let m3 = m2.after(o3);
            assert(run_replace(m2, fs2, fault, step + 2, msg, (fuel - 2) as nat) == run_replace(m3, fs3, fault, step + 3, msg, (fuel - 3) as nat));
            if o3 == crate::actions::ActionOutcome::Succeeded {
                lemma_replace_from_inspect_target(m3, before, fs3, fault, step + 3, msg, (fuel - 3) as nat);
            }
        }
    }
}

/// The central law of the update: replacing an installation, when at most one
/// file-system operation fails, either installs the payload's executable, MCP
/// server and ConPTY directory, or reports an error (that is not a rollback
/// failure) with the previous executable, MCP server and ConPTY directory back
/// in place. When no operation fails and the installation is unobstructed, it
/// succeeds and leaves no staging or backup entry behind. An MCP target that is
/// neither a file nor missing makes the update fail; then no operation may fail
/// besides.
pub proof fn lemma_replace_installs_or_restores(fs: Fs, fault: int, msg: String)
    requires
        replace_ready(fs),
        fault < 0 || absent_or_file(fs(Slot::TargetMcp)),
    ensures
        replace_run_settles(
            run_replace(ReplaceMachine::initial(), fs, fault, 0, msg, 30),
            fs,
            fault < 0 && replace_unobstructed(fs),
        ),
{
    reveal_with_fuel(run_replace, 2);
    let m0 = ReplaceMachine::initial();
    let (fs1, o1) = perform(fs, FileAction::CleanStaleMcpBackups, 0 == fault, msg);
    let m1 = m0.after(o1);
    assert(run_replace(m0, fs, fault, 0, msg, 30) == run_replace(m1, fs1, fault, 1, msg, 29));
    let (fs2, o2) = perform(fs1, FileAction::RemoveFile(Slot::NewExe), 1 == fault, msg);
    let m2 = m1.after(o2);
    assert(run_replace(m1, fs1, fault, 1, msg, 29) == run_replace(m2, fs2, fault, 2, msg, 28));
    let (fs3, o3) = perform(fs2, FileAction::RemoveFile(Slot::BackupExe), 2 == fault, msg);
    let m3 = m2.after(o3);
    assert(run_replace(m2, fs2, fault, 2, msg, 28) == run_replace(m3, fs3, fault, 3, msg, 27));
    let (fs4, o4) = perform(fs3, FileAction::RemoveFile(Slot::NewMcp), 3 == fault, msg);
    let m4 = m3.after(o4);
    assert(run_replace(m3, fs3, fault, 3, msg, 27) == run_replace(m4, fs4, fault, 4, msg, 26));
    let (fs5, o5) = perform(fs4, FileAction::Inspect(Slot::NewConpty), 4 == fault, msg);
    let m5 = m4.after(o5);
    assert(run_replace(m4, fs4, fault, 4, msg, 26) == run_replace(m5, fs5, fault, 5, msg, 25));
    if fs(Slot::NewConpty) is Absent {
        assert(m5.phase is CopyExe);
        lemma_replace_from_copy_exe(m5, fs, fs5, fault, 5, msg, 25);
    } else {
        assert(m5.phase is RemoveStaleConpty);
        let (fs6, o6) = perform(fs5, FileAction::RemoveDir(Slot::NewConpty), 5 == fault, msg);
        let m6 = m5.after(o6);
        assert(run_replace(m5, fs5, fault, 5, msg, 25) == run_replace(m6, fs6, fault, 6, msg, 24));
        if o6 == crate::actions::ActionOutcome::Succeeded {
            lemma_replace_from_copy_exe(m6, fs, fs6, fault, 6, msg, 24);
        }
    }
}


} // verus!
