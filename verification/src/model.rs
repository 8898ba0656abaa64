use vstd::prelude::*;

use crate::actions::{ActionOutcome, EntryKind, FileAction, Slot};
use crate::commit::{CommitMachine, CommitPhase};

verus! {

/// What a slot holds in the file-system model; the number tells contents apart.
#[derive(Clone, Copy, Debug, PartialEq, Eq, Structural)]
pub enum Node {
    Absent,
    File(u64),
    Dir(u64),
    Other(u64),
}

/// A model of the slots of an update: what each one holds.
pub type Fs = spec_fn(Slot) -> Node;

/// `fs` with `slot` holding `node`.
pub open spec fn with(fs: Fs, slot: Slot, node: Node) -> Fs {
    |s: Slot| if s == slot { node } else { fs(s) }
}

/// What inspecting a slot holding `node` reports.
pub open spec fn node_kind(node: Node) -> EntryKind {
    match node {
        Node::Absent => EntryKind::Missing,
        Node::File(_) => EntryKind::File,
        Node::Dir(_) => EntryKind::Directory,
        Node::Other(_) => EntryKind::Other,
    }
}

/// A rename succeeds when the source exists and the destination is free or
/// both are files (the destination file is then replaced).
pub open spec fn can_rename(from: Node, to: Node) -> bool {
    !(from is Absent) && (to is Absent || (from is File && to is File))
}

/// Whether a slot holds nothing or a file.
pub open spec fn absent_or_file(node: Node) -> bool {
    node is Absent || node is File
}

/// The model of performing `action` on `fs`. An operation fails, leaving `fs`
/// unchanged, when the file system refuses it or when `fault` injects a failure.
pub open spec fn perform(fs: Fs, action: FileAction, fault: bool, msg: String) -> (Fs, ActionOutcome) {
    let failed = (fs, ActionOutcome::Failed(msg));
    match action {
        FileAction::Inspect(s) => (fs, ActionOutcome::Inspected(node_kind(fs(s)))),
        FileAction::CleanStaleMcpBackups => if fault { failed } else { (fs, ActionOutcome::Succeeded) },
        FileAction::Move { from, to } => if !fault && can_rename(fs(from), fs(to)) {
            (with(with(fs, to, fs(from)), from, Node::Absent), ActionOutcome::Succeeded)
        } else {
            failed
        },
        FileAction::Rename { from, to } => if !fault && can_rename(fs(from), fs(to)) {
            (with(with(fs, to, fs(from)), from, Node::Absent), ActionOutcome::Succeeded)
        } else {
            failed
        },
        FileAction::RemoveFile(s) => if !fault && !(fs(s) is Absent) && !(fs(s) is Dir) {
            (with(fs, s, Node::Absent), ActionOutcome::Succeeded)
        } else {
            failed
        },
        FileAction::RemoveDir(s) => if !fault && fs(s) is Dir {
            (with(fs, s, Node::Absent), ActionOutcome::Succeeded)
        } else {
            failed
        },
        FileAction::Copy { from, to } => if !fault && fs(from) is File && !(fs(to) is Dir) {
            (with(fs, to, fs(from)), ActionOutcome::Succeeded)
        } else {
            failed
        },
        FileAction::StageConpty { from, to } => if !fault && fs(from) is Dir && fs(to) is Absent {
            (with(fs, to, fs(from)), ActionOutcome::Succeeded)
        } else {
            failed
        },
    }
}

/// Runs a commit on the model for at most `fuel` operations, numbering them from
/// `step`; operation number `fault` fails by injection. Gives the final slots,
/// the finished commit and the number after the last operation, or `None` when
/// the fuel runs out first.
pub open spec fn run_commit(
    m: CommitMachine,
    fs: Fs,
    fault: int,
    step: int,
    msg: String,
    fuel: nat,
) -> Option<(Fs, CommitMachine, int)>
    decreases fuel,
{
    match m.next_action() {
        None => Some((fs, m, step)),
        Some(action) => if fuel == 0 {
            None
        } else {
            let (fs2, outcome) = perform(fs, action, step == fault, msg);
            run_commit(m.after(outcome), fs2, fault, step + 1, msg, (fuel - 1) as nat)
        },
    }
}

/// The slots a commit starts from: the new files are staged, an executable is
/// installed, and the backup slots hold nothing or stale files.
pub open spec fn commit_ready(fs: Fs) -> bool {
    &&& fs(Slot::NewExe) is File
    &&& fs(Slot::NewMcp) is File
    &&& fs(Slot::TargetExe) is File
    &&& absent_or_file(fs(Slot::BackupExe))
    &&& absent_or_file(fs(Slot::BackupMcp))
}

/// After a successful commit: the new files are installed and the previous ones kept as backups.
pub open spec fn commit_installed(before: Fs, after: Fs) -> bool {
    &&& after(Slot::TargetExe) == before(Slot::NewExe)
    &&& after(Slot::TargetMcp) == before(Slot::NewMcp)
    &&& after(Slot::BackupExe) == before(Slot::TargetExe)
    &&& (before(Slot::TargetMcp) is File ==> after(Slot::BackupMcp) == before(Slot::TargetMcp))
    &&& (!(before(Slot::TargetMcp) is File) ==> after(Slot::BackupMcp) == before(Slot::BackupMcp))
    &&& after(Slot::NewExe) is Absent
    &&& after(Slot::NewMcp) is Absent
}

/// A commit only touches the executable and MCP slots.
pub open spec fn commit_frame(before: Fs, after: Fs) -> bool {
    &&& after(Slot::TargetConpty) == before(Slot::TargetConpty)
    &&& after(Slot::NewConpty) == before(Slot::NewConpty)
    &&& after(Slot::BackupConpty) == before(Slot::BackupConpty)
    &&& after(Slot::SourceExe) == before(Slot::SourceExe)
    &&& after(Slot::SourceMcp) == before(Slot::SourceMcp)
    &&& after(Slot::SourceConpty) == before(Slot::SourceConpty)
}

/// After a failed commit: the installed executable and MCP server are the previous ones.
pub open spec fn commit_restored(before: Fs, after: Fs) -> bool {
    &&& after(Slot::TargetExe) == before(Slot::TargetExe)
    &&& after(Slot::TargetMcp) == before(Slot::TargetMcp)
}

/// What a finished commit run must satisfy, relative to the slots it started from.
pub open spec fn commit_settled(before: Fs, after: Fs, m: CommitMachine) -> bool {
    &&& m.is_done()
    &&& (m.phase matches CommitPhase::Done(Ok(())) ==> commit_installed(before, after))
    &&& (m.phase matches CommitPhase::Done(Err(e)) ==> commit_restored(before, after) && !e.reports_rollback_failure())
}

/// A commit run from `step` finished within `fuel` operations and settled; a
/// failed commit used up the injected fault, and it succeeds when `succeeds`.
pub open spec fn commit_run_settles(
    run: Option<(Fs, CommitMachine, int)>,
    before: Fs,
    fault: int,
    step: int,
    fuel: nat,
    succeeds: bool,
) -> bool {
    run matches Some((after, m, end)) && {
        &&& commit_settled(before, after, m)
        &&& commit_frame(before, after)
        &&& step <= end <= step + fuel
        &&& (m.phase is Done && m.phase->Done_0 is Err ==> fault < end)
        &&& (succeeds ==> m.phase matches CommitPhase::Done(Ok(())))
    }
}

/// Slots once the new executable is installed: only the MCP server is left to move.
pub open spec fn exe_installed(before: Fs, fs: Fs, had_mcp: bool) -> bool {
    &&& fs(Slot::TargetExe) == before(Slot::NewExe)
    &&& fs(Slot::NewExe) is Absent
    &&& fs(Slot::TargetMcp) is Absent
    &&& fs(Slot::NewMcp) == before(Slot::NewMcp)
    &&& fs(Slot::BackupExe) == before(Slot::TargetExe)
    &&& (had_mcp ==> fs(Slot::BackupMcp) == before(Slot::TargetMcp) && before(Slot::TargetMcp) is File)
    &&& (!had_mcp ==> before(Slot::TargetMcp) is Absent && fs(Slot::BackupMcp) == before(Slot::BackupMcp))
}

/// Slots once the previous executable (and MCP server, if any) is backed up.
pub open spec fn previous_backed_up(before: Fs, fs: Fs, had_mcp: bool) -> bool {
    &&& fs(Slot::TargetExe) is Absent
    &&& fs(Slot::NewExe) == before(Slot::NewExe)
    &&& fs(Slot::TargetMcp) is Absent
    &&& fs(Slot::NewMcp) == before(Slot::NewMcp)
    &&& fs(Slot::BackupExe) == before(Slot::TargetExe)
    &&& (had_mcp ==> fs(Slot::BackupMcp) == before(Slot::TargetMcp) && before(Slot::TargetMcp) is File)
    &&& (!had_mcp ==> before(Slot::TargetMcp) is Absent && fs(Slot::BackupMcp) == before(Slot::BackupMcp))
}

/// Slots once the previous executable is backed up and the MCP target not yet looked at.
pub open spec fn exe_backed_up(before: Fs, fs: Fs) -> bool {
    &&& fs(Slot::TargetExe) is Absent
    &&& fs(Slot::NewExe) == before(Slot::NewExe)
    &&& fs(Slot::TargetMcp) == before(Slot::TargetMcp)
    &&& fs(Slot::NewMcp) == before(Slot::NewMcp)
    &&& fs(Slot::BackupExe) == before(Slot::TargetExe)
    &&& fs(Slot::BackupMcp) == before(Slot::BackupMcp)
}

proof fn lemma_commit_from_install_mcp(m: CommitMachine, before: Fs, fs: Fs, fault: int, step: int, msg: String, fuel: nat)
    requires
        commit_ready(before),
        m.phase is InstallMcp,
        commit_frame(before, fs),
        exe_installed(before, fs, m.had_mcp),
        fuel >= 4,
    ensures
        commit_run_settles(run_commit(m, fs, fault, step, msg, fuel), before, fault, step, fuel, fault < step),
{
    reveal_with_fuel(run_commit, 5);
}

proof fn lemma_commit_from_install_exe(m: CommitMachine, before: Fs, fs: Fs, fault: int, step: int, msg: String, fuel: nat)
    requires
        commit_ready(before),
        m.phase is InstallExe,
        commit_frame(before, fs),
        previous_backed_up(before, fs, m.had_mcp),
        fuel >= 7,
    ensures
        commit_run_settles(run_commit(m, fs, fault, step, msg, fuel), before, fault, step, fuel, fault < step),
{
    reveal_with_fuel(run_commit, 2);
    let (fs2, outcome) = perform(fs, FileAction::Move { from: Slot::NewExe, to: Slot::TargetExe }, step == fault, msg);
    if step == fault {
        reveal_with_fuel(run_commit, 4);
    } else {
        lemma_commit_from_install_mcp(m.after(outcome), before, fs2, fault, step + 1, msg, (fuel - 1) as nat);
    }
}

proof fn lemma_commit_from_inspect(m: CommitMachine, before: Fs, fs: Fs, fault: int, step: int, msg: String, fuel: nat)
    requires
        commit_ready(before),
        fault < step || absent_or_file(before(Slot::TargetMcp)),
        m.phase is InspectMcp,
        commit_frame(before, fs),
        exe_backed_up(before, fs),
        fuel >= 9,
    ensures
        commit_run_settles(run_commit(m, fs, fault, step, msg, fuel), before, fault, step, fuel, fault < step && absent_or_file(before(Slot::TargetMcp))),
{
    reveal_with_fuel(run_commit, 2);
    let (fs2, outcome) = perform(fs, FileAction::Inspect(Slot::TargetMcp), step == fault, msg);
    let m2 = m.after(outcome);
    match before(Slot::TargetMcp) {
        Node::File(_) => {
            reveal_with_fuel(run_commit, 2);
            let (fs3, outcome3) = perform(fs2, FileAction::Move { from: Slot::TargetMcp, to: Slot::BackupMcp }, step + 1 == fault, msg);
            if step + 1 == fault {
                reveal_with_fuel(run_commit, 3);
            } else {
                lemma_commit_from_install_exe(m2.after(outcome3), before, fs3, fault, step + 2, msg, (fuel - 2) as nat);
            }
        },
        Node::Absent => {
            lemma_commit_from_install_exe(m2, before, fs2, fault, step + 1, msg, (fuel - 1) as nat);
        },
        _ => {
            reveal_with_fuel(run_commit, 3);
        },
    }
}

/// A commit in which at most one operation fails either installs both new files
/// (keeping the previous ones as backups) or reports an error with the previous
/// executable and MCP server back in place, and it succeeds when nothing fails
/// and the MCP target is a file or missing. An MCP target that is something else
/// makes the commit fail, and then no operation may fail besides.
pub proof fn lemma_commit_installs_or_restores(fs: Fs, fault: int, step: int, msg: String, fuel: nat)
    requires
        commit_ready(fs),
        fault < step || absent_or_file(fs(Slot::TargetMcp)),
        fuel >= 10,
    ensures
        commit_run_settles(
            run_commit(CommitMachine::initial(), fs, fault, step, msg, fuel),
            fs,
            fault,
            step,
            fuel,
            fault < step && absent_or_file(fs(Slot::TargetMcp)),
        ),
{
    reveal_with_fuel(run_commit, 2);
    let m = CommitMachine::initial();
    let (fs2, outcome) = perform(fs, FileAction::Move { from: Slot::TargetExe, to: Slot::BackupExe }, step == fault, msg);
    if fault == step {
    } else {
        lemma_commit_from_inspect(m.after(outcome), fs, fs2, fault, step + 1, msg, (fuel - 1) as nat);
    }
}


/// Whether the operation of phase `p` puts the previous installation back.
pub open spec fn is_commit_rollback(p: CommitPhase) -> bool {
    ||| p is AbortMcpNotFile
    ||| p is RestoreExeAfterMcp
    ||| p is ExeRollbackExe
    ||| p is ExeRollbackMcp
    ||| p is McpRollbackRemove
    ||| p is McpRollbackExe
    ||| p is McpRollbackMcp
}

/// Runs a commit on the model for at most `fuel` operations, numbering them from
/// `step`; operation number `i` fails by injection when `fails(i)`, however many
/// there are. Gives the final slots, the finished commit and whether any
/// rollback operation failed (`rolled_back_badly` before the run counts too),
/// or `None` when the fuel runs out first.
pub open spec fn run_commit_failing(
    m: CommitMachine,
    fs: Fs,
    fails: spec_fn(int) -> bool,
    step: int,
    msg: String,
    fuel: nat,
    rolled_back_badly: bool,
) -> Option<(Fs, CommitMachine, bool)>
    decreases fuel,
{
    match m.next_action() {
        None => Some((fs, m, rolled_back_badly)),
        Some(action) => if fuel == 0 {
            None
        } else {
            let (fs2, outcome) = perform(fs, action, fails(step), msg);
            run_commit_failing(
                m.after(outcome),
                fs2,
                fails,
                step + 1,
                msg,
                (fuel - 1) as nat,
                rolled_back_badly || (is_commit_rollback(m.phase) && outcome is Failed),
            )
        },
    }
}

/// How a finished commit accounts for itself: success means the new files are
/// installed and no rollback ran; an error reports a rollback failure exactly
/// when a rollback operation failed (but for the put-back after an MCP target
/// that is not a file, whose failure goes unreported), and an error without
/// a failed rollback leaves the previous executable and MCP server in place.
pub open spec fn commit_accounted(before: Fs, after: Fs, m: CommitMachine, rolled_back_badly: bool) -> bool {
    &&& m.is_done()
    &&& commit_frame(before, after)
    &&& (m.phase matches CommitPhase::Done(Ok(())) ==> !rolled_back_badly && commit_installed(before, after))
    &&& (m.phase matches CommitPhase::Done(Err(e)) ==> {
        &&& (e.reports_rollback_failure() ==> rolled_back_badly)
        &&& (rolled_back_badly ==> e.reports_rollback_failure() || e is McpTargetNotFile)
        &&& (!rolled_back_badly ==> commit_restored(before, after))
    })
}

/// The most operations a commit in this phase still performs.
pub open spec fn commit_rank(m: CommitMachine) -> nat {
    match m.phase {
        CommitPhase::BackupExe => 8,
        CommitPhase::InspectMcp => 7,
        CommitPhase::BackupMcp => 6,
        CommitPhase::InstallExe => 5,
        CommitPhase::InstallMcp => 4,
        CommitPhase::McpRollbackRemove { .. } => 3,
        CommitPhase::McpRollbackExe { .. } => 2,
        CommitPhase::ExeRollbackExe { .. } => 2,
        CommitPhase::McpRollbackMcp { .. } => 1,
        CommitPhase::ExeRollbackMcp { .. } => 1,
        CommitPhase::RestoreExeAfterMcp { .. } => 1,
        CommitPhase::AbortMcpNotFile => 1,
        CommitPhase::Done(_) => 0,
    }
}

/// Where the slots stand in each phase of a commit run from `before`.
pub open spec fn commit_tracks(before: Fs, fs: Fs, m: CommitMachine, rb: bool) -> bool {
    let had = m.had_mcp;
    let mcp_kept = (had ==> before(Slot::TargetMcp) is File && fs(Slot::BackupMcp) == before(Slot::TargetMcp))
        && (!had ==> before(Slot::TargetMcp) is Absent && fs(Slot::BackupMcp) == before(Slot::BackupMcp));
    &&& commit_frame(before, fs)
    &&& match m.phase {
        CommitPhase::BackupExe => {
            &&& !rb
            &&& fs(Slot::TargetExe) == before(Slot::TargetExe)
            &&& fs(Slot::BackupExe) == before(Slot::BackupExe)
            &&& fs(Slot::NewExe) == before(Slot::NewExe)
            &&& fs(Slot::TargetMcp) == before(Slot::TargetMcp)
            &&& fs(Slot::NewMcp) == before(Slot::NewMcp)
            &&& fs(Slot::BackupMcp) == before(Slot::BackupMcp)
        },
        CommitPhase::InspectMcp => !rb && exe_backed_up(before, fs) && !(before(Slot::TargetExe) is Absent),
        CommitPhase::AbortMcpNotFile => !rb && exe_backed_up(before, fs) && !(before(Slot::TargetExe) is Absent),
        CommitPhase::BackupMcp => {
            !rb && exe_backed_up(before, fs) && !(before(Slot::TargetExe) is Absent) && had
                && before(Slot::TargetMcp) is File
        },
        CommitPhase::RestoreExeAfterMcp { .. } => !rb && exe_backed_up(before, fs) && !(before(Slot::TargetExe) is Absent),
        CommitPhase::InstallExe => !rb && previous_backed_up(before, fs, had) && !(before(Slot::TargetExe) is Absent),
        CommitPhase::ExeRollbackExe { .. } => {
            !rb && previous_backed_up(before, fs, had) && !(before(Slot::TargetExe) is Absent)
        },
        CommitPhase::ExeRollbackMcp { restore_exe, .. } => {
            &&& had && mcp_kept
            &&& fs(Slot::TargetMcp) is Absent
            &&& (rb <==> restore_exe is Some)
            &&& (!rb ==> fs(Slot::TargetExe) == before(Slot::TargetExe))
        },
        CommitPhase::InstallMcp => !rb && exe_installed(before, fs, had) && !(before(Slot::TargetExe) is Absent),
        CommitPhase::McpRollbackRemove { .. } => {
            !rb && exe_installed(before, fs, had) && !(before(Slot::TargetExe) is Absent)
        },
        CommitPhase::McpRollbackExe { remove_exe, .. } => {
            &&& mcp_kept
            &&& fs(Slot::TargetMcp) is Absent
            &&& fs(Slot::BackupExe) == before(Slot::TargetExe)
            &&& !(before(Slot::TargetExe) is Absent)
            &&& (rb <==> remove_exe is Some)
            &&& (!rb ==> fs(Slot::TargetExe) is Absent)
        },
        CommitPhase::McpRollbackMcp { remove_exe, restore_exe, .. } => {
            &&& had && mcp_kept
            &&& fs(Slot::TargetMcp) is Absent
            &&& (rb <==> (remove_exe is Some || restore_exe is Some))
            &&& (!rb ==> fs(Slot::TargetExe) == before(Slot::TargetExe))
        },
        CommitPhase::Done(_) => commit_accounted(before, fs, m, rb),
    }
}

pub(crate) proof fn lemma_commit_tracks_step(before: Fs, fs: Fs, m: CommitMachine, rb: bool, fail: bool, msg: String)
    requires
        commit_tracks(before, fs, m, rb),
        !m.is_done(),
    ensures
        ({
            let (fs2, outcome) = perform(fs, m.next_action().unwrap(), fail, msg);
            &&& commit_tracks(before, fs2, m.after(outcome), rb || (is_commit_rollback(m.phase) && outcome is Failed))
            &&& commit_rank(m.after(outcome)) < commit_rank(m)
        }),
{
}

proof fn lemma_commit_tracks_run(
    before: Fs,
    fs: Fs,
    m: CommitMachine,
    fails: spec_fn(int) -> bool,
    step: int,
    msg: String,
    fuel: nat,
    rb: bool,
)
    requires
        commit_tracks(before, fs, m, rb),
        fuel >= commit_rank(m),
    ensures
        run_commit_failing(m, fs, fails, step, msg, fuel, rb) matches Some((after, m2, rb2))
            && commit_accounted(before, after, m2, rb2),
    decreases fuel,
{
    if !m.is_done() {
        lemma_commit_tracks_step(before, fs, m, rb, fails(step), msg);
        let (fs2, outcome) = perform(fs, m.next_action().unwrap(), fails(step), msg);
        lemma_commit_tracks_run(
            before,
            fs2,
            m.after(outcome),
            fails,
            step + 1,
            msg,
            (fuel - 1) as nat,
            rb || (is_commit_rollback(m.phase) && outcome is Failed),
        );
    }
}

/// Whatever the slots hold and however many operations fail, a commit finishes
/// within eight operations and accounts for itself: it succeeds only with the
/// new files installed; its error reports a rollback failure exactly when a
/// rollback operation failed (but for the put-back after an MCP target that is
/// not a file); and when every rollback operation succeeded, the previous
/// executable and MCP server are back in place.
pub proof fn lemma_commit_accounts_for_failures(fs: Fs, fails: spec_fn(int) -> bool, step: int, msg: String)
    ensures
        run_commit_failing(CommitMachine::initial(), fs, fails, step, msg, 8, false) matches Some((after, m, rb))
            && commit_accounted(fs, after, m, rb),
{
    lemma_commit_tracks_run(fs, fs, CommitMachine::initial(), fails, step, msg, 8, false);
}

} // verus!
