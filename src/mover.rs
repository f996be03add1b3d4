use vstd::prelude::*;
use crate::cleaner::MoveJob;

verus! {

/// The outcome of one successful move.
#[derive(Debug, Clone, Copy)]
pub struct MoveResult {
    pub success: bool,
    pub used_copy_fallback: bool,
}

/// Where a move stands.
#[derive(Debug, Clone, Copy, PartialEq, Eq, Structural)]
pub enum MovePhase {
    /// Nothing has been done yet.
    Start,
    /// Waiting for the destination directory to be created.
    CreatingDir,
    /// Waiting for the atomic rename.
    Renaming,
    /// The rename crossed devices: waiting for the copy of the whole item.
    Copying,
    /// The copy is complete: waiting for the source to be removed.
    RemovingSource,
    /// The move is over, one way or the other.
    Finished,
}

/// How an atomic rename ended.
#[derive(Debug, Clone)]
pub enum RenameOutcome {
    Renamed,
    /// Source and destination are on different devices.
    CrossDevice,
    /// Any other failure, with its description.
    Failed(String),
}

/// What the caller reports back after carrying out an action.
#[derive(Debug)]
pub enum MoveEvent {
    /// The move is started; the caller says what exists on disk.
    Begin { dest_dir_exists: bool, destination_exists: bool },
    DirCreated(Result<(), String>),
    Renamed(RenameOutcome),
    Copied(Result<(), String>),
    SourceRemoved(Result<(), String>),
}

/// What the caller is asked to do next.
#[derive(Debug)]
pub enum MoveAction {
    /// Create `path` and any missing ancestors.
    CreateDir { path: String },
    /// Atomically rename `from` to `to`.
    Rename { from: String, to: String },
    /// Copy the item at `from` (a file, or a directory with its whole subtree) to `to`.
    CopyTree { from: String, to: String },
    /// Remove the source item at `path`.
    RemoveSource { path: String },
    /// The move is over. When `journal` is set, the caller appends one journal
    /// record for the job's source and destination.
    Finish { outcome: Result<MoveResult, String>, journal: bool },
}

/// Relocates one item into a destination directory, with a copy-then-delete
/// fallback when the atomic rename crosses devices.
#[derive(Debug, Clone)]
pub struct MoveExecutor {
    pub job: MoveJob,
    pub dry_run: bool,
    pub phase: MovePhase,
}

/// The message recorded when the destination directory could not be created.
pub open spec fn create_dir_failure(e: Seq<char>) -> Seq<char> {
    "Failed to create destination directory: "@ + e
}

/// The message recorded when the cross-device copy failed.
pub open spec fn copy_failure(e: Seq<char>) -> Seq<char> {
    "Failed to copy: "@ + e
}

/// The message recorded when the source could not be removed after a complete copy.
pub open spec fn remove_failure(e: Seq<char>) -> Seq<char> {
    "Failed to remove source after copy: "@ + e
}

/// `post` and `action` end the move successfully.
pub open spec fn finishes_ok(post: MoveExecutor, action: MoveAction, fallback: bool, journal: bool) -> bool {
    &&& post.phase == MovePhase::Finished
    &&& action matches MoveAction::Finish { outcome: Ok(res), journal: j }
    &&& res.success && res.used_copy_fallback == fallback && j == journal
}

/// `post` and `action` end the move with a failure and no journal record.
pub open spec fn finishes_err(post: MoveExecutor, action: MoveAction) -> bool {
    &&& post.phase == MovePhase::Finished
    &&& action matches MoveAction::Finish { outcome: Err(_), journal: false }
}

/// `post` and `action` end the move with the failure `msg`.
pub open spec fn finishes_with(post: MoveExecutor, action: MoveAction, msg: Seq<char>) -> bool {
    &&& finishes_err(post, action)
    &&& action->outcome->Err_0@ == msg
}

/// `post` asks for the atomic rename of the job's source onto its destination.
pub open spec fn asks_rename(pre: MoveExecutor, post: MoveExecutor, action: MoveAction) -> bool {
    &&& post.phase == MovePhase::Renaming
    &&& action matches MoveAction::Rename { from, to }
    &&& from@ == pre.job.source@ && to@ == pre.job.destination@
}

/// One step of a move: from `pre`, on `event`, the executor becomes `post` and asks for `action`.
pub open spec fn move_step(pre: MoveExecutor, event: MoveEvent, post: MoveExecutor, action: MoveAction) -> bool {
    &&& post.job == pre.job
    &&& post.dry_run == pre.dry_run
    &&& if pre.phase == MovePhase::Finished {
        finishes_err(post, action)
    } else if pre.dry_run {
        if pre.phase == MovePhase::Start && event is Begin {
            finishes_ok(post, action, false, false)
        } else {
            finishes_err(post, action)
        }
    } else {
        match (pre.phase, event) {
            (MovePhase::Start, MoveEvent::Begin { dest_dir_exists, destination_exists }) => {
                if destination_exists {
                    finishes_with(post, action, "Destination already exists"@)
                } else if dest_dir_exists {
                    asks_rename(pre, post, action)
                } else {
                    &&& post.phase == MovePhase::CreatingDir
                    &&& action matches MoveAction::CreateDir { path }
                    &&& path@ == pre.job.dest_dir@
                }
            },
            (MovePhase::CreatingDir, MoveEvent::DirCreated(r)) => match r {
                Ok(_) => asks_rename(pre, post, action),
                Err(e) => finishes_with(post, action, create_dir_failure(e@)),
            },
            (MovePhase::Renaming, MoveEvent::Renamed(o)) => match o {
                RenameOutcome::Renamed => finishes_ok(post, action, false, true),
                RenameOutcome::CrossDevice => {
                    &&& post.phase == MovePhase::Copying
                    &&& action matches MoveAction::CopyTree { from, to }
                    &&& from@ == pre.job.source@ && to@ == pre.job.destination@
                },
                RenameOutcome::Failed(e) => finishes_with(post, action, e@),
            },
            (MovePhase::Copying, MoveEvent::Copied(r)) => match r {
                Ok(_) => {
                    &&& post.phase == MovePhase::RemovingSource
                    &&& action matches MoveAction::RemoveSource { path }
                    &&& path@ == pre.job.source@
                },
                Err(e) => finishes_with(post, action, copy_failure(e@)),
            },
            (MovePhase::RemovingSource, MoveEvent::SourceRemoved(r)) => match r {
                Ok(_) => finishes_ok(post, action, true, true),
                Err(e) => finishes_with(post, action, remove_failure(e@)),
            },
            _ => finishes_err(post, action),
        }
    }
}

/// `execs`, `events` and `actions` form a run of one move: the executor goes
/// from `execs[i]` to `execs[i + 1]` on `events[i]`, asking for `actions[i]`.
pub open spec fn is_move_run(execs: Seq<MoveExecutor>, events: Seq<MoveEvent>, actions: Seq<MoveAction>) -> bool {
    &&& execs.len() == events.len() + 1
    &&& actions.len() == events.len()
    &&& forall|i: int| 0 <= i < events.len() ==> #[trigger] step_at(execs, events, actions, i)
}

/// Step `i` of a run follows `move_step`.
pub open spec fn step_at(execs: Seq<MoveExecutor>, events: Seq<MoveEvent>, actions: Seq<MoveAction>, i: int) -> bool {
    move_step(execs[i], events[i], execs[i + 1], actions[i])
}

/// The action changes the filesystem or the journal.
pub open spec fn mutates(a: MoveAction) -> bool {
    match a {
        MoveAction::Finish { journal, .. } => journal,
        _ => true,
    }
}

/// The action asks for a journal record.
pub open spec fn journals(a: MoveAction) -> bool {
    a matches MoveAction::Finish { journal: true, .. }
}

/// Along a run the job and the mode never change.
pub proof fn lemma_run_keeps_job(execs: Seq<MoveExecutor>, events: Seq<MoveEvent>, actions: Seq<MoveAction>, k: int)
    requires
        is_move_run(execs, events, actions),
        0 <= k < execs.len(),
    ensures
        execs[k].job == execs[0].job,
        execs[k].dry_run == execs[0].dry_run,
    decreases k,
{
    if k > 0 {
        lemma_run_keeps_job(execs, events, actions, k - 1);
        assert(step_at(execs, events, actions, k - 1));
    }
}

/// A dry run that starts at the beginning is only ever at the beginning or finished.
pub proof fn lemma_dry_run_phases(execs: Seq<MoveExecutor>, events: Seq<MoveEvent>, actions: Seq<MoveAction>, k: int)
    requires
        is_move_run(execs, events, actions),
        execs[0].dry_run,
        execs[0].phase == MovePhase::Start,
        0 <= k < execs.len(),
    ensures
        execs[k].phase == MovePhase::Start || execs[k].phase == MovePhase::Finished,
    decreases k,
{
    if k > 0 {
        lemma_dry_run_phases(execs, events, actions, k - 1);
        lemma_run_keeps_job(execs, events, actions, k - 1);
        assert(step_at(execs, events, actions, k - 1));
    }
}

/// Once a move is finished it stays finished, and asks for nothing more.
pub proof fn lemma_finished_stays(execs: Seq<MoveExecutor>, events: Seq<MoveEvent>, actions: Seq<MoveAction>, k: int, m: int)
    requires
        is_move_run(execs, events, actions),
        0 <= k <= m < execs.len(),
        execs[k].phase == MovePhase::Finished,
    ensures
        execs[m].phase == MovePhase::Finished,
        m < actions.len() ==> !mutates(actions[m]),
    decreases m - k,
{
    if m > k {
        lemma_finished_stays(execs, events, actions, k, m - 1);
        assert(step_at(execs, events, actions, m - 1));
    }
    if m < actions.len() {
        assert(step_at(execs, events, actions, m));
    }
}

/// A dry run never creates a directory, never moves, copies or removes anything and
/// never asks for a journal record; started on a `Begin`, it succeeds at once, so
/// the job's destination is reported exactly as a real run would move it.
pub proof fn law_dry_run_touches_nothing(execs: Seq<MoveExecutor>, events: Seq<MoveEvent>, actions: Seq<MoveAction>)
    requires
        is_move_run(execs, events, actions),
        execs[0].dry_run,
    ensures
        forall|i: int| 0 <= i < actions.len() ==> !mutates(#[trigger] actions[i]),
        execs[0].phase == MovePhase::Start && events.len() > 0 && events[0] is Begin
            ==> finishes_ok(execs[1], actions[0], false, false),
{
    assert forall|i: int| 0 <= i < actions.len() implies !mutates(#[trigger] actions[i]) by {
        lemma_run_keeps_job(execs, events, actions, i);
        assert(step_at(execs, events, actions, i));
    }
    if events.len() > 0 {
        assert(step_at(execs, events, actions, 0));
    }
}

/// A move asks for at most one journal record, and only as the end of a successful
/// move (by rename, or by copy and removal of the source).
pub proof fn law_one_journal_record(execs: Seq<MoveExecutor>, events: Seq<MoveEvent>, actions: Seq<MoveAction>)
    requires
        is_move_run(execs, events, actions),
    ensures
        forall|i: int, j: int|
            0 <= i < actions.len() && 0 <= j < actions.len() && journals(#[trigger] actions[i])
                && journals(#[trigger] actions[j]) ==> i == j,
        forall|i: int|
            0 <= i < actions.len() && journals(#[trigger] actions[i]) ==> {
                &&& !execs[0].dry_run
                &&& actions[i] matches MoveAction::Finish { outcome: Ok(res), .. }
                &&& res.success
            },
{
    assert forall|i: int, j: int|
        0 <= i < actions.len() && 0 <= j < actions.len() && journals(#[trigger] actions[i])
            && journals(#[trigger] actions[j]) implies i == j by {
        assert(step_at(execs, events, actions, i));
        assert(step_at(execs, events, actions, j));
        if i < j {
            lemma_finished_stays(execs, events, actions, i + 1, j);
        } else if j < i {
            lemma_finished_stays(execs, events, actions, j + 1, i);
        }
    }
    assert forall|i: int| 0 <= i < actions.len() && journals(#[trigger] actions[i]) implies {
        &&& !execs[0].dry_run
        &&& actions[i] matches MoveAction::Finish { outcome: Ok(res), .. }
        &&& res.success
    } by {
        lemma_run_keeps_job(execs, events, actions, i);
        assert(step_at(execs, events, actions, i));
    }
}

/// The source is removed only right after the whole item was copied to the
/// destination, and the copy is made only when the rename reported crossing devices.
/// A move that completes this way ends with one journal record for the item itself.
pub proof fn law_cross_device_fallback(execs: Seq<MoveExecutor>, events: Seq<MoveEvent>, actions: Seq<MoveAction>)
    requires
        is_move_run(execs, events, actions),
        execs[0].phase == MovePhase::Start,
    ensures
        forall|j: int| 0 <= j < actions.len() && #[trigger] actions[j] is RemoveSource ==> {
            &&& 1 <= j
            &&& actions[j - 1] matches MoveAction::CopyTree { from, to }
            &&& from@ == execs[0].job.source@ && to@ == execs[0].job.destination@
            &&& events[j - 1] matches MoveEvent::Renamed(RenameOutcome::CrossDevice)
            &&& events[j] matches MoveEvent::Copied(Ok(_))
        },
        forall|j: int| 0 <= j < actions.len() && #[trigger] actions[j] is CopyTree
            ==> events[j] matches MoveEvent::Renamed(RenameOutcome::CrossDevice),
        forall|j: int| 0 <= j < actions.len() && execs[j].phase == MovePhase::RemovingSource
            && (#[trigger] events[j] matches MoveEvent::SourceRemoved(Ok(_)))
            ==> finishes_ok(execs[j + 1], actions[j], true, true),
{
    assert forall|j: int| 0 <= j < actions.len() && #[trigger] actions[j] is RemoveSource implies {
        &&& 1 <= j
        &&& actions[j - 1] matches MoveAction::CopyTree { from, to }
        &&& from@ == execs[0].job.source@ && to@ == execs[0].job.destination@
        &&& events[j - 1] matches MoveEvent::Renamed(RenameOutcome::CrossDevice)
        &&& events[j] matches MoveEvent::Copied(Ok(_))
    } by {
        assert(step_at(execs, events, actions, j));
        assert(execs[j].phase == MovePhase::Copying);
        assert(j >= 1);
        assert(step_at(execs, events, actions, j - 1));
        lemma_run_keeps_job(execs, events, actions, j - 1);
    }
    assert forall|j: int| 0 <= j < actions.len() && #[trigger] actions[j] is CopyTree
        implies events[j] matches MoveEvent::Renamed(RenameOutcome::CrossDevice) by {
        assert(step_at(execs, events, actions, j));
    }
    assert forall|j: int| 0 <= j < actions.len() && execs[j].phase == MovePhase::RemovingSource
        && (#[trigger] events[j] matches MoveEvent::SourceRemoved(Ok(_)))
        implies finishes_ok(execs[j + 1], actions[j], true, true) by {
        assert(step_at(execs, events, actions, j));
        lemma_run_keeps_job(execs, events, actions, j);
        if execs[0].dry_run {
            lemma_dry_run_phases(execs, events, actions, j);
        }
    }
}

/// A real move that finishes successfully has put the item at the job's destination:
/// either by the atomic rename of the source onto the destination, asked for in the
/// step before, or by removing the source right after copying it there in full.
pub proof fn law_success_means_relocated(execs: Seq<MoveExecutor>, events: Seq<MoveEvent>, actions: Seq<MoveAction>, i: int)
    requires
        is_move_run(execs, events, actions),
        execs[0].phase == MovePhase::Start,
        !execs[0].dry_run,
        0 <= i < actions.len(),
        actions[i] matches MoveAction::Finish { outcome: Ok(_), .. },
    ensures
        ({
            &&& 1 <= i
            &&& actions[i - 1] matches MoveAction::Rename { from, to }
            &&& from@ == execs[0].job.source@ && to@ == execs[0].job.destination@
            &&& events[i] matches MoveEvent::Renamed(RenameOutcome::Renamed)
        }) || ({
            &&& 2 <= i
            &&& actions[i - 2] matches MoveAction::CopyTree { from, to }
            &&& from@ == execs[0].job.source@ && to@ == execs[0].job.destination@
            &&& events[i - 1] matches MoveEvent::Copied(Ok(_))
            &&& actions[i - 1] matches MoveAction::RemoveSource { path }
            &&& path@ == execs[0].job.source@
            &&& events[i] matches MoveEvent::SourceRemoved(Ok(_))
        }),
{
    lemma_run_keeps_job(execs, events, actions, i);
    assert(step_at(execs, events, actions, i));
    assert(execs[i].phase == MovePhase::Renaming || execs[i].phase == MovePhase::RemovingSource);
    assert(i >= 1);
    lemma_run_keeps_job(execs, events, actions, i - 1);
    assert(step_at(execs, events, actions, i - 1));
    if execs[i].phase == MovePhase::RemovingSource {
        assert(execs[i - 1].phase == MovePhase::Copying);
        assert(i >= 2);
        lemma_run_keeps_job(execs, events, actions, i - 2);
        assert(step_at(execs, events, actions, i - 2));
    }
}

/// The journal after the actions of a move run: `record` appended once for each
/// action that asks for a journal record.
pub open spec fn journal_after_run(lines: Seq<Seq<char>>, actions: Seq<MoveAction>, record: Seq<char>) -> Seq<Seq<char>>
    decreases actions.len(),
{
    if actions.len() == 0 {
        lines
    } else {
        let prev = journal_after_run(lines, actions.drop_last(), record);
        if journals(actions.last()) {
            prev.push(record)
        } else {
            prev
        }
    }
}

proof fn lemma_journal_after_prefix(
    execs: Seq<MoveExecutor>,
    events: Seq<MoveEvent>,
    actions: Seq<MoveAction>,
    lines: Seq<Seq<char>>,
    record: Seq<char>,
    k: int,
)
    requires
        is_move_run(execs, events, actions),
        0 <= k <= actions.len(),
    ensures
        (exists|i: int| 0 <= i < k && journals(#[trigger] actions[i]))
            ==> journal_after_run(lines, actions.take(k), record) == lines.push(record),
        !(exists|i: int| 0 <= i < k && journals(#[trigger] actions[i]))
            ==> journal_after_run(lines, actions.take(k), record) == lines,
    decreases k,
{
    if k > 0 {
        lemma_journal_after_prefix(execs, events, actions, lines, record, k - 1);
        assert(actions.take(k).drop_last() =~= actions.take(k - 1));
        assert(actions.take(k).last() == actions[k - 1]);
        law_one_journal_record(execs, events, actions);
        if journals(actions[k - 1]) {
            assert forall|i: int| 0 <= i < k - 1 implies !journals(#[trigger] actions[i]) by {
                if journals(actions[i]) {
                    assert(i == k - 1);
                }
            }
        }
    } else {
        assert(actions.take(0) =~= Seq::<MoveAction>::empty());
    }
}

/// Over one move, the journal gains exactly one line, the move's record, when the
/// move succeeds for real (by rename or by copy and removal), and none otherwise:
/// so a sequence of successful real moves adds one line each.
pub proof fn law_move_journals_once(
    execs: Seq<MoveExecutor>,
    events: Seq<MoveEvent>,
    actions: Seq<MoveAction>,
    lines: Seq<Seq<char>>,
    record: Seq<char>,
)
    requires
        is_move_run(execs, events, actions),
    ensures
        (exists|i: int| 0 <= i < actions.len() && journals(#[trigger] actions[i])) ==> {
            &&& journal_after_run(lines, actions, record) == lines.push(record)
            &&& !execs[0].dry_run
        },
        (forall|i: int| 0 <= i < actions.len() ==> !journals(#[trigger] actions[i]))
            ==> journal_after_run(lines, actions, record) == lines,
        (forall|i: int| 0 <= i < actions.len() ==> !(#[trigger] actions[i] matches MoveAction::Finish { outcome: Ok(_), .. }))
            ==> journal_after_run(lines, actions, record) == lines,
{
    lemma_journal_after_prefix(execs, events, actions, lines, record, actions.len() as int);
    assert(actions.take(actions.len() as int) =~= actions);
    law_one_journal_record(execs, events, actions);
    if exists|i: int| 0 <= i < actions.len() && journals(#[trigger] actions[i]) {
        let i = choose|i: int| 0 <= i < actions.len() && journals(#[trigger] actions[i]);
        assert(!execs[0].dry_run);
    }
}

impl MoveExecutor {
    /// A move of `job` that has not started.
    pub fn new(job: MoveJob, dry_run: bool) -> (r: MoveExecutor)
        ensures
            r.job == job,
            r.dry_run == dry_run,
            r.phase == MovePhase::Start,
    {
        MoveExecutor { job, dry_run, phase: MovePhase::Start }
    }

    fn finish_err(&mut self, msg: String) -> (action: MoveAction)
        ensures
            final(self).job == old(self).job,
            final(self).dry_run == old(self).dry_run,
            finishes_with(*final(self), action, msg@),
    {
        self.phase = MovePhase::Finished;
        MoveAction::Finish { outcome: Err(msg), journal: false }
    }

    fn finish_ok(&mut self, fallback: bool, journal: bool) -> (action: MoveAction)
        ensures
            final(self).job == old(self).job,
            final(self).dry_run == old(self).dry_run,
            finishes_ok(*final(self), action, fallback, journal),
    {
        self.phase = MovePhase::Finished;
        MoveAction::Finish { outcome: Ok(MoveResult { success: true, used_copy_fallback: fallback }), journal }
    }

    fn ask_rename(&mut self) -> (action: MoveAction)
        ensures
            final(self).job == old(self).job,
            final(self).dry_run == old(self).dry_run,
            asks_rename(*old(self), *final(self), action),
    {
        self.phase = MovePhase::Renaming;
        MoveAction::Rename { from: self.job.source.clone(), to: self.job.destination.clone() }
    }

    /// Takes the caller's report of what happened and says what to do next.
    pub fn step(&mut self, event: MoveEvent) -> (action: MoveAction)
        ensures
            move_step(*old(self), event, *final(self), action),
    {
        if self.phase == MovePhase::Finished {
            return self.finish_err(String::from_str("Move already finished"));
        }
        if self.dry_run {
            if self.phase == MovePhase::Start {
                if let MoveEvent::Begin { .. } = event {
                    return self.finish_ok(false, false);
                }
            }
            return self.finish_err(String::from_str("Unexpected event in a dry run"));
        }
        match (self.phase, event) {
            (MovePhase::Start, MoveEvent::Begin { dest_dir_exists, destination_exists }) => {
                if destination_exists {
                    self.finish_err(String::from_str("Destination already exists"))
                } else if dest_dir_exists {
                    self.ask_rename()
                } else {
                    self.phase = MovePhase::CreatingDir;
                    MoveAction::CreateDir { path: self.job.dest_dir.clone() }
                }
            },
            (MovePhase::CreatingDir, MoveEvent::DirCreated(r)) => match r {
                Ok(_) => self.ask_rename(),
                Err(e) => {
                    let msg = String::from_str("Failed to create destination directory: ").concat(e.as_str());
                    self.finish_err(msg)
                },
            },
            (MovePhase::Renaming, MoveEvent::Renamed(o)) => match o {
                RenameOutcome::Renamed => self.finish_ok(false, true),
                RenameOutcome::CrossDevice => {
                    self.phase = MovePhase::Copying;
                    MoveAction::CopyTree { from: self.job.source.clone(), to: self.job.destination.clone() }
                },
                RenameOutcome::Failed(e) => self.finish_err(e),
            },
            (MovePhase::Copying, MoveEvent::Copied(r)) => match r {
                Ok(_) => {
                    self.phase = MovePhase::RemovingSource;
                    MoveAction::RemoveSource { path: self.job.source.clone() }
                },
                Err(e) => {
                    let msg = String::from_str("Failed to copy: ").concat(e.as_str());
                    self.finish_err(msg)
                },
            },
            (MovePhase::RemovingSource, MoveEvent::SourceRemoved(r)) => match r {
                Ok(_) => self.finish_ok(true, true),
                Err(e) => {
                    let msg = String::from_str("Failed to remove source after copy: ").concat(e.as_str());
                    self.finish_err(msg)
                },
            },
            _ => self.finish_err(String::from_str("Unexpected event for this stage of the move")),
        }
    }
}

} // verus!
