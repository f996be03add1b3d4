use vstd::prelude::*;
use crate::config::Config;
use crate::paths::{join_path, join_spec};

verus! {

/// The kind of a journaled operation.
#[derive(Debug, Clone, Copy, PartialEq, Eq, Structural)]
pub enum OpType {
    Move,
}

/// One journal record: an item moved from `src` to `dest` at `timestamp`
/// (seconds since the epoch).
#[derive(Debug, Clone)]
pub struct Operation {
    pub timestamp: i64,
    pub kind: OpType,
    pub src: String,
    pub dest: String,
}

/// The outcome of reverting one operation: the item at `source` (the operation's
/// destination) was to go back to `destination` (the operation's source).
#[derive(Debug, Clone)]
pub struct UndoItem {
    pub source: String,
    pub destination: String,
    pub success: bool,
    pub error: Option<String>,
}

/// What an undo did.
#[derive(Debug)]
pub struct UndoReport {
    pub undone: Vec<UndoItem>,
    pub no_log_found: bool,
    pub log_empty: bool,
}

/// How the journal is to be rewritten and which of its lines are to be reverted.
#[derive(Debug)]
pub struct UndoPlan {
    /// The oldest lines, which the journal holds after the undo.
    pub keep: Vec<String>,
    /// The newest lines, most recent first.
    pub revert: Vec<String>,
}

/// An undo that has been read from the journal and waits to be carried out.
#[derive(Debug)]
pub struct UndoSession {
    pub report: UndoReport,
    /// `None` when there is nothing to revert and the journal stays as it is.
    pub plan: Option<UndoPlan>,
}

/// What to do about one operation that is to be reverted.
#[derive(Debug)]
pub enum RevertDecision {
    /// Make sure the parent of `to` exists, then rename `from` to `to`.
    Restore { from: String, to: String },
    /// Leave the filesystem alone and record this failure.
    Refuse(String),
}

/// Relies on `chrono::Utc::now`: the current time, as whole seconds since the epoch.
/// It is measured from the epoch forwards (a clock set before the epoch panics there),
/// so it is never negative.
#[verifier::external_body]
fn now_timestamp() -> (r: i64)
    ensures
        r >= 0,
{
    chrono::Utc::now().timestamp()
}

/// The name of the journal file in the workspace.
pub open spec fn journal_file_name() -> Seq<char> {
    ".undo_log.jsonl"@
}

/// The texts of a sequence of lines.
pub open spec fn texts(lines: Seq<String>) -> Seq<Seq<char>> {
    lines.map_values(|l: String| l@)
}

/// How many lines an undo of `count` operations reverts.
pub open spec fn revert_count(total: int, count: int) -> int {
    if count < total { count } else { total }
}

/// The lines that stay in the journal after an undo of `count` operations: the oldest ones.
pub open spec fn kept_lines(lines: Seq<Seq<char>>, count: int) -> Seq<Seq<char>> {
    lines.take(lines.len() - revert_count(lines.len() as int, count))
}

/// The lines that an undo of `count` operations reverts, most recent first.
pub open spec fn reverted_lines(lines: Seq<Seq<char>>, count: int) -> Seq<Seq<char>> {
    let n = revert_count(lines.len() as int, count);
    Seq::new(n as nat, |i: int| lines[lines.len() - 1 - i])
}

/// The message recorded when the item to bring back is gone.
pub open spec fn missing_message() -> Seq<char> {
    "Source file not found"@
}

/// The message recorded when something already occupies the place the item came from.
pub open spec fn occupied_message() -> Seq<char> {
    "Destination already exists"@
}

/// A journal that received `appended` after `before`, with no undo between, holds
/// `before.len() + appended.len()` lines; an undo of `k` operations, `k` at most the
/// number appended, keeps exactly `before` and the oldest `appended.len() - k` of the
/// appended lines, and reverts the newest `k`.
pub proof fn law_journal_length(before: Seq<Seq<char>>, appended: Seq<Seq<char>>, k: int)
    requires
        0 <= k <= appended.len(),
    ensures
        (before + appended).len() == before.len() + appended.len(),
        kept_lines(before + appended, k) == before + appended.take(appended.len() - k),
        kept_lines(before + appended, k).len() == before.len() + appended.len() - k,
        reverted_lines(before + appended, k).len() == k,
{
    let all = before + appended;
    assert(all.take(all.len() - k) =~= before + appended.take(appended.len() - k));
}

/// What an undo leaves in the journal is a prefix of what it held, the reverted lines
/// are exactly the rest, newest first, and an undo of at least one operation on a
/// non-empty journal leaves a strict prefix.
pub proof fn law_undo_keeps_prefix(lines: Seq<Seq<char>>, count: int)
    requires
        0 <= count,
    ensures
        kept_lines(lines, count).len() <= lines.len(),
        forall|i: int| 0 <= i < kept_lines(lines, count).len() ==> #[trigger] kept_lines(lines, count)[i] == lines[i],
        kept_lines(lines, count).len() + reverted_lines(lines, count).len() == lines.len(),
        forall|i: int| 0 <= i < reverted_lines(lines, count).len()
            ==> #[trigger] reverted_lines(lines, count)[i] == lines[lines.len() - 1 - i],
        count > 0 && lines.len() > 0 ==> kept_lines(lines, count).len() < lines.len(),
{
}

/// An undo of one operation right after a move reverts exactly the line that the
/// move appended, newest first, and leaves the journal as it was before the move.
pub proof fn law_round_trip(before: Seq<Seq<char>>, record: Seq<char>)
    ensures
        kept_lines(before.push(record), 1) == before,
        reverted_lines(before.push(record), 1) == seq![record],
{
    assert(before.push(record).take(before.len() as int) =~= before);
    assert(reverted_lines(before.push(record), 1) =~= seq![record]);
}

/// The journal of a workspace.
pub fn get_log_path(config: &Config) -> (r: String)
    ensures
        r@ == join_spec(config.resolve_spec("workspace"@), journal_file_name()),
{
    let workspace = config.resolve_path("workspace");
    join_path(workspace.as_str(), ".undo_log.jsonl")
}

impl Operation {
    /// A record, stamped with the current time, of a move from `src` to `dest`.
    pub fn new_move(src: &str, dest: &str) -> (r: Operation)
        ensures
            r.kind == OpType::Move,
            r.timestamp >= 0,
            r.src@ == src@,
            r.dest@ == dest@,
    {
        Operation { timestamp: now_timestamp(), kind: OpType::Move, src: String::from_str(src), dest: String::from_str(dest) }
    }
}

/// The message recorded for a journal line that is not a record this version knows.
pub open spec fn unreadable_message() -> Seq<char> {
    "Unrecognized journal record"@
}

impl UndoReport {
    /// A report of an undo that did nothing yet.
    pub fn new() -> (r: UndoReport)
        ensures
            r.undone@.len() == 0,
            !r.no_log_found,
            !r.log_empty,
    {
        UndoReport { undone: Vec::new(), no_log_found: false, log_empty: false }
    }

    /// Records how reverting `op` ended: success, or the error it failed with.
    pub fn record(&mut self, op: &Operation, result: Result<(), String>)
        ensures
            final(self).no_log_found == old(self).no_log_found,
            final(self).log_empty == old(self).log_empty,
            final(self).undone@.len() == old(self).undone@.len() + 1,
            final(self).undone@.take(old(self).undone@.len() as int) == old(self).undone@,
            final(self).undone@.last().source@ == op.dest@,
            final(self).undone@.last().destination@ == op.src@,
            final(self).undone@.last().success == result is Ok,
            match result {
                Ok(_) => final(self).undone@.last().error is None,
                Err(e) => final(self).undone@.last().error matches Some(m) && m@ == e@,
            },
    {
        let success = result.is_ok();
        let error = match result {
            Ok(_) => None,
            Err(e) => Some(e),
        };
        let item = UndoItem { source: op.dest.clone(), destination: op.src.clone(), success, error };
        self.undone.push(item);
        proof {
            assert(self.undone@.take(old(self).undone@.len() as int) =~= old(self).undone@);
        }
    }

    /// Records that the journal line `line` was passed over because it is not a
    /// record this version knows: a failed item whose source is the line itself.
    pub fn record_unreadable(&mut self, line: &String)
        ensures
            final(self).no_log_found == old(self).no_log_found,
            final(self).log_empty == old(self).log_empty,
            final(self).undone@.len() == old(self).undone@.len() + 1,
            final(self).undone@.take(old(self).undone@.len() as int) == old(self).undone@,
            final(self).undone@.last().source@ == line@,
            final(self).undone@.last().destination@.len() == 0,
            !final(self).undone@.last().success,
            final(self).undone@.last().error matches Some(m) && m@ == unreadable_message(),
    {
        let item = UndoItem {
            source: line.clone(),
            destination: String::new(),
            success: false,
            error: Some(String::from_str("Unrecognized journal record")),
        };
        self.undone.push(item);
        proof {
            assert(self.undone@.take(old(self).undone@.len() as int) =~= old(self).undone@);
        }
    }
}

/// Splits the journal for an undo of `count` operations.
pub fn plan_undo(lines: &Vec<String>, count: usize) -> (r: UndoPlan)
    ensures
        texts(r.keep@) == kept_lines(texts(lines@), count as int),
        texts(r.revert@) == reverted_lines(texts(lines@), count as int),
        r.keep@.len() == lines@.len() - revert_count(lines@.len() as int, count as int),
        r.revert@.len() == revert_count(lines@.len() as int, count as int),
        forall|i: int| 0 <= i < r.keep@.len() ==> (#[trigger] r.keep@[i])@ == lines@[i]@,
        forall|i: int| 0 <= i < r.revert@.len() ==> (#[trigger] r.revert@[i])@ == lines@[lines@.len() - 1 - i]@,
{
    let total = lines.len();
    let n = if count < total { count } else { total };
    let split = total - n;
    let mut keep: Vec<String> = Vec::new();
    let mut i: usize = 0;
    while i < split
        invariant
            split <= lines@.len(),
            i <= split,
            texts(keep@) =~= texts(lines@).take(i as int),
        decreases split - i,
    {
        let ghost prev = keep@;
        let line = lines[i].clone();
        keep.push(line);
        proof {
            assert(keep@ == prev.push(line));
            assert(texts(prev.push(line)) =~= texts(prev).push(line@));
            assert(texts(lines@).take(i as int + 1) =~= texts(lines@).take(i as int).push(lines@[i as int]@));
        }
        i += 1;
    }
    let mut revert: Vec<String> = Vec::new();
    let mut j: usize = 0;
    while j < n
        invariant
            total == lines@.len(),
            n <= total,
            j <= n,
            texts(revert@) =~= Seq::new(j as nat, |k: int| texts(lines@)[total - 1 - k]),
        decreases n - j,
    {
        let ghost prev = revert@;
        let line = lines[total - 1 - j].clone();
        revert.push(line);
        proof {
            assert(revert@ == prev.push(line));
            assert(texts(prev.push(line)) =~= texts(prev).push(line@));
            assert(Seq::new(j as nat + 1, |k: int| texts(lines@)[total - 1 - k])
                =~= Seq::new(j as nat, |k: int| texts(lines@)[total - 1 - k]).push(line@));
        }
        j += 1;
    }
    proof {
        assert forall|i: int| 0 <= i < keep@.len() implies (#[trigger] keep@[i])@ == lines@[i]@ by {
            assert(texts(keep@)[i] == texts(lines@)[i]);
        }
        assert forall|i: int| 0 <= i < revert@.len() implies (#[trigger] revert@[i])@ == lines@[lines@.len() - 1 - i]@ by {
            assert(texts(revert@)[i] == texts(lines@)[total - 1 - i]);
        }
    }
    UndoPlan { keep, revert }
}

/// Starts an undo of the `count` most recent operations.
///
/// `journal` is `None` when there is no journal file, else its lines in order.
pub fn undo_last(journal: &Option<Vec<String>>, count: usize) -> (r: UndoSession)
    ensures
        r.report.undone@.len() == 0,
        r.report.no_log_found == journal is None,
        r.report.log_empty == (journal matches Some(lines) && lines@.len() == 0),
        match journal {
            Some(lines) => if lines@.len() == 0 {
                r.plan is None
            } else {
                &&& r.plan matches Some(p)
                &&& texts(p.keep@) == kept_lines(texts(lines@), count as int)
                &&& texts(p.revert@) == reverted_lines(texts(lines@), count as int)
            },
            None => r.plan is None,
        },
{
    let mut report = UndoReport::new();
    match journal {
        None => {
            report.no_log_found = true;
            UndoSession { report, plan: None }
        },
        Some(lines) => {
            if lines.len() == 0 {
                report.log_empty = true;
                UndoSession { report, plan: None }
            } else {
                UndoSession { report, plan: Some(plan_undo(lines, count)) }
            }
        },
    }
}

/// Decides how to revert `op`, given whether its destination and its source exist now.
///
/// The item comes back only when it is still at the destination and nothing occupies
/// the place it came from; an existing file there is never overwritten.
pub fn plan_revert(op: &Operation, dest_exists: bool, src_exists: bool) -> (r: RevertDecision)
    ensures
        !dest_exists ==> (r matches RevertDecision::Refuse(m) && m@ == missing_message()),
        dest_exists && src_exists ==> (r matches RevertDecision::Refuse(m) && m@ == occupied_message()),
        dest_exists && !src_exists ==> (r matches RevertDecision::Restore { from, to } && from@ == op.dest@
            && to@ == op.src@),
{
    if !dest_exists {
        RevertDecision::Refuse(String::from_str("Source file not found"))
    } else if src_exists {
        RevertDecision::Refuse(String::from_str("Destination already exists"))
    } else {
        RevertDecision::Restore { from: op.dest.clone(), to: op.src.clone() }
    }
}

} // verus!
