use vstd::prelude::*;
use crate::paths::text_eq;

verus! {

/// How many snapshot rounds a stability check makes before it gives up.
pub const MAX_STABILITY_ATTEMPTS: u32 = 5;

/// Seconds between the two snapshots of a round.
pub const FILE_STABILITY_SECONDS: u64 = 2;

/// Seconds over which file notifications are collapsed into one trigger.
pub const DEBOUNCE_SECONDS: u64 = 2;

/// The file at `path` is in `before`, with size `size`.
pub open spec fn recorded_with_size(before: Seq<(String, u64)>, path: Seq<char>, size: u64) -> bool {
    exists|j: int| 0 <= j < before.len() && before[j].0@ == path && before[j].1 == size
}

/// Nothing in `after` breaks stability: every file in it was already in `before`,
/// with the same size. Files of `before` that are gone from `after` do not matter.
pub open spec fn snapshots_stable(before: Seq<(String, u64)>, after: Seq<(String, u64)>) -> bool {
    forall|i: int| 0 <= i < after.len() ==> recorded_with_size(before, (#[trigger] after[i]).0@, after[i].1)
}

/// A snapshot names each file once.
pub open spec fn distinct_paths(s: Seq<(String, u64)>) -> bool {
    forall|i: int, j: int| 0 <= i < s.len() && 0 <= j < s.len() && i != j ==> (#[trigger] s[i]).0@ != (#[trigger] s[j]).0@
}

/// Whether the file at `path` is in `before` with size `size`.
fn recorded(before: &Vec<(String, u64)>, path: &String, size: u64) -> (r: bool)
    ensures
        r == recorded_with_size(before@, path@, size),
{
    let mut j: usize = 0;
    while j < before.len()
        invariant
            j <= before@.len(),
            forall|k: int| 0 <= k < j ==> !(before@[k].0@ == path@ && before@[k].1 == size),
        decreases before@.len() - j,
    {
        if before[j].1 == size && text_eq(before[j].0.as_str(), path.as_str()) {
            return true;
        }
        j += 1;
    }
    false
}

/// Compares two snapshots of the inbox taken one interval apart.
pub fn sizes_stable(before: &Vec<(String, u64)>, after: &Vec<(String, u64)>) -> (r: bool)
    ensures
        r == snapshots_stable(before@, after@),
{
    let mut i: usize = 0;
    while i < after.len()
        invariant
            i <= after@.len(),
            forall|k: int| 0 <= k < i ==> recorded_with_size(before@, (#[trigger] after@[k]).0@, after@[k].1),
        decreases after@.len() - i,
    {
        if !recorded(before, &after[i].0, after[i].1) {
            return false;
        }
        i += 1;
    }
    true
}

/// A file whose size differs between the two snapshots of a round breaks stability.
pub proof fn law_size_change_breaks_stability(before: Seq<(String, u64)>, after: Seq<(String, u64)>, j: int, i: int)
    requires
        distinct_paths(before),
        0 <= j < before.len(),
        0 <= i < after.len(),
        after[i].0@ == before[j].0@,
        after[i].1 != before[j].1,
    ensures
        !snapshots_stable(before, after),
{
    if snapshots_stable(before, after) {
        let k = choose|k: int| 0 <= k < before.len() && before[k].0@ == after[i].0@ && before[k].1 == after[i].1;
        assert(before[k].0@ == before[j].0@);
    }
}

/// A file that appears during a round breaks stability.
pub proof fn law_new_file_breaks_stability(before: Seq<(String, u64)>, after: Seq<(String, u64)>, i: int)
    requires
        0 <= i < after.len(),
        forall|j: int| 0 <= j < before.len() ==> (#[trigger] before[j]).0@ != after[i].0@,
    ensures
        !snapshots_stable(before, after),
{
    if snapshots_stable(before, after) {
        let k = choose|k: int| 0 <= k < before.len() && before[k].0@ == after[i].0@ && before[k].1 == after[i].1;
        assert(before[k].0@ != after[i].0@);
    }
}

/// A round in which nothing changed is stable, and so is one in which files only disappeared.
pub proof fn law_unchanged_is_stable(before: Seq<(String, u64)>, after: Seq<(String, u64)>)
    requires
        forall|i: int| 0 <= i < after.len() ==> before.contains(#[trigger] after[i]),
    ensures
        snapshots_stable(before, after),
{
    assert forall|i: int| 0 <= i < after.len() implies recorded_with_size(before, (#[trigger] after[i]).0@, after[i].1) by {
        assert(before.contains(after[i]));
        let j = choose|j: int| 0 <= j < before.len() && before[j] == after[i];
        assert(before[j].0@ == after[i].0@ && before[j].1 == after[i].1);
    }
}

/// Where a stability check stands.
#[derive(Debug, Clone, Copy, PartialEq, Eq, Structural)]
pub enum StabilityPhase {
    /// Waiting for the first snapshot of a round.
    NeedBefore,
    /// Waiting for the snapshot taken one interval after the first.
    NeedAfter,
    /// The inbox is stable: it may be cleaned.
    Stable,
    /// The inbox kept changing for every round: this trigger is abandoned.
    Unstable,
}

/// What the caller is asked to do next.
#[derive(Debug, Clone, Copy, PartialEq, Eq, Structural)]
pub enum StabilityAction {
    /// Take a snapshot now and report it.
    TakeSnapshot,
    /// Wait one interval, then take a snapshot and report it.
    WaitThenSnapshot,
    /// Run a clean.
    Clean,
    /// Give up on this trigger and wait for the next one.
    Skip,
}

/// One step of a stability check: from `pre`, given `snapshot`, the check
/// becomes `post` and asks for `action`.
pub open spec fn stability_step(
    pre: StabilityCheck,
    snapshot: Seq<(String, u64)>,
    post: StabilityCheck,
    action: StabilityAction,
) -> bool {
    &&& post.max_attempts == pre.max_attempts
    &&& match pre.phase {
        StabilityPhase::NeedBefore => if snapshot.len() == 0 {
            post.phase == StabilityPhase::Stable && action == StabilityAction::Clean
        } else {
            &&& post.phase == StabilityPhase::NeedAfter
            &&& post.before@ == snapshot
            &&& post.attempt == pre.attempt
            &&& action == StabilityAction::WaitThenSnapshot
        },
        StabilityPhase::NeedAfter => if snapshots_stable(pre.before@, snapshot) {
            post.phase == StabilityPhase::Stable && action == StabilityAction::Clean
        } else if pre.attempt + 1 < pre.max_attempts {
            &&& post.phase == StabilityPhase::NeedBefore
            &&& post.attempt == pre.attempt + 1
            &&& action == StabilityAction::TakeSnapshot
        } else {
            post.phase == StabilityPhase::Unstable && action == StabilityAction::Skip
        },
        StabilityPhase::Stable => post == pre && action == StabilityAction::Clean,
        StabilityPhase::Unstable => post == pre && action == StabilityAction::Skip,
    }
}

/// `checks`, `snaps` and `actions` form a run of a stability check: the check goes
/// from `checks[i]` to `checks[i + 1]` given `snaps[i]`, asking for `actions[i]`.
pub open spec fn is_stability_run(
    checks: Seq<StabilityCheck>,
    snaps: Seq<Seq<(String, u64)>>,
    actions: Seq<StabilityAction>,
) -> bool {
    &&& checks.len() == snaps.len() + 1
    &&& actions.len() == snaps.len()
    &&& forall|i: int| 0 <= i < snaps.len() ==> #[trigger] stability_step_at(checks, snaps, actions, i)
}

/// Step `i` of a run follows `stability_step`.
pub open spec fn stability_step_at(
    checks: Seq<StabilityCheck>,
    snaps: Seq<Seq<(String, u64)>>,
    actions: Seq<StabilityAction>,
    i: int,
) -> bool {
    stability_step(checks[i], snaps[i], checks[i + 1], actions[i])
}

/// Round `j` of a run (its two snapshots) found files, and some file changed or appeared.
pub open spec fn round_unsettled(snaps: Seq<Seq<(String, u64)>>, j: int) -> bool {
    snaps[2 * j].len() > 0 && !snapshots_stable(snaps[2 * j], snaps[2 * j + 1])
}

/// A run that starts a fresh check and whose first `j` rounds were all unsettled
/// begins round `j` with nothing cleaned so far.
pub proof fn lemma_unsettled_rounds(
    checks: Seq<StabilityCheck>,
    snaps: Seq<Seq<(String, u64)>>,
    actions: Seq<StabilityAction>,
    j: int,
)
    requires
        is_stability_run(checks, snaps, actions),
        checks[0].phase == StabilityPhase::NeedBefore,
        checks[0].attempt == 0,
        0 <= j < checks[0].max_attempts,
        2 * j <= snaps.len(),
        forall|k: int| 0 <= k < j ==> #[trigger] round_unsettled(snaps, k),
    ensures
        checks[2 * j].phase == StabilityPhase::NeedBefore,
        checks[2 * j].attempt == j,
        checks[2 * j].max_attempts == checks[0].max_attempts,
        forall|i: int| 0 <= i < 2 * j ==> actions[i] != StabilityAction::Clean,
    decreases j,
{
    if j > 0 {
        lemma_unsettled_rounds(checks, snaps, actions, j - 1);
        assert(round_unsettled(snaps, j - 1));
        assert(stability_step_at(checks, snaps, actions, 2 * (j - 1)));
        assert(stability_step_at(checks, snaps, actions, 2 * (j - 1) + 1));
        assert(2 * (j - 1) + 1 + 1 == 2 * j);
    }
}

/// A file that keeps changing in every round is never cleaned in that watch cycle:
/// when all the bounded rounds of a fresh check are unsettled, no step asks for a
/// clean and the last one gives the cycle up.
pub proof fn law_unsettled_cycle_is_skipped(
    checks: Seq<StabilityCheck>,
    snaps: Seq<Seq<(String, u64)>>,
    actions: Seq<StabilityAction>,
)
    requires
        is_stability_run(checks, snaps, actions),
        checks[0].phase == StabilityPhase::NeedBefore,
        checks[0].attempt == 0,
        checks[0].max_attempts > 0,
        snaps.len() == 2 * checks[0].max_attempts,
        forall|k: int| 0 <= k < checks[0].max_attempts ==> #[trigger] round_unsettled(snaps, k),
    ensures
        forall|i: int| 0 <= i < actions.len() ==> actions[i] != StabilityAction::Clean,
        actions.last() == StabilityAction::Skip,
{
    let m = checks[0].max_attempts as int;
    lemma_unsettled_rounds(checks, snaps, actions, m - 1);
    assert(round_unsettled(snaps, m - 1));
    assert(stability_step_at(checks, snaps, actions, 2 * (m - 1)));
    assert(stability_step_at(checks, snaps, actions, 2 * (m - 1) + 1));
    assert(2 * (m - 1) + 1 == actions.len() - 1);
}

/// Once a round finds every file unchanged (none new, none resized), the check asks
/// for a clean at the end of that round; an empty inbox is cleaned at once.
pub proof fn law_settled_round_cleans(
    checks: Seq<StabilityCheck>,
    snaps: Seq<Seq<(String, u64)>>,
    actions: Seq<StabilityAction>,
    j: int,
)
    requires
        is_stability_run(checks, snaps, actions),
        checks[0].phase == StabilityPhase::NeedBefore,
        checks[0].attempt == 0,
        0 <= j < checks[0].max_attempts,
        2 * j < snaps.len(),
        forall|k: int| 0 <= k < j ==> #[trigger] round_unsettled(snaps, k),
    ensures
        snaps[2 * j].len() == 0 ==> actions[2 * j] == StabilityAction::Clean,
        snaps[2 * j].len() > 0 && 2 * j + 1 < snaps.len() && snapshots_stable(snaps[2 * j], snaps[2 * j + 1])
            ==> actions[2 * j + 1] == StabilityAction::Clean,
        forall|i: int| 0 <= i < 2 * j ==> actions[i] != StabilityAction::Clean,
{
    lemma_unsettled_rounds(checks, snaps, actions, j);
    assert(stability_step_at(checks, snaps, actions, 2 * j));
    if 2 * j + 1 < snaps.len() {
        assert(stability_step_at(checks, snaps, actions, 2 * j + 1));
    }
}

/// A check, over bounded rounds, that the files in the inbox stopped changing.
#[derive(Debug, Clone)]
pub struct StabilityCheck {
    /// The round under way, counted from zero.
    pub attempt: u32,
    pub max_attempts: u32,
    pub phase: StabilityPhase,
    /// The first snapshot of the round under way.
    pub before: Vec<(String, u64)>,
}

impl StabilityCheck {
    /// The check is consistent: a round under way is within the bound.
    pub open spec fn wf(&self) -> bool {
        (self.phase == StabilityPhase::NeedBefore || self.phase == StabilityPhase::NeedAfter)
            ==> self.attempt < self.max_attempts
    }

    /// A check of at most `max_attempts` rounds; with none, it is unstable at once.
    pub fn new(max_attempts: u32) -> (r: (StabilityCheck, StabilityAction))
        ensures
            r.0.wf(),
            r.0.attempt == 0,
            r.0.max_attempts == max_attempts,
            max_attempts > 0 ==> r.0.phase == StabilityPhase::NeedBefore && r.1 == StabilityAction::TakeSnapshot,
            max_attempts == 0 ==> r.0.phase == StabilityPhase::Unstable && r.1 == StabilityAction::Skip,
    {
        if max_attempts > 0 {
            (StabilityCheck { attempt: 0, max_attempts, phase: StabilityPhase::NeedBefore, before: Vec::new() }, StabilityAction::TakeSnapshot)
        } else {
            (StabilityCheck { attempt: 0, max_attempts, phase: StabilityPhase::Unstable, before: Vec::new() }, StabilityAction::Skip)
        }
    }

    /// Takes the snapshot that was asked for and says what to do next.
    ///
    /// An empty first snapshot is stable at once. Otherwise the round is stable
    /// exactly when [`snapshots_stable`] holds of its two snapshots; an unstable
    /// round starts another, until the bound is reached.
    pub fn step(&mut self, snapshot: Vec<(String, u64)>) -> (action: StabilityAction)
        requires
            old(self).wf(),
        ensures
            final(self).wf(),
            final(self).max_attempts == old(self).max_attempts,
            stability_step(*old(self), snapshot@, *final(self), action),
    {
        match self.phase {
            StabilityPhase::NeedBefore => {
                if snapshot.len() == 0 {
                    self.phase = StabilityPhase::Stable;
                    StabilityAction::Clean
                } else {
                    self.before = snapshot;
                    self.phase = StabilityPhase::NeedAfter;
                    StabilityAction::WaitThenSnapshot
                }
            },
            StabilityPhase::NeedAfter => {
                if sizes_stable(&self.before, &snapshot) {
                    self.phase = StabilityPhase::Stable;
                    StabilityAction::Clean
                } else if self.attempt + 1 < self.max_attempts {
                    self.attempt = self.attempt + 1;
                    self.phase = StabilityPhase::NeedBefore;
                    StabilityAction::TakeSnapshot
                } else {
                    self.phase = StabilityPhase::Unstable;
                    StabilityAction::Skip
                }
            },
            StabilityPhase::Stable => StabilityAction::Clean,
            StabilityPhase::Unstable => StabilityAction::Skip,
        }
    }
}

} // verus!
