use vstd::prelude::*;
use crate::config::Config;
use crate::mover::MoveResult;
use crate::paths::{join_path, join_spec};
use crate::pattern::pattern_matches;
use crate::rules::{first_match_at, lemma_first_match_unique, selected_rule, RuleSet};

verus! {

/// An item that was moved (or, in a dry run, would have been moved).
#[derive(Debug, Clone)]
pub struct MovedItem {
    pub source: String,
    pub destination: String,
    pub dry_run: bool,
}

/// An item that no rule matched.
#[derive(Debug, Clone)]
pub struct SkippedItem {
    pub path: String,
    pub reason: String,
}

/// What one pass over the inbox did.
#[derive(Debug)]
pub struct CleanReport {
    pub moved: Vec<MovedItem>,
    pub skipped: Vec<SkippedItem>,
    pub errors: Vec<String>,
    pub inbox_empty: bool,
    pub inbox_not_found: bool,
}

/// One relocation to perform: `source` goes into `dest_dir`, keeping its name, as `destination`.
#[derive(Debug, Clone)]
pub struct MoveJob {
    pub source: String,
    pub dest_dir: String,
    pub destination: String,
}

/// What becomes of one inbox entry.
#[derive(Debug, Clone)]
pub enum PlannedEntry {
    Move(MoveJob),
    Skip(SkippedItem),
}

/// The plan of one pass: the report so far (flags, rule errors, skipped entries)
/// and the entries in listing order.
#[derive(Debug)]
pub struct CleanPlan {
    pub report: CleanReport,
    pub entries: Vec<PlannedEntry>,
    pub dry_run: bool,
}

/// The mathematical form of a planned entry.
pub enum EntryPlan {
    Move { source: Seq<char>, dest_dir: Seq<char>, destination: Seq<char> },
    Skip { path: Seq<char> },
}

impl View for MoveJob {
    type V = EntryPlan;

    open spec fn view(&self) -> EntryPlan {
        EntryPlan::Move { source: self.source@, dest_dir: self.dest_dir@, destination: self.destination@ }
    }
}

impl View for PlannedEntry {
    type V = EntryPlan;

    open spec fn view(&self) -> EntryPlan {
        match self {
            PlannedEntry::Move(job) => job@,
            PlannedEntry::Skip(item) => EntryPlan::Skip { path: item.path@ },
        }
    }
}

/// The reason given for an entry that no rule matches.
pub open spec fn no_rule_reason() -> Seq<char> {
    "no matching rule"@
}

/// The message recorded when moving `source` failed with `error`.
pub open spec fn move_failure_message(source: Seq<char>, error: Seq<char>) -> Seq<char> {
    "Failed to move "@ + source + ": "@ + error
}

/// The plan for entry `name` of `inbox`, given which rule (if any) was selected for it.
pub open spec fn plan_with(
    config: Config,
    rules: Seq<(Seq<char>, Seq<char>)>,
    inbox: Seq<char>,
    name: Seq<char>,
    selected: Option<int>,
) -> EntryPlan {
    let source = join_spec(inbox, name);
    match selected {
        Some(k) => {
            let dir = config.resolve_spec(rules[k].1);
            EntryPlan::Move { source, dest_dir: dir, destination: join_spec(dir, name) }
        },
        None => EntryPlan::Skip { path: source },
    }
}

/// The plan for entry `name`: it goes to the target of the first matching rule,
/// keeping its name, or is skipped when no rule matches.
pub open spec fn plan_for(
    config: Config,
    rules: Seq<(Seq<char>, Seq<char>)>,
    inbox: Seq<char>,
    name: Seq<char>,
) -> EntryPlan {
    plan_with(config, rules, inbox, name, selected_rule(rules, name))
}

/// The plans of a listing, in order; entries whose name is not text are left out.
pub open spec fn plans_spec(
    config: Config,
    rules: Seq<(Seq<char>, Seq<char>)>,
    inbox: Seq<char>,
    entries: Seq<Option<String>>,
) -> Seq<EntryPlan>
    decreases entries.len(),
{
    if entries.len() == 0 {
        seq![]
    } else {
        let prev = plans_spec(config, rules, inbox, entries.drop_last());
        match entries.last() {
            Some(name) => prev.push(plan_for(config, rules, inbox, name@)),
            None => prev,
        }
    }
}

/// The paths of the skipped entries among `plans`, in order.
pub open spec fn skipped_paths(plans: Seq<EntryPlan>) -> Seq<Seq<char>>
    decreases plans.len(),
{
    if plans.len() == 0 {
        seq![]
    } else {
        let prev = skipped_paths(plans.drop_last());
        match plans.last() {
            EntryPlan::Skip { path } => prev.push(path),
            EntryPlan::Move { .. } => prev,
        }
    }
}

/// An entry whose first matching rule is `k` is planned to move from the inbox
/// into the directory that rule `k`'s target resolves to, under its own name;
/// an entry that no rule matches stays where it is and is reported as skipped.
pub proof fn law_first_match_destination(
    config: Config,
    rules: Seq<(Seq<char>, Seq<char>)>,
    inbox: Seq<char>,
    name: Seq<char>,
    k: int,
)
    ensures
        first_match_at(rules, name, k) ==> plan_for(config, rules, inbox, name) == (EntryPlan::Move {
            source: join_spec(inbox, name),
            dest_dir: config.resolve_spec(rules[k].1),
            destination: join_spec(config.resolve_spec(rules[k].1), name),
        }),
        (forall|j: int| 0 <= j < rules.len() ==> !pattern_matches(#[trigger] rules[j].0, name))
            ==> plan_for(config, rules, inbox, name) == (EntryPlan::Skip { path: join_spec(inbox, name) }),
{
    if first_match_at(rules, name, k) {
        let c = choose|c: int| first_match_at(rules, name, c);
        lemma_first_match_unique(rules, name, k, c);
    }
}

impl CleanReport {
    /// An empty report.
    pub fn new() -> (r: Self)
        ensures
            r.moved@.len() == 0,
            r.skipped@.len() == 0,
            r.errors@.len() == 0,
            !r.inbox_empty,
            !r.inbox_not_found,
    {
        CleanReport {
            moved: Vec::new(),
            skipped: Vec::new(),
            errors: Vec::new(),
            inbox_empty: false,
            inbox_not_found: false,
        }
    }

    /// Records the outcome of one planned move: a success adds a moved item, a
    /// failure adds an error message; nothing else changes.
    pub fn record_move(&mut self, job: &MoveJob, outcome: &Result<MoveResult, String>, dry_run: bool)
        ensures
            final(self).skipped@ == old(self).skipped@,
            final(self).inbox_empty == old(self).inbox_empty,
            final(self).inbox_not_found == old(self).inbox_not_found,
            match outcome {
                Ok(_) => {
                    &&& final(self).errors@ == old(self).errors@
                    &&& final(self).moved@.len() == old(self).moved@.len() + 1
                    &&& final(self).moved@.take(old(self).moved@.len() as int) == old(self).moved@
                    &&& final(self).moved@.last().source@ == job.source@
                    &&& final(self).moved@.last().destination@ == job.destination@
                    &&& final(self).moved@.last().dry_run == dry_run
                },
                Err(e) => {
                    &&& final(self).moved@ == old(self).moved@
                    &&& final(self).errors@.len() == old(self).errors@.len() + 1
                    &&& final(self).errors@.take(old(self).errors@.len() as int) == old(self).errors@
                    &&& final(self).errors@.last()@ == move_failure_message(job.source@, e@)
                },
            },
    {
        match outcome {
            Ok(_) => {
                let item = MovedItem {
                    source: job.source.clone(),
                    destination: job.destination.clone(),
                    dry_run,
                };
                self.moved.push(item);
                proof {
                    assert(self.moved@.take(old(self).moved@.len() as int) =~= old(self).moved@);
                }
            },
            Err(e) => {
                let mut msg = String::from_str("Failed to move ");
                msg.append(job.source.as_str());
                msg.append(": ");
                msg.append(e.as_str());
                self.errors.push(msg);
                proof {
                    assert(self.errors@.take(old(self).errors@.len() as int) =~= old(self).errors@);
                }
            },
        }
    }
}

/// The plan for entry `name` of `inbox`, once the rule for it has been selected
/// (`selected` is what [`RuleSet::select`] returned for the name).
pub fn plan_entry(config: &Config, rules: &RuleSet, inbox: &str, name: &str, selected: Option<usize>) -> (r: PlannedEntry)
    requires
        selected matches Some(k) ==> k < rules.active@.len(),
    ensures
        r@ == plan_with(*config, rules.rules_view(), inbox@, name@, match selected {
            Some(k) => Some(k as int),
            None => None,
        }),
        r is Skip ==> r->Skip_0.reason@ == no_rule_reason(),
{
    let source = join_path(inbox, name);
    match selected {
        Some(k) => {
            let dest_dir = config.resolve_path(rules.active[k].target.as_str());
            let destination = join_path(dest_dir.as_str(), name);
            PlannedEntry::Move(MoveJob { source, dest_dir, destination })
        },
        None => PlannedEntry::Skip(SkippedItem { path: source, reason: String::from_str("no matching rule") }),
    }
}

/// Plans one pass over the inbox.
///
/// `listing` is `None` when the inbox does not exist, else its immediate entries
/// in listing order, each `None` where the entry's name is not text.
/// Entries whose name is not text are ignored; every other entry is planned by
/// [`plan_for`]. The report starts with the rule errors, the skipped entries
/// and the two flags; moves are recorded into it as they are carried out.
pub fn clean_inbox(config: &Config, rules: &RuleSet, listing: &Option<Vec<Option<String>>>, dry_run: bool) -> (r: CleanPlan)
    ensures
        r.dry_run == dry_run,
        r.report.moved@.len() == 0,
        r.report.inbox_not_found == listing is None,
        r.report.inbox_empty == (listing matches Some(es) && es@.len() == 0),
        (listing is None || r.report.inbox_empty) ==> {
            &&& r.entries@.len() == 0
            &&& r.report.skipped@.len() == 0
            &&& r.report.errors@.len() == 0
        },
        match listing {
            Some(es) => es@.len() > 0 ==> {
                let plans = plans_spec(*config, rules.rules_view(), config.resolve_spec("inbox"@), es@);
                &&& r.report.errors@ == rules.errors@
                &&& r.entries@.map_values(|e: PlannedEntry| e@) == plans
                &&& r.report.skipped@.map_values(|s: SkippedItem| s.path@) == skipped_paths(plans)
                &&& forall|i: int| 0 <= i < r.report.skipped@.len()
                    ==> (#[trigger] r.report.skipped@[i]).reason@ == no_rule_reason()
            },
            None => true,
        },
{
    let mut report = CleanReport::new();
    let mut entries: Vec<PlannedEntry> = Vec::new();
    match listing {
        None => {
            report.inbox_not_found = true;
            CleanPlan { report, entries, dry_run }
        },
        Some(es) => {
            if es.len() == 0 {
                report.inbox_empty = true;
                return CleanPlan { report, entries, dry_run };
            }
            proof {
                reveal_strlit("inbox");
            }
            let inbox = config.resolve_path("inbox");
            let ghost rv = rules.rules_view();
            report.errors = rules.errors.clone();
            let mut i: usize = 0;
            while i < es.len()
                invariant
                    i <= es@.len(),
                    rv == rules.rules_view(),
                    inbox@ == config.resolve_spec("inbox"@),
                    report.errors@ == rules.errors@,
                    report.moved@.len() == 0,
                    !report.inbox_empty,
                    !report.inbox_not_found,
                    entries@.map_values(|e: PlannedEntry| e@) == plans_spec(*config, rv, inbox@, es@.take(i as int)),
                    report.skipped@.map_values(|s: SkippedItem| s.path@)
                        == skipped_paths(plans_spec(*config, rv, inbox@, es@.take(i as int))),
                    forall|j: int| 0 <= j < report.skipped@.len()
                        ==> (#[trigger] report.skipped@[j]).reason@ == no_rule_reason(),
                decreases es@.len() - i,
            {
                let ghost prev = plans_spec(*config, rv, inbox@, es@.take(i as int));
                proof {
                    assert(es@.take(i as int + 1).drop_last() =~= es@.take(i as int));
                    assert(es@.take(i as int + 1).last() == es@[i as int]);
                }
                match &es[i] {
                    None => {},
                    Some(name) => {
                        let selected = rules.select(name.as_str());
                        let planned = plan_entry(config, rules, inbox.as_str(), name.as_str(), selected);
                        let ghost plans = prev.push(planned@);
                        proof {
                            assert(plans == plans_spec(*config, rv, inbox@, es@.take(i as int + 1)));
                            assert(plans.drop_last() =~= prev);
                            assert(entries@.push(planned).map_values(|e: PlannedEntry| e@)
                                =~= entries@.map_values(|e: PlannedEntry| e@).push(planned@));
                        }
                        match &planned {
                            PlannedEntry::Skip(item) => {
                                let ghost old_skipped = report.skipped@;
                                report.skipped.push(item.clone_item());
                                proof {
                                    assert(report.skipped@.map_values(|s: SkippedItem| s.path@)
                                        =~= old_skipped.map_values(|s: SkippedItem| s.path@).push(item.path@));
                                }
                            },
                            PlannedEntry::Move(_) => {},
                        }
                        entries.push(planned);
                    },
                }
                i += 1;
            }
            proof {
                assert(es@.take(es@.len() as int) =~= es@);
            }
            CleanPlan { report, entries, dry_run }
        },
    }
}

impl SkippedItem {
    /// A copy of this item.
    pub fn clone_item(&self) -> (r: SkippedItem)
        ensures
            r.path@ == self.path@,
            r.reason@ == self.reason@,
    {
        SkippedItem { path: self.path.clone(), reason: self.reason.clone() }
    }
}

} // verus!
