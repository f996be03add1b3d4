use wardex::cleaner::{clean_inbox, CleanReport, PlannedEntry};
use wardex::config::{CleanRule, Config, CtfConfig, Organize, Paths, Rules};
use wardex::mover::{MoveAction, MoveEvent, MoveExecutor, MovePhase, RenameOutcome};
use wardex::rules::RuleSet;
use wardex::undo::{get_log_path, plan_revert, plan_undo, undo_last, OpType, Operation, RevertDecision, UndoReport};

fn config() -> Config {
    Config {
        paths: Paths {
            workspace: "/ws".to_string(),
            inbox: None,
            projects: None,
            areas: None,
            resources: Some("/ws/resources".to_string()),
            archives: None,
            ctf_root: None,
            custom: Vec::new(),
        },
        rules: Rules { clean: vec![CleanRule { pattern: r"\.pdf$".to_string(), target: "resources".to_string() }] },
        organize: Organize { ctf_dir: "projects/CTFs".to_string() },
        ctf: CtfConfig { default_categories: Vec::new(), template_file: None },
    }
}

fn lines(items: &[&str]) -> Vec<String> {
    items.iter().map(|s| s.to_string()).collect()
}

#[test]
fn clean_then_undo_restores_the_pdf() {
    let config = config();
    let rules = RuleSet::compile(&config.rules.clean);
    let plan = clean_inbox(&config, &rules, &Some(vec![Some("a.pdf".to_string())]), false);
    let job = match &plan.entries[0] {
        PlannedEntry::Move(j) => j.clone(),
        PlannedEntry::Skip(_) => panic!("a.pdf should move"),
    };
    let mut report: CleanReport = plan.report;
    let mut exec = MoveExecutor::new(job.clone(), false);
    match exec.step(MoveEvent::Begin { dest_dir_exists: true, destination_exists: false }) {
        MoveAction::Rename { from, to } => {
            assert_eq!(from, "/ws/0_Inbox/a.pdf");
            assert_eq!(to, "/ws/resources/a.pdf");
        }
        other => panic!("unexpected {:?}", other),
    }
    let mut journal: Vec<String> = Vec::new();
    match exec.step(MoveEvent::Renamed(RenameOutcome::Renamed)) {
        MoveAction::Finish { outcome, journal: true } => {
            let res = outcome.clone().unwrap();
            assert!(res.success);
            assert!(!res.used_copy_fallback);
            let op = Operation::new_move(&exec.job.source, &exec.job.destination);
            journal.push(format!("{}\t{}", op.src, op.dest));
            report.record_move(&job, &outcome, false);
        }
        other => panic!("unexpected {:?}", other),
    }
    assert_eq!(report.moved.len(), 1);
    assert_eq!(report.moved[0].destination, "/ws/resources/a.pdf");
    assert_eq!(journal.len(), 1);

    let session = undo_last(&Some(journal.clone()), 1);
    let undo = session.plan.unwrap();
    assert!(undo.keep.is_empty());
    assert_eq!(undo.revert, journal);
    let op = Operation::new_move("/ws/0_Inbox/a.pdf", "/ws/resources/a.pdf");
    match plan_revert(&op, true, false) {
        RevertDecision::Restore { from, to } => {
            assert_eq!(from, "/ws/resources/a.pdf");
            assert_eq!(to, "/ws/0_Inbox/a.pdf");
        }
        RevertDecision::Refuse(m) => panic!("refused: {}", m),
    }
}

#[test]
fn dry_run_finishes_without_touching_anything() {
    let config = config();
    let rules = RuleSet::compile(&config.rules.clean);
    let plan = clean_inbox(&config, &rules, &Some(vec![Some("a.pdf".to_string())]), true);
    let job = match &plan.entries[0] {
        PlannedEntry::Move(j) => j.clone(),
        PlannedEntry::Skip(_) => panic!("a.pdf should move"),
    };
    let mut exec = MoveExecutor::new(job, true);
    match exec.step(MoveEvent::Begin { dest_dir_exists: false, destination_exists: false }) {
        MoveAction::Finish { outcome: Ok(res), journal } => {
            assert!(res.success);
            assert!(!res.used_copy_fallback);
            assert!(!journal);
        }
        other => panic!("unexpected {:?}", other),
    }
    assert_eq!(exec.phase, MovePhase::Finished);
}

fn job() -> wardex::cleaner::MoveJob {
    wardex::cleaner::MoveJob {
        source: "/in/dir".to_string(),
        dest_dir: "/mnt/other".to_string(),
        destination: "/mnt/other/dir".to_string(),
    }
}

#[test]
fn missing_destination_directory_is_created_first() {
    let mut exec = MoveExecutor::new(job(), false);
    match exec.step(MoveEvent::Begin { dest_dir_exists: false, destination_exists: false }) {
        MoveAction::CreateDir { path } => assert_eq!(path, "/mnt/other"),
        other => panic!("unexpected {:?}", other),
    }
    match exec.step(MoveEvent::DirCreated(Ok(()))) {
        MoveAction::Rename { from, to } => {
            assert_eq!(from, "/in/dir");
            assert_eq!(to, "/mnt/other/dir");
        }
        other => panic!("unexpected {:?}", other),
    }
}

#[test]
fn cross_device_move_copies_then_removes_and_journals_once() {
    let mut exec = MoveExecutor::new(job(), false);
    exec.step(MoveEvent::Begin { dest_dir_exists: true, destination_exists: false });
    match exec.step(MoveEvent::Renamed(RenameOutcome::CrossDevice)) {
        MoveAction::CopyTree { from, to } => {
            assert_eq!(from, "/in/dir");
            assert_eq!(to, "/mnt/other/dir");
        }
        other => panic!("unexpected {:?}", other),
    }
    match exec.step(MoveEvent::Copied(Ok(()))) {
        MoveAction::RemoveSource { path } => assert_eq!(path, "/in/dir"),
        other => panic!("unexpected {:?}", other),
    }
    match exec.step(MoveEvent::SourceRemoved(Ok(()))) {
        MoveAction::Finish { outcome: Ok(res), journal } => {
            assert!(res.success);
            assert!(res.used_copy_fallback);
            assert!(journal);
        }
        other => panic!("unexpected {:?}", other),
    }
    match exec.step(MoveEvent::SourceRemoved(Ok(()))) {
        MoveAction::Finish { outcome: Err(_), journal } => assert!(!journal),
        other => panic!("unexpected {:?}", other),
    }
}

#[test]
fn failed_copy_keeps_the_source() {
    let mut exec = MoveExecutor::new(job(), false);
    exec.step(MoveEvent::Begin { dest_dir_exists: true, destination_exists: false });
    exec.step(MoveEvent::Renamed(RenameOutcome::CrossDevice));
    match exec.step(MoveEvent::Copied(Err("No space left on device".to_string()))) {
        MoveAction::Finish { outcome: Err(e), journal } => {
            assert_eq!(e, "Failed to copy: No space left on device");
            assert!(!journal);
        }
        other => panic!("unexpected {:?}", other),
    }
}

#[test]
fn move_failures_carry_their_reason() {
    let mut exec = MoveExecutor::new(job(), false);
    exec.step(MoveEvent::Begin { dest_dir_exists: true, destination_exists: false });
    match exec.step(MoveEvent::Renamed(RenameOutcome::Failed("Permission denied".to_string()))) {
        MoveAction::Finish { outcome: Err(e), journal: false } => assert_eq!(e, "Permission denied"),
        other => panic!("unexpected {:?}", other),
    }

    let mut exec = MoveExecutor::new(job(), false);
    exec.step(MoveEvent::Begin { dest_dir_exists: false, destination_exists: false });
    match exec.step(MoveEvent::DirCreated(Err("Read-only file system".to_string()))) {
        MoveAction::Finish { outcome: Err(e), journal: false } => {
            assert_eq!(e, "Failed to create destination directory: Read-only file system")
        }
        other => panic!("unexpected {:?}", other),
    }

    let mut exec = MoveExecutor::new(job(), false);
    exec.step(MoveEvent::Begin { dest_dir_exists: true, destination_exists: false });
    exec.step(MoveEvent::Renamed(RenameOutcome::CrossDevice));
    exec.step(MoveEvent::Copied(Ok(())));
    match exec.step(MoveEvent::SourceRemoved(Err("Busy".to_string()))) {
        MoveAction::Finish { outcome: Err(e), journal: false } => assert_eq!(e, "Failed to remove source after copy: Busy"),
        other => panic!("unexpected {:?}", other),
    }

    let mut exec = MoveExecutor::new(job(), false);
    match exec.step(MoveEvent::Begin { dest_dir_exists: true, destination_exists: true }) {
        MoveAction::Finish { outcome: Err(e), journal: false } => assert_eq!(e, "Destination already exists"),
        other => panic!("unexpected {:?}", other),
    }

    let mut exec = MoveExecutor::new(job(), false);
    match exec.step(MoveEvent::Copied(Ok(()))) {
        MoveAction::Finish { outcome: Err(_), journal: false } => {}
        other => panic!("unexpected {:?}", other),
    }
}

#[test]
fn undo_without_journal_or_with_empty_journal() {
    let none = undo_last(&None, 3);
    assert!(none.report.no_log_found);
    assert!(!none.report.log_empty);
    assert!(none.plan.is_none());
    let empty = undo_last(&Some(Vec::new()), 3);
    assert!(empty.report.log_empty);
    assert!(!empty.report.no_log_found);
    assert!(empty.plan.is_none());
}

#[test]
fn undo_reverts_newest_first_and_keeps_the_rest() {
    let journal = lines(&["one", "two", "three", "four"]);
    let plan = plan_undo(&journal, 2);
    assert_eq!(plan.keep, lines(&["one", "two"]));
    assert_eq!(plan.revert, lines(&["four", "three"]));
    let all = plan_undo(&journal, 10);
    assert!(all.keep.is_empty());
    assert_eq!(all.revert, lines(&["four", "three", "two", "one"]));
    let nothing = plan_undo(&journal, 0);
    assert_eq!(nothing.keep, journal);
    assert!(nothing.revert.is_empty());
}

#[test]
fn journal_length_after_moves_and_undo() {
    let journal = lines(&["m1", "m2", "m3", "m4", "m5"]);
    for k in 0..=5usize {
        let plan = plan_undo(&journal, k);
        assert_eq!(plan.keep.len(), 5 - k);
        assert_eq!(plan.revert.len(), k);
    }
}

#[test]
fn revert_is_refused_when_the_item_is_gone_or_its_place_is_taken() {
    let op = Operation::new_move("/in/a", "/out/a");
    assert_eq!(op.kind, OpType::Move);
    assert!(op.timestamp > 0);
    match plan_revert(&op, false, false) {
        RevertDecision::Refuse(m) => assert_eq!(m, "Source file not found"),
        other => panic!("unexpected {:?}", other),
    }
    match plan_revert(&op, true, true) {
        RevertDecision::Refuse(m) => assert_eq!(m, "Destination already exists"),
        other => panic!("unexpected {:?}", other),
    }
}

#[test]
fn undo_report_records_each_outcome() {
    let op = Operation::new_move("/in/a", "/out/a");
    let mut report = UndoReport::new();
    report.record(&op, Ok(()));
    report.record(&op, Err("Source file not found".to_string()));
    assert_eq!(report.undone.len(), 2);
    assert_eq!(report.undone[0].source, "/out/a");
    assert_eq!(report.undone[0].destination, "/in/a");
    assert!(report.undone[0].success);
    assert_eq!(report.undone[0].error, None);
    assert!(!report.undone[1].success);
    assert_eq!(report.undone[1].error.as_deref(), Some("Source file not found"));
}

#[test]
fn unreadable_lines_are_reported() {
    let mut report = UndoReport::new();
    report.record_unreadable(&"{\"kind\":\"Copy\"}".to_string());
    assert_eq!(report.undone.len(), 1);
    assert_eq!(report.undone[0].source, "{\"kind\":\"Copy\"}");
    assert_eq!(report.undone[0].destination, "");
    assert!(!report.undone[0].success);
    assert_eq!(report.undone[0].error.as_deref(), Some("Unrecognized journal record"));
}

#[test]
fn journal_lives_in_the_workspace() {
    assert_eq!(get_log_path(&config()), "/ws/.undo_log.jsonl");
}
