use polycrystal::codec::encode_state;
use polycrystal::diff::{compute_diff, next_state};
use polycrystal::entry::FlatpakDefinition;
use polycrystal::error::ReconcileError;
use polycrystal::run::{Action, OpOutcome, Reconciliation, RejectKind, Stage};
use polycrystal::set::EntrySet;
use polycrystal::source::{aggregate, recorded_from, EntryFile};

fn app_a() -> FlatpakDefinition {
    FlatpakDefinition::new("flathub", "org.app.A", "stable")
}

fn app_b() -> FlatpakDefinition {
    FlatpakDefinition::new("flathub", "org.app.B", "stable")
}

fn set_of(es: Vec<FlatpakDefinition>) -> EntrySet {
    EntrySet::from_entries(&es)
}

fn ids(s: &EntrySet) -> Vec<String> {
    let mut v: Vec<String> = s.entries().iter().map(|e| e.id.clone()).collect();
    v.sort();
    v
}

fn file(name: &str, entries: Vec<FlatpakDefinition>) -> EntryFile {
    EntryFile { name: name.to_string(), entries: Ok(entries) }
}

fn state_text(s: &EntrySet) -> String {
    encode_state(s)
}

fn parse_state(text: &str) -> Result<Vec<FlatpakDefinition>, String> {
    let v: serde_json::Value = serde_json::from_str(text).map_err(|e| e.to_string())?;
    let arr = v.as_array().ok_or_else(|| "not a list".to_string())?;
    let mut out = Vec::new();
    for o in arr {
        let field = |k: &str| o.get(k).and_then(|x| x.as_str()).map(|x| x.to_string());
        match (field("remote"), field("id"), field("branch")) {
            (Some(r), Some(i), Some(b)) => out.push(FlatpakDefinition::new(&r, &i, &b)),
            _ => return Err("missing field".to_string()),
        }
    }
    Ok(out)
}

#[test]
fn equality_is_by_all_three_fields() {
    assert!(app_a().same_as(&app_a()));
    assert!(!app_a().same_as(&FlatpakDefinition::new("flathub", "org.app.A", "beta")));
    assert!(!app_a().same_as(&FlatpakDefinition::new("other", "org.app.A", "stable")));
    assert_eq!(app_a(), app_a().duplicate());
}

#[test]
fn duplicates_collapse() {
    let s = set_of(vec![app_a(), app_b(), app_a()]);
    assert_eq!(s.len(), 2);
    assert!(s.contains(&app_a()));
    assert!(s.contains(&app_b()));
    assert!(EntrySet::new().is_empty());
}

#[test]
fn aggregate_merges_files() {
    let files = vec![file("one", vec![app_a()]), file("two", vec![app_a(), app_b()]), file("three", vec![])];
    let s = aggregate(&files).unwrap();
    assert_eq!(ids(&s), vec!["org.app.A", "org.app.B"]);
    assert!(aggregate(&[]).unwrap().is_empty());
}

#[test]
fn aggregate_fails_on_malformed_file() {
    let files = vec![
        file("one", vec![app_a()]),
        EntryFile { name: "bad".to_string(), entries: Err("expected value".to_string()) },
        EntryFile { name: "worse".to_string(), entries: Err("eof".to_string()) },
    ];
    let e = aggregate(&files).unwrap_err();
    assert_eq!(
        e,
        ReconcileError::Parse { source_name: "bad".to_string(), message: "expected value".to_string() }
    );
}

#[test]
fn diff_is_correct() {
    let c = FlatpakDefinition::new("flathub", "org.app.C", "stable");
    let desired = set_of(vec![app_a(), app_b()]);
    let recorded = set_of(vec![app_b(), c.duplicate()]);
    let d = compute_diff(&desired, &recorded);
    assert_eq!(ids(&d.to_install), vec!["org.app.A"]);
    assert_eq!(ids(&d.to_remove), vec!["org.app.C"]);
    assert!(!d.to_install.contains(&app_b()));
    assert!(!d.to_remove.contains(&app_a()));
    let after = next_state(&recorded, &d);
    assert_eq!(ids(&after), vec!["org.app.A", "org.app.B"]);
    assert!(compute_diff(&desired, &after).is_empty());
}

#[test]
fn equal_sets_need_no_transaction() {
    let desired = set_of(vec![app_a(), app_b()]);
    let recorded = set_of(vec![app_b(), app_a()]);
    let run = Reconciliation::start(&desired, &recorded);
    assert_eq!(run.stage(), Stage::Finished);
    assert!(matches!(run.action(), Action::Done));
    let empty = Reconciliation::start(&EntrySet::new(), &EntrySet::new());
    assert!(matches!(empty.action(), Action::Done));
}

#[test]
fn missing_or_empty_state_is_empty_set() {
    let s = recorded_from("state", "", Err("EOF while parsing".to_string())).unwrap();
    assert!(s.is_empty());
}

#[test]
fn malformed_state_is_parse_error() {
    let e = recorded_from("state", "{not json", Err("key must be a string".to_string())).unwrap_err();
    assert_eq!(
        e,
        ReconcileError::Parse { source_name: "state".to_string(), message: "key must be a string".to_string() }
    );
    assert!(e.describe().starts_with("cannot parse state"));
}

#[test]
fn state_round_trip() {
    for s in [EntrySet::new(), set_of(vec![app_a()]), set_of(vec![app_a(), app_b()])] {
        let text = state_text(&s);
        let back = recorded_from("state", &text, parse_state(&text)).unwrap();
        assert_eq!(ids(&back), ids(&s));
        assert_eq!(back.len(), s.len());
    }
}

#[test]
fn state_text_is_exact() {
    assert_eq!(state_text(&EntrySet::new()), "[]");
    assert_eq!(
        state_text(&set_of(vec![app_a(), app_b()])),
        "[{\"id\":\"org.app.A\",\"remote\":\"flathub\",\"branch\":\"stable\"},\
         {\"id\":\"org.app.B\",\"remote\":\"flathub\",\"branch\":\"stable\"}]"
    );
}

#[test]
fn state_text_escapes_strings() {
    let odd = FlatpakDefinition::new("a\"b", "x\\y", "line\nbreak");
    let text = state_text(&set_of(vec![odd]));
    assert_eq!(text, "[{\"id\":\"x\\\\y\",\"remote\":\"a\\\"b\",\"branch\":\"line\\nbreak\"}]");
    let back = parse_state(&text).unwrap();
    assert!(back[0].same_as(&FlatpakDefinition::new("a\"b", "x\\y", "line\nbreak")));
}

#[test]
fn first_run_installs_then_second_run_is_noop() {
    let files = vec![file("a.json", vec![app_a()])];
    let desired = aggregate(&files).unwrap();
    let recorded = recorded_from("state", "", Err("EOF".to_string())).unwrap();
    let mut run = Reconciliation::start(&desired, &recorded);
    assert_eq!(ids(run.to_install()), vec!["org.app.A"]);
    assert!(run.to_remove().is_empty());
    assert!(matches!(run.action(), Action::OpenTransaction));
    run.on_opened(Ok(()));
    match run.action() {
        Action::AddInstall(e) => assert!(e.same_as(&app_a())),
        a => panic!("unexpected {:?}", a),
    }
    run.on_added(OpOutcome::Added);
    assert!(matches!(run.action(), Action::Execute));
    run.on_executed(Ok(()));
    assert!(matches!(run.action(), Action::Commit));
    let text = state_text(run.new_state());
    assert_eq!(text, "[{\"id\":\"org.app.A\",\"remote\":\"flathub\",\"branch\":\"stable\"}]");
    run.on_committed(Ok(()));
    assert!(matches!(run.action(), Action::Done));

    let desired2 = aggregate(&files).unwrap();
    let recorded2 = recorded_from("state", &text, parse_state(&text)).unwrap();
    let run2 = Reconciliation::start(&desired2, &recorded2);
    assert!(run2.to_install().is_empty());
    assert!(run2.to_remove().is_empty());
    assert!(matches!(run2.action(), Action::Done));
    assert_eq!(state_text(run2.new_state()), text);
}

#[test]
fn emptied_entries_remove_recorded_package() {
    let text = state_text(&set_of(vec![app_b()]));
    let recorded = recorded_from("state", &text, parse_state(&text)).unwrap();
    let desired = aggregate(&[]).unwrap();
    let mut run = Reconciliation::start(&desired, &recorded);
    assert!(run.to_install().is_empty());
    assert_eq!(ids(run.to_remove()), vec!["org.app.B"]);
    run.on_opened(Ok(()));
    match run.action() {
        Action::AddUninstall(e) => assert!(e.same_as(&app_b())),
        a => panic!("unexpected {:?}", a),
    }
    run.on_added(OpOutcome::Added);
    assert!(matches!(run.action(), Action::Execute));
    run.on_executed(Ok(()));
    assert!(matches!(run.action(), Action::Commit));
    assert_eq!(state_text(run.new_state()), "[]");
}

#[test]
fn already_installed_counts_as_done() {
    let desired = set_of(vec![app_a()]);
    let mut run = Reconciliation::start(&desired, &EntrySet::new());
    run.on_opened(Ok(()));
    run.on_added(OpOutcome::Rejected(RejectKind::AlreadyInstalled, "already installed".to_string()));
    assert!(!run.queued());
    assert!(matches!(run.action(), Action::Commit));
    assert!(run.new_state().contains(&app_a()));
    run.on_committed(Ok(()));
    assert_eq!(run.stage(), Stage::Finished);
}

#[test]
fn not_installed_removal_counts_as_done() {
    let mut run = Reconciliation::start(&set_of(vec![app_a()]), &set_of(vec![app_b()]));
    run.on_opened(Ok(()));
    run.on_added(OpOutcome::Added);
    match run.action() {
        Action::AddUninstall(e) => assert!(e.same_as(&app_b())),
        a => panic!("unexpected {:?}", a),
    }
    run.on_added(OpOutcome::Rejected(RejectKind::NotInstalled, "not installed".to_string()));
    assert!(run.queued());
    assert!(matches!(run.action(), Action::Execute));
    run.on_executed(Ok(()));
    assert_eq!(ids(run.new_state()), vec!["org.app.A"]);
}

#[test]
fn refusal_of_the_wrong_kind_aborts() {
    let mut run = Reconciliation::start(&EntrySet::new(), &set_of(vec![app_b()]));
    run.on_opened(Ok(()));
    run.on_added(OpOutcome::Rejected(RejectKind::AlreadyInstalled, "odd".to_string()));
    assert_eq!(run.stage(), Stage::Aborted);
    match run.action() {
        Action::Fail(e) => assert_eq!(e, ReconcileError::Transaction("odd".to_string())),
        a => panic!("unexpected {:?}", a),
    }
    let mut run = Reconciliation::start(&set_of(vec![app_a()]), &EntrySet::new());
    run.on_opened(Ok(()));
    run.on_added(OpOutcome::Rejected(RejectKind::Other, "no remote".to_string()));
    assert!(matches!(run.action(), Action::Fail(ReconcileError::Transaction(_))));
    run.on_committed(Ok(()));
    assert_eq!(run.stage(), Stage::Aborted);
}

#[test]
fn failures_of_open_execute_and_commit() {
    let mut run = Reconciliation::start(&set_of(vec![app_a()]), &EntrySet::new());
    run.on_opened(Err("no installation".to_string()));
    assert!(matches!(run.action(), Action::Fail(ReconcileError::Transaction(_))));

    let mut run = Reconciliation::start(&set_of(vec![app_a()]), &EntrySet::new());
    run.on_opened(Ok(()));
    run.on_added(OpOutcome::Added);
    run.on_executed(Err("download failed".to_string()));
    match run.action() {
        Action::Fail(e) => assert_eq!(e, ReconcileError::Transaction("download failed".to_string())),
        a => panic!("unexpected {:?}", a),
    }

    let mut run = Reconciliation::start(&set_of(vec![app_a()]), &EntrySet::new());
    run.on_opened(Ok(()));
    run.on_added(OpOutcome::Added);
    run.on_executed(Ok(()));
    run.on_committed(Err("disk full".to_string()));
    match run.action() {
        Action::Fail(e) => {
            assert_eq!(e, ReconcileError::Commit("disk full".to_string()));
            assert_eq!(e.describe(), "cannot write the state file: disk full");
        }
        a => panic!("unexpected {:?}", a),
    }
}

#[test]
fn installs_are_queued_before_removals() {
    let c = FlatpakDefinition::new("flathub", "org.app.C", "stable");
    let mut run = Reconciliation::start(&set_of(vec![app_a(), c.duplicate()]), &set_of(vec![app_b()]));
    run.on_opened(Ok(()));
    let mut seen = Vec::new();
    loop {
        match run.action() {
            Action::AddInstall(e) => seen.push(format!("+{}", e.id)),
            Action::AddUninstall(e) => seen.push(format!("-{}", e.id)),
            _ => break,
        }
        run.on_added(OpOutcome::Added);
    }
    assert_eq!(seen, vec!["+org.app.A", "+org.app.C", "-org.app.B"]);
    assert!(matches!(run.action(), Action::Execute));
}

#[test]
fn error_descriptions() {
    assert_eq!(
        ReconcileError::Config("denied".to_string()).describe(),
        "cannot list the entries directory: denied"
    );
    assert_eq!(ReconcileError::Lock("busy".to_string()).describe(), "cannot lock the state file: busy");
    assert_eq!(
        ReconcileError::Parse { source_name: "f".to_string(), message: "m".to_string() }.describe(),
        "cannot parse f: m"
    );
}

#[test]
fn state_text_keeps_plain_unicode() {
    let e = FlatpakDefinition::new("dépôt", "org.app.Ä", "stable");
    assert_eq!(
        state_text(&set_of(vec![e])),
        "[{\"id\":\"org.app.Ä\",\"remote\":\"dépôt\",\"branch\":\"stable\"}]"
    );
}
