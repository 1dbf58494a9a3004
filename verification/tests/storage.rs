use job_agent::storage::{
    require_parent, backup_file_name, default_db_path, quick_check_passed, reset_outcome, schema_statements,
    DatabaseInit, DatabaseInitReport, InitAction, StorageError,
};

#[test]
fn default_path() {
    assert_eq!(default_db_path(), "data/job_agent.db");
}

#[test]
fn fresh_database_is_created_without_checks() {
    let mut init = DatabaseInit::new("data/job_agent.db".to_string(), false);
    assert_eq!(init.next_action(), InitAction::ApplySchema);
    init.record_health(false);
    init.record_backup("ignored".to_string());
    assert_eq!(init.next_action(), InitAction::ApplySchema);
    init.record_schema_applied();
    assert_eq!(init.next_action(), InitAction::Finish);
    let report = init.report().unwrap();
    assert_eq!(report.db_path, "data/job_agent.db");
    assert!(report.created_or_rebuilt);
    assert!(!report.recovered_from_corruption);
    assert!(report.backup_path.is_none());
}

#[test]
fn healthy_existing_database_is_kept() {
    let mut init = DatabaseInit::new("x.db".to_string(), true);
    assert_eq!(init.next_action(), InitAction::CheckHealth);
    init.record_health(true);
    assert_eq!(init.next_action(), InitAction::ApplySchema);
    init.record_schema_applied();
    let report = init.report().unwrap();
    assert!(!report.created_or_rebuilt);
    assert!(!report.recovered_from_corruption);
    assert!(report.backup_path.is_none());
}

#[test]
fn corrupted_database_is_set_aside_and_rebuilt() {
    let mut init = DatabaseInit::new("x.db".to_string(), true);
    init.record_health(false);
    assert_eq!(init.next_action(), InitAction::BackUpCorrupted);
    init.record_schema_applied();
    assert_eq!(init.next_action(), InitAction::BackUpCorrupted);
    init.record_backup("x.db.corrupt.1".to_string());
    assert_eq!(init.next_action(), InitAction::ApplySchema);
    init.record_schema_applied();
    let report = init.report().unwrap();
    assert!(report.created_or_rebuilt);
    assert!(report.recovered_from_corruption);
    assert_eq!(report.backup_path.as_deref(), Some("x.db.corrupt.1"));
}

#[test]
fn report_is_withheld_until_finished() {
    let init = DatabaseInit::new("x.db".to_string(), true);
    assert!(init.report().is_none());
}

fn report(created: bool) -> DatabaseInitReport {
    DatabaseInitReport {
        db_path: "d.db".to_string(),
        created_or_rebuilt: created,
        recovered_from_corruption: false,
        backup_path: None,
    }
}

#[test]
fn reset_outcomes() {
    assert_eq!(reset_outcome("d.db".to_string(), None, report(true)).unwrap(), "d.db");
    match reset_outcome("d.db".to_string(), Some("d.db.reset.5".to_string()), report(false)) {
        Err(StorageError::RecoveryFailed { backup_path }) => assert_eq!(backup_path, "d.db.reset.5"),
        other => panic!("unexpected {:?}", other),
    }
    match reset_outcome("d.db".to_string(), None, report(false)) {
        Err(StorageError::RecoveryFailed { backup_path }) => assert_eq!(backup_path, "d.db"),
        other => panic!("unexpected {:?}", other),
    }
}

#[test]
fn integrity_answer() {
    assert!(quick_check_passed("ok"));
    assert!(quick_check_passed("OK"));
    assert!(!quick_check_passed("*** in database main ***"));
    assert!(!quick_check_passed("ok "));
}

#[test]
fn backup_names() {
    assert_eq!(backup_file_name("job_agent.db", "corrupt", 1725029869), "job_agent.db.corrupt.1725029869");
    assert_eq!(backup_file_name("a", "reset", 0), "a.reset.0");
}

#[test]
fn schema_script_is_cut_into_statements() {
    let sql = "CREATE TABLE task (id INTEGER);\n\n  CREATE TABLE application (id INTEGER) ;\n ; \nPRAGMA x";
    let st = schema_statements(sql);
    assert_eq!(
        st,
        vec![
            "CREATE TABLE task (id INTEGER)".to_string(),
            "CREATE TABLE application (id INTEGER)".to_string(),
            "PRAGMA x".to_string(),
        ]
    );
    assert!(schema_statements("").is_empty());
    assert!(schema_statements(" ;; \n;").is_empty());
}

#[test]
fn schema_statements_match_split_and_trim() {
    let sql = "a;b ;; c\n;\td ";
    let expected: Vec<String> = sql
        .split(';')
        .map(|s| s.trim().to_string())
        .filter(|s| !s.is_empty())
        .collect();
    assert_eq!(schema_statements(sql), expected);
}

#[test]
fn missing_parent_is_an_invalid_path() {
    assert_eq!(require_parent("a/b.db", Some("a")).unwrap(), "a");
    match require_parent::<&str>("/", None) {
        Err(StorageError::InvalidPath(p)) => assert_eq!(p, "/"),
        other => panic!("unexpected {:?}", other),
    }
}

#[test]
fn second_start_up_on_untouched_file_changes_nothing() {
    let mut first = DatabaseInit::new("data/job_agent.db".to_string(), false);
    first.record_schema_applied();
    let first = first.report().unwrap();
    assert!(first.created_or_rebuilt);
    let mut second = DatabaseInit::new(first.db_path, true);
    assert_eq!(second.next_action(), InitAction::CheckHealth);
    second.record_health(true);
    second.record_backup("data/job_agent.db.corrupt".to_string());
    assert_eq!(second.next_action(), InitAction::ApplySchema);
    second.record_schema_applied();
    assert_eq!(second.next_action(), InitAction::Finish);
    let report = second.report().unwrap();
    assert_eq!(report.db_path, "data/job_agent.db");
    assert!(!report.created_or_rebuilt);
    assert!(!report.recovered_from_corruption);
    assert!(report.backup_path.is_none());
}
