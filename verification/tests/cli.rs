use job_agent::cli::{parse_arg_value, parse_daemon_args, parse_service_cli_args, ServiceCliCommand};

fn args(v: &[&str]) -> Vec<String> {
    v.iter().map(|s| s.to_string()).collect()
}

#[test]
fn arg_value_follows_first_key() {
    let a = args(&["tool", "get", "--provider", "openai", "--provider", "other"]);
    assert_eq!(parse_arg_value(&a, "--provider"), Some("openai".to_string()));
    assert_eq!(parse_arg_value(&a, "--db-path"), None);
    let b = args(&["tool", "--provider"]);
    assert_eq!(parse_arg_value(&b, "--provider"), None);
}

#[test]
fn daemon_arguments() {
    let o = parse_daemon_args(&args(&[]));
    assert_eq!(o.db_path, "data/job_agent.db");
    assert!(!o.force_reset);
    let o = parse_daemon_args(&args(&["--db-path=a.db", "--force-reset", "--db-path=b.db", "junk"]));
    assert_eq!(o.db_path, "b.db");
    assert!(o.force_reset);
    let o = parse_daemon_args(&args(&["--db-path="]));
    assert_eq!(o.db_path, "");
}

#[test]
fn service_tool_arguments() {
    match parse_service_cli_args(&args(&["service_cli", "get", "--provider", "SiliconFlow"])) {
        ServiceCliCommand::Get { provider, db_path } => {
            assert_eq!(provider, "SiliconFlow");
            assert_eq!(db_path, "data/job_agent.db");
        }
        other => panic!("unexpected {:?}", other),
    }
    match parse_service_cli_args(&args(&["service_cli", "get", "--db-path", "x.db", "--provider", "p"])) {
        ServiceCliCommand::Get { provider, db_path } => {
            assert_eq!(provider, "p");
            assert_eq!(db_path, "x.db");
        }
        other => panic!("unexpected {:?}", other),
    }
    assert!(matches!(
        parse_service_cli_args(&args(&["service_cli", "get"])),
        ServiceCliCommand::MissingProvider
    ));
    assert!(matches!(parse_service_cli_args(&args(&["service_cli"])), ServiceCliCommand::Usage));
    assert!(matches!(parse_service_cli_args(&args(&["service_cli", "list"])), ServiceCliCommand::Usage));
}
