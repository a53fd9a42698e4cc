use database::ids::Uuid;
use database::spend_backfill::{finish, next_batch, parse_args, reconcile_one, PreparedBackfill};

fn args(words: &[&str]) -> Vec<String> {
    words.iter().map(|word| word.to_string()).collect()
}

#[test]
fn parse_args_defaults() {
    let options = parse_args(&Vec::new()).unwrap().unwrap();
    assert_eq!(options.organization_id, None);
    assert_eq!(options.statement_timeout_secs, 300);
}

#[test]
fn parse_args_accepts_organization_uuid() {
    let organization_id = Uuid::new_v4();
    let options = parse_args(&vec![
        "--organization".to_string(),
        organization_id.to_text(),
    ])
    .unwrap()
    .unwrap();
    assert_eq!(options.organization_id, Some(organization_id));
}

#[test]
fn parse_args_rejects_missing_organization_uuid() {
    let error = parse_args(&args(&["--organization"])).unwrap_err();
    assert!(error.contains("--organization needs a UUID"));
}

#[test]
fn parse_args_rejects_invalid_organization_uuid() {
    let error = parse_args(&args(&["--organization", "not-a-uuid"])).unwrap_err();
    assert!(error.contains("invalid organization UUID"));
}

#[test]
fn parse_args_rejects_missing_statement_timeout() {
    let error = parse_args(&args(&["--statement-timeout-seconds"])).unwrap_err();
    assert!(error.contains("--statement-timeout-seconds needs an integer"));
}

#[test]
fn parse_args_rejects_invalid_statement_timeout() {
    let error = parse_args(&args(&["--statement-timeout-seconds", "not-a-number"])).unwrap_err();
    assert!(error.contains("invalid timeout seconds"));
}

#[test]
fn parse_args_rejects_zero_statement_timeout() {
    let error = parse_args(&args(&["--statement-timeout-seconds", "0"])).unwrap_err();
    assert!(error.contains("must produce a timeout"));
}

#[test]
fn parse_args_rejects_oversized_statement_timeout() {
    let seconds = (i32::MAX as u64 / 1000) + 1;
    let error = parse_args(&vec![
        "--statement-timeout-seconds".to_string(),
        seconds.to_string(),
    ])
    .unwrap_err();
    assert!(error.contains("must produce a timeout"));
}

#[test]
fn parse_args_accepts_include_ready_and_dry_run() {
    let options = parse_args(&args(&["--include-ready", "--dry-run"]))
        .unwrap()
        .unwrap();
    assert!(options.include_ready);
    assert!(options.dry_run);
    let defaults = parse_args(&Vec::new()).unwrap().unwrap();
    assert!(!defaults.include_ready);
    assert!(!defaults.dry_run);
}

#[test]
fn parse_args_help_returns_none() {
    assert!(parse_args(&args(&["--help"])).unwrap().is_none());
    assert!(parse_args(&args(&["-h"])).unwrap().is_none());
}

#[test]
fn parse_args_rejects_unknown_flag() {
    let error = parse_args(&args(&["--unknown"])).unwrap_err();
    assert!(error.contains("unknown argument --unknown"));
}

#[test]
fn largest_timeout_is_accepted() {
    let seconds = i32::MAX as u64 / 1000;
    let options = parse_args(&vec![
        "--statement-timeout-seconds".to_string(),
        seconds.to_string(),
    ])
    .unwrap()
    .unwrap();
    assert_eq!(options.statement_timeout_secs, 2_147_483);
}

#[test]
fn dry_run_never_writes() {
    let prepared = PreparedBackfill {
        drifted: true,
        needs_apply: true,
    };
    let dry = reconcile_one(Some(prepared.clone()), true);
    assert!(dry.drifted);
    assert!(!dry.apply);
    let wet = reconcile_one(Some(prepared), false);
    assert!(wet.apply);
    assert!(!reconcile_one(None, false).apply);
    assert!(finish(true, 2).is_err());
    assert!(finish(true, 0).is_ok());
    assert!(finish(false, 2).is_ok());
}

#[test]
fn batches_go_on_after_the_last_identifier() {
    let ids = vec![Uuid { value: 3 }, Uuid { value: 9 }];
    assert_eq!(next_batch(&ids), Some(Uuid { value: 9 }));
    assert_eq!(next_batch(&Vec::new()), None);
}
