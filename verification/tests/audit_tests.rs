use exec_harness::audit::audit;
use exec_harness::audit::parse_entry_pid;

#[test]
fn parse_plain_pid_entry() {
    assert_eq!(parse_entry_pid("123.out"), Some(123));
    assert_eq!(parse_entry_pid("0.out"), Some(0));
    assert_eq!(parse_entry_pid("100.out"), Some(100));
}

#[test]
fn parse_largest_pid() {
    assert_eq!(parse_entry_pid("4294967295.out"), Some(u32::MAX));
    assert_eq!(parse_entry_pid("4294967296.out"), None);
    assert_eq!(parse_entry_pid("99999999999999999999.out"), None);
}

#[test]
fn parse_rejects_non_digit_stems() {
    assert_eq!(parse_entry_pid("12a.out"), None);
    assert_eq!(parse_entry_pid("+12.out"), None);
    assert_eq!(parse_entry_pid("-12.out"), None);
    assert_eq!(parse_entry_pid("a12.out"), None);
    assert_eq!(parse_entry_pid("1 2.out"), None);
}

#[test]
fn parse_rejects_wrong_shape() {
    assert_eq!(parse_entry_pid(""), None);
    assert_eq!(parse_entry_pid("out"), None);
    assert_eq!(parse_entry_pid(".out"), None);
    assert_eq!(parse_entry_pid("123.txt"), None);
    assert_eq!(parse_entry_pid("123out"), None);
    assert_eq!(parse_entry_pid("123.out.bak"), None);
    assert_eq!(parse_entry_pid("5.out.out"), None);
}

#[test]
fn audit_passes_on_self_file() {
    // profile folder contains 100.out; benchmarked pid is 100: the entry is
    // the benchmark's own output, not evidence of a subprocess
    let listing = vec!["100.out".to_string()];
    assert!(audit(Some(&listing), 100).is_ok());
}

#[test]
fn audit_fails_on_greater_pid() {
    // profile folder contains 100.out and 150.out; benchmarked pid is 100
    let listing = vec!["100.out".to_string(), "150.out".to_string()];
    let r = audit(Some(&listing), 100);
    let ev = r.unwrap_err();
    assert_eq!(ev.benchmark_pid, 100);
    assert_eq!(ev.subprocess_pid, 150);
}

#[test]
fn audit_skipped_when_folder_unset() {
    // the profile-folder variable is unset: the folder's contents — even a
    // 999.out entry — are never consulted, and the audit passes
    let _contents_never_consulted = vec!["999.out".to_string()];
    assert!(audit(None, 1).is_ok());
    assert!(audit(None, 0).is_ok());
}

#[test]
fn audit_passes_on_smaller_and_equal_pids() {
    let listing = vec!["1.out".to_string(), "99.out".to_string(), "100.out".to_string()];
    assert!(audit(Some(&listing), 100).is_ok());
}

#[test]
fn audit_ignores_entries_of_other_shapes() {
    let listing = vec![
        "999999.log".to_string(),
        "notes".to_string(),
        "999999x.out".to_string(),
    ];
    assert!(audit(Some(&listing), 1).is_ok());
}

#[test]
fn audit_reports_first_offender_in_listing_order() {
    let listing = vec![
        "7.out".to_string(),
        "300.out".to_string(),
        "200.out".to_string(),
    ];
    let ev = audit(Some(&listing), 100).unwrap_err();
    assert_eq!(ev.subprocess_pid, 300);
}

#[test]
fn audit_of_empty_listing_passes() {
    let listing: Vec<String> = Vec::new();
    assert!(audit(Some(&listing), 42).is_ok());
}
