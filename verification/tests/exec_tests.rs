use exec_harness::command::BenchmarkCommand;
use exec_harness::command::generate_name_and_uri;
use exec_harness::errors::LocatorError;
use exec_harness::errors::RunError;
use exec_harness::exec::classify_plain;
use exec_harness::exec::conclude_injected;
use exec_harness::exec::prepare_injected;
use exec_harness::exec::prepare_plain;
use exec_harness::exec::Run;
use exec_harness::exec::SpawnOutcome;
use exec_harness::locator::candidate_path;
use exec_harness::locator::locate;

fn cmd(name: &str, argv: &[&str]) -> BenchmarkCommand {
    BenchmarkCommand::new(
        name.to_string(),
        argv.iter().map(|s| s.to_string()).collect(),
    )
    .unwrap()
}

#[test]
fn command_rejects_empty_argv() {
    assert!(BenchmarkCommand::new("x".to_string(), Vec::new()).is_err());
}

#[test]
fn uri_is_name_after_joined_argv() {
    let r = generate_name_and_uri(&"bench".to_string(), &vec!["echo".to_string(), "hi".to_string()]);
    assert_eq!(r.name, "bench");
    assert_eq!(r.uri, "echo hi::bench");
    let single = generate_name_and_uri(&"n".to_string(), &vec!["prog".to_string()]);
    assert_eq!(single.uri, "prog::n");
}

#[test]
fn uri_is_deterministic() {
    let a = generate_name_and_uri(&"b".to_string(), &vec!["x".to_string(), "y".to_string()]);
    let b = generate_name_and_uri(&"b".to_string(), &vec!["x".to_string(), "y".to_string()]);
    assert_eq!(a.uri, b.uri);
    assert_eq!(a.name, b.name);
}

#[test]
fn plain_request_is_bare() {
    let c = cmd("bench", &["echo", "hi"]);
    let req = prepare_plain(&c);
    assert_eq!(req.argv, vec!["echo".to_string(), "hi".to_string()]);
    assert!(req.env.is_empty());
    assert_eq!(req.id.uri, "echo hi::bench");
}

fn compatible_elf() -> Vec<u8> {
    let interp = b"/lib64/ld-linux-x86-64.so.2\0";
    let mut b = vec![0u8; 64 + 56];
    b[0] = 0x7f;
    b[1] = b'E';
    b[2] = b'L';
    b[3] = b'F';
    b[4] = 2;
    b[5] = 1;
    b[32] = 64; // program header table at 64
    b[54] = 56; // entry size
    b[56] = 1; // one entry
    b[64] = 3; // PT_INTERP
    b[64 + 8] = 120; // p_offset: right after the table
    b[64 + 32] = interp.len() as u8; // p_filesz
    b.extend_from_slice(interp);
    b
}

fn static_elf() -> Vec<u8> {
    let mut b = compatible_elf();
    b[64] = 1; // PT_LOAD instead of PT_INTERP: statically linked
    b
}

#[test]
fn injected_request_carries_three_env_vars() {
    let c = cmd("bench", &["./target", "--fast"]);
    let req = prepare_injected(&c, &"/opt/lib/hooks.so".to_string(), &compatible_elf()).unwrap();
    assert_eq!(req.argv, vec!["./target".to_string(), "--fast".to_string()]);
    assert_eq!(req.env.len(), 3);
    assert_eq!(req.env[0].key, "LD_PRELOAD");
    assert_eq!(req.env[0].value, "/opt/lib/hooks.so");
    assert_eq!(req.env[1].key, "PYTHONPERFSUPPORT");
    assert_eq!(req.env[1].value, "1");
    assert_eq!(req.env[2].key, "CODSPEED_BENCH_URI");
    assert_eq!(req.env[2].value, "./target --fast::bench");
    assert_eq!(req.id.uri, "./target --fast::bench");
}

#[test]
fn incompatible_target_gets_no_spawn_request() {
    // a statically linked target is rejected before any process exists
    let c = cmd("bench", &["./target"]);
    let r = prepare_injected(&c, &"/opt/lib/hooks.so".to_string(), &static_elf());
    assert!(matches!(r, Err(RunError::IncompatibleTarget { .. })));
}

#[test]
fn plain_classification_by_precedence() {
    let exited_zero = SpawnOutcome::Exited { code: Some(0) };
    assert_eq!(classify_plain(true, &exited_zero, true), Ok(()));
    assert_eq!(
        classify_plain(false, &exited_zero, true),
        Err(RunError::InstrumentationFailure)
    );
    assert_eq!(
        classify_plain(true, &exited_zero, false),
        Err(RunError::InstrumentationFailure)
    );
    assert_eq!(
        classify_plain(true, &SpawnOutcome::FailedToSpawn, true),
        Err(RunError::SpawnFailure)
    );
    assert_eq!(
        classify_plain(true, &SpawnOutcome::Exited { code: Some(3) }, true),
        Err(RunError::NonZeroExit { code: Some(3) })
    );
    assert_eq!(
        classify_plain(true, &SpawnOutcome::Exited { code: None }, true),
        Err(RunError::NonZeroExit { code: None })
    );
}

#[test]
fn injected_conclusion_audits_before_exit_status() {
    // evidence of a subprocess outweighs even a clean exit
    let listing = vec!["100.out".to_string(), "150.out".to_string()];
    let r = conclude_injected(100, Some(0), Some(&listing));
    match r {
        Err(RunError::SubprocessDetected { evidence }) => {
            assert_eq!(evidence.benchmark_pid, 100);
            assert_eq!(evidence.subprocess_pid, 150);
        }
        other => panic!("expected subprocess detection, got {:?}", other),
    }
    // a clean audit lets the exit status decide
    let listing = vec!["100.out".to_string()];
    assert_eq!(conclude_injected(100, Some(0), Some(&listing)), Ok(()));
    assert_eq!(
        conclude_injected(100, Some(2), Some(&listing)),
        Err(RunError::NonZeroExit { code: Some(2) })
    );
    // unset profile folder: the audit passes unconditionally
    assert_eq!(conclude_injected(100, Some(0), None), Ok(()));
}

#[test]
fn failed_command_stops_the_run() {
    // commands [A, B]: A fails, so B is never granted a spawn
    let mut run = Run::new(2);
    assert!(run.grant()); // A may spawn
    run.report(false); // A exited non-zero
    assert!(!run.grant()); // B is never spawned
    assert!(!run.is_complete());
}

#[test]
fn commands_run_strictly_in_order() {
    let mut run = Run::new(2);
    assert!(run.grant());
    assert!(!run.grant()); // one spawn outstanding at a time
    run.report(true);
    assert!(run.grant());
    run.report(true);
    assert!(!run.grant()); // nothing left
    assert!(run.is_complete());
}

#[test]
fn locator_decides_by_platform_and_presence() {
    let dir = "/opt/harness".to_string();
    assert_eq!(
        candidate_path(&dir),
        "/opt/harness/libinstrument_hooks.so"
    );
    assert_eq!(
        locate(true, Some(&dir), true),
        Ok("/opt/harness/libinstrument_hooks.so".to_string())
    );
    assert_eq!(
        locate(false, Some(&dir), true),
        Err(LocatorError::UnsupportedPlatform)
    );
    assert_eq!(locate(true, None, true), Err(LocatorError::NotFound));
    assert_eq!(locate(true, Some(&dir), false), Err(LocatorError::NotFound));
}
