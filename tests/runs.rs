use syn_launch::flags::ConfigError;
use syn_launch::launch::{plan_launches, Launch, Program};
use syn_launch::resolve::{OpenStatus, ResolutionError};
use syn_launch::session::{start, Start};

const BASE: &str = "/work";

fn args(v: &[&str]) -> Vec<String> {
    v.iter().map(|s| s.to_string()).collect()
}

fn strings(v: &[&str]) -> Vec<String> {
    args(v)
}

/// Runs an invocation against a pretend disk holding `disk`; returns the
/// start failure, the resolution failure, or the resolved paths, together
/// with the disk afterwards.
fn run(
    argv: &[&str],
    disk: &[&str],
) -> (Result<Result<Vec<String>, ResolutionError>, Option<ConfigError>>, Vec<String>) {
    let mut disk: Vec<String> = strings(disk);
    let mut res = match start(&args(argv), BASE) {
        Start::Resolve(r) => r,
        Start::Invalid(e) => return (Err(Some(e)), disk),
        Start::Help | Start::Version => return (Err(None), disk),
    };
    while let Some(p) = res.next_probe() {
        let status = if disk.contains(&p.path) {
            OpenStatus::Opened
        } else if p.create {
            disk.push(p.path.clone());
            OpenStatus::Opened
        } else {
            OpenStatus::Failed("No such file or directory (os error 2)".to_string())
        };
        res = match res.record(status) {
            Ok(r) => r,
            Err(e) => return (Ok(Err(e)), disk),
        };
    }
    assert!(res.is_done());
    (Ok(Ok(res.finish())), disk)
}

fn resolved(argv: &[&str], disk: &[&str]) -> Vec<String> {
    match run(argv, disk).0 {
        Ok(Ok(p)) => p,
        _ => panic!("expected resolved paths"),
    }
}

fn config_error(argv: &[&str]) -> ConfigError {
    match run(argv, &[]).0 {
        Err(Some(e)) => e,
        _ => panic!("expected a configuration error"),
    }
}

#[test]
fn soft_strict_drops_missing() {
    let out = resolved(&["-ss", "a.txt", "missing.bin", "b.txt"], &["/work/a.txt", "/work/b.txt"]);
    assert_eq!(out, strings(&["/work/a.txt", "/work/b.txt"]));
}

#[test]
fn strict_missing_is_fatal() {
    let (outcome, disk) = run(&["-s", "ghost.dat"], &[]);
    match outcome {
        Ok(Err(e)) => {
            assert_eq!(e.path, "/work/ghost.dat");
            assert!(!e.denied);
            assert_eq!(
                e.message(),
                "Failed to load '/work/ghost.dat'. No such file or directory (os error 2)"
            );
        }
        _ => panic!("expected a resolution error"),
    }
    assert!(disk.is_empty());
}

#[test]
fn strict_fails_after_existing_operands() {
    let (outcome, _) = run(&["-s", "a.txt", "gone", "b.txt"], &["/work/a.txt", "/work/b.txt"]);
    match outcome {
        Ok(Err(e)) => assert_eq!(e.path, "/work/gone"),
        _ => panic!("expected a resolution error"),
    }
}

#[test]
fn strict_all_existing() {
    let out = resolved(&["--strict", "a", "/abs/b"], &["/work/a", "/abs/b"]);
    assert_eq!(out, strings(&["/work/a", "/abs/b"]));
}

#[test]
fn default_creates_every_missing_file() {
    let (outcome, disk) = run(&["new1", "old", "new2"], &["/work/old"]);
    assert_eq!(outcome.ok().unwrap().ok().unwrap(), strings(&["/work/new1", "/work/old", "/work/new2"]));
    assert_eq!(disk, strings(&["/work/old", "/work/new1", "/work/new2"]));
}

#[test]
fn default_with_no_operands() {
    let out = resolved(&[], &[]);
    assert!(out.is_empty());
}

#[test]
fn compare_two_existing_files() {
    let out = resolved(&["-c", "a", "b"], &["/work/a", "/work/b"]);
    assert_eq!(out, strings(&["/work/a", "/work/b"]));
    let flags = match start(&args(&["-c", "a", "b"]), BASE) {
        Start::Resolve(r) => r.policy(),
        _ => panic!("expected a resolver"),
    };
    let ls: Vec<Launch> = plan_launches(flags, &out).ok().unwrap();
    assert_eq!(ls.len(), 1);
    assert_eq!(ls[0].program, Program::Hexf);
    assert_eq!(ls[0].args, strings(&["-d", "/work/a", "/work/b"]));
    assert!(!ls[0].until_success);
}

#[test]
fn compare_missing_file_is_fatal() {
    let (outcome, disk) = run(&["--compare", "a", "b"], &["/work/a"]);
    match outcome {
        Ok(Err(e)) => assert_eq!(e.path, "/work/b"),
        _ => panic!("expected a resolution error"),
    }
    assert_eq!(disk.len(), 1);
}

#[test]
fn compare_needs_exactly_two_operands() {
    assert_eq!(config_error(&["-c", "a"]), ConfigError::CompareNeedsTwo);
    assert_eq!(config_error(&["-c", "a", "b", "c"]), ConfigError::CompareNeedsTwo);
    assert_eq!(config_error(&["-c", "-ss", "a"]), ConfigError::CompareNeedsTwo);
    assert_eq!(config_error(&["-c"]), ConfigError::CompareNeedsTwo);
}

#[test]
fn compare_soft_strict_creates_missing() {
    let (outcome, disk) = run(&["-c", "-ss", "a", "b"], &["/work/a"]);
    assert_eq!(outcome.ok().unwrap().ok().unwrap(), strings(&["/work/a", "/work/b"]));
    assert_eq!(disk, strings(&["/work/a", "/work/b"]));
}

#[test]
fn conflicting_flags_are_refused() {
    assert_eq!(config_error(&["-s", "-ss", "a"]), ConfigError::StrictBoth);
    assert_eq!(config_error(&["-x", "-xo", "a"]), ConfigError::HexfBoth);
    assert_eq!(config_error(&["-c", "-s", "a", "b"]), ConfigError::CompareWithOthers);
    assert_eq!(config_error(&["-c", "-x", "a", "b"]), ConfigError::CompareWithOthers);
    assert_eq!(config_error(&["-c", "--hexf-only", "a", "b"]), ConfigError::CompareWithOthers);
    assert_eq!(config_error(&["-c", "-s", "-ss", "-x", "-xo"]), ConfigError::CompareWithOthers);
    assert_eq!(config_error(&["-x", "-xo", "-s", "-ss"]), ConfigError::HexfBoth);
}

#[test]
fn conflicting_flags_touch_no_file() {
    let (_, disk) = run(&["-s", "-ss", "new"], &[]);
    assert!(disk.is_empty());
}

#[test]
fn help_and_version_end_the_scan() {
    assert!(matches!(start(&args(&["-s", "-ss", "-h", "-v"]), BASE), Start::Help));
    assert!(matches!(start(&args(&["--version", "--help"]), BASE), Start::Version));
    assert!(matches!(start(&args(&["a", "--help"]), BASE), Start::Help));
}

#[test]
fn permission_denied_is_always_fatal() {
    let res = match start(&args(&["locked"]), BASE) {
        Start::Resolve(r) => r,
        _ => panic!("expected a resolver"),
    };
    let p = res.next_probe().unwrap();
    assert!(p.create);
    match res.record(OpenStatus::Denied("Permission denied (os error 13)".to_string())) {
        Err(e) => {
            assert!(e.denied);
            assert_eq!(
                e.message(),
                "Permission denied: cannot open '/work/locked'. Permission denied (os error 13)"
            );
        }
        Ok(_) => panic!("expected an error"),
    }
}

#[test]
fn soft_strict_denied_is_fatal() {
    let res = match start(&args(&["-ss", "x"]), BASE) {
        Start::Resolve(r) => r,
        _ => panic!("expected a resolver"),
    };
    assert!(!res.next_probe().unwrap().create);
    assert!(res.record(OpenStatus::Denied("no".to_string())).is_err());
}

#[test]
fn default_keeps_path_whose_creation_failed() {
    let res = match start(&args(&["nodir/a"]), BASE) {
        Start::Resolve(r) => r,
        _ => panic!("expected a resolver"),
    };
    let res = res.record(OpenStatus::Failed("No such file or directory".to_string())).ok().unwrap();
    assert_eq!(res.finish(), strings(&["/work/nodir/a"]));
}
