use pps::cli::{compile_requests, CliError, CompileArgs};
use pps::engine::{
    check_dir, check_importable, detect_import_kind, raised_limit, DirError, ImportError, ImportKind,
    ResourceLimit,
};
use pps::valuer::{JudgeLog, JudgeLogKind, StatusKind, SubtaskId};

#[test]
fn import_kind_detection() {
    assert_eq!(detect_import_kind(false, true, true), Err(ImportError::SourceMissing));
    assert_eq!(detect_import_kind(true, true, true), Ok(ImportKind::Problem));
    assert_eq!(detect_import_kind(true, false, true), Ok(ImportKind::Contest));
    assert_eq!(detect_import_kind(true, false, false), Err(ImportError::UnknownSource));
    assert_eq!(check_importable(ImportKind::Problem), Ok(()));
    assert_eq!(check_importable(ImportKind::Contest), Err(ImportError::ContestUnsupported));
}

#[test]
fn dir_checks() {
    assert_eq!(check_dir(false, false, false, true), Err(DirError::Missing));
    assert_eq!(check_dir(true, false, false, true), Err(DirError::NotDirectory));
    assert_eq!(check_dir(true, true, true, false), Err(DirError::NotEmpty));
    assert_eq!(check_dir(true, true, true, true), Ok(()));
    assert_eq!(check_dir(true, true, false, false), Ok(()));
}

#[test]
fn stack_limit_raised_to_ceiling() {
    let r = raised_limit(ResourceLimit { cur: 8 << 20, max: u64::MAX });
    assert_eq!(r, ResourceLimit { cur: u64::MAX, max: u64::MAX });
}

#[test]
fn compile_requests_pair_paths() {
    let args = CompileArgs {
        pkg_path: vec!["a".to_string(), "b".to_string()],
        out_path: vec!["x".to_string(), "y".to_string()],
        force: true,
    };
    let reqs = compile_requests(&args, "/opt/jjs").unwrap();
    assert_eq!(reqs.len(), 2);
    assert_eq!(reqs[1].problem_path, "b");
    assert_eq!(reqs[1].out_path, "y");
    assert!(reqs[0].force);
    assert_eq!(reqs[0].jjs_path, "/opt/jjs");

    let bad = CompileArgs { pkg_path: vec!["a".to_string()], out_path: vec![], force: false };
    assert_eq!(compile_requests(&bad, "/j").unwrap_err(), CliError::PathCountMismatch);
}

#[test]
fn valuer_helpers() {
    assert!(StatusKind::Accepted.is_success());
    assert!(!StatusKind::Rejected.is_success());
    assert_eq!(SubtaskId::make(3).0, 3);
    assert_eq!(JudgeLogKind::Full.as_str(), "full");
    assert_eq!(JudgeLogKind::Contestant.as_str(), "contestant");
    assert_eq!(JudgeLogKind::list(), vec![JudgeLogKind::Contestant, JudgeLogKind::Full]);
    let log = JudgeLog::default();
    assert_eq!(log.kind, JudgeLogKind::Contestant);
    assert!(log.tests.is_empty() && log.subtasks.is_empty());
    assert_eq!(log.score, 0);
    assert!(!log.is_full);
}
