use system_generation::build_result::{get_store_path, parse_nix_build_output, BuildOutcome, BuildRecord};
use system_generation::error::{Error, ErrorKind};

fn record(drv: &str, outputs: &[(&str, &str)]) -> BuildRecord {
    BuildRecord {
        drv_path: drv.to_string(),
        outputs: outputs.iter().map(|(k, v)| (k.to_string(), v.to_string())).collect(),
    }
}

#[test]
fn single_record_with_out_returns_that_path() {
    let records = vec![record("/nix/store/abc.drv", &[("out", "/nix/store/xyz-system")])];
    let store_path = parse_nix_build_output(Ok(records)).unwrap();
    assert_eq!(store_path.as_str(), "/nix/store/xyz-system");
}

#[test]
fn out_is_found_among_other_outputs() {
    let records = vec![record(
        "/nix/store/abc.drv",
        &[("dev", "/nix/store/a-dev"), ("out", "/nix/store/b-out"), ("doc", "/nix/store/c-doc")],
    )];
    let store_path = parse_nix_build_output(Ok(records)).unwrap();
    assert_eq!(store_path.as_str(), "/nix/store/b-out");
}

#[test]
fn zero_records_fail_as_ambiguous() {
    let err = parse_nix_build_output(Ok(Vec::new())).unwrap_err();
    assert_eq!(err.kind(), ErrorKind::AmbiguousOutput);
    assert_eq!(
        err.message(),
        "Multiple build results were returned, we cannot handle that yet."
    );
}

#[test]
fn two_records_fail_as_ambiguous() {
    let records = vec![
        record("/nix/store/abc.drv", &[("out", "/nix/store/one")]),
        record("/nix/store/def.drv", &[("out", "/nix/store/two")]),
    ];
    let err = parse_nix_build_output(Ok(records)).unwrap_err();
    assert_eq!(err.kind(), ErrorKind::AmbiguousOutput);
}

#[test]
fn record_without_out_fails_as_missing_output() {
    let records = vec![record(
        "/nix/store/abc.drv",
        &[("dev", "/nix/store/a-dev"), ("lib", "/nix/store/b-lib")],
    )];
    let err = parse_nix_build_output(Ok(records)).unwrap_err();
    assert_eq!(err.kind(), ErrorKind::MissingOutput);
    assert_eq!(err.message(), "No output 'out' found in nix build result.");
}

#[test]
fn decode_failure_is_wrapped_as_malformed_output() {
    let err = parse_nix_build_output(Err("expected value at line 1 column 1".to_string()))
        .unwrap_err();
    assert_eq!(err.kind(), ErrorKind::MalformedOutput);
    assert_eq!(
        err.message(),
        "Error reading nix build output: expected value at line 1 column 1"
    );
}

#[test]
fn nonzero_exit_fails_as_build_failure_with_stderr() {
    let outcome = BuildOutcome::Failure { stderr: "builder crashed".to_string() };
    let err = get_store_path(outcome).unwrap_err();
    assert_eq!(err.kind(), ErrorKind::BuildFailed);
    assert_eq!(err.message(), "Nix build failed.");
    match err {
        Error::BuildFailed { stderr } => assert_eq!(stderr, "builder crashed"),
        other => panic!("unexpected error: {other:?}"),
    }
}

#[test]
fn successful_exit_is_parsed() {
    let records = vec![record("/nix/store/abc.drv", &[("out", "/nix/store/xyz-system")])];
    let outcome = BuildOutcome::Success { decoded: Ok(records) };
    let store_path = get_store_path(outcome).unwrap();
    assert_eq!(store_path.as_str(), "/nix/store/xyz-system");
}
