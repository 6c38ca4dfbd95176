use psycdata::engine::{
    artifact_name, decode_engine_output, engine_arguments, first_present, parse_outcome, AnalysisKind, EngineError,
};
use psycdata::input::{check_sheet_names, check_sheet_request, validate_sheet_exists, InputError};
use psycdata::error::DatasetError;
use psycdata::table::{checked_table, rows_to_parsed_table, ParsedTable, Scalar};
use psycdata::RawCell;

fn s(v: &str) -> String {
    v.to_string()
}

#[test]
fn failed_run_carries_trimmed_diagnostic() {
    let r = decode_engine_output(false, &b"  singular matrix\n".to_vec(), b"{}".to_vec());
    match r {
        Err(EngineError::ExecutionFailed(m)) => assert_eq!(m, "singular matrix"),
        other => panic!("unexpected {:?}", other),
    }
}

#[test]
fn output_that_is_not_utf8_is_a_decode_error() {
    let r = decode_engine_output(true, &vec![], vec![0xff, 0xfe]);
    assert!(matches!(r, Err(EngineError::OutputDecodeFailed(_))));
}

#[test]
fn arguments_follow_the_fixed_order() {
    let a = engine_arguments(&s("/p/cli.R"), AnalysisKind::Descriptive, &s("/tmp/x.json"), &Some(s("mean")));
    assert_eq!(a, vec![s("/p/cli.R"), s("descriptive"), s("/tmp/x.json"), s("mean")]);
    let b = engine_arguments(&s("/p/cli.R"), AnalysisKind::Reliability, &s("/tmp/x.json"), &Some(s("  ")));
    assert_eq!(b, vec![s("/p/cli.R"), s("reliability"), s("/tmp/x.json")]);
    let c = engine_arguments(&s("cli.R"), AnalysisKind::Correlation, &s("a.json"), &None);
    assert_eq!(c, vec![s("cli.R"), s("correlation"), s("a.json")]);
}

#[test]
fn artifact_names_differ_by_counter() {
    assert_eq!(artifact_name(12, 345, 6), "psycdata_describe_12_345_6.json");
    assert_ne!(artifact_name(12, 345, 6), artifact_name(12, 345, 7));
    assert_eq!(
        artifact_name(u32::MAX, u128::MAX, 0),
        format!("psycdata_describe_{}_{}_0.json", u32::MAX, u128::MAX)
    );
}

#[test]
fn sheet_requests_are_checked() {
    let sheets = vec![s("Data"), s("Notes")];
    assert!(validate_sheet_exists(&s("a.xlsx"), &s("Data"), &sheets).is_ok());
    assert!(matches!(validate_sheet_exists(&s(" "), &s("Data"), &sheets), Err(InputError::EmptyPath)));
    assert!(matches!(validate_sheet_exists(&s("a.xlsx"), &s(""), &sheets), Err(InputError::EmptySheetName)));
    match validate_sheet_exists(&s("a.xlsx"), &s("data"), &sheets) {
        Err(InputError::SheetNotFound(n)) => assert_eq!(n, "data"),
        other => panic!("unexpected {:?}", other),
    }
    assert!(matches!(check_sheet_names(vec![]), Err(InputError::NoSheets)));
    assert_eq!(check_sheet_names(sheets.clone()).unwrap(), sheets);
    assert_eq!(InputError::SheetNotFound(s("X")).message(), "sheet not found: X");
}

#[test]
fn script_is_looked_for_nearest_first() {
    let c = psycdata::engine::cli_script_candidates();
    assert_eq!(c, vec![s("src-r/cli.R"), s("../src-r/cli.R"), s("../../src-r/cli.R"), s("../../../src-r/cli.R")]);
}

use psycdata::engine::{next_step, RunAction, RunEvent, RunState};

#[test]
fn failed_engine_run_removes_artifact_before_finishing() {
    let (s1, a1) = next_step(RunState::Start, RunEvent::ArtifactWritten);
    assert!(matches!(a1, RunAction::RunEngine));
    let exited = RunEvent::EngineExited { success: false, stderr: b"singular matrix\n".to_vec(), stdout: vec![] };
    let (s2, a2) = next_step(s1.unwrap(), exited);
    assert!(matches!(a2, RunAction::RemoveArtifact));
    let (s3, a3) = next_step(s2.unwrap(), RunEvent::ArtifactRemoved);
    assert!(s3.is_none());
    match a3 {
        RunAction::Finish(Err(EngineError::ExecutionFailed(m))) => assert_eq!(m, "singular matrix"),
        other => panic!("unexpected {:?}", other),
    }
}

#[test]
fn every_failure_after_writing_goes_through_removal() {
    for event in [RunEvent::ScriptNotFound, RunEvent::LaunchFailed(s("no Rscript"))] {
        let (s2, a2) = next_step(RunState::ArtifactWritten, event);
        assert!(matches!(a2, RunAction::RemoveArtifact));
        let (_, a3) = next_step(s2.unwrap(), RunEvent::ArtifactRemoved);
        assert!(matches!(a3, RunAction::Finish(Err(_))));
    }
    let (s2, a2) = next_step(RunState::Start, RunEvent::ArtifactWriteFailed(s("disk full")));
    assert!(matches!(a2, RunAction::RemoveArtifact));
    match next_step(s2.unwrap(), RunEvent::ArtifactRemoved).1 {
        RunAction::Finish(Err(EngineError::ArtifactFailed(m))) => assert_eq!(m, "disk full"),
        other => panic!("unexpected {:?}", other),
    }
}

#[test]
fn blank_requests_are_refused_before_reading() {
    assert!(matches!(check_sheet_request(&s(""), &s("Data")), Err(InputError::EmptyPath)));
    assert!(matches!(check_sheet_request(&s("a.xlsx"), &s(" \t")), Err(InputError::EmptySheetName)));
    assert!(check_sheet_request(&s("a.xlsx"), &s("Data")).is_ok());
}

#[test]
fn malformed_output_is_quoted_in_parse_error() {
    let text = decode_engine_output(true, &vec![], b"not json".to_vec()).unwrap();
    assert_eq!(text, "not json");
    let parsed = serde_json::from_str::<serde_json::Value>(&text).map(|_| ParsedTable { headers: vec![], rows: vec![] });
    let r = parse_outcome(text, parsed.map_err(|e| e.to_string()));
    match r {
        Err(EngineError::OutputParseFailed { output, error }) => {
            assert_eq!(output, "not json");
            assert!(!error.is_empty());
            let m = EngineError::OutputParseFailed { error, output }.message();
            assert!(m.contains("not json"));
        },
        other => panic!("unexpected {:?}", other),
    }
}

#[test]
fn parsed_table_comes_back_unchanged() {
    let t = ParsedTable { headers: vec![s("r")], rows: vec![vec![Scalar::Number(s("0.5")), Scalar::Null]] };
    match parse_outcome(s("{...}"), Ok(t.clone())) {
        Ok(u) => {
            assert_eq!(u.headers, t.headers);
            assert_eq!(u.rows, t.rows);
        },
        other => panic!("unexpected {:?}", other),
    }
}

#[test]
fn successful_run_parses_then_removes_then_finishes() {
    let out = b"{\"headers\":[\"r\"],\"rows\":[[0.5]]}".to_vec();
    let (s2, a2) =
        next_step(RunState::ArtifactWritten, RunEvent::EngineExited { success: true, stderr: vec![], stdout: out });
    match a2 {
        RunAction::ParseOutput(t) => assert_eq!(t, "{\"headers\":[\"r\"],\"rows\":[[0.5]]}"),
        other => panic!("unexpected {:?}", other),
    }
    let table = ParsedTable { headers: vec![s("r")], rows: vec![vec![Scalar::Number(s("0.5"))]] };
    let (s3, a3) = next_step(s2.unwrap(), RunEvent::OutputParsed(Ok(table)));
    assert!(matches!(a3, RunAction::RemoveArtifact));
    match next_step(s3.unwrap(), RunEvent::ArtifactRemoved).1 {
        RunAction::Finish(Ok(t)) => {
            assert_eq!(t.headers, vec![s("r")]);
            assert_eq!(t.rows, vec![vec![Scalar::Number(s("0.5"))]]);
        },
        other => panic!("unexpected {:?}", other),
    }
}

#[test]
fn unparsable_output_still_removes_artifact() {
    let (s2, _) = next_step(RunState::Parsing(s("not json")), RunEvent::OutputParsed(Err(s("expected value"))));
    match next_step(s2.unwrap(), RunEvent::ArtifactRemoved).1 {
        RunAction::Finish(Err(EngineError::OutputParseFailed { error, output })) => {
            assert_eq!(error, "expected value");
            assert_eq!(output, "not json");
        },
        other => panic!("unexpected {:?}", other),
    }
}

#[test]
fn grid_becomes_a_table() {
    let empty = rows_to_parsed_table(&vec![]);
    assert!(empty.headers.is_empty() && empty.rows.is_empty());
    let grid = vec![
        vec![RawCell::Text { text: s("A"), number: None }, RawCell::Empty],
        vec![
            RawCell::Empty,
            RawCell::Number { bits: 2.5f64.to_bits(), decimal: Some(s("2.5")) },
            RawCell::Integer { value: -4, widened: (-4.0f64).to_bits() },
            RawCell::Boolean(false),
            RawCell::Error(s("Div0")),
            RawCell::Number { bits: f64::INFINITY.to_bits(), decimal: None },
            RawCell::Text { text: s(" x "), number: None },
            RawCell::Other(s("2024-01-01")),
        ],
    ];
    let t = rows_to_parsed_table(&grid);
    assert_eq!(t.headers, vec![s("A"), s("Column2")]);
    assert_eq!(
        t.rows,
        vec![vec![
            Scalar::Null,
            Scalar::Number(s("2.5")),
            Scalar::Number(s("-4")),
            Scalar::Bool(false),
            Scalar::Text(s("Error(Div0)")),
            Scalar::Null,
            Scalar::Text(s(" x ")),
            Scalar::Text(s("2024-01-01")),
        ]]
    );
}

#[test]
fn checked_table_refuses_duplicated_headers() {
    let dup = vec![vec![RawCell::Text { text: s("X"), number: None }, RawCell::Text { text: s("X "), number: None }]];
    match checked_table(&dup) {
        Err(DatasetError::DuplicateHeaders(d)) => assert_eq!(d, vec![s("X")]),
        other => panic!("unexpected {:?}", other),
    }
    assert!(checked_table(&vec![]).unwrap().headers.is_empty());
    let ok = vec![vec![RawCell::Boolean(true)], vec![RawCell::Boolean(true)]];
    let t = checked_table(&ok).unwrap();
    assert_eq!(t.headers, vec![s("TRUE")]);
    assert_eq!(t.rows, vec![vec![Scalar::Bool(true)]]);
}

#[test]
fn first_present_candidate_is_taken() {
    assert_eq!(first_present(&vec![false, true, true]), Some(1));
    assert_eq!(first_present(&vec![true, false]), Some(0));
    assert_eq!(first_present(&vec![false, false]), None);
    assert_eq!(first_present(&vec![]), None);
}
