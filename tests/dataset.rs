use psycdata::cell::{header_from_cell, numeric_from_cell, RawCell};
use psycdata::dataset::build_numeric_dataset;
use psycdata::error::DatasetError;
use psycdata::headers::{compute_headers_from_first_row, find_duplicate_headers, resolve_headers};

fn text(s: &str) -> RawCell {
    RawCell::Text { text: s.to_string(), number: s.trim().parse::<f64>().ok().map(f64::to_bits) }
}

fn num(f: f64) -> RawCell {
    RawCell::Number { bits: f.to_bits(), decimal: serde_json::Number::from_f64(f).map(|n| n.to_string()) }
}

fn integer(n: i64) -> RawCell {
    RawCell::Integer { value: n, widened: (n as f64).to_bits() }
}

fn names(v: &[&str]) -> Vec<String> {
    v.iter().map(|s| s.to_string()).collect()
}

fn values(col: &[Option<u64>]) -> Vec<Option<f64>> {
    col.iter().map(|b| b.map(f64::from_bits)).collect()
}

fn scenario_grid() -> Vec<Vec<RawCell>> {
    vec![
        vec![text("Age"), text("Score")],
        vec![num(25.0), num(88.0)],
        vec![num(30.0), RawCell::Empty],
        vec![text("bad"), num(92.0)],
    ]
}

#[test]
fn scenario_columns_follow_request_order() {
    let d = build_numeric_dataset(&scenario_grid(), &names(&["Score", "Age"])).unwrap();
    let keys: Vec<&String> = d.keys().collect();
    assert_eq!(keys, vec!["Score", "Age"]);
    assert_eq!(values(&d["Score"]), vec![Some(88.0), None, Some(92.0)]);
    assert_eq!(values(&d["Age"]), vec![Some(25.0), Some(30.0), None]);
}

#[test]
fn request_in_sheet_order_keeps_sheet_order() {
    let d = build_numeric_dataset(&scenario_grid(), &names(&["Age", "Score"])).unwrap();
    let keys: Vec<&String> = d.keys().collect();
    assert_eq!(keys, vec!["Age", "Score"]);
}

#[test]
fn repeated_variable_gives_one_column() {
    let d = build_numeric_dataset(&scenario_grid(), &names(&["Score", "Age", "Score"])).unwrap();
    let keys: Vec<&String> = d.keys().collect();
    assert_eq!(keys, vec!["Score", "Age"]);
}

#[test]
fn duplicate_header_reported_once() {
    let grid = vec![vec![text("X"), text("X")], vec![num(1.0), num(2.0)]];
    match build_numeric_dataset(&grid, &names(&["X"])) {
        Err(DatasetError::DuplicateHeaders(d)) => assert_eq!(d, vec!["X".to_string()]),
        other => panic!("unexpected {:?}", other),
    }
    match resolve_headers(&grid[0]) {
        Err(DatasetError::DuplicateHeaders(d)) => assert_eq!(d, vec!["X".to_string()]),
        other => panic!("unexpected {:?}", other),
    }
}

#[test]
fn duplicates_listed_in_order_first_seen_again() {
    let hs = names(&["A", "B", "B", "A", "B", "C"]);
    assert_eq!(find_duplicate_headers(&hs), names(&["B", "A"]));
    assert!(find_duplicate_headers(&names(&["A", "B", "C"])).is_empty());
}

#[test]
fn duplicates_after_normalisation() {
    // a blank cell at position 2 is named Column2, as is the text beside it
    let row = vec![text("A"), RawCell::Empty, text(" Column2 ")];
    match resolve_headers(&row) {
        Err(DatasetError::DuplicateHeaders(d)) => assert_eq!(d, names(&["Column2"])),
        other => panic!("unexpected {:?}", other),
    }
}

#[test]
fn unknown_variable_is_named() {
    let grid = vec![vec![text("A"), text("B")], vec![num(1.0), num(2.0)]];
    match build_numeric_dataset(&grid, &names(&["Missing"])) {
        Err(DatasetError::UnknownVariable(v)) => assert_eq!(v, "Missing"),
        other => panic!("unexpected {:?}", other),
    }
}

#[test]
fn first_unknown_variable_is_named() {
    let grid = vec![vec![text("A"), text("B")], vec![num(1.0), num(2.0)]];
    match build_numeric_dataset(&grid, &names(&["B", "Q", "R"])) {
        Err(DatasetError::UnknownVariable(v)) => assert_eq!(v, "Q"),
        other => panic!("unexpected {:?}", other),
    }
}

#[test]
fn empty_request_is_refused() {
    let r = build_numeric_dataset(&scenario_grid(), &vec![]);
    assert!(matches!(r, Err(DatasetError::EmptyVariableList)));
}

#[test]
fn empty_grid_is_refused() {
    let r = build_numeric_dataset(&vec![], &names(&["A"]));
    assert!(matches!(r, Err(DatasetError::EmptyData)));
}

#[test]
fn columns_without_numbers_are_dropped() {
    let grid = vec![
        vec![text("A"), text("B"), text("C")],
        vec![text("x"), num(1.0), RawCell::Boolean(true)],
        vec![RawCell::Empty, integer(7), RawCell::Error("Div0".to_string())],
    ];
    let d = build_numeric_dataset(&grid, &names(&["C", "A", "B"])).unwrap();
    let keys: Vec<&String> = d.keys().collect();
    assert_eq!(keys, vec!["B"]);
    assert_eq!(values(&d["B"]), vec![Some(1.0), Some(7.0)]);
    let r = build_numeric_dataset(&grid, &names(&["A", "C"]));
    assert!(matches!(r, Err(DatasetError::AllColumnsUnusable)));
}

#[test]
fn header_only_grid_has_no_usable_column() {
    let grid = vec![vec![text("A")]];
    let r = build_numeric_dataset(&grid, &names(&["A"]));
    assert!(matches!(r, Err(DatasetError::AllColumnsUnusable)));
}

#[test]
fn short_rows_give_absent_values() {
    let grid = vec![vec![text("A"), text("B")], vec![num(1.0)], vec![num(2.0), text(" 3.5 ")]];
    let d = build_numeric_dataset(&grid, &names(&["B"])).unwrap();
    assert_eq!(values(&d["B"]), vec![None, Some(3.5)]);
}

#[test]
fn building_twice_gives_equal_datasets() {
    let vars = names(&["Score", "Age"]);
    let a = build_numeric_dataset(&scenario_grid(), &vars).unwrap();
    let b = build_numeric_dataset(&scenario_grid(), &vars).unwrap();
    assert_eq!(a, b);
    let ka: Vec<&String> = a.keys().collect();
    let kb: Vec<&String> = b.keys().collect();
    assert_eq!(ka, kb);
}

#[test]
fn transport_document_round_trip() {
    let d = build_numeric_dataset(&scenario_grid(), &names(&["Score", "Age"])).unwrap();
    let doc: indexmap::IndexMap<String, Vec<Option<f64>>> =
        d.iter().map(|(k, v)| (k.clone(), values(v))).collect();
    let encoded = serde_json::to_string(&doc).unwrap();
    assert_eq!(encoded, "{\"Score\":[88.0,null,92.0],\"Age\":[25.0,30.0,null]}");
    let decoded: indexmap::IndexMap<String, Vec<Option<f64>>> = serde_json::from_str(&encoded).unwrap();
    assert_eq!(decoded, doc);
}

#[test]
fn header_cells_are_normalised() {
    let row = vec![
        text("  Name "),
        text("   "),
        num(1.5),
        num(f64::NAN),
        integer(-42),
        RawCell::Boolean(true),
        RawCell::Boolean(false),
        RawCell::Empty,
        RawCell::Error("NA".to_string()),
        RawCell::Other("2024-01-01".to_string()),
        RawCell::Other(" ".to_string()),
    ];
    let hs = compute_headers_from_first_row(&row);
    assert_eq!(
        hs,
        names(&[
            "Name", "Column2", "1.5", "Column4", "-42", "TRUE", "FALSE", "Column8", "Column9", "2024-01-01",
            "Column11"
        ])
    );
    assert_eq!(header_from_cell(&num(2.0), 0), "2.0");
    assert_eq!(header_from_cell(&RawCell::Empty, 99), "Column100");
}

#[test]
fn numeric_coercion_of_cells() {
    assert_eq!(numeric_from_cell(&num(2.5)).map(f64::from_bits), Some(2.5));
    assert_eq!(numeric_from_cell(&integer(3)).map(f64::from_bits), Some(3.0));
    assert_eq!(numeric_from_cell(&text(" 4.25 ")).map(f64::from_bits), Some(4.25));
    assert_eq!(numeric_from_cell(&text("abc")), None);
    assert_eq!(numeric_from_cell(&RawCell::Boolean(true)), None);
    assert_eq!(numeric_from_cell(&RawCell::Empty), None);
    assert_eq!(numeric_from_cell(&RawCell::Error("Div0".to_string())), None);
    assert_eq!(numeric_from_cell(&RawCell::Other("1".to_string())), None);
}

#[test]
fn dataset_error_messages() {
    let e = DatasetError::DuplicateHeaders(names(&["X", "Y"]));
    assert_eq!(e.message(), "the sheet's headers are duplicated: X, Y");
    assert_eq!(DatasetError::UnknownVariable("Q".to_string()).message(), "variable 'Q' was not found");
    assert_eq!(DatasetError::EmptyVariableList.message(), "no variable was selected");
}
