use vstd::prelude::*;

use crate::cell::RawCell;
use crate::error::{DatasetError, DatasetFault};
use crate::headers::{duplicates_in, headers_of, resolve_headers};
use crate::text::{decimal, joined, signed_text};

verus! {

/// One value of a result table: a JSON scalar. A number is kept as its JSON
/// text.
#[derive(Clone, Debug, PartialEq)]
pub enum Scalar {
    Null,
    Bool(bool),
    Text(String),
    Number(String),
}

/// What a [`Scalar`] stands for, over plain values.
pub enum ScalarModel {
    Null,
    Bool(bool),
    Text(Seq<char>),
    Number(Seq<char>),
}

impl Scalar {
    pub open spec fn view(&self) -> ScalarModel {
        match self {
            Scalar::Null => ScalarModel::Null,
            Scalar::Bool(b) => ScalarModel::Bool(*b),
            Scalar::Text(s) => ScalarModel::Text(s@),
            Scalar::Number(n) => ScalarModel::Number(n@),
        }
    }
}

/// A rectangular result: column headers and rows of scalar values.
#[derive(Clone, Debug)]
pub struct ParsedTable {
    pub headers: Vec<String>,
    pub rows: Vec<Vec<Scalar>>,
}

/// The value that a data cell shows as: empty cells are null, text and
/// booleans stay what they are, numbers keep their decimal form (a
/// non-finite one is null), an error shows as `Error(<name>)` and any other
/// cell as its display form.
pub open spec fn scalar_of(cell: RawCell) -> ScalarModel {
    match cell {
        RawCell::Empty => ScalarModel::Null,
        RawCell::Text { text, .. } => ScalarModel::Text(text@),
        RawCell::Number { decimal, .. } => match decimal {
            Some(d) => ScalarModel::Number(d@),
            None => ScalarModel::Null,
        },
        RawCell::Integer { value, .. } => ScalarModel::Number(decimal(value as int)),
        RawCell::Boolean(b) => ScalarModel::Bool(b),
        RawCell::Error(name) => ScalarModel::Text("Error("@ + name@ + ")"@),
        RawCell::Other(s) => ScalarModel::Text(s@),
    }
}

fn cell_value(cell: &RawCell) -> (r: Scalar)
    ensures
        r@ == scalar_of(*cell),
{
    match cell {
        RawCell::Empty => Scalar::Null,
        RawCell::Text { text, .. } => Scalar::Text(text.clone()),
        RawCell::Number { decimal, .. } => match decimal {
            Some(d) => Scalar::Number(d.clone()),
            None => Scalar::Null,
        },
        RawCell::Integer { value, .. } => Scalar::Number(signed_text(*value)),
        RawCell::Boolean(b) => Scalar::Bool(*b),
        RawCell::Error(name) => {
            let opened = joined("Error(", name.as_str());
            Scalar::Text(joined(opened.as_str(), ")"))
        },
        RawCell::Other(s) => Scalar::Text(s.clone()),
    }
}

/// Whether `t` is the table of a grid: the first row gives the headers, every
/// later row a row of values, cell for cell. An empty grid gives an empty
/// table.
pub open spec fn is_table_of(t: ParsedTable, grid: Seq<Vec<RawCell>>) -> bool {
    if grid.len() == 0 {
        t.headers@.len() == 0 && t.rows@.len() == 0
    } else {
        &&& t.headers.deep_view() == headers_of(grid[0]@)
        &&& t.rows@.len() == grid.len() - 1
        &&& forall|i: int|
            0 <= i < t.rows@.len() ==> {
                &&& (#[trigger] t.rows@[i])@.len() == grid[i + 1]@.len()
                &&& forall|j: int| 0 <= j < t.rows@[i]@.len() ==> (#[trigger] t.rows@[i]@[j])@ == scalar_of(grid[i + 1]@[j])
            }
    }
}

/// A grid as a table, cell for cell.
pub fn rows_to_parsed_table(rows_data: &Vec<Vec<RawCell>>) -> (r: ParsedTable)
    ensures
        is_table_of(r, rows_data@),
{
    if rows_data.len() == 0 {
        return ParsedTable { headers: Vec::new(), rows: Vec::new() };
    }
    let headers = crate::headers::compute_headers_from_first_row(&rows_data[0]);
    let mut rows: Vec<Vec<Scalar>> = Vec::new();
    let mut i: usize = 1;
    while i < rows_data.len()
        invariant
            1 <= i <= rows_data@.len(),
            rows@.len() == i - 1,
            forall|k: int|
                0 <= k < rows@.len() ==> {
                    &&& (#[trigger] rows@[k])@.len() == rows_data@[k + 1]@.len()
                    &&& forall|j: int| 0 <= j < rows@[k]@.len() ==> (#[trigger] rows@[k]@[j])@ == scalar_of(rows_data@[k + 1]@[j])
                },
        decreases rows_data@.len() - i,
    {
        let src = &rows_data[i];
        let mut row: Vec<Scalar> = Vec::new();
        let mut j: usize = 0;
        while j < src.len()
            invariant
                j <= src@.len(),
                row@.len() == j,
                forall|m: int| 0 <= m < j ==> (#[trigger] row@[m])@ == scalar_of(src@[m]),
            decreases src@.len() - j,
        {
            row.push(cell_value(&src[j]));
            j = j + 1;
        }
        rows.push(row);
        i = i + 1;
    }
    ParsedTable { headers, rows }
}

/// A grid as a table, refused when its header row holds duplicated names.
pub fn checked_table(rows_data: &Vec<Vec<RawCell>>) -> (r: Result<ParsedTable, DatasetError>)
    ensures
        rows_data@.len() > 0 && duplicates_in(headers_of(rows_data@[0]@)).len() > 0 ==> (r matches Err(e)
            && e@ == DatasetFault::DuplicateHeaders(duplicates_in(headers_of(rows_data@[0]@)))),
        (rows_data@.len() == 0 || duplicates_in(headers_of(rows_data@[0]@)).len() == 0) ==> (r matches Ok(t)
            && is_table_of(t, rows_data@)),
{
    if rows_data.len() > 0 {
        match resolve_headers(&rows_data[0]) {
            Err(e) => return Err(e),
            Ok(_) => {},
        }
    }
    Ok(rows_to_parsed_table(rows_data))
}

} // verus!
