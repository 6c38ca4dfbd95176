use vstd::prelude::*;

use crate::text::{decimal, joined, signed_text, trim_text, trimmed, unsigned_text};

verus! {

/// One cell as the spreadsheet reader hands it over.
///
/// Floating-point values travel as their IEEE-754 bit pattern. Along with a
/// cell come the values that only floating-point code can compute from it.
#[derive(Clone, Debug)]
pub enum RawCell {
    /// Text as stored, and the trimmed text read as a floating value (its bit
    /// pattern), when it reads as one.
    Text { text: String, number: Option<u64> },
    /// A floating value (bit pattern), with its canonical decimal form when
    /// the value is finite.
    Number { bits: u64, decimal: Option<String> },
    /// An integer, with the bit pattern of its value widened to floating point.
    Integer { value: i64, widened: u64 },
    Boolean(bool),
    Empty,
    /// An error value, by the name of its kind.
    Error(String),
    /// Any other kind of cell, in its display form.
    Other(String),
}

/// The name given to a column whose header cell yields no name: `Column`
/// followed by its position counted from one.
pub open spec fn placeholder(index: int) -> Seq<char> {
    "Column"@ + decimal(index + 1)
}

/// The header that a cell at a position of the first row stands for.
pub open spec fn header_of(cell: RawCell, index: int) -> Seq<char> {
    match cell {
        RawCell::Text { text, .. } => if trimmed(text@).len() == 0 {
            placeholder(index)
        } else {
            trimmed(text@)
        },
        RawCell::Number { decimal, .. } => match decimal {
            Some(d) => d@,
            None => placeholder(index),
        },
        RawCell::Integer { value, .. } => decimal(value as int),
        RawCell::Boolean(b) => if b {
            "TRUE"@
        } else {
            "FALSE"@
        },
        RawCell::Empty => placeholder(index),
        RawCell::Error(_) => placeholder(index),
        RawCell::Other(s) => if trimmed(s@).len() == 0 {
            placeholder(index)
        } else {
            s@
        },
    }
}

/// The numeric value (bit pattern) that a data cell stands for, if any.
/// Booleans are not numbers.
pub open spec fn numeric_of(cell: RawCell) -> Option<u64> {
    match cell {
        RawCell::Text { number, .. } => number,
        RawCell::Number { bits, .. } => Some(bits),
        RawCell::Integer { widened, .. } => Some(widened),
        _ => None,
    }
}

fn placeholder_name(index: usize) -> (r: String)
    ensures
        r@ == placeholder(index as int),
{
    let n = unsigned_text(index as u128 + 1);
    joined("Column", n.as_str())
}

/// The header that `cell`, standing at `index` in the first row, yields.
pub fn header_from_cell(cell: &RawCell, index: usize) -> (r: String)
    ensures
        r@ == header_of(*cell, index as int),
{
    match cell {
        RawCell::Text { text, .. } => {
            let t = trim_text(text.as_str());
            if t.as_str().is_empty() {
                placeholder_name(index)
            } else {
                t
            }
        },
        RawCell::Number { decimal, .. } => match decimal {
            Some(d) => d.clone(),
            None => placeholder_name(index),
        },
        RawCell::Integer { value, .. } => signed_text(*value),
        RawCell::Boolean(b) => if *b {
            String::from_str("TRUE")
        } else {
            String::from_str("FALSE")
        },
        RawCell::Empty => placeholder_name(index),
        RawCell::Error(_) => placeholder_name(index),
        RawCell::Other(s) => {
            let t = trim_text(s.as_str());
            if t.as_str().is_empty() {
                placeholder_name(index)
            } else {
                s.clone()
            }
        },
    }
}

/// The numeric value that a data cell yields, if any.
pub fn numeric_from_cell(cell: &RawCell) -> (r: Option<u64>)
    ensures
        r == numeric_of(*cell),
{
    match cell {
        RawCell::Text { number, .. } => *number,
        RawCell::Number { bits, .. } => Some(*bits),
        RawCell::Integer { widened, .. } => Some(*widened),
        _ => None,
    }
}

} // verus!
