use vstd::prelude::*;

use crate::engine::blank;
use crate::text::{joined, same_text, trim_text};

verus! {

/// Why a request for a sheet was refused before any work began.
#[derive(Clone, Debug)]
pub enum InputError {
    /// The file path is blank.
    EmptyPath,
    /// The sheet name is blank.
    EmptySheetName,
    /// The workbook holds no sheet at all.
    NoSheets,
    /// The workbook holds no sheet of that name.
    SheetNotFound(String),
}

fn is_blank(s: &String) -> (r: bool)
    ensures
        r == blank(s@),
{
    let t = trim_text(s.as_str());
    t.as_str().is_empty()
}

/// The sheet names of a workbook, refused when there are none.
pub fn check_sheet_names(names: Vec<String>) -> (r: Result<Vec<String>, InputError>)
    ensures
        names@.len() == 0 ==> r matches Err(InputError::NoSheets),
        names@.len() > 0 ==> r == Ok::<Vec<String>, InputError>(names),
{
    if names.len() == 0 {
        Err(InputError::NoSheets)
    } else {
        Ok(names)
    }
}

/// Checks that neither the path nor the sheet name of a request is blank.
pub fn check_sheet_request(path: &String, sheet: &String) -> (r: Result<(), InputError>)
    ensures
        blank(path@) ==> r matches Err(InputError::EmptyPath),
        !blank(path@) && blank(sheet@) ==> r matches Err(InputError::EmptySheetName),
        !blank(path@) && !blank(sheet@) ==> r is Ok,
{
    if is_blank(path) {
        return Err(InputError::EmptyPath);
    }
    if is_blank(sheet) {
        return Err(InputError::EmptySheetName);
    }
    Ok(())
}

/// Checks a request for a sheet against the sheet names of its workbook: the
/// path and the sheet name must not be blank, and the name must be one of
/// `sheets`, exactly.
pub fn validate_sheet_exists(path: &String, sheet: &String, sheets: &Vec<String>) -> (r: Result<(), InputError>)
    ensures
        blank(path@) ==> r matches Err(InputError::EmptyPath),
        !blank(path@) && blank(sheet@) ==> r matches Err(InputError::EmptySheetName),
        !blank(path@) && !blank(sheet@) && !sheets.deep_view().contains(sheet@) ==> (r matches Err(
            InputError::SheetNotFound(s),
        ) && s@ == sheet@),
        !blank(path@) && !blank(sheet@) && sheets.deep_view().contains(sheet@) ==> r is Ok,
{
    match check_sheet_request(path, sheet) {
        Err(e) => return Err(e),
        Ok(()) => {},
    }
    let mut i: usize = 0;
    while i < sheets.len()
        invariant
            i <= sheets@.len(),
            !blank(path@),
            !blank(sheet@),
            forall|k: int| 0 <= k < i ==> sheets.deep_view()[k] != sheet@,
        decreases sheets@.len() - i,
    {
        if same_text(&sheets[i], sheet) {
            assert(sheets.deep_view()[i as int] == sheet@);
            return Ok(());
        }
        i = i + 1;
    }
    Err(InputError::SheetNotFound(sheet.clone()))
}

impl InputError {
    /// A message for the user.
    pub fn message(&self) -> (r: String)
        ensures
            match self {
                InputError::EmptyPath => r@ == "the file path is empty"@,
                InputError::EmptySheetName => r@ == "the sheet name is empty"@,
                InputError::NoSheets => r@ == "no sheet was found"@,
                InputError::SheetNotFound(s) => r@ == "sheet not found: "@ + s@,
            },
    {
        match self {
            InputError::EmptyPath => String::from_str("the file path is empty"),
            InputError::EmptySheetName => String::from_str("the sheet name is empty"),
            InputError::NoSheets => String::from_str("no sheet was found"),
            InputError::SheetNotFound(s) => joined("sheet not found: ", s.as_str()),
        }
    }
}

} // verus!
