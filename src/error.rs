use vstd::prelude::*;

use crate::text::joined;

verus! {

/// Why a dataset could not be built.
#[derive(Clone, Debug)]
pub enum DatasetError {
    /// No variable was requested.
    EmptyVariableList,
    /// The sheet has no rows at all.
    EmptyData,
    /// Two or more header cells yield the same name; each such name once.
    DuplicateHeaders(Vec<String>),
    /// A requested variable names no header.
    UnknownVariable(String),
    /// No requested column holds a single numeric value.
    AllColumnsUnusable,
}

/// What a [`DatasetError`] stands for, over plain values.
pub enum DatasetFault {
    EmptyVariableList,
    EmptyData,
    DuplicateHeaders(Seq<Seq<char>>),
    UnknownVariable(Seq<char>),
    AllColumnsUnusable,
}

impl DatasetError {
    pub open spec fn view(&self) -> DatasetFault {
        match self {
            DatasetError::EmptyVariableList => DatasetFault::EmptyVariableList,
            DatasetError::EmptyData => DatasetFault::EmptyData,
            DatasetError::DuplicateHeaders(d) => DatasetFault::DuplicateHeaders(d.deep_view()),
            DatasetError::UnknownVariable(v) => DatasetFault::UnknownVariable(v@),
            DatasetError::AllColumnsUnusable => DatasetFault::AllColumnsUnusable,
        }
    }
}

} // verus!

verus! {

/// Names separated by a comma and a space.
pub open spec fn comma_list(names: Seq<Seq<char>>) -> Seq<char>
    decreases names.len(),
{
    if names.len() == 0 {
        seq![]
    } else if names.len() == 1 {
        names[0]
    } else {
        comma_list(names.drop_last()) + ", "@ + names.last()
    }
}

fn join_names(names: &Vec<String>) -> (r: String)
    ensures
        r@ == comma_list(names.deep_view()),
{
    let ghost ns = names.deep_view();
    let mut out = String::new();
    let mut i: usize = 0;
    while i < names.len()
        invariant
            i <= names@.len(),
            ns == names.deep_view(),
            out@ == comma_list(ns.take(i as int)),
        decreases names@.len() - i,
    {
        assert(ns.take(i as int + 1).drop_last() =~= ns.take(i as int));
        assert(ns[i as int] == names@[i as int]@);
        if i == 0 {
            assert(ns.take(1) =~= seq![ns[0]]);
            out = names[0].clone();
        } else {
            let sep = joined(out.as_str(), ", ");
            out = joined(sep.as_str(), names[i].as_str());
        }
        i = i + 1;
    }
    assert(ns.take(i as int) =~= ns);
    out
}

impl DatasetError {
    /// A message for the user.
    pub fn message(&self) -> (r: String)
        ensures
            match self {
                DatasetError::EmptyVariableList => r@ == "no variable was selected"@,
                DatasetError::EmptyData => r@ == "the sheet holds no data"@,
                DatasetError::DuplicateHeaders(d) => r@ == "the sheet's headers are duplicated: "@ + comma_list(d.deep_view()),
                DatasetError::UnknownVariable(v) => r@ == "variable '"@ + v@ + "' was not found"@,
                DatasetError::AllColumnsUnusable => r@ == "none of the selected columns holds a number"@,
            },
    {
        match self {
            DatasetError::EmptyVariableList => String::from_str("no variable was selected"),
            DatasetError::EmptyData => String::from_str("the sheet holds no data"),
            DatasetError::DuplicateHeaders(d) => {
                let list = join_names(d);
                joined("the sheet's headers are duplicated: ", list.as_str())
            },
            DatasetError::UnknownVariable(v) => {
                let a = joined("variable '", v.as_str());
                joined(a.as_str(), "' was not found")
            },
            DatasetError::AllColumnsUnusable => String::from_str("none of the selected columns holds a number"),
        }
    }
}

} // verus!
