use vstd::prelude::*;

use indexmap::IndexMap;

use crate::cell::{numeric_from_cell, numeric_of, RawCell};
use crate::error::{DatasetError, DatasetFault};
use crate::headers::{duplicates_in, headers_of, resolve_headers};
use crate::text::same_text;

verus! {

#[verifier::external_type_specification]
#[verifier::external_body]
#[verifier::reject_recursive_types(K)]
#[verifier::reject_recursive_types(V)]
#[verifier::reject_recursive_types(S)]
pub struct ExIndexMap<K, V, S>(IndexMap<K, V, S>);

/// Columns of optional numeric values (bit patterns) keyed by header, in
/// insertion order.
pub type Dataset = IndexMap<String, Vec<Option<u64>>>;

/// One column of a dataset: its header and its values.
pub type Entry = (Seq<char>, Seq<Option<u64>>);

/// The columns that a dataset holds, in order.
pub uninterp spec fn entries_of(d: Dataset) -> Seq<Entry>;

/// The headers of a list of columns, in order.
pub open spec fn keys_of(es: Seq<Entry>) -> Seq<Seq<char>> {
    es.map_values(|e: Entry| e.0)
}

/// Relies on `IndexMap::new`: a map with no entries.
#[verifier::external_body]
fn empty_dataset() -> (r: Dataset)
    ensures
        entries_of(r) == Seq::<Entry>::empty(),
{
    IndexMap::new()
}

/// Relies on `IndexMap::insert`: a key already present keeps its place and
/// takes the new value; a new key goes last.
#[verifier::external_body]
fn dataset_insert(d: &mut Dataset, key: String, value: Vec<Option<u64>>)
    ensures
        keys_of(entries_of(*old(d))).contains(key@) ==> entries_of(*final(d)) == entries_of(*old(d)).update(
            keys_of(entries_of(*old(d))).index_of(key@),
            (key@, value@),
        ),
        !keys_of(entries_of(*old(d))).contains(key@) ==> entries_of(*final(d)) == entries_of(*old(d)).push(
            (key@, value@),
        ),
{
    d.insert(key, value);
}

/// Relies on `IndexMap::is_empty`: whether the map has no entries.
#[verifier::external_body]
fn dataset_is_empty(d: &Dataset) -> (r: bool)
    ensures
        r == (entries_of(*d).len() == 0),
{
    d.is_empty()
}

} // verus!

verus! {

/// The rows of a grid as sequences of cells.
pub open spec fn grid_of(rows: Seq<Vec<RawCell>>) -> Seq<Seq<RawCell>> {
    rows.map_values(|r: Vec<RawCell>| r@)
}

/// The numeric values of the column at `idx`, one per data row (every row
/// after the first); a row too short to reach the column gives no value.
pub open spec fn column_at(grid: Seq<Seq<RawCell>>, idx: int) -> Seq<Option<u64>> {
    Seq::new(
        (grid.len() - 1) as nat,
        |r: int|
            if idx < grid[r + 1].len() {
                numeric_of(grid[r + 1][idx])
            } else {
                None
            },
    )
}

/// Whether a column holds at least one value.
pub open spec fn usable(col: Seq<Option<u64>>) -> bool {
    exists|i: int| 0 <= i < col.len() && col[i] is Some
}

/// The columns that the requested variables select, in the order in which
/// they were requested: each name once, and only the usable columns.
pub open spec fn selected_entries(
    grid: Seq<Seq<RawCell>>,
    hs: Seq<Seq<char>>,
    vars: Seq<Seq<char>>,
) -> Seq<Entry>
    decreases vars.len(),
{
    if vars.len() == 0 {
        seq![]
    } else {
        let prev = selected_entries(grid, hs, vars.drop_last());
        let v = vars.last();
        let col = column_at(grid, hs.index_of(v));
        if keys_of(prev).contains(v) || !usable(col) {
            prev
        } else {
            prev.push((v, col))
        }
    }
}

/// The first requested variable, in request order, that names no header.
pub open spec fn first_unknown(hs: Seq<Seq<char>>, vars: Seq<Seq<char>>) -> Option<Seq<char>>
    decreases vars.len(),
{
    if vars.len() == 0 {
        None
    } else if !hs.contains(vars[0]) {
        Some(vars[0])
    } else {
        first_unknown(hs, vars.skip(1))
    }
}

/// What building a dataset from a grid and a list of variables gives.
pub open spec fn build_outcome(grid: Seq<Seq<RawCell>>, vars: Seq<Seq<char>>) -> Result<
    Seq<Entry>,
    DatasetFault,
> {
    if vars.len() == 0 {
        Err(DatasetFault::EmptyVariableList)
    } else if grid.len() == 0 {
        Err(DatasetFault::EmptyData)
    } else {
        let hs = headers_of(grid[0]);
        if duplicates_in(hs).len() > 0 {
            Err(DatasetFault::DuplicateHeaders(duplicates_in(hs)))
        } else {
            match first_unknown(hs, vars) {
                Some(v) => Err(DatasetFault::UnknownVariable(v)),
                None => {
                    let es = selected_entries(grid, hs, vars);
                    if es.len() == 0 {
                        Err(DatasetFault::AllColumnsUnusable)
                    } else {
                        Ok(es)
                    }
                },
            }
        }
    }
}

/// Where `s` first stands in `v`, if anywhere.
fn position_of(v: &Vec<String>, s: &String) -> (r: Option<usize>)
    ensures
        match r {
            Some(i) => i < v@.len() && v.deep_view()[i as int] == s@,
            None => !v.deep_view().contains(s@),
        },
{
    let mut i: usize = 0;
    while i < v.len()
        invariant
            i <= v@.len(),
            forall|k: int| 0 <= k < i ==> v.deep_view()[k] != s@,
        decreases v@.len() - i,
    {
        if same_text(&v[i], s) {
            return Some(i);
        }
        i = i + 1;
    }
    None
}

/// The numeric values of the column at `idx`, and whether any is present.
fn column_values(rows: &Vec<Vec<RawCell>>, idx: usize) -> (r: (Vec<Option<u64>>, bool))
    requires
        rows@.len() > 0,
    ensures
        r.0@ == column_at(grid_of(rows@), idx as int),
        r.1 == usable(r.0@),
{
    let ghost grid = grid_of(rows@);
    let mut col: Vec<Option<u64>> = Vec::new();
    let mut any = false;
    let mut r: usize = 1;
    while r < rows.len()
        invariant
            1 <= r <= rows@.len(),
            grid == grid_of(rows@),
            col@ == column_at(grid, idx as int).take(r - 1),
            any == usable(col@),
        decreases rows@.len() - r,
    {
        let row = &rows[r];
        let num = if idx < row.len() {
            numeric_from_cell(&row[idx])
        } else {
            None
        };
        let ghost before = col@;
        col.push(num);
        proof {
            if num is Some {
                assert(col@[r - 1] is Some);
            }
            if any {
                let k = choose|k: int| 0 <= k < before.len() && before[k] is Some;
                assert(col@[k] is Some);
            }
            if usable(col@) && !any {
                let k = choose|k: int| 0 <= k < col@.len() && col@[k] is Some;
                assert(k == r - 1);
            }
        }
        if num.is_some() {
            any = true;
        }
        r = r + 1;
        assert(col@ =~= column_at(grid, idx as int).take(r - 1));
    }
    assert(col@ =~= column_at(grid, idx as int));
    (col, any)
}

} // verus!

verus! {

/// A list of headers with no name reported as duplicated holds each name once.
proof fn lemma_unique_headers(hs: Seq<Seq<char>>)
    requires
        duplicates_in(hs).len() == 0,
    ensures
        hs.no_duplicates(),
{
    crate::headers::lemma_duplicates_exact(hs);
    assert forall|i: int, j: int| 0 <= i < j < hs.len() implies hs[i] != hs[j] by {
        if hs[i] == hs[j] {
            assert(crate::headers::is_duplicated(hs, hs[i]));
            assert(duplicates_in(hs).contains(hs[i]));
        }
    }
}

/// The selected columns carry distinct names, each of a requested variable,
/// each with the values of its header's column, each usable.
pub proof fn lemma_selected_entries_shape(grid: Seq<Seq<RawCell>>, hs: Seq<Seq<char>>, vars: Seq<Seq<char>>)
    ensures
        keys_of(selected_entries(grid, hs, vars)).no_duplicates(),
        forall|k: int|
            0 <= k < selected_entries(grid, hs, vars).len() ==> {
                let e = #[trigger] selected_entries(grid, hs, vars)[k];
                &&& vars.contains(e.0)
                &&& e.1 == column_at(grid, hs.index_of(e.0))
                &&& usable(e.1)
            },
    decreases vars.len(),
{
    if vars.len() > 0 {
        let init = vars.drop_last();
        lemma_selected_entries_shape(grid, hs, init);
        let prev = selected_entries(grid, hs, init);
        let es = selected_entries(grid, hs, vars);
        assert forall|k: int| 0 <= k < prev.len() implies vars.contains(#[trigger] prev[k].0) by {
            let j = choose|j: int| 0 <= j < init.len() && init[j] == prev[k].0;
            assert(vars[j] == prev[k].0);
        }
        if es != prev {
            assert(es == prev.push((vars.last(), column_at(grid, hs.index_of(vars.last())))));
            assert(vars[vars.len() - 1] == vars.last());
            assert(keys_of(es) =~= keys_of(prev).push(vars.last()));
            assert forall|a: int, b: int| 0 <= a < b < keys_of(es).len() implies keys_of(es)[a] != keys_of(es)[b] by {
                if b == prev.len() {
                    assert(keys_of(prev)[a] == keys_of(es)[a]);
                }
            }
            assert forall|k: int| 0 <= k < es.len() implies {
                let e = #[trigger] es[k];
                &&& vars.contains(e.0)
                &&& e.1 == column_at(grid, hs.index_of(e.0))
                &&& usable(e.1)
            } by {
                if k < prev.len() {
                    assert(es[k] == prev[k]);
                }
            }
        }
    }
}

/// Builds the dataset that `variables` select from `rows`, whose first row
/// holds the headers: the requested columns that hold any numeric value, in
/// the order in which they were requested.
pub fn build_numeric_dataset(rows: &Vec<Vec<RawCell>>, variables: &Vec<String>) -> (r: Result<Dataset, DatasetError>)
    ensures
        match r {
            Ok(d) => build_outcome(grid_of(rows@), variables.deep_view()) == Ok::<Seq<Entry>, DatasetFault>(entries_of(d)),
            Err(e) => build_outcome(grid_of(rows@), variables.deep_view()) == Err::<Seq<Entry>, DatasetFault>(e@),
        },
{
    let ghost grid = grid_of(rows@);
    let ghost vars = variables.deep_view();
    if variables.len() == 0 {
        return Err(DatasetError::EmptyVariableList);
    }
    if rows.len() == 0 {
        return Err(DatasetError::EmptyData);
    }
    let headers = match resolve_headers(&rows[0]) {
        Ok(h) => h,
        Err(e) => return Err(e),
    };
    let ghost hs = headers.deep_view();
    assert(grid[0] == rows@[0]@);
    proof {
        lemma_unique_headers(hs);
    }

    // every requested variable must name a header
    let mut i: usize = 0;
    assert(vars.skip(0) =~= vars);
    while i < variables.len()
        invariant
            i <= variables@.len(),
            vars == variables.deep_view(),
            hs == headers.deep_view(),
            rows@.len() > 0,
            grid == grid_of(rows@),
            hs == headers_of(grid[0]),
            duplicates_in(hs).len() == 0,
            first_unknown(hs, vars) == first_unknown(hs, vars.skip(i as int)),
        decreases variables@.len() - i,
    {
        assert(vars.skip(i as int)[0] == vars[i as int]);
        assert(vars.skip(i as int).skip(1) =~= vars.skip(i as int + 1));
        assert(vars[i as int] == variables@[i as int]@);
        match position_of(&headers, &variables[i]) {
            None => {
                assert(!hs.contains(vars[i as int]));
                assert(first_unknown(hs, vars.skip(i as int)) == Some(vars[i as int]));
                return Err(DatasetError::UnknownVariable(variables[i].clone()));
            },
            Some(_) => {},
        }
        assert(hs.contains(vars[i as int]));
        assert(first_unknown(hs, vars.skip(i as int)) == first_unknown(hs, vars.skip(i as int + 1)));
        i = i + 1;
    }
    assert(vars.skip(i as int).len() == 0);

    // the requested columns, in request order
    let mut dataset = empty_dataset();
    let mut j: usize = 0;
    while j < variables.len()
        invariant
            j <= variables@.len(),
            rows@.len() > 0,
            vars == variables.deep_view(),
            grid == grid_of(rows@),
            hs == headers.deep_view(),
            hs == headers_of(grid[0]),
            duplicates_in(hs).len() == 0,
            hs.no_duplicates(),
            first_unknown(hs, vars) is None,
            entries_of(dataset) == selected_entries(grid, hs, vars.take(j as int)),
        decreases variables@.len() - j,
    {
        let name = &variables[j];
        let ghost v = name@;
        let ghost prev = entries_of(dataset);
        assert(vars.take(j as int + 1).drop_last() =~= vars.take(j as int));
        assert(vars.take(j as int + 1).last() == v);
        proof {
            lemma_known_variable(hs, vars, j as int);
        }
        let p = match position_of(&headers, name) {
            Some(p) => p,
            None => return Err(DatasetError::UnknownVariable(name.clone())),
        };
        assert(hs.index_of(v) == p as int);
        let (col, any) = column_values(rows, p);
        if any {
            proof {
                lemma_selected_entries_shape(grid, hs, vars.take(j as int));
                if keys_of(prev).contains(v) {
                    let k = keys_of(prev).index_of(v);
                    assert(prev[k].0 == v);
                    assert(prev.update(k, (v, col@)) =~= prev);
                }
            }
            dataset_insert(&mut dataset, name.clone(), col);
        }
        j = j + 1;
    }
    assert(vars.take(j as int) =~= vars);
    if dataset_is_empty(&dataset) {
        return Err(DatasetError::AllColumnsUnusable);
    }
    Ok(dataset)
}

/// With no unknown variable, every requested variable names a header.
proof fn lemma_known_variable(hs: Seq<Seq<char>>, vars: Seq<Seq<char>>, j: int)
    requires
        first_unknown(hs, vars) is None,
        0 <= j < vars.len(),
    ensures
        hs.contains(vars[j]),
    decreases vars.len(),
{
    if j > 0 {
        assert(vars.skip(1)[j - 1] == vars[j]);
        lemma_known_variable(hs, vars.skip(1), j - 1);
    }
}

} // verus!

verus! {

/// Whether every place at which `y` is requested comes after a place at
/// which `x` is requested.
pub open spec fn requested_before(vars: Seq<Seq<char>>, x: Seq<char>, y: Seq<char>) -> bool {
    forall|j: int| 0 <= j < vars.len() && vars[j] == y ==> exists|i: int| 0 <= i < j && vars[i] == x
}

/// The selected columns are exactly the requested variables whose column is
/// usable, and they keep the order in which the variables were first
/// requested: every occurrence of a later column's name in the request comes
/// after an occurrence of each earlier column's name.
pub proof fn lemma_selected_entries_order(grid: Seq<Seq<RawCell>>, hs: Seq<Seq<char>>, vars: Seq<Seq<char>>)
    ensures
        forall|v: Seq<char>|
            #[trigger] keys_of(selected_entries(grid, hs, vars)).contains(v) <==> (vars.contains(v)
                && usable(column_at(grid, hs.index_of(v)))),
        forall|a: int, b: int|
            0 <= a < b < selected_entries(grid, hs, vars).len() ==> requested_before(
                vars,
                #[trigger] selected_entries(grid, hs, vars)[a].0,
                #[trigger] selected_entries(grid, hs, vars)[b].0,
            ),
    decreases vars.len(),
{
    if vars.len() > 0 {
        let init = vars.drop_last();
        let v = vars.last();
        lemma_selected_entries_order(grid, hs, init);
        lemma_selected_entries_shape(grid, hs, init);
        let prev = selected_entries(grid, hs, init);
        let es = selected_entries(grid, hs, vars);
        let added = !(keys_of(prev).contains(v) || !usable(column_at(grid, hs.index_of(v))));
        assert(vars =~= init.push(v));
        assert forall|u: Seq<char>| vars.contains(u) <==> (init.contains(u) || u == v) by {
            if vars.contains(u) {
                let k = choose|k: int| 0 <= k < vars.len() && vars[k] == u;
                if k < init.len() {
                    assert(init[k] == u);
                }
            }
            if init.contains(u) {
                let k = choose|k: int| 0 <= k < init.len() && init[k] == u;
                assert(vars[k] == u);
            }
            if u == v {
                assert(vars[vars.len() - 1] == u);
            }
        }
        if added {
            assert(keys_of(es) =~= keys_of(prev).push(v));
            assert forall|u: Seq<char>| #[trigger] keys_of(es).contains(u) <==> keys_of(prev).contains(u) || u == v by {
                if keys_of(es).contains(u) {
                    let k = choose|k: int| 0 <= k < keys_of(es).len() && keys_of(es)[k] == u;
                    if k < prev.len() {
                        assert(keys_of(prev)[k] == u);
                    }
                }
                if keys_of(prev).contains(u) {
                    let k = choose|k: int| 0 <= k < keys_of(prev).len() && keys_of(prev)[k] == u;
                    assert(keys_of(es)[k] == u);
                }
                if u == v {
                    assert(keys_of(es)[prev.len() as int] == u);
                }
            }
            assert(!init.contains(v));
        } else {
            assert(es == prev);
        }
        assert forall|a: int, b: int| 0 <= a < b < es.len() implies requested_before(vars, #[trigger] es[a].0, #[trigger] es[b].0) by {
            assert forall|j: int| 0 <= j < vars.len() && vars[j] == es[b].0 implies exists|i: int| 0 <= i < j && vars[i] == es[a].0 by {
                assert(es[a] == prev[a]);
                assert(keys_of(prev)[a] == prev[a].0);
                assert(init.contains(prev[a].0));
                let i0 = choose|i: int| 0 <= i < init.len() && init[i] == prev[a].0;
                if j < init.len() {
                    assert(init[j] == vars[j]);
                    if b < prev.len() {
                        assert(es[b] == prev[b]);
                        let i = choose|i: int| 0 <= i < j && init[i] == #[trigger] prev[a].0;
                        assert(vars[i] == es[a].0);
                    } else {
                        assert(es[b].0 == v);
                        assert(init.contains(v));
                    }
                } else {
                    assert(vars[i0] == es[a].0);
                }
            }
        }
    }
}

/// Over a header row without duplicated names, a request of known variables
/// of which at least one has a numeric value succeeds. Its columns are the
/// requested variables whose column holds a value, in request order, each
/// with the values of its column.
pub proof fn lemma_build_keeps_request_order(grid: Seq<Seq<RawCell>>, vars: Seq<Seq<char>>)
    requires
        grid.len() > 1,
        duplicates_in(headers_of(grid[0])).len() == 0,
        vars.len() > 0,
        forall|k: int| 0 <= k < vars.len() ==> headers_of(grid[0]).contains(#[trigger] vars[k]),
        exists|k: int|
            0 <= k < vars.len() && usable(
                column_at(grid, headers_of(grid[0]).index_of(#[trigger] vars[k])),
            ),
    ensures
        build_outcome(grid, vars) is Ok,
        ({
            let hs = headers_of(grid[0]);
            let es = selected_entries(grid, hs, vars);
            &&& build_outcome(grid, vars) == Ok::<Seq<Entry>, DatasetFault>(es)
            &&& forall|v: Seq<char>|
                #[trigger] keys_of(es).contains(v) <==> (vars.contains(v) && usable(
                    column_at(grid, hs.index_of(v)),
                ))
            &&& forall|k: int| 0 <= k < es.len() ==> (#[trigger] es[k]).1 == column_at(grid, hs.index_of(es[k].0))
            &&& forall|a: int, b: int|
                0 <= a < b < es.len() ==> requested_before(vars, #[trigger] es[a].0, #[trigger] es[b].0)
        }),
{
    let hs = headers_of(grid[0]);
    lemma_no_unknown(hs, vars);
    lemma_selected_entries_order(grid, hs, vars);
    lemma_selected_entries_shape(grid, hs, vars);
    let k = choose|k: int| 0 <= k < vars.len() && usable(column_at(grid, hs.index_of(#[trigger] vars[k])));
    assert(vars.contains(vars[k]));
    assert(keys_of(selected_entries(grid, hs, vars)).contains(vars[k]));
}

/// When every requested variable names a header, no variable is unknown.
proof fn lemma_no_unknown(hs: Seq<Seq<char>>, vars: Seq<Seq<char>>)
    requires
        forall|k: int| 0 <= k < vars.len() ==> hs.contains(#[trigger] vars[k]),
    ensures
        first_unknown(hs, vars) is None,
    decreases vars.len(),
{
    if vars.len() > 0 {
        assert(hs.contains(vars[0]));
        assert forall|k: int| 0 <= k < vars.skip(1).len() implies hs.contains(#[trigger] vars.skip(1)[k]) by {
            assert(vars.skip(1)[k] == vars[k + 1]);
        }
        lemma_no_unknown(hs, vars.skip(1));
    }
}

/// When some requested variable names no header, the first such is found.
proof fn lemma_unknown_found(hs: Seq<Seq<char>>, vars: Seq<Seq<char>>, missing: Seq<char>)
    requires
        vars.contains(missing),
        !hs.contains(missing),
    ensures
        first_unknown(hs, vars) matches Some(v) && vars.contains(v) && !hs.contains(v),
    decreases vars.len(),
{
    if hs.contains(vars[0]) {
        let k = choose|k: int| 0 <= k < vars.len() && vars[k] == missing;
        assert(k > 0);
        assert(vars.skip(1)[k - 1] == missing);
        lemma_unknown_found(hs, vars.skip(1), missing);
        let v = first_unknown(hs, vars.skip(1))->Some_0;
        let m = choose|m: int| 0 <= m < vars.skip(1).len() && vars.skip(1)[m] == v;
        assert(vars[m + 1] == v);
    } else {
        assert(vars.contains(vars[0]));
    }
}

/// Over a header row without duplicated names, a request that names a
/// variable absent from the headers fails, naming a requested variable that
/// is absent from the headers.
pub proof fn lemma_unknown_variable_reported(grid: Seq<Seq<RawCell>>, vars: Seq<Seq<char>>, missing: Seq<char>)
    requires
        grid.len() > 0,
        duplicates_in(headers_of(grid[0])).len() == 0,
        vars.contains(missing),
        !headers_of(grid[0]).contains(missing),
    ensures
        build_outcome(grid, vars) matches Err(DatasetFault::UnknownVariable(v)) && vars.contains(v)
            && !headers_of(grid[0]).contains(v),
{
    lemma_unknown_found(headers_of(grid[0]), vars, missing);
}

/// Building twice from the same grid and request gives equal datasets.
pub proof fn lemma_build_repeatable(
    grid: Seq<Seq<RawCell>>,
    vars: Seq<Seq<char>>,
    first: Result<Seq<Entry>, DatasetFault>,
    second: Result<Seq<Entry>, DatasetFault>,
)
    requires
        first == build_outcome(grid, vars),
        second == build_outcome(grid, vars),
    ensures
        first == second,
{
}

} // verus!
