use vstd::prelude::*;

use crate::cell::{header_from_cell, header_of, RawCell};
use crate::error::{DatasetError, DatasetFault};
use crate::text::same_text;

verus! {

/// The headers that a first row yields, position by position.
pub open spec fn headers_of(row: Seq<RawCell>) -> Seq<Seq<char>> {
    Seq::new(row.len(), |i: int| header_of(row[i], i))
}

/// Whether `h` stands at two or more positions of `hs`.
pub open spec fn is_duplicated(hs: Seq<Seq<char>>, h: Seq<char>) -> bool {
    exists|i: int, j: int| 0 <= i < j < hs.len() && hs[i] == h && hs[j] == h
}

/// The names that occur more than once in `hs`, each once, in the order in
/// which each is first seen again.
pub open spec fn duplicates_in(hs: Seq<Seq<char>>) -> Seq<Seq<char>>
    decreases hs.len(),
{
    if hs.len() == 0 {
        seq![]
    } else {
        let prev = duplicates_in(hs.drop_last());
        let h = hs.last();
        if hs.drop_last().contains(h) && !prev.contains(h) {
            prev.push(h)
        } else {
            prev
        }
    }
}

/// Whether the first `end` texts of `v` hold `s`.
fn contains_in_prefix(v: &Vec<String>, end: usize, s: &String) -> (r: bool)
    requires
        end <= v@.len(),
    ensures
        r == v.deep_view().take(end as int).contains(s@),
{
    let mut i: usize = 0;
    while i < end
        invariant
            i <= end <= v@.len(),
            forall|k: int| 0 <= k < i ==> v.deep_view()[k] != s@,
        decreases end - i,
    {
        if same_text(&v[i], s) {
            assert(v.deep_view().take(end as int)[i as int] == s@);
            return true;
        }
        i = i + 1;
    }
    assert forall|k: int| 0 <= k < end implies v.deep_view().take(end as int)[k] != s@ by {
        assert(v.deep_view()[k] == v[k]@);
    }
    false
}

/// The headers of a first row, each cell normalised at its own position.
pub fn compute_headers_from_first_row(row0: &Vec<RawCell>) -> (r: Vec<String>)
    ensures
        r.deep_view() == headers_of(row0@),
{
    let mut out: Vec<String> = Vec::new();
    let mut i: usize = 0;
    while i < row0.len()
        invariant
            i <= row0@.len(),
            out.deep_view() == headers_of(row0@).take(i as int),
        decreases row0@.len() - i,
    {
        let h = header_from_cell(&row0[i], i);
        let ghost prev = out.deep_view();
        out.push(h);
        proof {
            assert(out.deep_view() =~= prev.push(header_of(row0@[i as int], i as int))) by {
                assert forall|k: int| 0 <= k < out@.len() implies out.deep_view()[k] == out@[k]@ by {}
            }
        }
        i = i + 1;
        assert(out.deep_view() =~= headers_of(row0@).take(i as int));
    }
    assert(headers_of(row0@).take(i as int) =~= headers_of(row0@));
    out
}

/// The headers that occur more than once, each reported once, in the order
/// in which each is first seen again.
pub fn find_duplicate_headers(headers: &Vec<String>) -> (r: Vec<String>)
    ensures
        r.deep_view() == duplicates_in(headers.deep_view()),
{
    let ghost hs = headers.deep_view();
    let mut dups: Vec<String> = Vec::new();
    let mut i: usize = 0;
    while i < headers.len()
        invariant
            i <= headers@.len(),
            hs == headers.deep_view(),
            dups.deep_view() == duplicates_in(hs.take(i as int)),
        decreases headers@.len() - i,
    {
        let h = &headers[i];
        let seen = contains_in_prefix(headers, i, h);
        let listed = contains_in_prefix(&dups, dups.len(), h);
        proof {
            let t = hs.take(i as int + 1);
            assert(t.drop_last() =~= hs.take(i as int));
            assert(t.last() == h@);
            assert(dups.deep_view().take(dups@.len() as int) =~= dups.deep_view());
        }
        if seen && !listed {
            dups.push(h.clone());
        }
        i = i + 1;
        assert(dups.deep_view() =~= duplicates_in(hs.take(i as int)));
    }
    assert(hs.take(i as int) =~= hs);
    dups
}

} // verus!

verus! {

/// The headers of a first row, or the names that occur in it more than once.
pub fn resolve_headers(row0: &Vec<RawCell>) -> (r: Result<Vec<String>, DatasetError>)
    ensures
        match r {
            Ok(hs) => hs.deep_view() == headers_of(row0@) && duplicates_in(headers_of(row0@)).len() == 0,
            Err(e) => duplicates_in(headers_of(row0@)).len() > 0
                && e@ == DatasetFault::DuplicateHeaders(duplicates_in(headers_of(row0@))),
        },
{
    let headers = compute_headers_from_first_row(row0);
    let dups = find_duplicate_headers(&headers);
    if dups.len() > 0 {
        Err(DatasetError::DuplicateHeaders(dups))
    } else {
        Ok(headers)
    }
}

/// The names that the duplicate check reports are exactly those that occur
/// at two or more positions, and none is reported twice.
pub proof fn lemma_duplicates_exact(hs: Seq<Seq<char>>)
    ensures
        forall|h: Seq<char>| duplicates_in(hs).contains(h) <==> is_duplicated(hs, h),
        duplicates_in(hs).no_duplicates(),
    decreases hs.len(),
{
    if hs.len() > 0 {
        let init = hs.drop_last();
        let last = hs.last();
        lemma_duplicates_exact(init);
        let prev = duplicates_in(init);
        let d = duplicates_in(hs);
        let added = init.contains(last) && !prev.contains(last);
        assert(added ==> d == prev.push(last));
        assert(!added ==> d == prev);
        assert forall|h: Seq<char>| prev.contains(h) implies d.contains(h) by {
            let k = choose|k: int| 0 <= k < prev.len() && prev[k] == h;
            assert(d[k] == h);
        }
        assert forall|h: Seq<char>| d.contains(h) implies is_duplicated(hs, h) by {
            if prev.contains(h) {
                assert(is_duplicated(init, h));
                let (i, j) = choose|i: int, j: int| 0 <= i < j < init.len() && init[i] == h && init[j] == h;
                assert(hs[i] == h && hs[j] == h);
            } else {
                assert(added);
                let k = choose|k: int| 0 <= k < d.len() && d[k] == h;
                assert(k == prev.len());
                assert(h == last);
                let i = choose|i: int| 0 <= i < init.len() && init[i] == h;
                assert(hs[i] == h && hs[hs.len() - 1] == h);
            }
        }
        assert forall|h: Seq<char>| is_duplicated(hs, h) implies d.contains(h) by {
            let (i, j) = choose|i: int, j: int| 0 <= i < j < hs.len() && hs[i] == h && hs[j] == h;
            if j < hs.len() - 1 {
                assert(init[i] == h && init[j] == h);
                assert(is_duplicated(init, h));
            } else {
                assert(init[i] == h);
                assert(h == last);
                if !prev.contains(h) {
                    assert(d[prev.len() as int] == h);
                }
            }
        }
        if added {
            assert(d.no_duplicates()) by {
                assert forall|a: int, b: int| 0 <= a < b < d.len() implies d[a] != d[b] by {
                    if b == prev.len() {
                        assert(prev[a] == d[a]);
                    }
                }
            }
        }
    }
}

} // verus!
