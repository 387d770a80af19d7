//! Putting dated rows in the order of their dates.
//!
//! Dates are compared as texts. Rows of the same date stay in the order in
//! which they came.

use crate::text::{
    lemma_text_le_reflexive, lemma_text_le_total, lemma_text_le_transitive, precedes_or_equals,
    text_le,
};
use vstd::seq_lib::to_multiset_build;
use vstd::prelude::*;

verus! {

/// A row that carries a date as text.
pub trait Dated {
    /// The date of the row.
    spec fn date_text(&self) -> Seq<char>;

    /// The date of the row.
    fn date(&self) -> (text: &str)
        ensures
            text@ == self.date_text(),
    ;
}

/// Whether `first` may not stand before `second`: its date is later when the
/// earliest date goes first, earlier when the latest goes first.
pub open spec fn misplaced<T: Dated>(first: T, second: T, latest_first: bool) -> bool {
    if latest_first {
        !text_le(second.date_text(), first.date_text())
    } else {
        !text_le(first.date_text(), second.date_text())
    }
}

/// `sorted` with `row` put behind the last row that may stand before it.
pub open spec fn inserted<T: Dated>(sorted: Seq<T>, row: T, latest_first: bool) -> Seq<T>
    decreases sorted.len(),
{
    if sorted.len() > 0 && misplaced(sorted.last(), row, latest_first) {
        inserted(sorted.drop_last(), row, latest_first).push(sorted.last())
    } else {
        sorted.push(row)
    }
}

/// `rows` in the order of their dates, from the earliest or, with
/// `latest_first`, from the latest; rows of one date in the order in which
/// they stand in `rows`. It is built by taking up the rows one after another.
pub open spec fn sorted_by_date<T: Dated>(rows: Seq<T>, latest_first: bool) -> Seq<T>
    decreases rows.len(),
{
    if rows.len() == 0 {
        rows
    } else {
        inserted(sorted_by_date(rows.drop_last(), latest_first), rows.last(), latest_first)
    }
}

/// Where `row` goes into `sorted`: behind position `at`, if every row from
/// there on may not stand before it and the row before `at` may.
proof fn lemma_inserted_at<T: Dated>(sorted: Seq<T>, row: T, at: int, latest_first: bool)
    requires
        0 <= at <= sorted.len(),
        forall|k: int| at <= k < sorted.len() ==> misplaced(sorted[k], row, latest_first),
        at > 0 ==> !misplaced(sorted[at - 1], row, latest_first),
    ensures
        inserted(sorted, row, latest_first) == sorted.subrange(0, at).push(row) + sorted.subrange(
            at,
            sorted.len() as int,
        ),
    decreases sorted.len() - at,
{
    if at == sorted.len() {
        assert(sorted.subrange(0, at) == sorted);
    } else {
        let shorter = sorted.drop_last();
        lemma_inserted_at(shorter, row, at, latest_first);
        assert(shorter.subrange(0, at) == sorted.subrange(0, at));
        assert(shorter.subrange(at, shorter.len() as int).push(sorted.last()) == sorted.subrange(
            at,
            sorted.len() as int,
        ));
    }
}

/// Whether `first` may not stand before `second`.
fn is_misplaced<T: Dated>(first: &T, second: &T, latest_first: bool) -> (answer: bool)
    ensures
        answer == misplaced(*first, *second, latest_first),
{
    if latest_first {
        !precedes_or_equals(second.date(), first.date())
    } else {
        !precedes_or_equals(first.date(), second.date())
    }
}

/// Puts `rows` in the order of their dates.
pub fn sort_by_date<T: Dated>(rows: Vec<T>, latest_first: bool) -> (out: Vec<T>)
    ensures
        out@ == sorted_by_date(rows@, latest_first),
{
    let mut out = rows;
    let ghost given = out@;
    let n = out.len();
    let mut i: usize = 0;
    assert(out@.subrange(0, 0) == sorted_by_date(given.subrange(0, 0), latest_first));
    while i < n
        invariant
            i <= n,
            n == given.len(),
            out@.len() == n,
            out@.subrange(0, i as int) == sorted_by_date(given.subrange(0, i as int), latest_first),
            out@.subrange(i as int, n as int) == given.subrange(i as int, n as int),
        decreases n - i,
    {
        let ghost before = out@;
        let ghost done = before.subrange(0, i as int);
        let row = out.remove(i);
        assert(row == given[i as int]) by {
            assert(before.subrange(i as int, n as int)[0] == given.subrange(i as int, n as int)[0]);
        }
        let mut at: usize = i;
        while at > 0 && is_misplaced(&out[at - 1], &row, latest_first)
            invariant
                at <= i,
                i < n,
                out@.len() == n - 1,
                out@.subrange(0, i as int) == done,
                forall|k: int| at <= k < i ==> misplaced(done[k], row, latest_first),
            decreases at,
        {
            assert(out@[at - 1] == out@.subrange(0, i as int)[at - 1]);
            at = at - 1;
        }
        proof {
            if at > 0 {
                assert(out@[at - 1] == out@.subrange(0, i as int)[at - 1]);
            }
            lemma_inserted_at(done, row, at as int, latest_first);
        }
        let ghost removed = out@;
        out.insert(at, row);
        proof {
            assert(given.subrange(0, i + 1).drop_last() == given.subrange(0, i as int));
            assert(given.subrange(0, i + 1).last() == row);
            let placed = out@.subrange(0, i + 1);
            let wanted = done.subrange(0, at as int).push(row) + done.subrange(at as int, i as int);
            assert(placed == wanted) by {
                assert(removed.subrange(0, i as int) == done);
                assert forall|k: int| 0 <= k < placed.len() implies placed[k] == wanted[k] by {
                    if k < at {
                        assert(removed[k] == removed.subrange(0, i as int)[k]);
                    } else if k > at {
                        assert(removed[k - 1] == removed.subrange(0, i as int)[k - 1]);
                    }
                }
            }
            let rest = out@.subrange(i + 1, n as int);
            let rest_given = given.subrange(i + 1, n as int);
            assert(rest == rest_given) by {
                assert forall|k: int| 0 <= k < rest.len() implies rest[k] == rest_given[k] by {
                    assert(before.subrange(i as int, n as int)[k + 1] == given.subrange(
                        i as int,
                        n as int,
                    )[k + 1]);
                }
            }
        }
        i = i + 1;
    }
    assert(out@.subrange(0, n as int) == out@);
    assert(given.subrange(0, n as int) == given);
    out
}

/// Whether no row of `rows` stands before one that it may not stand before.
pub open spec fn in_date_order<T: Dated>(rows: Seq<T>, latest_first: bool) -> bool {
    forall|i: int, j: int|
        0 <= i < j < rows.len() ==> !misplaced(#[trigger] rows[i], #[trigger] rows[j], latest_first)
}

/// The rows of `rows` that carry the date `date`, in the order in which they
/// stand in `rows`.
pub open spec fn rows_dated<T: Dated>(rows: Seq<T>, date: Seq<char>) -> Seq<T>
    decreases rows.len(),
{
    if rows.len() == 0 {
        rows
    } else if rows.last().date_text() == date {
        rows_dated(rows.drop_last(), date).push(rows.last())
    } else {
        rows_dated(rows.drop_last(), date)
    }
}

/// The position behind which `row` goes into `sorted`.
pub open spec fn insertion_point<T: Dated>(sorted: Seq<T>, row: T, latest_first: bool) -> int
    decreases sorted.len(),
{
    if sorted.len() > 0 && misplaced(sorted.last(), row, latest_first) {
        insertion_point(sorted.drop_last(), row, latest_first)
    } else {
        sorted.len() as int
    }
}

/// `inserted` puts the row at the insertion point and moves nothing else.
pub proof fn lemma_inserted_at_point<T: Dated>(sorted: Seq<T>, row: T, latest_first: bool)
    ensures
        ({
            let at = insertion_point(sorted, row, latest_first);
            &&& 0 <= at <= sorted.len()
            &&& inserted(sorted, row, latest_first) == sorted.subrange(0, at).push(row)
                + sorted.subrange(at, sorted.len() as int)
            &&& forall|k: int| at <= k < sorted.len() ==> misplaced(sorted[k], row, latest_first)
            &&& at > 0 ==> !misplaced(sorted[at - 1], row, latest_first)
        }),
    decreases sorted.len(),
{
    let at = insertion_point(sorted, row, latest_first);
    if sorted.len() > 0 && misplaced(sorted.last(), row, latest_first) {
        lemma_inserted_at_point(sorted.drop_last(), row, latest_first);
        assert forall|k: int| at <= k < sorted.len() implies misplaced(
            sorted[k],
            row,
            latest_first,
        ) by {
            if k < sorted.len() - 1 {
                assert(sorted[k] == sorted.drop_last()[k]);
            }
        }
        if at > 0 {
            assert(sorted[at - 1] == sorted.drop_last()[at - 1]);
        }
    }
    lemma_inserted_at(sorted, row, at, latest_first);
}

/// Sorting keeps every row, as often as it occurs, and adds none.
pub proof fn lemma_sorted_keeps_rows<T: Dated>(rows: Seq<T>, latest_first: bool)
    ensures
        sorted_by_date(rows, latest_first).to_multiset() == rows.to_multiset(),
        sorted_by_date(rows, latest_first).len() == rows.len(),
    decreases rows.len(),
{
    if rows.len() > 0 {
        let shorter = rows.drop_last();
        let sorted = sorted_by_date(shorter, latest_first);
        lemma_sorted_keeps_rows(shorter, latest_first);
        lemma_inserted_keeps_rows(sorted, rows.last(), latest_first);
        to_multiset_build(shorter, rows.last());
        assert(shorter.push(rows.last()) == rows);
    }
}

/// Inserting a row adds that row and nothing else.
pub proof fn lemma_inserted_keeps_rows<T: Dated>(sorted: Seq<T>, row: T, latest_first: bool)
    ensures
        inserted(sorted, row, latest_first).to_multiset() == sorted.to_multiset().insert(row),
        inserted(sorted, row, latest_first).len() == sorted.len() + 1,
    decreases sorted.len(),
{
    if sorted.len() > 0 && misplaced(sorted.last(), row, latest_first) {
        let shorter = sorted.drop_last();
        lemma_inserted_keeps_rows(shorter, row, latest_first);
        to_multiset_build(inserted(shorter, row, latest_first), sorted.last());
        to_multiset_build(shorter, sorted.last());
        assert(shorter.push(sorted.last()) == sorted);
        assert(shorter.to_multiset().insert(row).insert(sorted.last())
            == shorter.to_multiset().insert(sorted.last()).insert(row));
    } else {
        to_multiset_build(sorted, row);
    }
}

/// After sorting no row stands before one of an earlier date or, with
/// `latest_first`, of a later one.
pub proof fn lemma_sorted_in_date_order<T: Dated>(rows: Seq<T>, latest_first: bool)
    ensures
        in_date_order(sorted_by_date(rows, latest_first), latest_first),
    decreases rows.len(),
{
    if rows.len() > 0 {
        let sorted = sorted_by_date(rows.drop_last(), latest_first);
        let row = rows.last();
        lemma_sorted_in_date_order(rows.drop_last(), latest_first);
        lemma_inserted_at_point(sorted, row, latest_first);
        let at = insertion_point(sorted, row, latest_first);
        let out = inserted(sorted, row, latest_first);
        assert(out.len() == sorted.len() + 1);
        assert forall|i: int, j: int| 0 <= i < j < out.len() implies !misplaced(
            #[trigger] out[i],
            #[trigger] out[j],
            latest_first,
        ) by {
            let a = out[i];
            let b = out[j];
            if j < at {
                assert(a == sorted[i] && b == sorted[j]);
            } else if j == at {
                assert(a == sorted[i] && b == row);
                if i < at - 1 {
                    assert(!misplaced(sorted[i], sorted[at - 1], latest_first));
                    if latest_first {
                        lemma_text_le_transitive(
                            row.date_text(),
                            sorted[at - 1].date_text(),
                            a.date_text(),
                        );
                    } else {
                        lemma_text_le_transitive(
                            a.date_text(),
                            sorted[at - 1].date_text(),
                            row.date_text(),
                        );
                    }
                }
            } else if i == at {
                assert(a == row && b == sorted[j - 1]);
                lemma_text_le_total(a.date_text(), b.date_text());
            } else if i < at {
                assert(a == sorted[i] && b == sorted[j - 1]);
            } else {
                assert(a == sorted[i - 1] && b == sorted[j - 1]);
            }
        }
    }
}

/// Inserting a row puts it behind the rows of its own date and leaves the
/// rows of every date in their order.
pub proof fn lemma_inserted_is_stable<T: Dated>(
    sorted: Seq<T>,
    row: T,
    latest_first: bool,
    date: Seq<char>,
)
    ensures
        rows_dated(inserted(sorted, row, latest_first), date) == if row.date_text() == date {
            rows_dated(sorted, date).push(row)
        } else {
            rows_dated(sorted, date)
        },
    decreases sorted.len(),
{
    if sorted.len() > 0 && misplaced(sorted.last(), row, latest_first) {
        let shorter = sorted.drop_last();
        let last = sorted.last();
        lemma_inserted_is_stable(shorter, row, latest_first, date);
        let put = inserted(shorter, row, latest_first);
        assert(put.push(last).drop_last() == put);
        assert(put.push(last).last() == last);
        lemma_text_le_reflexive(last.date_text());
    } else {
        assert(sorted.push(row).drop_last() == sorted);
    }
}

/// Sorting is stable: the rows of one date stand in the order in which they
/// came.
pub proof fn lemma_sorted_is_stable<T: Dated>(rows: Seq<T>, latest_first: bool, date: Seq<char>)
    ensures
        rows_dated(sorted_by_date(rows, latest_first), date) == rows_dated(rows, date),
    decreases rows.len(),
{
    if rows.len() > 0 {
        lemma_sorted_is_stable(rows.drop_last(), latest_first, date);
        lemma_inserted_is_stable(
            sorted_by_date(rows.drop_last(), latest_first),
            rows.last(),
            latest_first,
            date,
        );
    }
}

/// Two rows of the same dates go to the same place in two sequences that
/// carry the same dates position by position.
proof fn lemma_insertion_point_alike<A: Dated, B: Dated>(
    xs: Seq<A>,
    x: A,
    ys: Seq<B>,
    y: B,
    latest_first: bool,
)
    requires
        xs.len() == ys.len(),
        forall|i: int| 0 <= i < xs.len() ==> xs[i].date_text() == ys[i].date_text(),
        x.date_text() == y.date_text(),
    ensures
        insertion_point(xs, x, latest_first) == insertion_point(ys, y, latest_first),
    decreases xs.len(),
{
    if xs.len() > 0 {
        assert(xs.last().date_text() == ys.last().date_text());
        if misplaced(xs.last(), x, latest_first) {
            lemma_insertion_point_alike(xs.drop_last(), x, ys.drop_last(), y, latest_first);
        }
    }
}

/// Sorting goes by the dates alone: two sequences that carry the same dates
/// position by position are rearranged alike, so that rows which stood at
/// one position before stand at one position after.
pub proof fn lemma_sorted_alike<A: Dated, B: Dated>(
    xs: Seq<A>,
    ys: Seq<B>,
    latest_first: bool,
    paired: spec_fn(A, B) -> bool,
)
    requires
        xs.len() == ys.len(),
        forall|i: int| 0 <= i < xs.len() ==> paired(xs[i], ys[i]),
        forall|a: A, b: B| #[trigger] paired(a, b) ==> a.date_text() == b.date_text(),
    ensures
        sorted_by_date(xs, latest_first).len() == xs.len(),
        sorted_by_date(ys, latest_first).len() == xs.len(),
        forall|i: int|
            0 <= i < xs.len() ==> paired(
                sorted_by_date(xs, latest_first)[i],
                sorted_by_date(ys, latest_first)[i],
            ),
    decreases xs.len(),
{
    if xs.len() > 0 {
        let sx = sorted_by_date(xs.drop_last(), latest_first);
        let sy = sorted_by_date(ys.drop_last(), latest_first);
        assert forall|i: int| 0 <= i < xs.len() - 1 implies paired(
            xs.drop_last()[i],
            ys.drop_last()[i],
        ) by {
            assert(paired(xs[i], ys[i]));
        }
        lemma_sorted_alike(xs.drop_last(), ys.drop_last(), latest_first, paired);
        assert(paired(xs.last(), ys.last()));
        assert forall|i: int| 0 <= i < sx.len() implies sx[i].date_text() == sy[i].date_text() by {
            assert(paired(sx[i], sy[i]));
        }
        lemma_insertion_point_alike(sx, xs.last(), sy, ys.last(), latest_first);
        lemma_inserted_at_point(sx, xs.last(), latest_first);
        lemma_inserted_at_point(sy, ys.last(), latest_first);
        let at = insertion_point(sx, xs.last(), latest_first);
        let ox = sorted_by_date(xs, latest_first);
        let oy = sorted_by_date(ys, latest_first);
        assert forall|i: int| 0 <= i < xs.len() implies paired(ox[i], oy[i]) by {
            if i < at {
                assert(paired(sx[i], sy[i]));
            } else if i > at {
                assert(paired(sx[i - 1], sy[i - 1]));
            }
        }
    }
}

} // verus!
