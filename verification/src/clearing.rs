//! What holds of row clearing: where each row goes, and that clearing the full rows
//! a second time changes nothing.

use vstd::prelude::*;
use crate::cell::Cell;
use crate::grid::{
    lemma_full_rows_below, lemma_kept_rows_len, lemma_marked_between_bounds,
    lemma_without_no_rows, lemma_without_rows_wf, Field,
};

verus! {

/// The row to which row `r` moves when the rows in `marked` are taken out of a field
/// of the given height: down by the number of marked rows beneath it.
pub open spec fn landing_row(marked: Set<int>, height: int, r: int) -> int {
    r + Field::marked_between(marked, r + 1, height)
}

/// Counting marked rows over two adjoining ranges adds up.
pub proof fn lemma_marked_between_split(marked: Set<int>, lo: int, mid: int, hi: int)
    requires
        lo <= mid <= hi,
    ensures
        Field::marked_between(marked, lo, hi) == Field::marked_between(marked, lo, mid)
            + Field::marked_between(marked, mid, hi),
    decreases hi - mid,
{
    if hi > mid {
        lemma_marked_between_split(marked, lo, mid, hi - 1);
    }
}

/// Among the first `n` rows, an unmarked row `r` stands, after the marked ones are
/// dropped, at `r` less the number of marked rows above it.
proof fn lemma_kept_rows_index(field: Field, marked: Set<int>, n: int, r: int)
    requires
        0 <= r < n,
        !marked.contains(r),
    ensures
        0 <= r - Field::marked_between(marked, 0, r) < field.kept_rows(marked, n).len(),
        field.kept_rows(marked, n)[r - Field::marked_between(marked, 0, r)] == field.rows[r],
    decreases n,
{
    lemma_marked_between_bounds(marked, 0, r);
    lemma_kept_rows_len(field, marked, r);
    lemma_kept_rows_len(field, marked, n - 1);
    if r < n - 1 {
        lemma_kept_rows_index(field, marked, n - 1, r);
    }
}

/// Each of the rows that stay is an unmarked row of the field.
proof fn lemma_kept_rows_origin(field: Field, marked: Set<int>, n: int, i: int) -> (r: int)
    requires
        0 <= i < field.kept_rows(marked, n).len(),
    ensures
        0 <= r < n,
        !marked.contains(r),
        field.kept_rows(marked, n)[i] == field.rows[r],
    decreases n,
{
    if n <= 0 {
        0
    } else if marked.contains(n - 1) {
        lemma_kept_rows_origin(field, marked, n - 1, i)
    } else if i < field.kept_rows(marked, n - 1).len() {
        lemma_kept_rows_origin(field, marked, n - 1, i)
    } else {
        n - 1
    }
}

/// Clearing moves every row that stays down by the number of cleared rows beneath
/// it and leaves the row itself, square by square, as it was.
pub proof fn law_cleared_row_lands(field: Field, marked: Set<int>, r: int)
    requires
        field.wf(),
        0 <= r < field.height(),
        !marked.contains(r),
    ensures
        r <= landing_row(marked, field.height(), r) < field.height(),
        field.without_rows(marked).rows[landing_row(marked, field.height(), r)] == field.rows[r],
{
    let height = field.height();
    lemma_kept_rows_index(field, marked, height, r);
    lemma_kept_rows_len(field, marked, height);
    lemma_marked_between_split(marked, 0, r, height);
    lemma_marked_between_split(marked, r, r + 1, height);
    lemma_marked_between_bounds(marked, r + 1, height);
    lemma_marked_between_bounds(marked, 0, height);
    assert(Field::marked_between(marked, r, r + 1) == 0) by {
        assert(Field::marked_between(marked, r, r) == 0);
    }
}

/// Clearing keeps the rows that stay in their vertical order: of two such rows the
/// upper one lands above the lower one.
pub proof fn law_clearing_keeps_order(field: Field, marked: Set<int>, upper: int, lower: int)
    requires
        field.wf(),
        0 <= upper < lower < field.height(),
        !marked.contains(upper),
        !marked.contains(lower),
    ensures
        landing_row(marked, field.height(), upper) < landing_row(marked, field.height(), lower),
        field.without_rows(marked).rows[landing_row(marked, field.height(), upper)]
            == field.rows[upper],
        field.without_rows(marked).rows[landing_row(marked, field.height(), lower)]
            == field.rows[lower],
{
    let height = field.height();
    law_cleared_row_lands(field, marked, upper);
    law_cleared_row_lands(field, marked, lower);
    lemma_marked_between_split(marked, upper + 1, lower + 1, height);
    lemma_marked_between_bounds(marked, upper + 1, lower + 1);
    lemma_marked_between_split(marked, upper + 1, lower, lower + 1);
    lemma_marked_between_bounds(marked, upper + 1, lower);
    assert(Field::marked_between(marked, lower, lower + 1) == 0);
}

/// Clearing leaves as many empty rows at the top as rows were taken out.
pub proof fn law_cleared_top_is_empty(field: Field, marked: Set<int>, i: int)
    requires
        field.wf(),
        0 <= i < Field::marked_between(marked, 0, field.height()),
    ensures
        field.without_rows(marked).rows[i] == Field::blank_row(field.width),
{
    lemma_kept_rows_len(field, marked, field.height());
}

/// A field with no full row has an empty list of full rows.
proof fn lemma_no_full_rows(field: Field, n: int)
    requires
        0 <= n,
        forall|r: int| 0 <= r < n ==> !field.row_full(r),
    ensures
        field.full_rows_below(n) == Seq::<int>::empty(),
    decreases n,
{
    if n > 0 {
        lemma_no_full_rows(field, n - 1);
    }
}

/// After the full rows of a field with at least one column are cleared, no row is
/// full: clearing the full rows again takes out nothing and leaves the field as it
/// is.
pub proof fn law_clearing_is_idempotent(field: Field)
    requires
        field.wf(),
        field.width > 0,
    ensures
        field.without_full_rows().full_rows().len() == 0,
        field.without_full_rows().without_full_rows() == field.without_full_rows(),
{
    let marked = field.full_rows().to_set();
    let cleared = field.without_full_rows();
    let height = field.height();
    let kept = field.kept_rows(marked, height);
    lemma_without_rows_wf(field, marked);
    lemma_kept_rows_len(field, marked, height);
    lemma_full_rows_below(field, height);
    assert forall|i: int| 0 <= i < height implies !cleared.row_full(i) by {
        if i < height - kept.len() {
            assert(cleared.rows[i][0] == Cell::Empty);
        } else {
            let r = lemma_kept_rows_origin(field, marked, height, i - (height - kept.len()));
            assert(cleared.rows[i] == field.rows[r]);
            assert(!field.row_full(r));
        }
    }
    lemma_no_full_rows(cleared, height);
    assert forall|r: int| 0 <= r < cleared.height() implies !cleared.full_rows().to_set().contains(
        r,
    ) by {}
    lemma_without_no_rows(cleared, cleared.full_rows().to_set());
}

} // verus!
