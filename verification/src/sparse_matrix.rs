//! A mutable sparse-matrix builder keyed by `(row, column)`.
//!
//! The builder holds its entries as an association list kept strictly
//! sorted in column-major key order, so the keys are unique by
//! construction and compaction into compressed-column form is a single
//! pass.  The invariant-bearing compressed type stays always valid: the
//! builder is a separate stage, and only its compaction hands data over.

use vstd::prelude::*;
use vstd::pervasive::VecAdditionalExecFns;

use crate::MAX_INDEX;
use crate::comp_col::CompColMatrix;
use crate::comp_col::{offsets_nondecreasing, valid_layout};
use crate::value_type::ValueType;

verus! {

/// Column-major key order: `(r1, c1)` sorts before `(r2, c2)`.
pub open spec fn key_before(r1: int, c1: int, r2: int, c2: int) -> bool {
    c1 < c2 || (c1 == c2 && r1 < r2)
}

/// Adjacent entries strictly ascend in column-major key order.
pub open spec fn entries_sorted<T>(es: Seq<(usize, usize, T)>) -> bool {
    forall|k: int|
        0 <= k < es.len() - 1 ==> key_before(
            (#[trigger] es[k]).0 as int,
            es[k].1 as int,
            es[k + 1].0 as int,
            es[k + 1].1 as int,
        )
}

/// Strict ascent between neighbours extends to any two entry positions.
pub proof fn lemma_entries_sorted_pairwise<T>(es: Seq<(usize, usize, T)>, k1: int, k2: int)
    requires
        entries_sorted(es),
        0 <= k1 < k2 < es.len(),
    ensures
        key_before(es[k1].0 as int, es[k1].1 as int, es[k2].0 as int, es[k2].1 as int),
    decreases k2 - k1,
{
    if k1 + 1 < k2 {
        lemma_entries_sorted_pairwise(es, k1, k2 - 1);
        assert(key_before(
            es[k2 - 1].0 as int,
            es[k2 - 1].1 as int,
            es[k2].0 as int,
            es[k2].1 as int,
        ));
    }
}

/// A sparse matrix under construction, written one `(row, column)` value
/// at a time.
#[derive(Debug)]
pub struct SparseMatrix<T> {
    num_rows: usize,
    num_cols: usize,
    entries: Vec<(usize, usize, T)>,
}

impl<T> SparseMatrix<T> {
    /// The number of rows.
    pub closed spec fn num_rows_spec(self) -> int {
        self.num_rows as int
    }

    /// The number of columns.
    pub closed spec fn num_cols_spec(self) -> int {
        self.num_cols as int
    }

    /// The stored entries, in column-major key order.
    pub closed spec fn entries_seq(self) -> Seq<(usize, usize, T)> {
        self.entries@
    }

    /// The builder invariant: positive bounded dimensions, every entry in
    /// range, and the entries strictly sorted by `(column, row)`.
    pub open spec fn wf(self) -> bool {
        &&& 1 <= self.num_rows_spec() <= MAX_INDEX as int
        &&& 1 <= self.num_cols_spec() <= MAX_INDEX as int
        &&& self.entries_seq().len() <= MAX_INDEX as int
        &&& entries_sorted(self.entries_seq())
        &&& forall|k: int|
            0 <= k < self.entries_seq().len() ==> (#[trigger] self.entries_seq()[k]).0
                < self.num_rows_spec() && self.entries_seq()[k].1 < self.num_cols_spec()
    }

    /// Entry `k` holds the value keyed `(r, c)`.
    pub open spec fn entry_with(self, k: int, r: int, c: int) -> bool {
        &&& 0 <= k < self.entries_seq().len()
        &&& self.entries_seq()[k].0 as int == r
        &&& self.entries_seq()[k].1 as int == c
    }

    /// Some entry is keyed `(r, c)`.
    pub open spec fn contains_key(self, r: int, c: int) -> bool {
        exists|k: int| self.entry_with(k, r, c)
    }

    /// The value stored at `(r, c)`, or nothing where the position is
    /// vacant.
    pub open spec fn get(self, r: int, c: int) -> Option<T> {
        if self.contains_key(r, c) {
            Some(self.entries_seq()[choose|k: int| self.entry_with(k, r, c)].2)
        } else {
            None
        }
    }

    /// At most one entry can carry a given key.
    pub proof fn lemma_key_unique(self, k1: int, k2: int, r: int, c: int)
        requires
            self.wf(),
            self.entry_with(k1, r, c),
            self.entry_with(k2, r, c),
        ensures
            k1 == k2,
    {
        if k1 < k2 {
            lemma_entries_sorted_pairwise(self.entries_seq(), k1, k2);
        } else if k2 < k1 {
            lemma_entries_sorted_pairwise(self.entries_seq(), k2, k1);
        }
    }

    /// Create an empty builder for a matrix of the given dimensions.
    pub fn new(num_rows: usize, num_cols: usize) -> (r: Self)
        requires
            1 <= num_rows <= MAX_INDEX,
            1 <= num_cols <= MAX_INDEX,
        ensures
            r.wf(),
            r.num_rows_spec() == num_rows as int,
            r.num_cols_spec() == num_cols as int,
            r.entries_seq().len() == 0,
            forall|rr: int, cc: int| !r.contains_key(rr, cc),
    {
        let m = SparseMatrix { num_rows, num_cols, entries: Vec::new() };
        proof {
            assert forall|rr: int, cc: int| !m.contains_key(rr, cc) by {
                if m.contains_key(rr, cc) {
                    let k = choose|k: int| m.entry_with(k, rr, cc);
                    assert(false);
                }
            }
        }
        m
    }

    /// The number of rows.
    pub fn num_rows(&self) -> (r: usize)
        ensures
            r == self.num_rows_spec(),
    {
        self.num_rows
    }

    /// The number of columns.
    pub fn num_columns(&self) -> (r: usize)
        ensures
            r == self.num_cols_spec(),
    {
        self.num_cols
    }

    /// How many positions currently hold a value.
    pub fn num_non_zeros(&self) -> (r: usize)
        ensures
            r == self.entries_seq().len(),
    {
        self.entries.len()
    }

    /// Read-only view of the stored entries, in column-major key order.
    pub fn entries(&self) -> (r: &Vec<(usize, usize, T)>)
        ensures
            r@ == self.entries_seq(),
    {
        &self.entries
    }
}

impl<T> SparseMatrix<T> {
    /// Store `value` at `(row, col)`, replacing any value already there.
    ///
    /// Every other position keeps exactly the value it had.
    #[verifier::rlimit(60)]
    pub fn set_value(&mut self, row: usize, col: usize, value: T)
        requires
            old(self).wf(),
            row < old(self).num_rows_spec(),
            col < old(self).num_cols_spec(),
            old(self).contains_key(row as int, col as int) || old(self).entries_seq().len()
                < MAX_INDEX as int,
        ensures
            final(self).wf(),
            final(self).num_rows_spec() == old(self).num_rows_spec(),
            final(self).num_cols_spec() == old(self).num_cols_spec(),
            final(self).contains_key(row as int, col as int),
            final(self).get(row as int, col as int) == Some(value),
            forall|r: int, c: int|
                !(r == row as int && c == col as int) ==> final(self).contains_key(r, c)
                    == old(self).contains_key(r, c),
            forall|r: int, c: int|
                !(r == row as int && c == col as int) ==> final(self).get(r, c) == old(
                    self,
                ).get(r, c),
    {
        let ghost es_old = self.entries@;
        let mut k: usize = 0;
        while k < self.entries.len() && (self.entries[k].1 < col || (self.entries[k].1 == col
            && self.entries[k].0 < row))
            invariant
                self == old(self),
                es_old == self.entries@,
                k <= es_old.len(),
                forall|kk: int|
                    0 <= kk < k ==> key_before(
                        (#[trigger] es_old[kk]).0 as int,
                        es_old[kk].1 as int,
                        row as int,
                        col as int,
                    ),
            decreases es_old.len() - k,
        {
            proof {
                assert(key_before(
                    es_old[k as int].0 as int,
                    es_old[k as int].1 as int,
                    row as int,
                    col as int,
                ));
            }
            k += 1;
        }
        if k < self.entries.len() && self.entries[k].0 == row && self.entries[k].1 == col {
            self.entries.set(k, (row, col, value));
            proof {
                let es_new = self.entries@;
                assert(es_new == es_old.update(k as int, (row, col, value)));
                assert forall|kk: int| 0 <= kk < es_new.len() - 1 implies key_before(
                    (#[trigger] es_new[kk]).0 as int,
                    es_new[kk].1 as int,
                    es_new[kk + 1].0 as int,
                    es_new[kk + 1].1 as int,
                ) by {
                    assert(key_before(
                        es_old[kk].0 as int,
                        es_old[kk].1 as int,
                        es_old[kk + 1].0 as int,
                        es_old[kk + 1].1 as int,
                    ));
                }
                self.lemma_set_value_overwrite(*old(self), k as int, row as int, col as int, value);
            }
        } else {
            proof {
                if k < es_old.len() {
                    assert(!key_before(
                        es_old[k as int].0 as int,
                        es_old[k as int].1 as int,
                        row as int,
                        col as int,
                    ));
                }
                if old(self).contains_key(row as int, col as int) {
                    let kk = choose|kk: int| old(self).entry_with(kk, row as int, col as int);
                    if kk < k {
                        assert(key_before(row as int, col as int, row as int, col as int));
                    } else if kk > k {
                        lemma_entries_sorted_pairwise(es_old, k as int, kk);
                    }
                    assert(false);
                }
            }
            self.entries.insert(k, (row, col, value));
            proof {
                es_old.insert_ensures(k as int, (row, col, value));
                self.lemma_set_value_insert(*old(self), k as int, row as int, col as int, value);
            }
        }
    }

    /// After an in-place overwrite of the entry at position `k`, every key
    /// maps exactly as before except the overwritten one.
    proof fn lemma_set_value_overwrite(
        self,
        prev: Self,
        k: int,
        row: int,
        col: int,
        value: T,
    )
        requires
            prev.wf(),
            0 <= k < prev.entries_seq().len(),
            prev.entries_seq()[k].0 as int == row,
            prev.entries_seq()[k].1 as int == col,
            self.num_rows_spec() == prev.num_rows_spec(),
            self.num_cols_spec() == prev.num_cols_spec(),
            self.entries_seq() == prev.entries_seq().update(k, (row as usize, col as usize, value)),
            entries_sorted(self.entries_seq()),
        ensures
            self.wf(),
            self.contains_key(row, col),
            self.get(row, col) == Some(value),
            forall|r: int, c: int|
                !(r == row && c == col) ==> self.contains_key(r, c) == prev.contains_key(r, c),
            forall|r: int, c: int|
                !(r == row && c == col) ==> self.get(r, c) == prev.get(r, c),
    {
        let es_new = self.entries_seq();
        let es_old = prev.entries_seq();
        assert(row < prev.num_rows_spec() && col < prev.num_cols_spec());
        assert(forall|kk: int|
            0 <= kk < es_new.len() && kk != k ==> es_new[kk] == #[trigger] es_old[kk]);
        assert(self.wf());
        assert(self.entry_with(k, row, col));
        let kc = choose|kk: int| self.entry_with(kk, row, col);
        self.lemma_key_unique(kc, k, row, col);
        assert(self.get(row, col) == Some(value));
        assert forall|r: int, c: int| !(r == row && c == col) implies self.contains_key(r, c)
            == prev.contains_key(r, c) by {
            if self.contains_key(r, c) {
                let kk = choose|kk: int| self.entry_with(kk, r, c);
                assert(kk != k);
                assert(prev.entry_with(kk, r, c));
            }
            if prev.contains_key(r, c) {
                let kk = choose|kk: int| prev.entry_with(kk, r, c);
                prev.lemma_key_unique(kk, kk, r, c);
                if kk == k {
                    assert(r == row && c == col);
                }
                assert(self.entry_with(kk, r, c));
            }
        }
        assert forall|r: int, c: int| !(r == row && c == col) implies self.get(r, c)
            == prev.get(r, c) by {
            if self.contains_key(r, c) {
                let kn = choose|kk: int| self.entry_with(kk, r, c);
                assert(kn != k);
                assert(prev.entry_with(kn, r, c));
                let ko = choose|kk: int| prev.entry_with(kk, r, c);
                prev.lemma_key_unique(kn, ko, r, c);
            }
        }
    }

    /// After inserting a fresh entry at position `k`, the new key maps to
    /// the new value and every other key maps exactly as before.
    proof fn lemma_set_value_insert(
        self,
        prev: Self,
        k: int,
        row: int,
        col: int,
        value: T,
    )
        requires
            prev.wf(),
            prev.entries_seq().len() < MAX_INDEX as int,
            0 <= k <= prev.entries_seq().len(),
            0 <= row < prev.num_rows_spec(),
            0 <= col < prev.num_cols_spec(),
            forall|kk: int|
                0 <= kk < k ==> key_before(
                    (#[trigger] prev.entries_seq()[kk]).0 as int,
                    prev.entries_seq()[kk].1 as int,
                    row,
                    col,
                ),
            k < prev.entries_seq().len() ==> key_before(
                row,
                col,
                prev.entries_seq()[k].0 as int,
                prev.entries_seq()[k].1 as int,
            ),
            self.num_rows_spec() == prev.num_rows_spec(),
            self.num_cols_spec() == prev.num_cols_spec(),
            self.entries_seq() == prev.entries_seq().insert(k, (row as usize, col as usize, value)),
        ensures
            self.wf(),
            self.contains_key(row, col),
            self.get(row, col) == Some(value),
            forall|r: int, c: int|
                !(r == row && c == col) ==> self.contains_key(r, c) == prev.contains_key(r, c),
            forall|r: int, c: int|
                !(r == row && c == col) ==> self.get(r, c) == prev.get(r, c),
    {
        let es_new = self.entries_seq();
        let es_old = prev.entries_seq();
        es_old.insert_ensures(k, (row as usize, col as usize, value));
        assert(es_new.len() == es_old.len() + 1);
        assert forall|kk: int| 0 <= kk < es_new.len() - 1 implies key_before(
            (#[trigger] es_new[kk]).0 as int,
            es_new[kk].1 as int,
            es_new[kk + 1].0 as int,
            es_new[kk + 1].1 as int,
        ) by {
            if kk + 1 < k {
                assert(es_new[kk] == es_old[kk] && es_new[kk + 1] == es_old[kk + 1]);
            } else if kk + 1 == k {
                assert(es_new[kk] == es_old[kk] && es_new[kk + 1] == (row as usize, col as usize,
                value));
            } else if kk == k {
                assert(es_new[kk + 1] == es_old[kk]);
            } else {
                assert(es_new[kk] == es_old[kk - 1] && es_new[kk + 1] == es_old[kk]);
            }
        }
        assert forall|kk: int| 0 <= kk < es_new.len() implies (#[trigger] es_new[kk]).0
            < self.num_rows_spec() && es_new[kk].1 < self.num_cols_spec() by {
            if kk < k {
                assert(es_new[kk] == es_old[kk]);
            } else if kk > k {
                assert(es_new[kk] == es_old[kk - 1]);
            }
        }
        assert(self.wf());
        assert(self.entry_with(k, row, col));
        let kc = choose|kk: int| self.entry_with(kk, row, col);
        self.lemma_key_unique(kc, k, row, col);
        assert forall|r: int, c: int| !(r == row && c == col) implies self.contains_key(r, c)
            == prev.contains_key(r, c) by {
            if self.contains_key(r, c) {
                let kk = choose|kk: int| self.entry_with(kk, r, c);
                assert(kk != k);
                if kk < k {
                    assert(es_new[kk] == es_old[kk]);
                    assert(prev.entry_with(kk, r, c));
                } else {
                    assert(es_new[kk] == es_old[kk - 1]);
                    assert(prev.entry_with(kk - 1, r, c));
                }
            }
            if prev.contains_key(r, c) {
                let kk = choose|kk: int| prev.entry_with(kk, r, c);
                if kk < k {
                    assert(es_new[kk] == es_old[kk]);
                    assert(self.entry_with(kk, r, c));
                } else {
                    assert(es_new[kk + 1] == es_old[kk]);
                    assert(self.entry_with(kk + 1, r, c));
                }
            }
        }
        assert forall|r: int, c: int| !(r == row && c == col) implies self.get(r, c)
            == prev.get(r, c) by {
            if self.contains_key(r, c) {
                let kn = choose|kk: int| self.entry_with(kk, r, c);
                assert(kn != k);
                let ko = choose|kk: int| prev.entry_with(kk, r, c);
                if kn < k {
                    assert(es_new[kn] == es_old[kn]);
                    assert(prev.entry_with(kn, r, c));
                    prev.lemma_key_unique(kn, ko, r, c);
                } else {
                    assert(es_new[kn] == es_old[kn - 1]);
                    assert(prev.entry_with(kn - 1, r, c));
                    prev.lemma_key_unique(kn - 1, ko, r, c);
                }
            }
        }
    }
}

impl<T: ValueType> SparseMatrix<T> {
    /// The value stored at `(r, c)`, or zero when the position is vacant.
    pub open spec fn get_or_zero(self, r: int, c: int) -> T {
        match self.get(r, c) {
            Some(v) => v,
            None => T::zero_spec(),
        }
    }

    /// Read the value at `(row, col)`, or zero when the position is
    /// vacant.
    pub fn get_value(&self, row: usize, col: usize) -> (r: T)
        requires
            self.wf(),
            row < self.num_rows_spec(),
            col < self.num_cols_spec(),
        ensures
            r == self.get_or_zero(row as int, col as int),
    {
        match self.get_entry(row, col) {
            Some(v) => v,
            None => T::zero(),
        }
    }
}

impl<T: Copy> SparseMatrix<T> {
    /// Look the position `(row, col)` up: the stored value, or nothing
    /// where the position is vacant.
    pub fn get_entry(&self, row: usize, col: usize) -> (r: Option<T>)
        requires
            self.wf(),
            row < self.num_rows_spec(),
            col < self.num_cols_spec(),
        ensures
            r == self.get(row as int, col as int),
    {
        let mut k: usize = 0;
        while k < self.entries.len()
            invariant
                self.wf(),
                k <= self.entries_seq().len(),
                forall|kk: int| 0 <= kk < k ==> !self.entry_with(kk, row as int, col as int),
            decreases self.entries_seq().len() - k,
        {
            if self.entries[k].0 == row && self.entries[k].1 == col {
                proof {
                    assert(self.entry_with(k as int, row as int, col as int));
                    let kc = choose|kk: int| self.entry_with(kk, row as int, col as int);
                    self.lemma_key_unique(kc, k as int, row as int, col as int);
                }
                return Some(self.entries[k].2);
            }
            k += 1;
        }
        proof {
            if self.contains_key(row as int, col as int) {
                let kk = choose|kk: int| self.entry_with(kk, row as int, col as int);
                assert(false);
            }
        }
        None
    }
}


/// The offsets drawn so far delimit the columns: for every column index
/// `j` up to `hi`, the entries in columns below `j` are exactly the
/// entries below position `offs[j]`.
pub open spec fn offsets_partition<T>(es: Seq<(usize, usize, T)>, offs: Seq<i32>, hi: int) -> bool {
    forall|j: int, kk: int|
        #![trigger offs[j], es[kk]]
        0 <= j <= hi && 0 <= kk < es.len() ==> (((es[kk].1 as int) < j) == (kk < offs[j] as int))
}

impl<T: Copy> SparseMatrix<T> {
    /// Compact the builder into a compressed-column matrix.
    ///
    /// The entries are already in column-major key order, so one pass
    /// copies them out and records each column's boundary; a column
    /// without entries gets equal consecutive offsets.  Reading any
    /// in-range position of the result gives back exactly the builder's
    /// value there, or zero where the builder holds none.
    #[verifier::rlimit(60)]
    pub fn compressed_column_format(&self) -> (m: CompColMatrix<T>)
        requires
            self.wf(),
        ensures
            m.wf(),
            m.num_rows_spec() == self.num_rows_spec(),
            m.num_cols_spec() == self.num_cols_spec(),
            m.nnz_spec() == self.entries_seq().len(),
            forall|r: int, c: int|
                0 <= r < self.num_rows_spec() && 0 <= c < self.num_cols_spec()
                    ==> #[trigger] m.entry_opt(r, c) == self.get(r, c),
    {
        let ghost es = self.entries@;
        let nnz = self.entries.len();
        let mut non_zero_values: Vec<T> = Vec::new();
        let mut row_indices: Vec<i32> = Vec::new();
        let mut column_offsets: Vec<i32> = Vec::new();
        column_offsets.push(0);
        let mut k: usize = 0;
        let mut c: usize = 0;
        while c < self.num_cols
            invariant
                self.wf(),
                es == self.entries@,
                nnz == es.len(),
                c <= self.num_cols_spec(),
                k <= nnz,
                non_zero_values@.len() == k,
                row_indices@.len() == k,
                forall|kk: int| 0 <= kk < k ==> #[trigger] non_zero_values@[kk] == es[kk].2,
                forall|kk: int|
                    0 <= kk < k ==> #[trigger] row_indices@[kk] as int == es[kk].0 as int,
                column_offsets@.len() == c + 1,
                column_offsets@[0] == 0,
                column_offsets@[c as int] as int == k,
                forall|j: int|
                    0 <= j < c ==> #[trigger] column_offsets@[j] <= column_offsets@[j + 1],
                offsets_partition(es, column_offsets@, c as int),
                forall|kk: int| 0 <= kk < k ==> ((#[trigger] es[kk]).1 as int) < c,
                k == nnz || es[k as int].1 as int >= c,
            decreases self.num_cols_spec() - c,
        {
            while k < nnz && self.entries[k].1 == c
                invariant
                    self.wf(),
                    es == self.entries@,
                    nnz == es.len(),
                    c < self.num_cols_spec(),
                    k <= nnz,
                    non_zero_values@.len() == k,
                    row_indices@.len() == k,
                    forall|kk: int| 0 <= kk < k ==> #[trigger] non_zero_values@[kk] == es[kk].2,
                    forall|kk: int|
                        0 <= kk < k ==> #[trigger] row_indices@[kk] as int == es[kk].0 as int,
                    forall|kk: int| 0 <= kk < k ==> (#[trigger] es[kk]).1 as int <= c,
                    k == nnz || es[k as int].1 as int >= c,
                decreases nnz - k,
            {
                proof {
                    assert(es[k as int].0 < self.num_rows_spec());
                    if k + 1 < nnz {
                        assert(key_before(
                            es[k as int].0 as int,
                            es[k as int].1 as int,
                            es[k as int + 1].0 as int,
                            es[k as int + 1].1 as int,
                        ));
                    }
                }
                non_zero_values.push(self.entries[k].2);
                row_indices.push(self.entries[k].0 as i32);
                k += 1;
            }
            let ghost offs_before = column_offsets@;
            column_offsets.push(k as i32);
            proof {
                assert forall|j: int, kk: int|
                    #![trigger (column_offsets@)[j], es[kk]]
                    0 <= j <= c + 1 && 0 <= kk < nnz implies (((es[kk].1 as int) < j) <==> (kk
                    < column_offsets@[j] as int)) by {
                    if j <= c {
                        assert(column_offsets@[j] == offs_before[j]);
                    } else {
                        assert(column_offsets@[j] as int == k);
                        if kk < k {
                            assert(es[kk].1 as int <= c);
                        }
                        if (es[kk].1 as int) < c + 1 && kk >= k {
                            assert(k < nnz);
                            assert(es[k as int].1 as int > c);
                            if k < kk {
                                lemma_entries_sorted_pairwise(es, k as int, kk);
                            }
                            assert(false);
                        }
                    }
                }
                assert forall|j: int|
                    0 <= j < c + 1 implies #[trigger] column_offsets@[j] <= column_offsets@[j
                    + 1] by {
                    if j < c {
                        assert(column_offsets@[j] == offs_before[j] && column_offsets@[j + 1]
                            == offs_before[j + 1]);
                    } else {
                        assert(column_offsets@[j] as int <= k);
                    }
                }
            }
            c += 1;
        }
        proof {
            if k < nnz {
                assert((es[k as int].1 as int) < self.num_cols_spec());
                assert(column_offsets@[c as int] as int == k);
                assert(false);
            }
        }
        let ghost vals = non_zero_values@;
        let ghost ris = row_indices@;
        let ghost offs = column_offsets@;
        proof {
            assert forall|j: int| 0 <= j < offs.len() - 1 implies #[trigger] offs[j] <= offs[j
                + 1] by {}
            assert(offsets_nondecreasing(offs));
            self.lemma_compaction_valid(es, vals, ris, offs);
        }
        let built = CompColMatrix::from_vectors(
            self.num_rows,
            non_zero_values,
            row_indices,
            column_offsets,
        );
        let m = built.unwrap();
        proof {
            self.lemma_compaction_lookup(m, es, vals, ris, offs);
        }
        m
    }

    /// At the end of the compaction pass the three drawn arrays satisfy
    /// the compressed-column storage invariant.
    #[verifier::rlimit(60)]
    proof fn lemma_compaction_valid(
        self,
        es: Seq<(usize, usize, T)>,
        vals: Seq<T>,
        ris: Seq<i32>,
        offs: Seq<i32>,
    )
        requires
            self.wf(),
            es == self.entries_seq(),
            vals.len() == es.len(),
            ris.len() == es.len(),
            forall|kk: int| 0 <= kk < es.len() ==> #[trigger] vals[kk] == es[kk].2,
            forall|kk: int| 0 <= kk < es.len() ==> #[trigger] ris[kk] as int == es[kk].0 as int,
            offs.len() == self.num_cols_spec() + 1,
            offs[0] == 0,
            offs[self.num_cols_spec()] as int == es.len(),
            offsets_nondecreasing(offs),
            offsets_partition(es, offs, self.num_cols_spec()),
        ensures
            valid_layout(self.num_rows_spec(), es.len() as int, ris, offs),
    {
        assert forall|cc: int, kk: int|
            #![trigger offs[cc], ris[kk]]
            0 <= cc < offs.len() - 1 && offs[cc] as int <= kk && kk + 1 < offs[cc + 1] as int
            implies ris[kk] < ris[kk + 1] by {
            crate::comp_col::lemma_offsets_mono(offs, 0, cc);
            crate::comp_col::lemma_offsets_mono(offs, cc + 1, offs.len() - 1);
            assert(0 <= kk && kk + 1 < es.len());
            assert(!((es[kk].1 as int) < cc));
            assert((es[kk + 1].1 as int) < cc + 1);
            assert(key_before(
                es[kk].0 as int,
                es[kk].1 as int,
                es[kk + 1].0 as int,
                es[kk + 1].1 as int,
            ));
            assert(ris[kk] as int == es[kk].0 as int);
            assert(ris[kk + 1] as int == es[kk + 1].0 as int);
        }
        assert forall|kk: int| 0 <= kk < ris.len() implies 0 <= #[trigger] ris[kk]
            < self.num_rows_spec() by {
            assert((#[trigger] es[kk]).0 < self.num_rows_spec());
        }
    }

    /// Every in-range position of the compacted matrix reads back exactly
    /// the builder's value there, or zero where the builder holds none.
    #[verifier::rlimit(60)]
    proof fn lemma_compaction_lookup(
        self,
        m: CompColMatrix<T>,
        es: Seq<(usize, usize, T)>,
        vals: Seq<T>,
        ris: Seq<i32>,
        offs: Seq<i32>,
    )
        requires
            self.wf(),
            m.wf(),
            es == self.entries_seq(),
            vals.len() == es.len(),
            ris.len() == es.len(),
            forall|kk: int| 0 <= kk < es.len() ==> #[trigger] vals[kk] == es[kk].2,
            forall|kk: int| 0 <= kk < es.len() ==> #[trigger] ris[kk] as int == es[kk].0 as int,
            offs.len() == self.num_cols_spec() + 1,
            offsets_partition(es, offs, self.num_cols_spec()),
            m.num_rows_spec() == self.num_rows_spec(),
            m.values_seq() == vals,
            m.row_indices_seq() == ris,
            m.col_offsets_seq() == offs,
        ensures
            forall|r: int, c: int|
                0 <= r < self.num_rows_spec() && 0 <= c < self.num_cols_spec()
                    ==> #[trigger] m.entry_opt(r, c) == self.get(r, c),
    {
        assert forall|r: int, c: int|
            0 <= r < self.num_rows_spec() && 0 <= c < self.num_cols_spec()
                implies #[trigger] m.entry_opt(r, c) == self.get(r, c) by {
            if self.contains_key(r, c) {
                let kb = choose|kk: int| self.entry_with(kk, r, c);
                assert(es[kb].1 as int == c);
                assert(offs[c] as int <= kb) by {
                    assert(!((es[kb].1 as int) < c));
                }
                assert(kb < offs[c + 1] as int) by {
                    assert((es[kb].1 as int) < c + 1);
                }
                assert(ris[kb] as int == es[kb].0 as int);
                assert(m.entry_at(kb, r, c));
                m.lemma_entry_value(kb, r, c);
                assert(m.entry_opt(r, c) == Some(vals[kb]));
                assert(vals[kb] == es[kb].2);
            } else {
                if m.has_entry(r, c) {
                    let km = choose|kk: int| m.entry_at(kk, r, c);
                    assert(offs[c] as int <= km && km < offs[c + 1] as int);
                    assert(!((es[km].1 as int) < c) && (es[km].1 as int) < c + 1);
                    assert(es[km].1 as int == c);
                    assert(ris[km] as int == es[km].0 as int);
                    assert(self.entry_with(km, r, c));
                    assert(false);
                }
            }
        }
    }
}


/// Round trip through compaction: wherever the compacted matrix agrees
/// with the builder position by position, a zero-defaulted read of the
/// matrix gives back exactly the builder's zero-defaulted value — the
/// stored value where the builder holds one, and zero elsewhere.
pub proof fn lemma_compaction_round_trip<T: ValueType>(
    b: SparseMatrix<T>,
    m: CompColMatrix<T>,
    r: int,
    c: int,
)
    requires
        forall|rr: int, cc: int|
            0 <= rr < b.num_rows_spec() && 0 <= cc < b.num_cols_spec()
                ==> #[trigger] m.entry_opt(rr, cc) == b.get(rr, cc),
        0 <= r < b.num_rows_spec(),
        0 <= c < b.num_cols_spec(),
    ensures
        m.entry_or_zero(r, c) == b.get_or_zero(r, c),
{
    assert(m.entry_opt(r, c) == b.get(r, c));
}

} // verus!
