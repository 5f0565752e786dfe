//! A generic table: rows of one entity type, kept in insertion order, each
//! with the identifier it was given when it was inserted.

use vstd::prelude::*;
use crate::ident::Id;
use crate::ident::IdAllocator;
use crate::seq_facts::lemma_filter_keeps_each;
use crate::seq_facts::lemma_filter_keeps_pairs;
use crate::seq_facts::lemma_filter_one_out;

verus! {

/// One row of a table: a value together with its identifier.
#[derive(Debug)]
pub struct Row<T> {
    pub id: Id,
    pub data: T,
}

/// A place in a scan of a table: the number of rows that the scan has passed.
/// A scan at zero stands before the first row.
#[derive(Clone, Copy, Debug, PartialEq, Eq, Structural)]
pub struct Scan {
    pub position: usize,
}

/// An ordered collection of rows of one entity type.
#[derive(Debug)]
pub struct Table<T> {
    rows: Vec<Row<T>>,
    ids: IdAllocator,
}

/// The predicate may answer `true` for the row.
pub open spec fn accepts<T, F: Fn(&Row<T>) -> bool>(pred: F, row: Row<T>) -> bool {
    pred.ensures((&row,), true)
}

/// The predicate may answer `false` for the row.
pub open spec fn rejects<T, F: Fn(&Row<T>) -> bool>(pred: F, row: Row<T>) -> bool {
    pred.ensures((&row,), false)
}

/// The predicate can be called on each of `rows`.
pub open spec fn applies_to<T, F: Fn(&Row<T>) -> bool>(pred: F, rows: Seq<Row<T>>) -> bool {
    forall|i: int| 0 <= i < rows.len() ==> pred.requires((&#[trigger] rows[i],))
}

/// The predicate can be called on each of `rows` and has one answer for each.
pub open spec fn decides<T, F: Fn(&Row<T>) -> bool>(pred: F, rows: Seq<Row<T>>) -> bool {
    &&& applies_to(pred, rows)
    &&& forall|i: int|
        0 <= i < rows.len() ==> !(accepts(pred, #[trigger] rows[i]) && rejects(pred, rows[i]))
}

impl<T> Table<T> {
    /// The rows of the table, in insertion order.
    pub closed spec fn rows(&self) -> Seq<Row<T>> {
        self.rows@
    }

    /// How many identifiers the table has given out, to rows still present or
    /// since deleted.
    pub closed spec fn issued(&self) -> nat {
        self.ids.issued()
    }

    /// Identifiers grow along the insertion order and all of them have been
    /// issued by this table, so no two rows share one and none is given out
    /// twice.
    pub open spec fn wf(&self) -> bool {
        ids_ascend(self.rows(), self.issued())
    }

    /// Whether the table can take no further row.
    pub open spec fn full(&self) -> bool {
        self.issued() >= u64::MAX
    }

    /// An empty table.
    pub fn new() -> (table: Self)
        ensures
            table.rows() == Seq::<Row<T>>::empty(),
            table.issued() == 0,
            table.wf(),
    {
        Table { rows: Vec::new(), ids: IdAllocator::new() }
    }

    /// The number of rows.
    pub fn len(&self) -> (n: usize)
        ensures
            n == self.rows().len(),
    {
        self.rows.len()
    }

    /// Whether the table has no rows.
    pub fn is_empty(&self) -> (b: bool)
        ensures
            b == (self.rows().len() == 0),
    {
        self.rows.len() == 0
    }

    /// Tells whether `insert` can still be called.
    pub fn is_full(&self) -> (b: bool)
        ensures
            b == self.full(),
    {
        self.ids.is_exhausted()
    }

    /// A scan that stands before the first row. Any number of scans may run
    /// over one table, each from the start.
    pub fn scan(&self) -> (scan: Scan)
        ensures
            scan.position == 0,
    {
        Scan { position: 0 }
    }

    /// The row that `scan` stands before, which the scan then passes; none
    /// where it has passed them all. Rows come in insertion order.
    pub fn next(&self, scan: &mut Scan) -> (yielded: Option<&Row<T>>)
        ensures
            match yielded {
                Some(row) => {
                    &&& old(scan).position < self.rows().len()
                    &&& *row == self.rows()[old(scan).position as int]
                    &&& final(scan).position == old(scan).position + 1
                },
                None => {
                    &&& old(scan).position >= self.rows().len()
                    &&& final(scan).position == old(scan).position
                },
            },
    {
        if scan.position < self.rows.len() {
            let row = &self.rows[scan.position];
            scan.position = scan.position + 1;
            Some(row)
        } else {
            None
        }
    }

    /// The value of the row that `scan` stands before, for changing it in
    /// place, which the scan then passes; none where it has passed them all.
    /// The row keeps its identifier and its place.
    pub fn next_mut(&mut self, scan: &mut Scan) -> (yielded: Option<&mut T>)
        ensures
            final(self).issued() == old(self).issued(),
            old(self).wf() ==> final(self).wf(),
            match yielded {
                Some(data) => {
                    &&& old(scan).position < old(self).rows().len()
                    &&& *data == old(self).rows()[old(scan).position as int].data
                    &&& final(scan).position == old(scan).position + 1
                    &&& final(self).rows() == old(self).rows().update(
                        old(scan).position as int,
                        Row {
                            id: old(self).rows()[old(scan).position as int].id,
                            data: *final(data),
                        },
                    )
                },
                None => {
                    &&& old(scan).position >= old(self).rows().len()
                    &&& final(scan).position == old(scan).position
                    &&& final(self).rows() == old(self).rows()
                },
            },
    {
        if scan.position < self.rows.len() {
            let at = scan.position;
            scan.position = at + 1;
            Some(&mut self.rows[at].data)
        } else {
            None
        }
    }

    /// Appends a row that holds `value` under a fresh identifier, and returns
    /// the identifier.
    pub fn insert(&mut self, value: T) -> (id: Id)
        requires
            !old(self).full(),
        ensures
            id.value == old(self).issued(),
            final(self).rows() == old(self).rows().push(Row { id, data: value }),
            final(self).issued() == old(self).issued() + 1,
            old(self).wf() ==> final(self).wf(),
    {
        let id = self.ids.next();
        self.rows.push(Row { id, data: value });
        id
    }

    /// The first row, in insertion order, that `pred` selects.
    pub fn find<F: Fn(&Row<T>) -> bool>(&self, pred: F) -> (found: Option<&Row<T>>)
        requires
            applies_to(pred, self.rows()),
        ensures
            match found {
                Some(row) => exists|i: int|
                    {
                        &&& 0 <= i < self.rows().len()
                        &&& *row == #[trigger] self.rows()[i]
                        &&& accepts(pred, self.rows()[i])
                        &&& forall|j: int| 0 <= j < i ==> rejects(pred, #[trigger] self.rows()[j])
                    },
                None => forall|j: int|
                    0 <= j < self.rows().len() ==> rejects(pred, #[trigger] self.rows()[j]),
            },
    {
        let mut i: usize = 0;
        while i < self.rows.len()
            invariant
                i <= self.rows.len(),
                applies_to(pred, self.rows@),
                forall|j: int| 0 <= j < i ==> rejects(pred, #[trigger] self.rows@[j]),
            decreases self.rows.len() - i,
        {
            if pred(&self.rows[i]) {
                assert(self.rows()[i as int] == self.rows@[i as int]);
                return Some(&self.rows[i]);
            }
            i = i + 1;
        }
        None
    }

    /// The value of the first row, in insertion order, that `pred` selects, for
    /// changing it in place. The row keeps its identifier and its place.
    pub fn find_mut<F: Fn(&Row<T>) -> bool>(&mut self, pred: F) -> (found: Option<&mut T>)
        requires
            applies_to(pred, old(self).rows()),
        ensures
            final(self).issued() == old(self).issued(),
            old(self).wf() ==> final(self).wf(),
            match found {
                Some(data) => exists|i: int|
                    {
                        &&& 0 <= i < old(self).rows().len()
                        &&& *data == (#[trigger] old(self).rows()[i]).data
                        &&& accepts(pred, old(self).rows()[i])
                        &&& forall|j: int|
                            0 <= j < i ==> rejects(pred, #[trigger] old(self).rows()[j])
                        &&& final(self).rows() == old(self).rows().update(
                            i,
                            Row { id: old(self).rows()[i].id, data: *final(data) },
                        )
                    },
                None => {
                    &&& forall|j: int|
                        0 <= j < old(self).rows().len() ==> rejects(
                            pred,
                            #[trigger] old(self).rows()[j],
                        )
                    &&& final(self).rows() == old(self).rows()
                },
            },
    {
        let mut i: usize = 0;
        while i < self.rows.len()
            invariant
                i <= self.rows.len(),
                self.rows@ == old(self).rows@,
                self.ids == old(self).ids,
                applies_to(pred, self.rows@),
                forall|j: int| 0 <= j < i ==> rejects(pred, #[trigger] self.rows@[j]),
            decreases self.rows.len() - i,
        {
            if pred(&self.rows[i]) {
                assert(old(self).rows()[i as int] == self.rows@[i as int]);
                return Some(&mut self.rows[i].data);
            }
            i = i + 1;
        }
        None
    }

    /// Removes the row with identifier `id`, if there is one, and returns the
    /// value it held. The other rows keep their identifiers and their order.
    pub fn delete(&mut self, id: Id) -> (removed: Option<T>)
        ensures
            final(self).issued() == old(self).issued(),
            old(self).wf() ==> final(self).wf(),
            match removed {
                Some(value) => exists|i: int|
                    {
                        &&& 0 <= i < old(self).rows().len()
                        &&& (#[trigger] old(self).rows()[i]).id == id
                        &&& old(self).rows()[i].data == value
                        &&& forall|j: int| 0 <= j < i ==> (#[trigger] old(self).rows()[j]).id != id
                        &&& final(self).rows() == old(self).rows().remove(i)
                    },
                None => {
                    &&& forall|i: int|
                        0 <= i < old(self).rows().len() ==> (#[trigger] old(self).rows()[i]).id != id
                    &&& final(self).rows() == old(self).rows()
                },
            },
    {
        let mut i: usize = 0;
        while i < self.rows.len()
            invariant
                i <= self.rows.len(),
                self.rows@ == old(self).rows@,
                self.ids == old(self).ids,
                forall|j: int| 0 <= j < i ==> (#[trigger] self.rows@[j]).id != id,
            decreases self.rows.len() - i,
        {
            if self.rows[i].id == id {
                let row = self.rows.remove(i);
                proof {
                    let before = old(self).rows@;
                    assert(before[i as int].id == id);
                    if old(self).wf() {
                        lemma_filter_one_out(before, |other: Row<T>| other.id != id, i as int);
                        lemma_filter_keeps_order(
                            before,
                            |other: Row<T>| other.id != id,
                            old(self).issued(),
                        );
                    }
                }
                return Some(row.data);
            }
            i = i + 1;
        }
        None
    }

    /// Removes every row for which `pred` answers `true` and returns how many
    /// there were. The rows that stay keep their identifiers and their order.
    pub fn delete_where<F: Fn(&Row<T>) -> bool>(&mut self, pred: F) -> (count: usize)
        requires
            decides(pred, old(self).rows()),
        ensures
            final(self).rows() == old(self).rows().filter(|row: Row<T>| rejects(pred, row)),
            forall|i: int|
                0 <= i < old(self).rows().len() ==> accepts(pred, #[trigger] old(self).rows()[i])
                    || rejects(pred, old(self).rows()[i]),
            count == old(self).rows().len() - final(self).rows().len(),
            final(self).issued() == old(self).issued(),
            old(self).wf() ==> final(self).wf(),
    {
        let ghost before = self.rows@;
        let ghost keep = |row: Row<T>| rejects(pred, row);
        let mut rows: Vec<Row<T>> = Vec::new();
        core::mem::swap(&mut self.rows, &mut rows);
        let total = rows.len();
        proof {
            reveal(Seq::filter);
            assert(before.take(0).filter(keep) == self.rows@);
        }
        for row in it: rows
            invariant
                it.seq() == before,
                keep == |row: Row<T>| rejects(pred, row),
                decides(pred, before),
                self.ids == old(self).ids,
                forall|j: int|
                    0 <= j < it.index() ==> accepts(pred, #[trigger] before[j]) || rejects(
                        pred,
                        before[j],
                    ),
                self.rows@ == before.take(it.index()).filter(keep),
        {
            proof {
                reveal(Seq::filter);
                assert(before.take(it.index() + 1).drop_last() == before.take(it.index()));
                assert(before.take(it.index() + 1).last() == row);
            }
            if !pred(&row) {
                self.rows.push(row);
            }
        }
        proof {
            assert(before.take(before.len() as int) == before);
            before.lemma_filter_len(keep);
            if old(self).wf() {
                lemma_filter_keeps_order(before, keep, old(self).issued());
            }
        }
        total - self.rows.len()
    }
}

/// Identifiers strictly grow along `rows` and stay below `issued`.
pub open spec fn ids_ascend<T>(rows: Seq<Row<T>>, issued: nat) -> bool {
    &&& forall|i: int| 0 <= i < rows.len() ==> (#[trigger] rows[i]).id.value < issued
    &&& forall|i: int, j: int|
        0 <= i < j < rows.len() ==> (#[trigger] rows[i]).id.value < (#[trigger] rows[j]).id.value
}

/// Dropping rows leaves the identifiers of the others ascending.
proof fn lemma_filter_keeps_order<T>(
    rows: Seq<Row<T>>,
    keep: spec_fn(Row<T>) -> bool,
    issued: nat,
)
    requires
        ids_ascend(rows, issued),
    ensures
        ids_ascend(rows.filter(keep), issued),
{
    lemma_filter_keeps_each(rows, keep, |row: Row<T>| row.id.value < issued);
    lemma_filter_keeps_pairs(rows, keep, |a: Row<T>, b: Row<T>| a.id.value < b.id.value);
}

} // verus!
