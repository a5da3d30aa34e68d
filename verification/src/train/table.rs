//! Tables of traced numbers: a tensor as its rows along the first dimension.
use crate::expr::{whole, Scalar};
use vstd::prelude::*;

verus! {

/// A tensor: one row of numbers per splat.
pub struct Table {
    pub rows: Vec<Vec<Scalar>>,
}

/// Every index names a row.
pub open spec fn in_range(inds: Seq<i32>, n: nat) -> bool {
    forall|i: int| 0 <= i < inds.len() ==> 0 <= #[trigger] inds[i] < n
}

/// The rows that the indices name, in their order.
pub open spec fn selected(rows: Seq<Seq<Scalar>>, inds: Seq<i32>) -> Seq<Seq<Scalar>> {
    inds.map_values(|i: i32| rows[i as int])
}

/// The sum of two rows, number by number.
pub open spec fn row_sum(a: Seq<Scalar>, b: Seq<Scalar>) -> Seq<Scalar> {
    Seq::new(a.len(), |j: int| a[j] + b[j])
}

/// A row with every sign turned.
pub open spec fn row_neg(a: Seq<Scalar>) -> Seq<Scalar> {
    Seq::new(a.len(), |j: int| -a[j])
}

/// A row of zeros.
pub open spec fn zero_row(width: nat) -> Seq<Scalar> {
    Seq::new(width, |j: int| whole(0))
}

/// `rows`, with the k-th row of `update` added to the row that `inds[k]` names.
/// The indices differ from one another.
pub open spec fn scattered(
    rows: Seq<Seq<Scalar>>,
    inds: Seq<i32>,
    update: Seq<Seq<Scalar>>,
) -> Seq<Seq<Scalar>>
    decreases inds.len(),
{
    if inds.len() == 0 {
        rows
    } else {
        let before = scattered(rows, inds.drop_last(), update);
        let i = inds.last() as int;
        before.update(i, row_sum(before[i], update[inds.len() - 1]))
    }
}

/// What a scatter does to each row, one by one.
pub proof fn lemma_scattered(rows: Seq<Seq<Scalar>>, inds: Seq<i32>, update: Seq<Seq<Scalar>>)
    requires
        in_range(inds, rows.len()),
        inds.no_duplicates(),
    ensures
        scattered(rows, inds, update).len() == rows.len(),
        forall|k: int|
            0 <= k < inds.len() ==> scattered(rows, inds, update)[(#[trigger] inds[k]) as int]
                == row_sum(rows[inds[k] as int], update[k]),
        forall|i: int|
            0 <= i < rows.len() && !inds.contains(i as i32) ==> #[trigger] scattered(
                rows,
                inds,
                update,
            )[i] == rows[i],
    decreases inds.len(),
{
    if inds.len() > 0 {
        let init = inds.drop_last();
        assert forall|i: int| 0 <= i < init.len() implies 0 <= #[trigger] init[i] < rows.len() by {
            assert(init[i] == inds[i]);
        }
        lemma_scattered(rows, init, update);
        let last = inds.last();
        let before = scattered(rows, init, update);
        let after = scattered(rows, inds, update);
        assert(inds[inds.len() - 1] == last);
        assert(!init.contains(last)) by {
            if init.contains(last) {
                let k = choose|k: int| 0 <= k < init.len() && init[k] == last;
                assert(inds[k] == inds[inds.len() - 1]);
            }
        }
        assert(before[last as int] == rows[last as int]);
        assert forall|k: int| 0 <= k < inds.len() implies after[(#[trigger] inds[k]) as int]
            == row_sum(rows[inds[k] as int], update[k]) by {
            if k < init.len() {
                assert(init[k] == inds[k]);
                assert(inds[k] != last);
            }
        }
        assert forall|i: int|
            0 <= i < rows.len() && !inds.contains(i as i32) implies #[trigger] after[i]
            == rows[i] by {
            assert(!init.contains(i as i32)) by {
                if init.contains(i as i32) {
                    let k = choose|k: int| 0 <= k < init.len() && init[k] == i as i32;
                    assert(inds[k] == i as i32);
                }
            }
            assert(before[i] == rows[i]);
            if last == i {
                assert(inds.contains(i as i32));
            }
        }
    }
}

/// A copy of a row.
pub fn copy_row(row: &Vec<Scalar>) -> (r: Vec<Scalar>)
    ensures
        r@ == row@,
{
    let mut r: Vec<Scalar> = Vec::new();
    let mut j: usize = 0;
    while j < row.len()
        invariant
            j <= row@.len(),
            r@ == row@.take(j as int),
        decreases row@.len() - j,
    {
        r.push(row[j].clone());
        j = j + 1;
    }
    assert(row@.take(row@.len() as int) == row@);
    r
}

impl View for Table {
    type V = Seq<Seq<Scalar>>;

    open spec fn view(&self) -> Seq<Seq<Scalar>> {
        self.rows@.map_values(|r: Vec<Scalar>| r@)
    }
}

impl Table {
    /// The table without rows.
    pub fn new() -> (r: Table)
        ensures
            r@ == Seq::<Seq<Scalar>>::empty(),
    {
        Table { rows: Vec::new() }
    }

    /// The number of rows.
    pub fn len(&self) -> (r: usize)
        ensures
            r == self@.len(),
    {
        self.rows.len()
    }

    /// Appends a row.
    pub fn push(&mut self, row: Vec<Scalar>)
        ensures
            final(self)@ == old(self)@.push(row@),
    {
        self.rows.push(row);
        assert(self@ == old(self)@.push(row@));
    }

    /// The rows that the indices name, in their order.
    pub fn select(&self, inds: &Vec<i32>) -> (r: Table)
        requires
            in_range(inds@, self@.len()),
        ensures
            r@ == selected(self@, inds@),
            r@.len() == inds@.len(),
            forall|k: int|
                0 <= k < inds@.len() ==> #[trigger] r@[k] == self@[inds@[k] as int],
    {
        let mut r = Table::new();
        let mut i: usize = 0;
        while i < inds.len()
            invariant
                i <= inds@.len(),
                in_range(inds@, self@.len()),
                r@ == selected(self@, inds@.take(i as int)),
            decreases inds@.len() - i,
        {
            let at: usize = inds[i] as usize;
            r.push(copy_row(&self.rows[at]));
            i = i + 1;
            assert(r@ == selected(self@, inds@.take(i as int)));
        }
        assert(inds@.take(inds@.len() as int) == inds@);
        r
    }

    /// This table's rows, then those of `other`.
    pub fn cat(self, other: Table) -> (r: Table)
        ensures
            r@ == self@ + other@,
    {
        let mut r = self;
        let mut rest = other;
        r.rows.append(&mut rest.rows);
        assert(r@ == self@ + other@);
        r
    }

    /// As many rows of zeros as there are indices, each as wide as the row that
    /// its index names.
    pub fn zeros_like(&self, inds: &Vec<i32>) -> (r: Table)
        requires
            in_range(inds@, self@.len()),
        ensures
            r@ == selected(self@, inds@).map_values(|row: Seq<Scalar>| zero_row(row.len())),
    {
        let mut r = Table::new();
        let mut i: usize = 0;
        while i < inds.len()
            invariant
                i <= inds@.len(),
                in_range(inds@, self@.len()),
                r@ == selected(self@, inds@.take(i as int)).map_values(
                    |row: Seq<Scalar>| zero_row(row.len()),
                ),
            decreases inds@.len() - i,
        {
            let at: usize = inds[i] as usize;
            let width: usize = self.rows[at].len();
            let mut row: Vec<Scalar> = Vec::new();
            let mut j: usize = 0;
            while j < width
                invariant
                    j <= width,
                    row@ == zero_row(j as nat),
                decreases width - j,
            {
                row.push(Scalar::num(0));
                j = j + 1;
                assert(row@ == zero_row(j as nat));
            }
            r.push(row);
            i = i + 1;
            assert(r@ == selected(self@, inds@.take(i as int)).map_values(
                |row: Seq<Scalar>| zero_row(row.len()),
            ));
        }
        assert(inds@.take(inds@.len() as int) == inds@);
        r
    }

    /// Every row with its signs turned.
    pub fn negated(&self) -> (r: Table)
        ensures
            r@ == self@.map_values(|row: Seq<Scalar>| row_neg(row)),
    {
        let mut r = Table::new();
        let mut i: usize = 0;
        while i < self.rows.len()
            invariant
                i <= self.rows@.len(),
                r@ == self@.take(i as int).map_values(|row: Seq<Scalar>| row_neg(row)),
            decreases self.rows@.len() - i,
        {
            let mut row: Vec<Scalar> = Vec::new();
            let mut j: usize = 0;
            while j < self.rows[i].len()
                invariant
                    i < self.rows@.len(),
                    j <= self.rows@[i as int]@.len(),
                    row@ == row_neg(self.rows@[i as int]@.take(j as int)),
                decreases self.rows@[i as int]@.len() - j,
            {
                row.push(self.rows[i][j].neg());
                j = j + 1;
                assert(row@ == row_neg(self.rows@[i as int]@.take(j as int)));
            }
            assert(self.rows@[i as int]@.take(self.rows@[i as int]@.len() as int)
                == self.rows@[i as int]@);
            r.push(row);
            i = i + 1;
            assert(r@ == self@.take(i as int).map_values(|row: Seq<Scalar>| row_neg(row)));
        }
        assert(self@.take(self@.len() as int) == self@);
        r
    }

    /// Adds the k-th row of `update` to the row that `inds[k]` names.
    pub fn scatter_add(&mut self, inds: &Vec<i32>, update: &Table)
        requires
            in_range(inds@, old(self)@.len()),
            inds@.no_duplicates(),
            update@.len() == inds@.len(),
            forall|k: int|
                0 <= k < inds@.len() ==> update@[k].len() == old(self)@[(
                #[trigger] inds@[k]) as int].len(),
        ensures
            final(self)@ == scattered(old(self)@, inds@, update@),
    {
        let mut k: usize = 0;
        while k < inds.len()
            invariant
                k <= inds@.len(),
                in_range(inds@, old(self)@.len()),
                inds@.no_duplicates(),
                update@.len() == inds@.len(),
                self@ == scattered(old(self)@, inds@.take(k as int), update@),
                forall|k: int|
                    0 <= k < inds@.len() ==> update@[k].len() == old(self)@[(
                    #[trigger] inds@[k]) as int].len(),
            decreases inds@.len() - k,
        {
            let ghost done = inds@.take(k as int);
            assert(in_range(done, old(self)@.len()));
            proof {
                lemma_scattered(old(self)@, done, update@);
            }
            let at: usize = inds[k] as usize;
            assert(!done.contains(at as i32));
            assert(self@[at as int] == old(self)@[at as int]);
            assert(self@[at as int] == self.rows@[at as int]@);
            assert(update@[k as int] == update.rows@[k as int]@);
            let mut row: Vec<Scalar> = Vec::new();
            let mut j: usize = 0;
            while j < self.rows[at].len()
                invariant
                    at < self.rows@.len(),
                    k < update.rows@.len(),
                    j <= self.rows@[at as int]@.len(),
                    self.rows@[at as int]@.len() == update.rows@[k as int]@.len(),
                    row@ == row_sum(
                        self.rows@[at as int]@.take(j as int),
                        update.rows@[k as int]@,
                    ),
                decreases self.rows@[at as int]@.len() - j,
            {
                row.push(&self.rows[at][j] + &update.rows[k][j]);
                j = j + 1;
                assert(row@ == row_sum(
                    self.rows@[at as int]@.take(j as int),
                    update.rows@[k as int]@,
                ));
            }
            let ghost before = self@;
            assert(self.rows@[at as int]@.take(self.rows@[at as int]@.len() as int)
                == self.rows@[at as int]@);
            self.rows.set(at, row);
            assert(self@ == before.update(at as int, row@));
            k = k + 1;
            assert(inds@.take(k as int).drop_last() == done);
        }
        assert(inds@.take(inds@.len() as int) == inds@);
    }
}

} // verus!
