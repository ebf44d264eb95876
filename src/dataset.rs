use vstd::prelude::*;

use crate::error::NetError;
use crate::shape::{all_rows, RowRange};

verus! {

/// Where the rows of a dataset go: the head to training, the tail to testing.
#[derive(Clone, Copy, Debug, PartialEq, Eq, Structural)]
pub struct Split {
    pub train: RowRange,
    pub test: RowRange,
}

/// The rows that a sequence of ranges covers, one range after the other.
pub open spec fn rows_of(ranges: Seq<RowRange>) -> Seq<int>
    decreases ranges.len(),
{
    if ranges.len() == 0 {
        Seq::empty()
    } else {
        rows_of(ranges.drop_last()) + ranges.last().indices()
    }
}

/// The number of test rows: the wanted count, clamped to `[1, total - 1]`.
pub open spec fn test_count(total: int, wanted: int) -> int {
    if wanted < 1 {
        1
    } else if wanted > total - 1 {
        total - 1
    } else {
        wanted
    }
}

/// The split of `total` rows that keeps `test_count(total, wanted)` rows
/// from the tail for testing and the rest, from the head, for training.
pub open spec fn split_of(total: int, wanted: int) -> Split {
    let cut = total - test_count(total, wanted);
    Split {
        train: RowRange { start: 0, end: cut as usize },
        test: RowRange { start: cut as usize, end: total as usize },
    }
}

/// Succeeds when features and labels have as many rows.
pub fn check_aligned(x_rows: usize, y_rows: usize) -> (r: Result<(), NetError>)
    ensures
        r is Ok <==> x_rows == y_rows,
        r is Err ==> r->Err_0 == NetError::ShapeMismatch,
{
    if x_rows != y_rows {
        Err(NetError::ShapeMismatch)
    } else {
        Ok(())
    }
}

/// Splits the rows of aligned features and labels into a training head and
/// a test tail. `wanted_test` is the number of test rows asked for: the row
/// count times the test ratio, rounded. Both parts keep at least one row, so
/// at least two rows are needed.
pub fn split_train_test(x_rows: usize, y_rows: usize, wanted_test: usize) -> (r: Result<
    Split,
    NetError,
>)
    ensures
        x_rows != y_rows ==> r == Err::<Split, NetError>(NetError::ShapeMismatch),
        x_rows == y_rows && x_rows < 2 ==> r == Err::<Split, NetError>(NetError::Configuration),
        x_rows == y_rows && x_rows >= 2 ==> r == Ok::<Split, NetError>(
            split_of(x_rows as int, wanted_test as int),
        ),
{
    if x_rows != y_rows {
        return Err(NetError::ShapeMismatch);
    }
    if x_rows < 2 {
        return Err(NetError::Configuration);
    }
    let test: usize = if wanted_test < 1 {
        1
    } else if wanted_test > x_rows - 1 {
        x_rows - 1
    } else {
        wanted_test
    };
    let cut: usize = x_rows - test;
    Ok(
        Split {
            train: RowRange { start: 0, end: cut },
            test: RowRange { start: cut, end: x_rows },
        },
    )
}

/// The number of batches of `size` rows that `rows` rows make, the last one
/// possibly shorter.
pub open spec fn batch_count(rows: nat, size: nat) -> nat {
    if size == 0 {
        0
    } else if rows % size == 0 {
        rows / size
    } else {
        rows / size + 1
    }
}

/// The rows of batch `j`: `size` rows from `j * size`, cut at `rows`.
pub open spec fn batch_range(rows: nat, size: nat, j: nat) -> RowRange {
    RowRange {
        start: (j * size) as usize,
        end: (if j * size + size < rows {
            j * size + size
        } else {
            rows
        }) as usize,
    }
}

/// All batches of `size` rows of `rows` rows, in row order.
pub open spec fn batch_ranges(rows: nat, size: nat) -> Seq<RowRange> {
    Seq::new(batch_count(rows, size), |j: int| batch_range(rows, size, j as nat))
}

proof fn lemma_batch_bounds(rows: nat, size: nat, j: nat)
    requires
        size > 0,
    ensures
        j < batch_count(rows, size) ==> j * size < rows,
        batch_count(rows, size) * size >= rows,
{
    let q = rows / size;
    let m = rows % size;
    vstd::arithmetic::div_mod::lemma_fundamental_div_mod(rows as int, size as int);
    assert(rows == q * size + m);
    if j < batch_count(rows, size) {
        if m == 0 {
            assert(j + 1 <= q);
            vstd::arithmetic::mul::lemma_mul_inequality((j + 1) as int, q as int, size as int);
            vstd::arithmetic::mul::lemma_mul_is_distributive_add_other_way(
                size as int,
                j as int,
                1,
            );
        } else {
            assert(j <= q);
            vstd::arithmetic::mul::lemma_mul_inequality(j as int, q as int, size as int);
        }
    }
    if m == 0 {
        assert(batch_count(rows, size) * size == rows);
    } else {
        vstd::arithmetic::mul::lemma_mul_is_distributive_add_other_way(size as int, q as int, 1);
        assert(batch_count(rows, size) * size == q * size + size);
    }
}

/// Cuts the rows of aligned features and labels into consecutive batches of
/// `batch_size` rows, the last one possibly shorter. The same ranges apply
/// to both matrices, so each batch keeps features and labels aligned.
pub fn rebatch(x_rows: usize, y_rows: usize, batch_size: usize) -> (r: Result<
    Vec<RowRange>,
    NetError,
>)
    ensures
        batch_size == 0 ==> r == Err::<Vec<RowRange>, NetError>(NetError::Configuration),
        batch_size > 0 && x_rows != y_rows ==> r == Err::<Vec<RowRange>, NetError>(
            NetError::ShapeMismatch,
        ),
        batch_size > 0 && x_rows == y_rows ==> r is Ok && r->Ok_0@ == batch_ranges(
            x_rows as nat,
            batch_size as nat,
        ),
        r is Ok ==> forall|j: int|
            0 <= j < r->Ok_0@.len() ==> #[trigger] r->Ok_0@[j].start < r->Ok_0@[j].end
                && r->Ok_0@[j].end - r->Ok_0@[j].start <= batch_size
                && r->Ok_0@[j].end <= x_rows,
{
    if batch_size == 0 {
        return Err(NetError::Configuration);
    }
    if x_rows != y_rows {
        return Err(NetError::ShapeMismatch);
    }
    let rows = x_rows;
    proof {
        vstd::arithmetic::div_mod::lemma_fundamental_div_mod(rows as int, batch_size as int);
        vstd::arithmetic::mul::lemma_mul_inequality(1, batch_size as int, rows as int / batch_size as int);
        lemma_batch_bounds(rows as nat, batch_size as nat, 0);
    }
    let count: usize = if rows % batch_size == 0 {
        rows / batch_size
    } else {
        rows / batch_size + 1
    };
    let ghost spec_ranges = batch_ranges(rows as nat, batch_size as nat);
    let mut r: Vec<RowRange> = Vec::new();
    let mut start: usize = 0;
    let mut j: usize = 0;
    while j < count
        invariant
            batch_size > 0,
            count == batch_count(rows as nat, batch_size as nat),
            spec_ranges == batch_ranges(rows as nat, batch_size as nat),
            j <= count,
            j < count ==> start == j * batch_size && start < rows,
            r@ == spec_ranges.subrange(0, j as int),
            forall|i: int|
                0 <= i < j ==> #[trigger] r@[i].start < r@[i].end && r@[i].end - r@[i].start
                    <= batch_size && r@[i].end <= rows,
        decreases count - j,
    {
        let end: usize = if rows - start <= batch_size {
            rows
        } else {
            start + batch_size
        };
        let range = RowRange { start, end };
        assert(range == batch_range(rows as nat, batch_size as nat, j as nat));
        r.push(range);
        assert(r@ == spec_ranges.subrange(0, j + 1));
        proof {
            vstd::arithmetic::mul::lemma_mul_is_distributive_add_other_way(
                batch_size as int,
                j as int,
                1,
            );
            lemma_batch_bounds(rows as nat, batch_size as nat, (j + 1) as nat);
        }
        if j + 1 < count {
            start = end;
        }
        j = j + 1;
    }
    assert(r@ == spec_ranges);
    Ok(r)
}

proof fn lemma_batch_prefix(rows: nat, size: nat, j: nat)
    requires
        size > 0,
        rows <= usize::MAX,
        j <= batch_count(rows, size),
    ensures
        rows_of(batch_ranges(rows, size).take(j as int)) == all_rows(
            if j * size < rows {
                j * size
            } else {
                rows
            },
        ),
    decreases j,
{
    let b = batch_ranges(rows, size);
    if j == 0 {
        assert(j * size == 0) by (nonlinear_arith)
            requires
                j == 0,
        ;
        assert(b.take(0) =~= Seq::<RowRange>::empty());
        assert(all_rows(0) =~= Seq::<int>::empty());
    } else {
        let i = (j - 1) as nat;
        lemma_batch_prefix(rows, size, i);
        lemma_batch_bounds(rows, size, i);
        vstd::arithmetic::mul::lemma_mul_is_distributive_add_other_way(size as int, i as int, 1);
        assert(i * size < rows);
        assert(j * size == i * size + size);
        assert(b.take(j as int).drop_last() =~= b.take(i as int));
        assert(b.take(j as int).last() == batch_range(rows, size, i));
        assert(rows_of(b.take(j as int)) =~= all_rows(
            if j * size < rows {
                j * size
            } else {
                rows
            },
        ));
    }
}

/// Concatenating the rows of all batches, in batch order, gives back every
/// row of the training matrix exactly once and in the order it had.
pub proof fn lemma_rebatch_round_trip(rows: usize, size: usize)
    requires
        size > 0,
    ensures
        rows_of(batch_ranges(rows as nat, size as nat)) == all_rows(rows as nat),
{
    let count = batch_count(rows as nat, size as nat);
    lemma_batch_prefix(rows as nat, size as nat, count);
    lemma_batch_bounds(rows as nat, size as nat, 0);
    let b = batch_ranges(rows as nat, size as nat);
    assert(b.take(count as int) =~= b);
}

/// Whatever number of test rows is asked for, a split of at least two rows
/// leaves at least one row to each part; the training head and the test
/// tail together hold every row once, in order; and a count that needs no
/// clamping is kept as asked.
pub proof fn lemma_split_keeps_both_parts(total: usize, wanted: usize)
    requires
        total >= 2,
    ensures
        ({
            let s = split_of(total as int, wanted as int);
            &&& s.train.end - s.train.start >= 1
            &&& s.test.end - s.test.start >= 1
            &&& (s.train.end - s.train.start) + (s.test.end - s.test.start) == total
            &&& rows_of(seq![s.train, s.test]) == all_rows(total as nat)
            &&& 1 <= wanted <= total - 1 ==> s.test.end - s.test.start == wanted
        }),
{
    let s = split_of(total as int, wanted as int);
    let parts = seq![s.train, s.test];
    let head = seq![s.train];
    assert(parts.drop_last() =~= head);
    assert(head.drop_last() =~= Seq::<RowRange>::empty());
    assert(rows_of(head.drop_last()) == Seq::<int>::empty());
    assert(rows_of(head) == rows_of(head.drop_last()) + s.train.indices());
    assert(rows_of(head) =~= s.train.indices());
    assert(rows_of(parts) == rows_of(head) + s.test.indices());
    assert(rows_of(parts) =~= all_rows(total as nat));
}

} // verus!
