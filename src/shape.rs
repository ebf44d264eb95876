use vstd::prelude::*;

verus! {

/// The dimensions of a matrix: `rows` by `cols`.
#[derive(Clone, Copy, Debug, PartialEq, Eq, Structural)]
pub struct Shape {
    pub rows: usize,
    pub cols: usize,
}

impl Shape {
    pub fn new(rows: usize, cols: usize) -> (r: Shape)
        ensures
            r == (Shape { rows, cols }),
    {
        Shape { rows, cols }
    }
}

/// The rows `start .. end` of a matrix, in order.
#[derive(Clone, Copy, Debug, PartialEq, Eq, Structural)]
pub struct RowRange {
    pub start: usize,
    pub end: usize,
}

impl RowRange {
    /// The row indices the range covers, in order.
    pub open spec fn indices(self) -> Seq<int> {
        Seq::new((self.end - self.start) as nat, |i: int| self.start + i)
    }

    /// The number of rows in the range.
    pub fn len(&self) -> (r: usize)
        requires
            self.start <= self.end,
        ensures
            r == self.end - self.start,
    {
        self.end - self.start
    }
}

/// The indices `0 .. n`, in order.
pub open spec fn all_rows(n: nat) -> Seq<int> {
    Seq::new(n, |i: int| i)
}

} // verus!
