//! Views of a 4x4 grid of values: a mutable view of one column, and walks
//! over the rows and over the columns.
use vstd::prelude::*;

verus! {

/// The values of column `col` of `grid`, top to bottom.
pub open spec fn column_of<T>(grid: Seq<[T; 4]>, col: int) -> Seq<T> {
    Seq::new(4, |r: int| grid[r]@[col])
}

/// A mutable view of column `col` of a 4x4 grid.
pub struct ColumnMut<'a, T: Copy> {
    /// The grid the view writes into.
    pub data: &'a mut [[T; 4]; 4],
    /// The column the view shows.
    pub col: usize,
}

impl<'a, T: Copy> ColumnMut<'a, T> {
    /// The grid seen through the view.
    pub open spec fn grid(&self) -> Seq<[T; 4]> {
        self.data@
    }

    /// The column the view shows.
    pub open spec fn column(&self) -> usize {
        self.col
    }

    /// The view of column `col` of `data`.
    pub fn new(data: &'a mut [[T; 4]; 4], col: usize) -> (r: Self)
        requires
            col < 4,
        ensures
            r.grid() == old(data)@,
            r.column() == col,
            *final(r.data) == *final(data),
    {
        ColumnMut { data, col }
    }

    /// The values of the column, top to bottom.
    pub fn get(&self) -> (r: [T; 4])
        requires
            self.column() < 4,
        ensures
            r@ == column_of(self.grid(), self.column() as int),
    {
        let c = self.col;
        let r = [self.data[0][c], self.data[1][c], self.data[2][c], self.data[3][c]];
        assert(r@ =~= column_of(self.grid(), self.column() as int));
        r
    }

    /// Writes `values` into the column, top to bottom; the other columns stay
    /// as they were.
    pub fn set(&mut self, values: [T; 4])
        requires
            old(self).column() < 4,
        ensures
            final(self).column() == old(self).column(),
            *final(final(self).data) == *final(old(self).data),
            final(self).grid().len() == 4,
            column_of(final(self).grid(), old(self).column() as int) == values@,
            forall|r: int, c: int|
                0 <= r < 4 && 0 <= c < 4 && c != old(self).column() ==> #[trigger] final(self).grid()[r]@[c]
                    == old(self).grid()[r]@[c],
    {
        let c = self.col;
        let mut r: usize = 0;
        while r < 4
            invariant
                r <= 4,
                self.col == c,
                c < 4,
                *final(self.data) == *final(old(self).data),
                self.data@.len() == 4,
                forall|k: int| 0 <= k < r ==> #[trigger] self.data@[k]@[c as int] == values@[k],
                forall|k: int, j: int|
                    0 <= k < 4 && 0 <= j < 4 && (k >= r || j != c) ==> #[trigger] self.data@[k]@[j]
                        == old(self).data@[k]@[j],
            decreases 4 - r,
        {
            let mut row = self.data[r];
            row.set(c, values[r]);
            self.data.set(r, row);
            r = r + 1;
        }
        assert(column_of(self.grid(), c as int) =~= values@);
    }
}

/// A walk over the rows of a 4x4 grid, top to bottom.
pub struct RowIter<'a, T: Copy> {
    data: &'a [[T; 4]; 4],
    index: usize,
}

impl<'a, T: Copy> RowIter<'a, T> {
    /// The grid walked over.
    pub closed spec fn grid(&self) -> Seq<[T; 4]> {
        self.data@
    }

    /// How many rows were handed out.
    pub closed spec fn position(&self) -> usize {
        self.index
    }

    /// A walk starting at the top row of `data`.
    pub fn new(data: &'a [[T; 4]; 4]) -> (r: Self)
        ensures
            r.grid() == data@,
            r.position() == 0,
    {
        RowIter { data, index: 0 }
    }

    /// The next row, or `None` once all four were handed out.
    pub fn next(&mut self) -> (r: Option<&'a [T; 4]>)
        ensures
            final(self).grid() == old(self).grid(),
            old(self).position() < 4 ==> r == Some(&old(self).grid()[old(self).position() as int])
                && final(self).position() == old(self).position() + 1,
            old(self).position() >= 4 ==> r is None && final(self).position() == old(self).position(),
    {
        if self.index < 4 {
            let row: &'a [T; 4] = &self.data[self.index];
            self.index = self.index + 1;
            Some(row)
        } else {
            None
        }
    }
}

/// A walk over the columns of a 4x4 grid, left to right; each column is
/// handed out as a copy, top to bottom.
pub struct ColumnIter<'a, T: Copy> {
    data: &'a [[T; 4]; 4],
    index: usize,
}

impl<'a, T: Copy> ColumnIter<'a, T> {
    /// The grid walked over.
    pub closed spec fn grid(&self) -> Seq<[T; 4]> {
        self.data@
    }

    /// How many columns were handed out.
    pub closed spec fn position(&self) -> usize {
        self.index
    }

    /// A walk starting at the leftmost column of `data`.
    pub fn new(data: &'a [[T; 4]; 4]) -> (r: Self)
        ensures
            r.grid() == data@,
            r.position() == 0,
    {
        ColumnIter { data, index: 0 }
    }

    /// The next column, or `None` once all four were handed out.
    pub fn next(&mut self) -> (r: Option<[T; 4]>)
        ensures
            final(self).grid() == old(self).grid(),
            old(self).position() < 4 ==> r is Some && r->Some_0@ == column_of(
                old(self).grid(),
                old(self).position() as int,
            ) && final(self).position() == old(self).position() + 1,
            old(self).position() >= 4 ==> r is None && final(self).position() == old(self).position(),
    {
        if self.index < 4 {
            let c = self.index;
            let col = [self.data[0][c], self.data[1][c], self.data[2][c], self.data[3][c]];
            assert(col@ =~= column_of(self.data@, c as int));
            self.index = self.index + 1;
            Some(col)
        } else {
            None
        }
    }
}

/// A walk over the rows of a 4x4 grid, top to bottom, handing out each row
/// for writing.
pub struct RowIterMut<'a, T: Copy> {
    /// The rows not yet handed out.
    pub rest: &'a mut [[T; 4]],
}

impl<'a, T: Copy> RowIterMut<'a, T> {
    /// The rows not yet handed out, top to bottom.
    pub open spec fn remaining(&self) -> Seq<[T; 4]> {
        self.rest@
    }

    /// A walk starting at the top row of `data`.
    pub fn new(data: &'a mut [[T; 4]; 4]) -> (r: Self)
        ensures
            r.remaining() == old(data)@,
            final(r.rest)@ == final(data)@,
    {
        let rest: &'a mut [[T; 4]] = data;
        RowIterMut { rest }
    }

    /// The next row, or `None` once all four were handed out.
    pub fn next(&mut self) -> (r: Option<&'a mut [T; 4]>)
        ensures
            old(self).remaining().len() > 0 ==> r is Some && *r->Some_0 == old(self).remaining()[0]
                && final(self).remaining() == old(self).remaining().drop_first()
                && final(old(self).rest)@ == seq![*final(r->Some_0)] + final(final(self).rest)@,
            old(self).remaining().len() == 0 ==> r is None && final(self).remaining() == old(self).remaining()
                && final(final(self).rest)@ == final(old(self).rest)@,
    {
        if self.rest.len() == 0 {
            return None;
        }
        let mut taken: &'a mut [[T; 4]] = &mut [];
        core::mem::swap(&mut taken, &mut self.rest);
        let (first, rest) = taken.split_at_mut(1);
        self.rest = rest;
        Some(&mut first[0])
    }
}

/// A walk over the columns of a 4x4 grid, left to right, handing out a
/// writable view of each column; a view lasts until the next call.
pub struct ColumnIterMut<'a, T: Copy> {
    /// The grid walked over.
    pub data: &'a mut [[T; 4]; 4],
    /// How many columns were handed out.
    pub index: usize,
}

impl<'a, T: Copy> ColumnIterMut<'a, T> {
    /// The grid walked over.
    pub open spec fn grid(&self) -> Seq<[T; 4]> {
        self.data@
    }

    /// How many columns were handed out.
    pub open spec fn position(&self) -> usize {
        self.index
    }

    /// A walk starting at the leftmost column of `data`.
    pub fn new(data: &'a mut [[T; 4]; 4]) -> (r: Self)
        ensures
            r.grid() == old(data)@,
            r.position() == 0,
            *final(r.data) == *final(data),
    {
        ColumnIterMut { data, index: 0 }
    }

    /// A view of the next column, or `None` once all four were handed out.
    pub fn next(&mut self) -> (r: Option<ColumnMut<'_, T>>)
        ensures
            old(self).position() < 4 ==> r is Some && r->Some_0.grid() == old(self).grid()
                && r->Some_0.column() == old(self).position() && final(self).position()
                == old(self).position() + 1 && *final(final(self).data) == *final(old(self).data)
                && final(self).grid() == (*final(r->Some_0.data))@,
            old(self).position() >= 4 ==> r is None && final(self).position() == old(self).position()
                && final(self).grid() == old(self).grid() && *final(final(self).data)
                == *final(old(self).data),
    {
        if self.index < 4 {
            let c = self.index;
            self.index = self.index + 1;
            Some(ColumnMut::new(&mut *self.data, c))
        } else {
            None
        }
    }
}

} // verus!
