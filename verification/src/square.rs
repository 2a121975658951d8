//! Square matrices: the two constant matrices and the elementary row
//! operations of Gaussian elimination.

use vstd::prelude::*;
use crate::coefficient::Coefficient;
use crate::error::Error;
use crate::grid;
use crate::matrix::exchanged;
use crate::matrix::Matrix;
use crate::rows::add_to_row;
use crate::rows::scale_row;

verus! {

impl<C, const SIZE: usize> Matrix<C, SIZE, SIZE> {
    /// Exchanges the rows `source` and `target`.
    ///
    /// Both indices must name a row; they may name the same one, and the
    /// matrix then stays as it is. A refused call leaves the matrix as it was.
    pub fn permute(&mut self, source: usize, target: usize) -> (r: Result<(), Error>)
        ensures
            source >= SIZE || target >= SIZE ==> r == Err::<(), Error>(Error::OutOfBounds),
            source < SIZE && target < SIZE ==> r == Ok::<(), Error>(()),
            r is Err ==> *final(self) == *old(self),
            r is Ok ==> final(self)@ == exchanged(old(self)@, source as int, target as int),
    {
        if target >= SIZE || source >= SIZE {
            return Err(Error::OutOfBounds);
        }
        if source != target {
            let (first, second) = self.two_lines_mut(source, target);
            core::mem::swap(first, second);
        }
        assert(self@ =~~= exchanged(old(self)@, source as int, target as int));
        Ok(())
    }
}

impl<C: Coefficient, const SIZE: usize> Matrix<C, SIZE, SIZE> {
    /// The matrix that holds the additive identity everywhere.
    pub fn nil() -> (m: Self)
        ensures
            m.values() == grid::nil(SIZE as nat),
    {
        let m = Matrix::filled(C::zero());
        assert(m.values() =~~= grid::nil(SIZE as nat));
        m
    }

    /// The matrix that holds the multiplicative identity on the diagonal and
    /// the additive identity elsewhere.
    pub fn identity() -> (m: Self)
        ensures
            m.values() == grid::identity(SIZE as nat),
    {
        let mut m = Self::nil();
        assert forall|a: int, b: int| 0 <= a < SIZE && 0 <= b < SIZE implies (
        #[trigger] m@[a][b]).value() == 0 by {
            assert(m.values()[a][b] == m@[a][b].value());
        }
        let mut i: usize = 0;
        while i < SIZE
            invariant
                i <= SIZE,
                forall|a: int| 0 <= a < SIZE ==> (#[trigger] m@[a]).len() == SIZE,
                forall|a: int, b: int|
                    0 <= a < SIZE && 0 <= b < SIZE ==> (#[trigger] m@[a][b]).value() == (if a
                        == b && a < i {
                        1int
                    } else {
                        0int
                    }),
            decreases SIZE - i,
        {
            m.put(i, i, C::one());
            i += 1;
        }
        assert(m.values() =~~= grid::identity(SIZE as nat));
        m
    }

    /// Multiplies every coefficient of the row `row` by `factor`.
    ///
    /// The index must name a row. A refused call leaves the matrix as it was.
    pub fn dilate(&mut self, row: usize, factor: &C) -> (r: Result<(), Error>)
        requires
            row < SIZE ==> grid::row_scaled_fits::<C>(
                old(self).values()[row as int],
                factor.value(),
            ),
        ensures
            row >= SIZE ==> r == Err::<(), Error>(Error::OutOfBounds),
            row < SIZE ==> r == Ok::<(), Error>(()),
            r is Err ==> *final(self) == *old(self),
            r is Ok ==> final(self).values() == grid::dilated(
                old(self).values(),
                row as int,
                factor.value(),
            ),
    {
        match self.get_mut_line(row) {
            None => Err(Error::OutOfBounds),
            Some(line) => {
                scale_row(line, factor);
                assert(self.values() =~~= grid::dilated(
                    old(self).values(),
                    row as int,
                    factor.value(),
                ));
                Ok(())
            },
        }
    }

    /// Adds the row `other` to the row `source`, coefficient by coefficient.
    ///
    /// Both indices must name a row, and not the same one: doubling a row is
    /// a dilation. A refused call leaves the matrix as it was.
    pub fn transvect(&mut self, source: usize, other: usize) -> (r: Result<(), Error>)
        requires
            source < SIZE && other < SIZE && source != other ==> grid::row_sum_fits::<C>(
                old(self).values()[source as int],
                old(self).values()[other as int],
            ),
        ensures
            source >= SIZE || other >= SIZE ==> r == Err::<(), Error>(Error::OutOfBounds),
            source < SIZE && other < SIZE && source == other ==> r == Err::<(), Error>(
                Error::WrongOperation,
            ),
            source < SIZE && other < SIZE && source != other ==> r == Ok::<(), Error>(()),
            r is Err ==> *final(self) == *old(self),
            r is Ok ==> final(self).values() == grid::transvected(
                old(self).values(),
                source as int,
                other as int,
            ),
    {
        if other >= SIZE || source >= SIZE {
            return Err(Error::OutOfBounds);
        }
        if other == source {
            return Err(Error::WrongOperation);
        }
        let (target, addend) = self.two_lines_mut(source, other);
        add_to_row(target, addend);
        assert(self.values() =~~= grid::transvected(
            old(self).values(),
            source as int,
            other as int,
        ));
        Ok(())
    }
}

} // verus!
