//! The matrix type, how it is built and how it is read.

use core::slice::Iter;
use core::slice::IterMut;
use vstd::prelude::*;
use vstd::std_specs::convert::FromSpecImpl;
use vstd::std_specs::iter::IteratorSpec;
use vstd::array::spec_array_as_slice;
use vstd::std_specs::slice::into_iter_elts;
use vstd::std_specs::slice::spec_slice_iter;
use crate::coefficient::Coefficient;
use crate::grid::all_fit;
use crate::grid::is_grid;
use crate::grid::row_values;
use crate::grid::Grid;

verus! {

/// A matrix of `ROWS` rows and `COLS` columns of coefficients `C`, stored
/// row by row. The dimensions belong to the type: no value has another
/// shape than its type says.
#[derive(Debug)]
pub struct Matrix<C, const ROWS: usize, const COLS: usize> {
    data: [[C; COLS]; ROWS],
}

impl<C, const ROWS: usize, const COLS: usize> View for Matrix<C, ROWS, COLS> {
    type V = Seq<Seq<C>>;

    /// The coefficients, row by row: `ROWS` rows of `COLS` coefficients.
    open spec fn view(&self) -> Seq<Seq<C>> {
        Seq::new(ROWS as nat, |i: int| self.line(i)@)
    }
}

/// The sequence `rows` with the items at `first` and `second` exchanged.
pub open spec fn exchanged<Row>(rows: Seq<Row>, first: int, second: int) -> Seq<Row> {
    rows.update(first, rows[second]).update(second, rows[first])
}

/// The conversion of a nested array into the matrix of its coefficients. It
/// cannot fail: the array has the shape of the matrix by type.
impl<C, const ROWS: usize, const COLS: usize> From<[[C; COLS]; ROWS]> for Matrix<C, ROWS, COLS> {
    fn from(data: [[C; COLS]; ROWS]) -> (m: Self)
        ensures
            m == Self::of(data),
            m.lines() == data@,
    {
        proof {
            Self::lemma_lines_of(data);
        }
        Matrix { data }
    }
}

impl<C, const ROWS: usize, const COLS: usize> FromSpecImpl<[[C; COLS]; ROWS]> for Matrix<C, ROWS, COLS> {
    open spec fn obeys_from_spec() -> bool {
        true
    }

    open spec fn from_spec(data: [[C; COLS]; ROWS]) -> Self {
        Self::of(data)
    }
}

/// A copy of the matrix: each coefficient of the copy is a clone of the
/// coefficient at its place.
impl<C: Clone, const ROWS: usize, const COLS: usize> Clone for Matrix<C, ROWS, COLS> {
    fn clone(&self) -> (copy: Self)
        ensures
            forall|i: int, j: int|
                0 <= i < ROWS && 0 <= j < COLS ==> cloned::<C>(
                    self@[i][j],
                    #[trigger] copy@[i][j],
                ),
    {
        let copy = Matrix { data: self.data.clone() };
        assert forall|i: int, j: int| 0 <= i < ROWS && 0 <= j < COLS implies cloned::<C>(
            self@[i][j],
            #[trigger] copy@[i][j],
        ) by {
            assert(cloned::<[C; COLS]>(self.data@[i], copy.data@[i]));
        }
        copy
    }
}

/// The mutable iterator over a slice, of std. Trusted: the type is opaque.
/// What an iterator of it will give is said where the iterator is made.
#[verifier::external_type_specification]
#[verifier::external_body]
#[verifier::reject_recursive_types(Item)]
pub struct ExIterMut<'a, Item: 'a>(IterMut<'a, Item>);

/// `<[T]>::iter_mut` of std. Trusted: the iterator will give one mutable
/// reference for each item of the slice, from the first to the last; each
/// holds the item as it is now, and the slice ends up holding, at each
/// place, what is left behind the reference for that place.
pub assume_specification<'a, T>[ <[T]>::iter_mut ](slice: &'a mut [T]) -> (items: IterMut<'a, T>)
    ensures
        IteratorSpec::obeys_prophetic_iter_laws(&items),
        IteratorSpec::decrease(&items) is Some,
        IteratorSpec::remaining(&items).len() == old(slice)@.len(),
        forall|i: int|
            0 <= i < old(slice)@.len() ==> *(#[trigger] IteratorSpec::remaining(&items)[i]) == old(
                slice,
            )@[i],
        final(slice)@.len() == old(slice)@.len(),
        forall|i: int|
            0 <= i < old(slice)@.len() ==> #[trigger] final(slice)@[i] == *final(
                IteratorSpec::remaining(&items)[i]
            ),
;

impl<C, const ROWS: usize, const COLS: usize> Matrix<C, ROWS, COLS> {
    /// The row stored at `index`.
    pub closed spec fn line(&self, index: int) -> [C; COLS] {
        self.data@[index]
    }

    /// A matrix is no more than its coefficients.
    pub proof fn lemma_view_is_injective(a: Self, b: Self)
        requires
            a@ == b@,
        ensures
            a == b,
    {
        assert forall|i: int| 0 <= i < ROWS implies a.data@[i] == b.data@[i] by {
            assert(a@[i] == b@[i]);
            assert(a.data@[i] =~= b.data@[i]);
        }
        assert(a.data =~= b.data);
    }

    /// The matrix whose rows are those of `data`, in their order.
    pub closed spec fn of(data: [[C; COLS]; ROWS]) -> Self {
        Matrix { data }
    }

    /// The matrix made from a nested array holds the rows of the array.
    pub proof fn lemma_lines_of(data: [[C; COLS]; ROWS])
        ensures
            Self::of(data).lines() == data@,
    {
        assert(Self::of(data).lines() =~= data@);
    }

    /// The rows as stored, from the first to the last.
    pub open spec fn lines(&self) -> Seq<[C; COLS]> {
        Seq::new(ROWS as nat, |i: int| self.line(i))
    }

    /// What `get` finds at `(row, col)`: the coefficient there, or nothing
    /// where either index is out of range.
    pub open spec fn entry(&self, row: usize, col: usize) -> Option<&C> {
        if row < ROWS && col < COLS {
            Some(&self@[row as int][col as int])
        } else {
            None
        }
    }

    /// Reading back what was put in: the matrix made from a nested array
    /// holds, at every place, the coefficient that the array holds there.
    pub proof fn lemma_from_then_get(data: [[C; COLS]; ROWS], row: usize, col: usize)
        requires
            row < ROWS,
            col < COLS,
        ensures
            Self::of(data).entry(row, col) == Some(&data[row as int][col as int]),
    {
    }

    /// The iterator that `get_lines` returns.
    pub closed spec fn lines_iter(&self) -> Iter<'_, [C; COLS]> {
        spec_slice_iter(spec_array_as_slice(&self.data))
    }

    /// The iterator that `get_lines` returns will give the rows as stored.
    pub proof fn lemma_lines_iter(&self)
        ensures
            IteratorSpec::remaining(&self.lines_iter()) == self.lines().as_ref(),
    {
        assert(IteratorSpec::remaining(&self.lines_iter()) =~= self.lines().as_ref());
    }

    /// An iterator over the rows in storage order, from the first to the
    /// last. Each call gives a fresh one; the matrix is not consumed.
    #[verifier::when_used_as_spec(lines_iter)]
    pub fn get_lines(&self) -> (lines: Iter<'_, [C; COLS]>)
        ensures
            lines == self.lines_iter(),
            IteratorSpec::remaining(&lines) == self.lines().as_ref(),
            into_iter_elts(lines) == self.lines(),
            IteratorSpec::decrease(&lines) is Some,
            IteratorSpec::initial_value_relation(&lines, &lines),
    {
        let lines = self.data.iter();
        assert(IteratorSpec::remaining(&lines) =~= self.lines().as_ref());
        assert(into_iter_elts(lines) =~= self.lines());
        lines
    }

    /// An iterator over the rows in storage order, from the first to the
    /// last, each to be changed in place. The matrix ends up holding, in each
    /// row, what the caller leaves behind the reference to that row.
    pub fn get_mut_lines(&mut self) -> (lines: IterMut<'_, [C; COLS]>)
        ensures
            IteratorSpec::obeys_prophetic_iter_laws(&lines),
            IteratorSpec::decrease(&lines) is Some,
            IteratorSpec::remaining(&lines).len() == ROWS,
            forall|i: int|
                0 <= i < ROWS ==> *(#[trigger] IteratorSpec::remaining(&lines)[i]) == old(
                    self,
                ).line(i),
            forall|i: int|
                0 <= i < ROWS ==> #[trigger] final(self).line(i) == *final(
                    IteratorSpec::remaining(&lines)[i]
                ),
    {
        self.data.iter_mut()
    }

    /// The row at `index`, or nothing where the matrix has no such row.
    pub fn get_line(&self, index: usize) -> (line: Option<&[C; COLS]>)
        ensures
            index < ROWS ==> line == Some(&self.line(index as int)),
            index >= ROWS ==> line is None,
    {
        if index < ROWS {
            Some(&self.data[index])
        } else {
            None
        }
    }

    /// The row at `index`, to be changed in place, or nothing where the
    /// matrix has no such row. The matrix is then as before, but for that
    /// row, which is as the caller leaves it.
    pub fn get_mut_line(&mut self, index: usize) -> (line: Option<&mut [C; COLS]>)
        ensures
            index >= ROWS ==> line is None && *final(self) == *old(self),
            index < ROWS ==> line is Some && *line.unwrap() == old(self).line(index as int)
                && final(self)@ == old(self)@.update(index as int, final(line.unwrap())@),
    {
        if index < ROWS {
            Some(&mut self.data[index])
        } else {
            None
        }
    }

    /// The coefficient at `(row, col)`, or nothing where either index is out
    /// of range.
    pub fn get(&self, row: usize, col: usize) -> (c: Option<&C>)
        ensures
            c == self.entry(row, col),
    {
        if row < ROWS && col < COLS {
            Some(&self.data[row][col])
        } else {
            None
        }
    }

    /// The coefficient at `(row, col)`, to be changed in place, or nothing
    /// where either index is out of range. The matrix is then as before, but
    /// for that coefficient, which is as the caller leaves it.
    pub fn get_mut(&mut self, row: usize, col: usize) -> (c: Option<&mut C>)
        ensures
            row >= ROWS || col >= COLS ==> c is None && *final(self) == *old(self),
            row < ROWS && col < COLS ==> c is Some
                && *c.unwrap() == old(self)@[row as int][col as int]
                && final(self)@ == old(self)@.update(
                row as int,
                old(self)@[row as int].update(col as int, *final(c.unwrap())),
            ),
    {
        if row < ROWS && col < COLS {
            Some(&mut self.data[row][col])
        } else {
            None
        }
    }

    /// The matrix that holds `c` everywhere.
    pub(crate) fn filled(c: C) -> (m: Self) where C: Copy
        ensures
            m@ == Seq::new(ROWS as nat, |i: int| Seq::new(COLS as nat, |j: int| c)),
    {
        let m = Matrix { data: [[c; COLS]; ROWS] };
        assert(m@ =~~= Seq::new(ROWS as nat, |i: int| Seq::new(COLS as nat, |j: int| c)));
        m
    }

    /// The row at `index`.
    pub(crate) fn line_at(&self, index: usize) -> (line: &[C; COLS])
        requires
            index < ROWS,
        ensures
            *line == self.line(index as int),
    {
        &self.data[index]
    }

    /// The row at `index`, to be changed in place.
    pub(crate) fn line_mut(&mut self, index: usize) -> (line: &mut [C; COLS])
        requires
            index < ROWS,
        ensures
            *line == old(self).line(index as int),
            final(self)@ == old(self)@.update(index as int, final(line)@),
    {
        &mut self.data[index]
    }

    /// Two rows at once, both to be changed in place. The rows are told
    /// apart by splitting the storage between them.
    pub(crate) fn two_lines_mut(&mut self, first: usize, second: usize) -> (lines: (
        &mut [C; COLS],
        &mut [C; COLS],
    ))
        requires
            first < ROWS,
            second < ROWS,
            first != second,
        ensures
            *lines.0 == old(self).line(first as int),
            *lines.1 == old(self).line(second as int),
            final(self)@ == old(self)@.update(first as int, final(lines.0)@).update(
                second as int,
                final(lines.1)@,
            ),
    {
        if first < second {
            let (head, tail) = self.data.split_at_mut(second);
            (&mut head[first], &mut tail[0])
        } else {
            let (head, tail) = self.data.split_at_mut(first);
            (&mut tail[0], &mut head[second])
        }
    }

    /// The coefficient at `(row, col)`.
    pub(crate) fn at(&self, row: usize, col: usize) -> (c: &C)
        requires
            row < ROWS,
            col < COLS,
        ensures
            *c == self@[row as int][col as int],
    {
        &self.data[row][col]
    }

    /// Replaces the coefficient at `(row, col)` by `c`.
    pub(crate) fn put(&mut self, row: usize, col: usize, c: C)
        requires
            row < ROWS,
            col < COLS,
        ensures
            final(self)@ == old(self)@.update(
                row as int,
                old(self)@[row as int].update(col as int, c),
            ),
    {
        self.data[row][col] = c;
        assert(self@ =~~= old(self)@.update(
            row as int,
            old(self)@[row as int].update(col as int, c),
        ));
    }
}

impl<C: Coefficient, const ROWS: usize, const COLS: usize> Matrix<C, ROWS, COLS> {
    /// The integers that the coefficients stand for, as a grid.
    pub open spec fn values(&self) -> Grid {
        Seq::new(ROWS as nat, |i: int| row_values(self@[i]))
    }

    /// The integers of a matrix form a grid of its shape, and `C` has room
    /// for each of them.
    pub proof fn lemma_values_are_a_grid(&self)
        ensures
            is_grid(self.values(), ROWS as nat, COLS as nat),
            all_fit::<C>(self.values()),
    {
        assert forall|i: int, j: int|
            0 <= i < self.values().len() && 0 <= j < self.values()[i].len() implies C::fits(
            #[trigger] self.values()[i][j],
        ) by {
            self@[i][j].value_fits();
        }
    }

    /// A matrix is no more than the integers it stands for.
    pub proof fn lemma_values_are_injective(a: Self, b: Self)
        requires
            a.values() == b.values(),
        ensures
            a == b,
    {
        assert forall|i: int| 0 <= i < ROWS implies a@[i] == b@[i] by {
            assert forall|j: int| 0 <= j < COLS implies a@[i][j] == b@[i][j] by {
                assert(a.values()[i][j] == a@[i][j].value());
                assert(b.values()[i][j] == b@[i][j].value());
                C::value_is_injective(a@[i][j], b@[i][j]);
            }
            assert(a@[i] =~= b@[i]);
        }
        assert(a@ =~= b@);
        Self::lemma_view_is_injective(a, b);
    }
}

} // verus!
