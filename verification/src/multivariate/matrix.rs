//! Matrix storage primitives shared by multivariate families.
use vstd::prelude::*;

use crate::error::ModelError;
use crate::multivariate::cholesky::{
    lemma_packed_index_in_bounds, lemma_packed_index_injective, packed_index, packed_len,
    spec_packed_len, triangle,
};

verus! {

/// Runtime-dimensional packed lower-triangular matrix storage.
///
/// Values are stored in row-major lower-triangular order:
/// `(0,0), (1,0), (1,1), (2,0), ...`, so a `dimension x dimension` matrix
/// holds exactly `dimension * (dimension + 1) / 2` values.
#[derive(Debug, PartialEq)]
pub struct PackedLowerTriangular<T> {
    dimension: usize,
    values: Vec<T>,
}

impl<T> PackedLowerTriangular<T> {
    /// The storage always holds exactly the packed length of its dimension.
    #[verifier::type_invariant]
    spec fn well_formed(self) -> bool {
        spec_packed_len(self.dimension) == Some(self.values@.len() as usize)
    }

    /// The observation/parameter dimension.
    pub closed spec fn spec_dimension(&self) -> nat {
        self.dimension as nat
    }

    /// The packed values in row-major lower-triangular order.
    pub closed spec fn spec_values(&self) -> Seq<T> {
        self.values@
    }

    /// The value stored for the entry `(row, col)` with `col <= row < dimension`.
    pub open spec fn spec_entry(&self, row: int, col: int) -> T {
        self.spec_values()[triangle(row) + col]
    }

    /// Creates packed lower-triangular storage after validating its length.
    ///
    /// # Errors
    ///
    /// Returns [`ModelError::InvalidParameter`] when `dimension == 0` or when
    /// `values.len()` differs from the packed length, and
    /// [`ModelError::ArithmeticOverflow`] when the packed length does not fit
    /// in `usize`.
    pub fn try_new(dimension: usize, values: Vec<T>) -> (r: Result<Self, ModelError>)
        ensures
            dimension == 0 ==> r == Err::<Self, ModelError>(
                ModelError::InvalidParameter { parameter: "dimension", expected: "positive" },
            ),
            dimension != 0 && spec_packed_len(dimension) is None ==> r == Err::<Self, ModelError>(
                ModelError::ArithmeticOverflow { context: "lower-triangular storage length" },
            ),
            dimension != 0 && spec_packed_len(dimension) is Some && spec_packed_len(dimension)
                != Some(values@.len() as usize) ==> r == Err::<Self, ModelError>(
                ModelError::InvalidParameter {
                    parameter: "cholesky",
                    expected: "D * (D + 1) / 2 lower-triangular values",
                },
            ),
            r is Ok <==> (dimension != 0 && spec_packed_len(dimension) == Some(
                values@.len() as usize,
            )),
            r matches Ok(m) ==> m.spec_dimension() == dimension && m.spec_values() == values@,
    {
        if dimension == 0 {
            return Err(ModelError::InvalidParameter { parameter: "dimension", expected: "positive" });
        }
        let expected = match packed_len(dimension) {
            Some(expected) => expected,
            None => {
                return Err(
                    ModelError::ArithmeticOverflow { context: "lower-triangular storage length" },
                );
            },
        };
        if values.len() != expected {
            return Err(
                ModelError::InvalidParameter {
                    parameter: "cholesky",
                    expected: "D * (D + 1) / 2 lower-triangular values",
                },
            );
        }
        Ok(Self { dimension, values })
    }

    /// Creates storage from parts whose lengths were already validated.
    pub fn from_validated_parts(dimension: usize, values: Vec<T>) -> (m: Self)
        requires
            spec_packed_len(dimension) == Some(values@.len() as usize),
        ensures
            m.spec_dimension() == dimension,
            m.spec_values() == values@,
    {
        Self { dimension, values }
    }

    /// Observation/parameter dimension.
    pub fn dimension(&self) -> (d: usize)
        ensures
            d == self.spec_dimension(),
    {
        self.dimension
    }

    /// Packed lower-triangular values.
    pub fn values(&self) -> (v: &[T])
        ensures
            v@ == self.spec_values(),
            spec_packed_len(self.spec_dimension() as usize) == Some(v@.len() as usize),
    {
        proof {
            use_type_invariant(self);
        }
        self.values.as_slice()
    }
}

impl<T> PackedLowerTriangular<T> {
    /// Returns a mutable lower-triangular entry, or `None` for invalid/upper entries.
    pub fn get_mut(&mut self, row: usize, col: usize) -> (entry: Option<&mut T>)
        ensures
            entry is Some <==> (row < old(self).spec_dimension() && col <= row),
            final(self).spec_dimension() == old(self).spec_dimension(),
            entry is None ==> final(self).spec_values() == old(self).spec_values(),
            entry is Some ==> *entry.unwrap() == old(self).spec_entry(row as int, col as int)
                && final(self).spec_values() == old(self).spec_values().update(
                triangle(row as int) + col,
                *final(entry.unwrap()),
            ),
    {
        proof {
            use_type_invariant(&*self);
        }
        if row < self.dimension && col <= row {
            proof {
                lemma_packed_index_in_bounds(self.dimension, row, col);
            }
            let index = (row * (row + 1)) / 2 + col;
            Some(&mut self.values[index])
        } else {
            None
        }
    }
}

impl<T: Clone> Clone for PackedLowerTriangular<T> {
    fn clone(&self) -> (copy: Self)
        ensures
            copy.spec_dimension() == self.spec_dimension(),
            copy.spec_values().len() == self.spec_values().len(),
            forall|i: int|
                0 <= i < self.spec_values().len() ==> cloned::<T>(
                    self.spec_values()[i],
                    #[trigger] copy.spec_values()[i],
                ),
    {
        proof {
            use_type_invariant(self);
        }
        Self { dimension: self.dimension, values: self.values.clone() }
    }
}

impl<T: Copy> PackedLowerTriangular<T> {
    /// Creates storage for `dimension` with every modelled entry set to `value`.
    pub fn filled(dimension: usize, value: T) -> (m: Self)
        requires
            spec_packed_len(dimension) is Some,
        ensures
            m.spec_dimension() == dimension,
            m.spec_values().len() == spec_packed_len(dimension).unwrap(),
            forall|i: int| 0 <= i < m.spec_values().len() ==> #[trigger] m.spec_values()[i] == value,
    {
        let len = match packed_len(dimension) {
            Some(len) => len,
            None => 0,
        };
        let mut values: Vec<T> = Vec::new();
        while values.len() < len
            invariant
                values@.len() <= len,
                forall|i: int| 0 <= i < values@.len() ==> #[trigger] values@[i] == value,
            decreases len - values@.len(),
        {
            values.push(value);
        }
        Self { dimension, values }
    }

    /// Returns a lower-triangular entry, or `None` for invalid/upper entries.
    pub fn get(&self, row: usize, col: usize) -> (entry: Option<T>)
        ensures
            entry == (if row < self.spec_dimension() && col <= row {
                Some(self.spec_entry(row as int, col as int))
            } else {
                None::<T>
            }),
    {
        proof {
            use_type_invariant(self);
        }
        if row < self.dimension && col <= row {
            proof {
                lemma_packed_index_in_bounds(self.dimension, row, col);
            }
            match packed_index(row, col) {
                Some(index) => Some(self.values[index]),
                None => None,
            }
        } else {
            None
        }
    }

    /// Returns the entry `(row, col)`, which must lie on or below the diagonal.
    pub fn lower(&self, row: usize, col: usize) -> (entry: T)
        requires
            col <= row < self.spec_dimension(),
        ensures
            entry == self.spec_entry(row as int, col as int),
    {
        proof {
            use_type_invariant(self);
            lemma_packed_index_in_bounds(self.dimension, row, col);
        }
        let index = (row * (row + 1)) / 2 + col;
        self.values[index]
    }
}

/// Writing one entry of packed storage changes that entry and no other: after
/// the value at `(row, col)` is replaced by `value`, reading `(row, col)` gives
/// `value` and reading any other entry gives what it held before.
pub proof fn lemma_write_then_read<T>(
    dimension: usize,
    values: Seq<T>,
    row: usize,
    col: usize,
    value: T,
    other_row: usize,
    other_col: usize,
)
    requires
        spec_packed_len(dimension) == Some(values.len() as usize),
        col <= row < dimension,
        other_col <= other_row < dimension,
    ensures
        values.update(triangle(row as int) + col, value)[triangle(other_row as int) + other_col]
            == (if other_row == row && other_col == col {
            value
        } else {
            values[triangle(other_row as int) + other_col]
        }),
{
    lemma_packed_index_in_bounds(dimension, row, col);
    lemma_packed_index_in_bounds(dimension, other_row, other_col);
    if triangle(row as int) + col == triangle(other_row as int) + other_col {
        lemma_packed_index_injective(row, col, other_row, other_col);
    }
}

} // verus!
