//! Runtime-dimensional multivariate normal parameterized by mean and Cholesky scale.
use std::marker::PhantomData;

use vstd::prelude::*;

use crate::error::ModelError;
use gamlss_core::{Identity, Log};
use crate::multivariate::cholesky::{
    lemma_packed_index_in_bounds, lemma_triangle_monotonic, lemma_triangle_succ, packed_len,
    spec_packed_index, spec_packed_len, triangle,
};
use crate::multivariate::matrix::PackedLowerTriangular;

verus! {

/// Which predictor a coordinate of the flat predictor vector is.
#[derive(Debug, Clone, Copy, PartialEq, Eq)]
pub enum DynamicCoordinate {
    /// The mean predictor of `component`.
    Mean { component: usize },
    /// The Cholesky-scale predictor of lower-triangular entry `(row, col)`.
    CholeskyScale { row: usize, col: usize },
    /// A position past the last predictor: the Cholesky block as a whole.
    Whole,
}

/// Runtime-dimensional multivariate normal parameterized by mean and Cholesky scale.
///
/// The flat predictor vector holds the `dimension` mean predictors followed
/// by the packed lower-triangular Cholesky predictors.
#[derive(Debug, PartialEq, Eq)]
pub struct DynMvNormalCholesky<MuLink = Identity, DiagonalLink = Log, OffDiagonalLink = Identity> {
    dimension: usize,
    marker: PhantomData<(MuLink, DiagonalLink, OffDiagonalLink)>,
}

/// The packed length of a valid dimension, as an integer.
pub open spec fn cholesky_len(dimension: usize) -> int {
    triangle(dimension as int)
}

impl<MuLink, DiagonalLink, OffDiagonalLink> DynMvNormalCholesky<
    MuLink,
    DiagonalLink,
    OffDiagonalLink,
> {
    /// The dimension is positive and its packed Cholesky storage is representable.
    #[verifier::type_invariant]
    spec fn valid_dimension(self) -> bool {
        self.dimension > 0 && spec_packed_len(self.dimension) is Some
    }

    /// The configured observation dimension.
    pub closed spec fn spec_dimension(self) -> nat {
        self.dimension as nat
    }

    /// Number of flat predictors: `dimension` means and the packed Cholesky block.
    pub open spec fn spec_parameter_count(self) -> int {
        self.spec_dimension() + cholesky_len(self.spec_dimension() as usize)
    }

    /// Creates a stateless family value for a runtime dimension.
    ///
    /// # Errors
    ///
    /// Returns [`ModelError::InvalidParameter`] when `dimension == 0` and
    /// [`ModelError::ArithmeticOverflow`] when its packed triangle length is
    /// not representable.
    pub fn new(dimension: usize) -> (r: Result<Self, ModelError>)
        ensures
            dimension == 0 ==> r == Err::<Self, ModelError>(
                ModelError::InvalidParameter { parameter: "dimension", expected: "positive" },
            ),
            dimension > 0 && spec_packed_len(dimension) is None ==> r == Err::<Self, ModelError>(
                ModelError::ArithmeticOverflow {
                    context: "dynamic lower-triangular storage length",
                },
            ),
            dimension > 0 && spec_packed_len(dimension) is Some ==> (r matches Ok(family)
                && family.spec_dimension() == dimension),
    {
        if dimension == 0 {
            return Err(ModelError::InvalidParameter { parameter: "dimension", expected: "positive" });
        }
        if packed_len(dimension).is_none() {
            return Err(
                ModelError::ArithmeticOverflow {
                    context: "dynamic lower-triangular storage length",
                },
            );
        }
        Ok(Self { dimension, marker: PhantomData })
    }

    /// The dimension determines the family: two families with the same
    /// dimension are the same value, so `new(d)`, copies of it and, for
    /// `d == 1`, `default()` agree.
    pub proof fn lemma_dimension_determines_family(a: Self, b: Self)
        requires
            a.spec_dimension() == b.spec_dimension(),
        ensures
            a == b,
    {
    }

    /// Returns the configured observation dimension.
    pub fn dimension(&self) -> (dimension: usize)
        ensures
            dimension == self.spec_dimension(),
            dimension > 0,
            spec_packed_len(dimension) is Some,
    {
        proof {
            use_type_invariant(self);
        }
        self.dimension
    }

    /// Returns the expected packed lower-triangular Cholesky storage length.
    pub fn cholesky_len_for_dimension(dimension: usize) -> (len: Option<usize>)
        ensures
            len == spec_packed_len(dimension),
    {
        packed_len(dimension)
    }

    /// Number of flat predictors: the means followed by the packed Cholesky block.
    pub fn dynamic_parameter_count(&self) -> (count: usize)
        ensures
            count == self.spec_parameter_count(),
    {
        proof {
            use_type_invariant(self);
            let d = self.dimension as int;
            assert(d * (d + 1) / 2 + d <= usize::MAX) by (nonlinear_arith)
                requires
                    d >= 1,
                    d * (d + 1) <= usize::MAX,
            ;
        }
        let len = match packed_len(self.dimension) {
            Some(len) => len,
            None => 0,
        };
        self.dimension + len
    }

    /// Names the predictor stored at flat position `index`: a mean, a
    /// Cholesky entry in packed row-major order, or past the end the whole
    /// Cholesky block.
    pub fn dynamic_parameter_coordinate(&self, index: usize) -> (coordinate: DynamicCoordinate)
        ensures
            index < self.spec_dimension() ==> coordinate == (DynamicCoordinate::Mean {
                component: index,
            }),
            self.spec_dimension() <= index < self.spec_parameter_count() ==> (coordinate matches DynamicCoordinate::CholeskyScale {
                row,
                col,
            } && col <= row < self.spec_dimension() && spec_packed_index(row, col) == Some(
                (index - self.spec_dimension()) as usize,
            )),
            index >= self.spec_parameter_count() ==> coordinate == DynamicCoordinate::Whole,
    {
        proof {
            use_type_invariant(self);
        }
        if index < self.dimension {
            return DynamicCoordinate::Mean { component: index };
        }
        let packed = index - self.dimension;
        let mut row: usize = 0;
        while row < self.dimension
            invariant
                self.dimension > 0,
                spec_packed_len(self.dimension) is Some,
                row <= self.dimension,
                packed >= triangle(row as int),
                packed == index - self.dimension,
            decreases self.dimension - row,
        {
            proof {
                lemma_packed_index_in_bounds(self.dimension, row, row);
                lemma_triangle_succ(row as int);
                lemma_triangle_monotonic(row + 1, self.dimension as int);
            }
            let row_start = (row * (row + 1)) / 2;
            if packed < row_start + row + 1 {
                proof {
                    lemma_packed_index_in_bounds(self.dimension, row, (packed - row_start) as usize);
                }
                return DynamicCoordinate::CholeskyScale { row, col: packed - row_start };
            }
            row = row + 1;
        }
        DynamicCoordinate::Whole
    }
}

impl<MuLink, DiagonalLink, OffDiagonalLink> Clone for DynMvNormalCholesky<
    MuLink,
    DiagonalLink,
    OffDiagonalLink,
> {
    fn clone(&self) -> (copy: Self)
        ensures
            copy.spec_dimension() == self.spec_dimension(),
    {
        proof {
            use_type_invariant(self);
        }
        Self { dimension: self.dimension, marker: PhantomData }
    }
}

impl<MuLink, DiagonalLink, OffDiagonalLink> Default for DynMvNormalCholesky<
    MuLink,
    DiagonalLink,
    OffDiagonalLink,
> {
    /// The one-dimensional family.
    fn default() -> (family: Self)
        ensures
            family.spec_dimension() == 1,
    {
        proof {
            assert(spec_packed_len(1) == Some(1usize));
        }
        Self { dimension: 1, marker: PhantomData }
    }
}

impl<MuLink, DiagonalLink, OffDiagonalLink> Copy for DynMvNormalCholesky<
    MuLink,
    DiagonalLink,
    OffDiagonalLink,
> {

}

impl<MuLink, DiagonalLink, OffDiagonalLink> DynMvNormalCholesky<
    MuLink,
    DiagonalLink,
    OffDiagonalLink,
> {
    /// Splits a flat predictor vector into its mean block and its packed
    /// Cholesky block, or `None` when its length is not the parameter count.
    pub fn split_flat<T: Copy>(&self, values: &[T]) -> (parts: Option<(Vec<T>, PackedLowerTriangular<T>)>)
        ensures
            parts is Some <==> values@.len() == self.spec_parameter_count(),
            parts matches Some((mu, cholesky)) ==> mu@ == values@.subrange(
                0,
                self.spec_dimension() as int,
            ) && cholesky.spec_dimension() == self.spec_dimension() && cholesky.spec_values()
                == values@.subrange(self.spec_dimension() as int, values@.len() as int),
    {
        let count = self.dynamic_parameter_count();
        if values.len() != count {
            return None;
        }
        let dimension = self.dimension();
        let mut mu: Vec<T> = Vec::new();
        let mut i: usize = 0;
        while i < dimension
            invariant
                i <= dimension,
                dimension <= values@.len(),
                mu@ == values@.subrange(0, i as int),
            decreases dimension - i,
        {
            mu.push(values[i]);
            i = i + 1;
            proof {
                assert(mu@ =~= values@.subrange(0, i as int));
            }
        }
        let mut packed: Vec<T> = Vec::new();
        let mut j: usize = dimension;
        while j < values.len()
            invariant
                dimension <= j <= values@.len(),
                packed@ == values@.subrange(dimension as int, j as int),
            decreases values@.len() - j,
        {
            packed.push(values[j]);
            j = j + 1;
            proof {
                assert(packed@ =~= values@.subrange(dimension as int, j as int));
            }
        }
        Some((mu, PackedLowerTriangular::from_validated_parts(dimension, packed)))
    }

    /// Writes a mean block followed by a packed Cholesky block into a flat
    /// buffer. Returns `false`, leaving `out` unchanged, when the blocks do not
    /// have this family's dimension or `out` is not the parameter count long.
    pub fn write_flat<T: Copy>(
        &self,
        mu: &[T],
        cholesky: &PackedLowerTriangular<T>,
        out: &mut [T],
    ) -> (written: bool)
        ensures
            written <==> (old(out)@.len() == self.spec_parameter_count() && mu@.len()
                == self.spec_dimension() && cholesky.spec_dimension() == self.spec_dimension()),
            written ==> final(out)@ == mu@ + cholesky.spec_values(),
            !written ==> final(out)@ == old(out)@,
    {
        let count = self.dynamic_parameter_count();
        let dimension = self.dimension();
        if out.len() != count || mu.len() != dimension || cholesky.dimension() != dimension {
            return false;
        }
        let values = cholesky.values();
        let values_len = values.len();
        proof {
            lemma_triangle_monotonic(0, dimension as int);
            assert(values@.len() == cholesky_len(dimension));
        }
        let ghost target = mu@ + values@;
        let mut i: usize = 0;
        while i < dimension
            invariant
                i <= dimension,
                dimension == mu@.len(),
                out@.len() == count,
                count == dimension + values@.len(),
                target == mu@ + values@,
                forall|k: int| 0 <= k < i ==> out@[k] == target[k],
            decreases dimension - i,
        {
            out[i] = mu[i];
            i = i + 1;
        }
        let mut j: usize = 0;
        while j < values_len
            invariant
                values_len == values@.len(),
                j <= values@.len(),
                dimension == mu@.len(),
                out@.len() == count,
                count == dimension + values@.len(),
                target == mu@ + values@,
                forall|k: int| 0 <= k < dimension + j ==> out@[k] == target[k],
            decreases values@.len() - j,
        {
            out[dimension + j] = values[j];
            j = j + 1;
        }
        proof {
            assert(out@ =~= target);
        }
        true
    }

    /// Writing the blocks and splitting the buffer again gives the blocks back:
    /// a buffer holding `mu` followed by the packed Cholesky values splits into
    /// exactly those two blocks.
    pub proof fn lemma_split_after_write<T>(self, mu: Seq<T>, cholesky: Seq<T>)
        requires
            mu.len() == self.spec_dimension(),
            cholesky.len() == cholesky_len(self.spec_dimension() as usize),
        ensures
            (mu + cholesky).len() == self.spec_parameter_count(),
            (mu + cholesky).subrange(0, self.spec_dimension() as int) == mu,
            (mu + cholesky).subrange(self.spec_dimension() as int, (mu + cholesky).len() as int)
                == cholesky,
    {
        assert((mu + cholesky).subrange(0, self.spec_dimension() as int) =~= mu);
        assert((mu + cholesky).subrange(self.spec_dimension() as int, (mu + cholesky).len() as int)
            =~= cholesky);
    }
}

} // verus!
