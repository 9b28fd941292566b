use vstd::prelude::*;

use crate::error::SolverError;

verus! {

/// Checks that two slices have the same length, which is returned; any
/// difference is a dimension mismatch.
pub fn check_same_length<T>(a: &[T], b: &[T]) -> (r: Result<usize, SolverError>)
    ensures
        a@.len() == b@.len() <==> r == Ok::<usize, SolverError>(a@.len() as usize),
        a@.len() != b@.len() <==> r == Err::<usize, SolverError>(SolverError::DimensionMismatch),
{
    if a.len() == b.len() {
        Ok(a.len())
    } else {
        Err(SolverError::DimensionMismatch)
    }
}

/// The sizes a solver cache is built for: the problem dimension and the
/// number of correction pairs the quasi-Newton memory keeps. Both are at
/// least one.
#[derive(Debug, Clone, Copy, PartialEq, Eq, Structural)]
pub struct CacheDimensions {
    /// Dimension of the decision variable.
    pub dimension: usize,
    /// Number of correction pairs kept by the quasi-Newton memory.
    pub memory: usize,
}

impl CacheDimensions {
    /// Well-formedness: both sizes are positive.
    pub open spec fn inv(&self) -> bool {
        self.dimension >= 1 && self.memory >= 1
    }

    /// Validates the sizes: a zero dimension or a zero memory is a bad
    /// parameter.
    pub fn new(dimension: usize, memory: usize) -> (r: Result<CacheDimensions, SolverError>)
        ensures
            (dimension == 0 || memory == 0) <==> r == Err::<CacheDimensions, SolverError>(
                SolverError::BadParameter,
            ),
            (dimension >= 1 && memory >= 1) ==> r == Ok::<CacheDimensions, SolverError>(
                (CacheDimensions { dimension, memory }),
            ),
            r matches Ok(d) ==> d.inv(),
    {
        if dimension == 0 || memory == 0 {
            Err(SolverError::BadParameter)
        } else {
            Ok(CacheDimensions { dimension, memory })
        }
    }

    /// Checks that a vector handed to the solver has the cache's dimension.
    pub fn check_vector<T>(&self, u: &[T]) -> (r: Result<(), SolverError>)
        ensures
            u@.len() == self.dimension <==> r is Ok,
            u@.len() != self.dimension ==> r == Err::<(), SolverError>(
                SolverError::DimensionMismatch,
            ),
    {
        if u.len() == self.dimension {
            Ok(())
        } else {
            Err(SolverError::DimensionMismatch)
        }
    }
}

} // verus!
