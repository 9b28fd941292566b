use vstd::prelude::*;

verus! {

/// The ways in which building or running a solve can fail.
#[derive(Debug, Clone, Copy, PartialEq, Eq, Structural)]
pub enum SolverError {
    /// A size, tolerance or radius outside its admissible range.
    BadParameter,
    /// Two slices that must have the same length do not.
    DimensionMismatch,
    /// An operation called in a phase that does not admit it.
    UsageError,
    /// The user's cost callable returned this nonzero status.
    UserCostFailure(i32),
    /// The user's gradient callable returned this nonzero status.
    UserGradientFailure(i32),
}

/// Maps a status returned by the user's cost callable to a result: zero is
/// success, anything else is reported unchanged as a cost failure.
pub fn cost_status(status: i32) -> (r: Result<(), SolverError>)
    ensures
        status == 0 <==> r is Ok,
        status != 0 ==> r == Err::<(), SolverError>(SolverError::UserCostFailure(status)),
{
    if status == 0 {
        Ok(())
    } else {
        Err(SolverError::UserCostFailure(status))
    }
}

/// Maps a status returned by the user's gradient callable to a result: zero
/// is success, anything else is reported unchanged as a gradient failure.
pub fn gradient_status(status: i32) -> (r: Result<(), SolverError>)
    ensures
        status == 0 <==> r is Ok,
        status != 0 ==> r == Err::<(), SolverError>(SolverError::UserGradientFailure(status)),
{
    if status == 0 {
        Ok(())
    } else {
        Err(SolverError::UserGradientFailure(status))
    }
}

} // verus!
