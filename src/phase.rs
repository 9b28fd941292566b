use vstd::prelude::*;

use crate::error::SolverError;

verus! {

/// Where a solve stands.
#[derive(Debug, Clone, Copy, PartialEq, Eq, Structural)]
pub enum Phase {
    /// Built, not yet initialised: stepping is refused.
    Fresh,
    /// Step size estimated and cost evaluated at the starting point.
    Initialized,
    /// At least one step has been taken and the residual was still large.
    Iterating,
    /// The residual met the tolerance: further steps do nothing.
    Converged,
}

/// What a call to `step` is to do once its preconditions were checked.
#[derive(Debug, Clone, Copy, PartialEq, Eq, Structural)]
pub enum StepEntry {
    /// Run the forward-backward step and the residual test.
    Proceed,
    /// The solve has converged already: report that no further step is needed.
    AlreadyConverged,
}

/// The decisions of the solver engine that do not depend on numbers: which
/// calls are admitted in which phase, and how the residual test moves the
/// solve on.
#[derive(Debug)]
pub struct SolverControl {
    phase: Phase,
    dimension: usize,
}

impl SolverControl {
    /// The current phase.
    pub closed spec fn phase_spec(&self) -> Phase {
        self.phase
    }

    /// The dimension that vectors handed to the engine must have.
    pub closed spec fn dimension_spec(&self) -> nat {
        self.dimension as nat
    }

    /// A fresh control for vectors of the given dimension; dimension zero is
    /// a bad parameter.
    pub fn new(dimension: usize) -> (r: Result<SolverControl, SolverError>)
        ensures
            dimension == 0 <==> r == Err::<SolverControl, SolverError>(SolverError::BadParameter),
            dimension > 0 <==> r is Ok,
            r matches Ok(c) ==> c.phase_spec() == Phase::Fresh && c.dimension_spec() == dimension,
    {
        if dimension == 0 {
            Err(SolverError::BadParameter)
        } else {
            Ok(SolverControl { phase: Phase::Fresh, dimension })
        }
    }

    /// The current phase.
    pub fn phase(&self) -> (r: Phase)
        ensures
            r == self.phase_spec(),
    {
        self.phase
    }

    /// The dimension vectors must have.
    pub fn dimension(&self) -> (r: usize)
        ensures
            r == self.dimension_spec(),
    {
        self.dimension
    }

    /// Records a (re)initialisation, from any phase, on a vector of length
    /// `u_len`; a vector of another length is a dimension mismatch and
    /// leaves the phase unchanged.
    pub fn initialize(&mut self, u_len: usize) -> (r: Result<(), SolverError>)
        ensures
            final(self).dimension_spec() == old(self).dimension_spec(),
            u_len == old(self).dimension_spec() <==> r is Ok,
            u_len == old(self).dimension_spec() ==> final(self).phase_spec() == Phase::Initialized,
            u_len != old(self).dimension_spec() ==> {
                &&& r == Err::<(), SolverError>(SolverError::DimensionMismatch)
                &&& final(self).phase_spec() == old(self).phase_spec()
            },
    {
        if u_len != self.dimension {
            return Err(SolverError::DimensionMismatch);
        }
        self.phase = Phase::Initialized;
        Ok(())
    }

    /// Abandons the solve: until the next successful initialisation, steps
    /// are refused as they are on a fresh control.
    pub fn abandon(&mut self)
        ensures
            final(self).phase_spec() == Phase::Fresh,
            final(self).dimension_spec() == old(self).dimension_spec(),
    {
        self.phase = Phase::Fresh;
    }

    /// Admits a step on a vector of length `u_len`. Stepping before
    /// initialisation is a usage error, a vector of the wrong length a
    /// dimension mismatch; after convergence the step has nothing to do.
    pub fn begin_step(&self, u_len: usize) -> (r: Result<StepEntry, SolverError>)
        ensures
            self.phase_spec() == Phase::Fresh ==> r == Err::<StepEntry, SolverError>(
                SolverError::UsageError,
            ),
            self.phase_spec() != Phase::Fresh && u_len != self.dimension_spec() ==> r == Err::<
                StepEntry,
                SolverError,
            >(SolverError::DimensionMismatch),
            self.phase_spec() == Phase::Converged && u_len == self.dimension_spec() ==> r == Ok::<
                StepEntry,
                SolverError,
            >(StepEntry::AlreadyConverged),
            (self.phase_spec() == Phase::Initialized || self.phase_spec() == Phase::Iterating)
                && u_len == self.dimension_spec() ==> r == Ok::<StepEntry, SolverError>(
                StepEntry::Proceed,
            ),
    {
        match self.phase {
            Phase::Fresh => Err(SolverError::UsageError),
            _ => {
                if u_len != self.dimension {
                    Err(SolverError::DimensionMismatch)
                } else if self.phase == Phase::Converged {
                    Ok(StepEntry::AlreadyConverged)
                } else {
                    Ok(StepEntry::Proceed)
                }
            },
        }
    }

    /// Records the outcome of the residual test of a step that was admitted
    /// with `Proceed`. Returns whether another step is needed: exactly when
    /// the residual was not within the tolerance.
    pub fn finish_residual_test(&mut self, within_tolerance: bool) -> (another: bool)
        requires
            old(self).phase_spec() == Phase::Initialized || old(self).phase_spec()
                == Phase::Iterating,
        ensures
            another == !within_tolerance,
            final(self).dimension_spec() == old(self).dimension_spec(),
            final(self).phase_spec() == (if within_tolerance {
                Phase::Converged
            } else {
                Phase::Iterating
            }),
    {
        if within_tolerance {
            self.phase = Phase::Converged;
            false
        } else {
            self.phase = Phase::Iterating;
            true
        }
    }
}

} // verus!
