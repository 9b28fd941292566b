use optimization_engine::error::SolverError;
use optimization_engine::line_search::{next_trial, Trial, MAX_HALVINGS};
use optimization_engine::memory::PairRing;
use optimization_engine::phase::{Phase, SolverControl, StepEntry};

#[test]
fn ring_rejects_zero_capacity() {
    assert!(matches!(PairRing::new(0), Err(SolverError::BadParameter)));
}

#[test]
fn ring_fills_then_overwrites_oldest() {
    let mut ring = PairRing::new(3).unwrap();
    assert_eq!(ring.capacity(), 3);
    assert_eq!(ring.len(), 0);
    assert_eq!(ring.push(), 0);
    assert_eq!(ring.push(), 1);
    assert!(!ring.is_full());
    assert_eq!(ring.push(), 2);
    assert!(ring.is_full());
    // Full: the oldest slot is reused, and the order rotates.
    assert_eq!(ring.push(), 0);
    assert_eq!(ring.len(), 3);
    assert_eq!(ring.slot(0), 1);
    assert_eq!(ring.slot(1), 2);
    assert_eq!(ring.slot(2), 0);
    assert_eq!(ring.push(), 1);
    assert_eq!(ring.slot(0), 2);
    assert_eq!(ring.slot(2), 1);
}

#[test]
fn ring_of_one_always_reuses_its_slot() {
    let mut ring = PairRing::new(1).unwrap();
    assert_eq!(ring.push(), 0);
    assert_eq!(ring.push(), 0);
    assert_eq!(ring.len(), 1);
    assert_eq!(ring.slot(0), 0);
}

#[test]
fn ring_observe_and_reset() {
    let mut ring = PairRing::new(2).unwrap();
    assert!(!ring.observe());
    assert!(ring.observe());
    ring.push();
    ring.push();
    ring.push();
    assert_eq!(ring.len(), 2);
    ring.reset();
    assert_eq!(ring.len(), 0);
    assert_eq!(ring.capacity(), 2);
    assert!(!ring.observe());
    assert_eq!(ring.push(), 0);
}

#[test]
fn control_refuses_step_before_init() {
    let control = SolverControl::new(2).unwrap();
    assert_eq!(control.phase(), Phase::Fresh);
    assert_eq!(control.begin_step(2), Err(SolverError::UsageError));
    assert_eq!(control.begin_step(3), Err(SolverError::UsageError));
}

#[test]
fn control_rejects_zero_dimension() {
    assert!(matches!(SolverControl::new(0), Err(SolverError::BadParameter)));
}

#[test]
fn control_runs_to_convergence() {
    let mut control = SolverControl::new(2).unwrap();
    assert_eq!(control.dimension(), 2);
    assert_eq!(control.initialize(3), Err(SolverError::DimensionMismatch));
    assert_eq!(control.phase(), Phase::Fresh);
    assert_eq!(control.initialize(2), Ok(()));
    assert_eq!(control.phase(), Phase::Initialized);
    assert_eq!(control.begin_step(1), Err(SolverError::DimensionMismatch));
    assert_eq!(control.begin_step(2), Ok(StepEntry::Proceed));
    assert!(control.finish_residual_test(false));
    assert_eq!(control.phase(), Phase::Iterating);
    assert_eq!(control.begin_step(2), Ok(StepEntry::Proceed));
    assert!(!control.finish_residual_test(true));
    assert_eq!(control.phase(), Phase::Converged);
    // Stepping after convergence does nothing, however often.
    assert_eq!(control.begin_step(2), Ok(StepEntry::AlreadyConverged));
    assert_eq!(control.begin_step(2), Ok(StepEntry::AlreadyConverged));
    // A new initialisation starts over.
    assert_eq!(control.initialize(2), Ok(()));
    assert_eq!(control.begin_step(2), Ok(StepEntry::Proceed));
}

#[test]
fn line_search_schedule() {
    assert_eq!(next_trial(0, true), Trial::Accept { halvings: 0 });
    assert_eq!(next_trial(0, false), Trial::Retry { halvings: 1 });
    assert_eq!(next_trial(7, true), Trial::Accept { halvings: 7 });
    assert_eq!(next_trial(19, false), Trial::Retry { halvings: 20 });
    assert_eq!(next_trial(MAX_HALVINGS, false), Trial::Fallback);
    assert_eq!(next_trial(MAX_HALVINGS, true), Trial::Accept { halvings: 20 });
}

#[test]
fn line_search_gives_up_after_twenty_one_trials() {
    let mut k: u32 = 0;
    let mut trials = 1;
    loop {
        match next_trial(k, false) {
            Trial::Retry { halvings } => {
                k = halvings;
                trials += 1;
            }
            Trial::Fallback => break,
            Trial::Accept { .. } => unreachable!(),
        }
    }
    assert_eq!(trials, 21);
    assert_eq!(k, MAX_HALVINGS);
}

#[test]
fn control_abandon_refuses_steps_until_reinitialised() {
    let mut control = SolverControl::new(3).unwrap();
    assert_eq!(control.initialize(3), Ok(()));
    assert!(control.finish_residual_test(false));
    control.abandon();
    assert_eq!(control.phase(), Phase::Fresh);
    assert_eq!(control.dimension(), 3);
    assert_eq!(control.begin_step(3), Err(SolverError::UsageError));
    assert_eq!(control.initialize(3), Ok(()));
    assert_eq!(control.begin_step(3), Ok(StepEntry::Proceed));
}
