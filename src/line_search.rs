use vstd::prelude::*;

verus! {

/// Number of times the mixing coefficient is halved before the line search
/// gives up on the quasi-Newton direction: the smallest coefficient tried is
/// 2^-20.
pub const MAX_HALVINGS: u32 = 20;

/// The decision taken after one trial of the line search.
#[derive(Debug, Clone, Copy, PartialEq, Eq, Structural)]
pub enum Trial {
    /// Accept the candidate built with coefficient 2^-halvings.
    Accept { halvings: u32 },
    /// Try again with coefficient 2^-halvings.
    Retry { halvings: u32 },
    /// Give up the quasi-Newton direction: take the plain proximal-gradient
    /// step, that is, coefficient zero.
    Fallback,
}

/// Decides, after the trial with coefficient 2^-halvings, whether to accept
/// it, to halve the coefficient once more, or to fall back. The first trial
/// (no halving, the unit quasi-Newton step) is always made first.
pub fn next_trial(halvings: u32, descent_holds: bool) -> (r: Trial)
    requires
        halvings <= MAX_HALVINGS,
    ensures
        descent_holds ==> r == (Trial::Accept { halvings }),
        !descent_holds && halvings < MAX_HALVINGS ==> r == (Trial::Retry {
            halvings: (halvings + 1) as u32,
        }),
        !descent_holds && halvings == MAX_HALVINGS ==> r == Trial::Fallback,
{
    if descent_holds {
        Trial::Accept { halvings }
    } else if halvings < MAX_HALVINGS {
        Trial::Retry { halvings: halvings + 1 }
    } else {
        Trial::Fallback
    }
}

} // verus!
