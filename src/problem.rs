use vstd::prelude::*;

verus! {

/// An optimisation problem: a constraint set together with the gradient of
/// the smooth cost and the cost itself. The pieces are bound as given and
/// are not validated; a faulty callable shows up as a nonzero status when
/// it is evaluated.
pub struct Problem<GradientType, ConstraintType, CostType> {
    /// The set onto which iterates are projected.
    pub constraints: ConstraintType,
    /// Gradient of the smooth part of the cost.
    pub gradf: GradientType,
    /// The smooth part of the cost.
    pub cost: CostType,
}

impl<GradientType, ConstraintType, CostType> Problem<GradientType, ConstraintType, CostType> {
    /// Bundles constraints, cost gradient and cost into a problem.
    pub fn new(constraints: ConstraintType, cost_gradient: GradientType, cost: CostType) -> (r:
        Problem<GradientType, ConstraintType, CostType>)
        ensures
            r.constraints == constraints,
            r.gradf == cost_gradient,
            r.cost == cost,
    {
        Problem { constraints: constraints, gradf: cost_gradient, cost: cost }
    }
}

} // verus!
