use vstd::prelude::*;

verus! {

/// Failures reported by the lookups and the transition model.
#[derive(Clone, Copy, Debug, PartialEq, Eq, Structural)]
pub enum FactorError {
    /// The tier (a skill level or a recipe level) has no entry in a table it was looked up in.
    TierNotFound(i64),
    /// A transition was asked of a standard recipe from a condition its rules never produce.
    InvalidConditionForRecipe(StatusCondition),
    /// The expert probability of `Normal` was asked for; it is always the remainder.
    InvalidProbabilityQuery,
}

} // verus!

use crate::condition::StatusCondition;
