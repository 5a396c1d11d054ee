//! Scaling factors and status-condition transitions of a turn-based crafting
//! minigame: tier lookup tables, condition eligibility, and the exact
//! probability distribution of the condition at the next step.

pub mod condition;
pub mod error;
pub mod tables;
pub mod transition;

pub use condition::{
    all_status_conditions, condition_bit, expert_condition_probability, StatusCondition,
};
pub use error::FactorError;
pub use tables::{
    condition_mask, crafting_level, is_expert_recipe, progress_div, progress_mod, quality_div,
    quality_mod, recipe_factors, RecipeFactors,
};
pub use transition::{transition_probabilities, Distribution, CERTAIN};
