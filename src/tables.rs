use vstd::prelude::*;

use crate::error::FactorError;

verus! {

/// The scaling constants and condition eligibility of one recipe tier.
#[derive(Clone, Copy, Debug, PartialEq, Eq, Structural)]
pub struct RecipeFactors {
    pub progress_divisor: i64,
    pub progress_modifier: i64,
    pub quality_divisor: i64,
    pub quality_modifier: i64,
    /// One flag per condition that may occur; exactly `STANDARD_MASK` on a standard recipe.
    pub condition_mask: i64,
}

/// The mask of a standard (non-expert) recipe: `Normal | Good | Excellent | Poor`.
pub const STANDARD_MASK: i64 = 15;

/// The factors of each recipe tier that the game defines; `None` for any other tier.
pub open spec fn recipe_table(tier: i64) -> Option<RecipeFactors> {
    match tier {
        1 => Some(RecipeFactors { progress_divisor: 50, progress_modifier: 100, quality_divisor: 30, quality_modifier: 100, condition_mask: 15 }),
        2 => Some(RecipeFactors { progress_divisor: 50, progress_modifier: 100, quality_divisor: 30, quality_modifier: 100, condition_mask: 15 }),
        3 => Some(RecipeFactors { progress_divisor: 50, progress_modifier: 100, quality_divisor: 30, quality_modifier: 100, condition_mask: 15 }),
        4 => Some(RecipeFactors { progress_divisor: 50, progress_modifier: 100, quality_divisor: 30, quality_modifier: 100, condition_mask: 15 }),
        5 => Some(RecipeFactors { progress_divisor: 50, progress_modifier: 100, quality_divisor: 30, quality_modifier: 100, condition_mask: 15 }),
        6 => Some(RecipeFactors { progress_divisor: 50, progress_modifier: 100, quality_divisor: 30, quality_modifier: 100, condition_mask: 15 }),
        7 => Some(RecipeFactors { progress_divisor: 50, progress_modifier: 100, quality_divisor: 30, quality_modifier: 100, condition_mask: 15 }),
        8 => Some(RecipeFactors { progress_divisor: 50, progress_modifier: 100, quality_divisor: 30, quality_modifier: 100, condition_mask: 15 }),
        9 => Some(RecipeFactors { progress_divisor: 50, progress_modifier: 100, quality_divisor: 30, quality_modifier: 100, condition_mask: 15 }),
        10 => Some(RecipeFactors { progress_divisor: 50, progress_modifier: 100, quality_divisor: 30, quality_modifier: 100, condition_mask: 15 }),
        11 => Some(RecipeFactors { progress_divisor: 50, progress_modifier: 100, quality_divisor: 30, quality_modifier: 100, condition_mask: 15 }),
        12 => Some(RecipeFactors { progress_divisor: 50, progress_modifier: 100, quality_divisor: 30, quality_modifier: 100, condition_mask: 15 }),
        13 => Some(RecipeFactors { progress_divisor: 50, progress_modifier: 100, quality_divisor: 30, quality_modifier: 100, condition_mask: 15 }),
        14 => Some(RecipeFactors { progress_divisor: 50, progress_modifier: 100, quality_divisor: 30, quality_modifier: 100, condition_mask: 15 }),
        15 => Some(RecipeFactors { progress_divisor: 50, progress_modifier: 100, quality_divisor: 30, quality_modifier: 100, condition_mask: 15 }),
        16 => Some(RecipeFactors { progress_divisor: 50, progress_modifier: 100, quality_divisor: 30, quality_modifier: 100, condition_mask: 15 }),
        17 => Some(RecipeFactors { progress_divisor: 50, progress_modifier: 100, quality_divisor: 30, quality_modifier: 100, condition_mask: 15 }),
        18 => Some(RecipeFactors { progress_divisor: 50, progress_modifier: 100, quality_divisor: 30, quality_modifier: 100, condition_mask: 15 }),
        19 => Some(RecipeFactors { progress_divisor: 50, progress_modifier: 100, quality_divisor: 30, quality_modifier: 100, condition_mask: 15 }),
        20 => Some(RecipeFactors { progress_divisor: 50, progress_modifier: 100, quality_divisor: 30, quality_modifier: 100, condition_mask: 15 }),
        21 => Some(RecipeFactors { progress_divisor: 50, progress_modifier: 100, quality_divisor: 30, quality_modifier: 100, condition_mask: 15 }),
        22 => Some(RecipeFactors { progress_divisor: 50, progress_modifier: 100, quality_divisor: 30, quality_modifier: 100, condition_mask: 15 }),
        23 => Some(RecipeFactors { progress_divisor: 50, progress_modifier: 100, quality_divisor: 30, quality_modifier: 100, condition_mask: 15 }),
        24 => Some(RecipeFactors { progress_divisor: 50, progress_modifier: 100, quality_divisor: 30, quality_modifier: 100, condition_mask: 15 }),
        25 => Some(RecipeFactors { progress_divisor: 50, progress_modifier: 100, quality_divisor: 30, quality_modifier: 100, condition_mask: 15 }),
        26 => Some(RecipeFactors { progress_divisor: 50, progress_modifier: 100, quality_divisor: 30, quality_modifier: 100, condition_mask: 15 }),
        27 => Some(RecipeFactors { progress_divisor: 50, progress_modifier: 100, quality_divisor: 30, quality_modifier: 100, condition_mask: 15 }),
        28 => Some(RecipeFactors { progress_divisor: 50, progress_modifier: 100, quality_divisor: 30, quality_modifier: 100, condition_mask: 15 }),
        29 => Some(RecipeFactors { progress_divisor: 50, progress_modifier: 100, quality_divisor: 30, quality_modifier: 100, condition_mask: 15 }),
        30 => Some(RecipeFactors { progress_divisor: 50, progress_modifier: 100, quality_divisor: 30, quality_modifier: 100, condition_mask: 15 }),
        31 => Some(RecipeFactors { progress_divisor: 50, progress_modifier: 100, quality_divisor: 30, quality_modifier: 100, condition_mask: 15 }),
        32 => Some(RecipeFactors { progress_divisor: 50, progress_modifier: 100, quality_divisor: 30, quality_modifier: 100, condition_mask: 15 }),
        33 => Some(RecipeFactors { progress_divisor: 50, progress_modifier: 100, quality_divisor: 30, quality_modifier: 100, condition_mask: 15 }),
        34 => Some(RecipeFactors { progress_divisor: 50, progress_modifier: 100, quality_divisor: 30, quality_modifier: 100, condition_mask: 15 }),
        35 => Some(RecipeFactors { progress_divisor: 50, progress_modifier: 100, quality_divisor: 30, quality_modifier: 100, condition_mask: 15 }),
        36 => Some(RecipeFactors { progress_divisor: 50, progress_modifier: 100, quality_divisor: 30, quality_modifier: 100, condition_mask: 15 }),
        37 => Some(RecipeFactors { progress_divisor: 50, progress_modifier: 100, quality_divisor: 30, quality_modifier: 100, condition_mask: 15 }),
        38 => Some(RecipeFactors { progress_divisor: 50, progress_modifier: 100, quality_divisor: 30, quality_modifier: 100, condition_mask: 15 }),
        39 => Some(RecipeFactors { progress_divisor: 50, progress_modifier: 100, quality_divisor: 30, quality_modifier: 100, condition_mask: 15 }),
        40 => Some(RecipeFactors { progress_divisor: 50, progress_modifier: 100, quality_divisor: 30, quality_modifier: 100, condition_mask: 15 }),
        41 => Some(RecipeFactors { progress_divisor: 50, progress_modifier: 100, quality_divisor: 30, quality_modifier: 100, condition_mask: 15 }),
        42 => Some(RecipeFactors { progress_divisor: 50, progress_modifier: 100, quality_divisor: 30, quality_modifier: 100, condition_mask: 15 }),
        43 => Some(RecipeFactors { progress_divisor: 50, progress_modifier: 100, quality_divisor: 30, quality_modifier: 100, condition_mask: 15 }),
        44 => Some(RecipeFactors { progress_divisor: 50, progress_modifier: 100, quality_divisor: 30, quality_modifier: 100, condition_mask: 15 }),
        45 => Some(RecipeFactors { progress_divisor: 50, progress_modifier: 100, quality_divisor: 30, quality_modifier: 100, condition_mask: 15 }),
        46 => Some(RecipeFactors { progress_divisor: 50, progress_modifier: 100, quality_divisor: 30, quality_modifier: 100, condition_mask: 15 }),
        47 => Some(RecipeFactors { progress_divisor: 50, progress_modifier: 100, quality_divisor: 30, quality_modifier: 100, condition_mask: 15 }),
        48 => Some(RecipeFactors { progress_divisor: 50, progress_modifier: 100, quality_divisor: 30, quality_modifier: 100, condition_mask: 15 }),
        49 => Some(RecipeFactors { progress_divisor: 50, progress_modifier: 100, quality_divisor: 30, quality_modifier: 100, condition_mask: 15 }),
        50 => Some(RecipeFactors { progress_divisor: 50, progress_modifier: 100, quality_divisor: 30, quality_modifier: 100, condition_mask: 15 }),
        55 => Some(RecipeFactors { progress_divisor: 50, progress_modifier: 100, quality_divisor: 30, quality_modifier: 100, condition_mask: 15 }),
        70 => Some(RecipeFactors { progress_divisor: 50, progress_modifier: 80, quality_divisor: 30, quality_modifier: 70, condition_mask: 15 }),
        90 => Some(RecipeFactors { progress_divisor: 50, progress_modifier: 80, quality_divisor: 30, quality_modifier: 70, condition_mask: 15 }),
        110 => Some(RecipeFactors { progress_divisor: 50, progress_modifier: 80, quality_divisor: 30, quality_modifier: 70, condition_mask: 15 }),
        115 => Some(RecipeFactors { progress_divisor: 61, progress_modifier: 100, quality_divisor: 39, quality_modifier: 100, condition_mask: 15 }),
        125 => Some(RecipeFactors { progress_divisor: 62, progress_modifier: 100, quality_divisor: 43, quality_modifier: 100, condition_mask: 15 }),
        130 => Some(RecipeFactors { progress_divisor: 63, progress_modifier: 100, quality_divisor: 43, quality_modifier: 100, condition_mask: 15 }),
        133 => Some(RecipeFactors { progress_divisor: 64, progress_modifier: 100, quality_divisor: 44, quality_modifier: 100, condition_mask: 15 }),
        136 => Some(RecipeFactors { progress_divisor: 65, progress_modifier: 100, quality_divisor: 45, quality_modifier: 100, condition_mask: 15 }),
        139 => Some(RecipeFactors { progress_divisor: 66, progress_modifier: 100, quality_divisor: 46, quality_modifier: 100, condition_mask: 15 }),
        142 => Some(RecipeFactors { progress_divisor: 67, progress_modifier: 100, quality_divisor: 47, quality_modifier: 100, condition_mask: 15 }),
        145 => Some(RecipeFactors { progress_divisor: 68, progress_modifier: 100, quality_divisor: 48, quality_modifier: 100, condition_mask: 15 }),
        148 => Some(RecipeFactors { progress_divisor: 69, progress_modifier: 100, quality_divisor: 49, quality_modifier: 100, condition_mask: 15 }),
        150 => Some(RecipeFactors { progress_divisor: 70, progress_modifier: 100, quality_divisor: 50, quality_modifier: 100, condition_mask: 15 }),
        160 => Some(RecipeFactors { progress_divisor: 70, progress_modifier: 100, quality_divisor: 50, quality_modifier: 100, condition_mask: 15 }),
        180 => Some(RecipeFactors { progress_divisor: 70, progress_modifier: 80, quality_divisor: 50, quality_modifier: 70, condition_mask: 15 }),
        210 => Some(RecipeFactors { progress_divisor: 70, progress_modifier: 80, quality_divisor: 50, quality_modifier: 70, condition_mask: 15 }),
        220 => Some(RecipeFactors { progress_divisor: 70, progress_modifier: 80, quality_divisor: 50, quality_modifier: 70, condition_mask: 15 }),
        250 => Some(RecipeFactors { progress_divisor: 70, progress_modifier: 80, quality_divisor: 50, quality_modifier: 70, condition_mask: 15 }),
        255 => Some(RecipeFactors { progress_divisor: 81, progress_modifier: 100, quality_divisor: 58, quality_modifier: 100, condition_mask: 15 }),
        265 => Some(RecipeFactors { progress_divisor: 82, progress_modifier: 100, quality_divisor: 61, quality_modifier: 100, condition_mask: 15 }),
        270 => Some(RecipeFactors { progress_divisor: 83, progress_modifier: 100, quality_divisor: 64, quality_modifier: 100, condition_mask: 15 }),
        273 => Some(RecipeFactors { progress_divisor: 84, progress_modifier: 100, quality_divisor: 65, quality_modifier: 100, condition_mask: 15 }),
        276 => Some(RecipeFactors { progress_divisor: 85, progress_modifier: 100, quality_divisor: 66, quality_modifier: 100, condition_mask: 15 }),
        279 => Some(RecipeFactors { progress_divisor: 86, progress_modifier: 100, quality_divisor: 66, quality_modifier: 100, condition_mask: 15 }),
        282 => Some(RecipeFactors { progress_divisor: 87, progress_modifier: 100, quality_divisor: 68, quality_modifier: 100, condition_mask: 15 }),
        285 => Some(RecipeFactors { progress_divisor: 88, progress_modifier: 100, quality_divisor: 68, quality_modifier: 100, condition_mask: 15 }),
        288 => Some(RecipeFactors { progress_divisor: 89, progress_modifier: 100, quality_divisor: 68, quality_modifier: 100, condition_mask: 15 }),
        290 => Some(RecipeFactors { progress_divisor: 90, progress_modifier: 100, quality_divisor: 70, quality_modifier: 100, condition_mask: 15 }),
        300 => Some(RecipeFactors { progress_divisor: 90, progress_modifier: 100, quality_divisor: 70, quality_modifier: 100, condition_mask: 15 }),
        320 => Some(RecipeFactors { progress_divisor: 90, progress_modifier: 80, quality_divisor: 70, quality_modifier: 70, condition_mask: 15 }),
        350 => Some(RecipeFactors { progress_divisor: 90, progress_modifier: 80, quality_divisor: 70, quality_modifier: 70, condition_mask: 15 }),
        380 => Some(RecipeFactors { progress_divisor: 90, progress_modifier: 80, quality_divisor: 70, quality_modifier: 70, condition_mask: 15 }),
        390 => Some(RecipeFactors { progress_divisor: 101, progress_modifier: 100, quality_divisor: 81, quality_modifier: 100, condition_mask: 15 }),
        395 => Some(RecipeFactors { progress_divisor: 102, progress_modifier: 100, quality_divisor: 82, quality_modifier: 100, condition_mask: 15 }),
        400 => Some(RecipeFactors { progress_divisor: 103, progress_modifier: 100, quality_divisor: 83, quality_modifier: 100, condition_mask: 15 }),
        403 => Some(RecipeFactors { progress_divisor: 104, progress_modifier: 100, quality_divisor: 84, quality_modifier: 100, condition_mask: 15 }),
        406 => Some(RecipeFactors { progress_divisor: 105, progress_modifier: 100, quality_divisor: 85, quality_modifier: 100, condition_mask: 15 }),
        409 => Some(RecipeFactors { progress_divisor: 106, progress_modifier: 100, quality_divisor: 86, quality_modifier: 100, condition_mask: 15 }),
        412 => Some(RecipeFactors { progress_divisor: 107, progress_modifier: 100, quality_divisor: 87, quality_modifier: 100, condition_mask: 15 }),
        415 => Some(RecipeFactors { progress_divisor: 108, progress_modifier: 100, quality_divisor: 88, quality_modifier: 100, condition_mask: 15 }),
        418 => Some(RecipeFactors { progress_divisor: 109, progress_modifier: 100, quality_divisor: 89, quality_modifier: 100, condition_mask: 15 }),
        430 => Some(RecipeFactors { progress_divisor: 110, progress_modifier: 100, quality_divisor: 90, quality_modifier: 100, condition_mask: 15 }),
        440 => Some(RecipeFactors { progress_divisor: 110, progress_modifier: 100, quality_divisor: 90, quality_modifier: 100, condition_mask: 15 }),
        450 => Some(RecipeFactors { progress_divisor: 110, progress_modifier: 80, quality_divisor: 90, quality_modifier: 70, condition_mask: 15 }),
        480 => Some(RecipeFactors { progress_divisor: 110, progress_modifier: 80, quality_divisor: 90, quality_modifier: 70, condition_mask: 15 }),
        481 => Some(RecipeFactors { progress_divisor: 140, progress_modifier: 100, quality_divisor: 130, quality_modifier: 100, condition_mask: 115 }),
        490 => Some(RecipeFactors { progress_divisor: 110, progress_modifier: 80, quality_divisor: 90, quality_modifier: 70, condition_mask: 15 }),
        511 => Some(RecipeFactors { progress_divisor: 140, progress_modifier: 100, quality_divisor: 130, quality_modifier: 100, condition_mask: 115 }),
        512 => Some(RecipeFactors { progress_divisor: 140, progress_modifier: 100, quality_divisor: 130, quality_modifier: 100, condition_mask: 115 }),
        513 => Some(RecipeFactors { progress_divisor: 140, progress_modifier: 100, quality_divisor: 130, quality_modifier: 100, condition_mask: 483 }),
        514 => Some(RecipeFactors { progress_divisor: 140, progress_modifier: 100, quality_divisor: 130, quality_modifier: 100, condition_mask: 115 }),
        515 => Some(RecipeFactors { progress_divisor: 140, progress_modifier: 100, quality_divisor: 130, quality_modifier: 100, condition_mask: 483 }),
        516 => Some(RecipeFactors { progress_divisor: 140, progress_modifier: 100, quality_divisor: 130, quality_modifier: 100, condition_mask: 499 }),
        517 => Some(RecipeFactors { progress_divisor: 121, progress_modifier: 100, quality_divisor: 105, quality_modifier: 100, condition_mask: 15 }),
        520 => Some(RecipeFactors { progress_divisor: 122, progress_modifier: 100, quality_divisor: 106, quality_modifier: 100, condition_mask: 15 }),
        525 => Some(RecipeFactors { progress_divisor: 123, progress_modifier: 100, quality_divisor: 107, quality_modifier: 100, condition_mask: 15 }),
        530 => Some(RecipeFactors { progress_divisor: 124, progress_modifier: 100, quality_divisor: 108, quality_modifier: 100, condition_mask: 15 }),
        535 => Some(RecipeFactors { progress_divisor: 125, progress_modifier: 100, quality_divisor: 109, quality_modifier: 100, condition_mask: 15 }),
        540 => Some(RecipeFactors { progress_divisor: 126, progress_modifier: 100, quality_divisor: 110, quality_modifier: 100, condition_mask: 15 }),
        545 => Some(RecipeFactors { progress_divisor: 127, progress_modifier: 100, quality_divisor: 111, quality_modifier: 100, condition_mask: 15 }),
        550 => Some(RecipeFactors { progress_divisor: 128, progress_modifier: 100, quality_divisor: 112, quality_modifier: 100, condition_mask: 15 }),
        555 => Some(RecipeFactors { progress_divisor: 129, progress_modifier: 100, quality_divisor: 113, quality_modifier: 100, condition_mask: 15 }),
        560 => Some(RecipeFactors { progress_divisor: 130, progress_modifier: 90, quality_divisor: 115, quality_modifier: 80, condition_mask: 15 }),
        570 => Some(RecipeFactors { progress_divisor: 130, progress_modifier: 90, quality_divisor: 115, quality_modifier: 80, condition_mask: 15 }),
        580 => Some(RecipeFactors { progress_divisor: 130, progress_modifier: 80, quality_divisor: 115, quality_modifier: 70, condition_mask: 15 }),
        590 => Some(RecipeFactors { progress_divisor: 130, progress_modifier: 80, quality_divisor: 115, quality_modifier: 70, condition_mask: 15 }),
        610 => Some(RecipeFactors { progress_divisor: 130, progress_modifier: 80, quality_divisor: 115, quality_modifier: 70, condition_mask: 15 }),
        611 => Some(RecipeFactors { progress_divisor: 180, progress_modifier: 100, quality_divisor: 180, quality_modifier: 100, condition_mask: 435 }),
        620 => Some(RecipeFactors { progress_divisor: 130, progress_modifier: 80, quality_divisor: 115, quality_modifier: 70, condition_mask: 15 }),
        640 => Some(RecipeFactors { progress_divisor: 130, progress_modifier: 80, quality_divisor: 115, quality_modifier: 70, condition_mask: 15 }),
        641 => Some(RecipeFactors { progress_divisor: 180, progress_modifier: 100, quality_divisor: 180, quality_modifier: 100, condition_mask: 995 }),
        _ => None,
    }
}

/// The effective crafting tier of each skill level above 50; `None` for any other level.
pub open spec fn level_table(level: i64) -> Option<i64> {
    match level {
        51 => Some(120),
        52 => Some(125),
        53 => Some(130),
        54 => Some(133),
        55 => Some(136),
        56 => Some(139),
        57 => Some(142),
        58 => Some(145),
        59 => Some(148),
        60 => Some(150),
        61 => Some(260),
        62 => Some(265),
        63 => Some(270),
        64 => Some(273),
        65 => Some(276),
        66 => Some(279),
        67 => Some(282),
        68 => Some(285),
        69 => Some(288),
        70 => Some(290),
        71 => Some(390),
        72 => Some(395),
        73 => Some(400),
        74 => Some(403),
        75 => Some(406),
        76 => Some(409),
        77 => Some(412),
        78 => Some(415),
        79 => Some(418),
        80 => Some(420),
        81 => Some(517),
        82 => Some(520),
        83 => Some(525),
        84 => Some(530),
        85 => Some(535),
        86 => Some(540),
        87 => Some(545),
        88 => Some(550),
        89 => Some(555),
        90 => Some(560),
        _ => None,
    }
}

/// The effective crafting tier of a skill level: the level itself up to 50.
pub open spec fn crafting_level_spec(job_level: i64) -> Result<i64, FactorError> {
    if job_level <= 50 {
        Ok(job_level)
    } else {
        match level_table(job_level) {
            Some(t) => Ok(t),
            None => Err(FactorError::TierNotFound(job_level)),
        }
    }
}

/// One field of a recipe tier's factors, or `TierNotFound`.
pub open spec fn recipe_field(tier: i64, field: spec_fn(RecipeFactors) -> i64) -> Result<i64, FactorError> {
    match recipe_table(tier) {
        Some(f) => Ok(field(f)),
        None => Err(FactorError::TierNotFound(tier)),
    }
}

/// Whether a recipe tier is expert, or `TierNotFound`.
pub open spec fn is_expert_spec(tier: i64) -> Result<bool, FactorError> {
    match recipe_table(tier) {
        Some(f) => Ok(f.condition_mask != STANDARD_MASK),
        None => Err(FactorError::TierNotFound(tier)),
    }
}

/// The factors of a recipe tier.
pub fn recipe_factors(recipe_level: i64) -> (r: Result<RecipeFactors, FactorError>)
    ensures
        r == (match recipe_table(recipe_level) {
            Some(f) => Ok(f),
            None => Err(FactorError::TierNotFound(recipe_level)),
        }),
{
    let row = match recipe_level {
        1 => Some(RecipeFactors { progress_divisor: 50, progress_modifier: 100, quality_divisor: 30, quality_modifier: 100, condition_mask: 15 }),
        2 => Some(RecipeFactors { progress_divisor: 50, progress_modifier: 100, quality_divisor: 30, quality_modifier: 100, condition_mask: 15 }),
        3 => Some(RecipeFactors { progress_divisor: 50, progress_modifier: 100, quality_divisor: 30, quality_modifier: 100, condition_mask: 15 }),
        4 => Some(RecipeFactors { progress_divisor: 50, progress_modifier: 100, quality_divisor: 30, quality_modifier: 100, condition_mask: 15 }),
        5 => Some(RecipeFactors { progress_divisor: 50, progress_modifier: 100, quality_divisor: 30, quality_modifier: 100, condition_mask: 15 }),
        6 => Some(RecipeFactors { progress_divisor: 50, progress_modifier: 100, quality_divisor: 30, quality_modifier: 100, condition_mask: 15 }),
        7 => Some(RecipeFactors { progress_divisor: 50, progress_modifier: 100, quality_divisor: 30, quality_modifier: 100, condition_mask: 15 }),
        8 => Some(RecipeFactors { progress_divisor: 50, progress_modifier: 100, quality_divisor: 30, quality_modifier: 100, condition_mask: 15 }),
        9 => Some(RecipeFactors { progress_divisor: 50, progress_modifier: 100, quality_divisor: 30, quality_modifier: 100, condition_mask: 15 }),
        10 => Some(RecipeFactors { progress_divisor: 50, progress_modifier: 100, quality_divisor: 30, quality_modifier: 100, condition_mask: 15 }),
        11 => Some(RecipeFactors { progress_divisor: 50, progress_modifier: 100, quality_divisor: 30, quality_modifier: 100, condition_mask: 15 }),
        12 => Some(RecipeFactors { progress_divisor: 50, progress_modifier: 100, quality_divisor: 30, quality_modifier: 100, condition_mask: 15 }),
        13 => Some(RecipeFactors { progress_divisor: 50, progress_modifier: 100, quality_divisor: 30, quality_modifier: 100, condition_mask: 15 }),
        14 => Some(RecipeFactors { progress_divisor: 50, progress_modifier: 100, quality_divisor: 30, quality_modifier: 100, condition_mask: 15 }),
        15 => Some(RecipeFactors { progress_divisor: 50, progress_modifier: 100, quality_divisor: 30, quality_modifier: 100, condition_mask: 15 }),
        16 => Some(RecipeFactors { progress_divisor: 50, progress_modifier: 100, quality_divisor: 30, quality_modifier: 100, condition_mask: 15 }),
        17 => Some(RecipeFactors { progress_divisor: 50, progress_modifier: 100, quality_divisor: 30, quality_modifier: 100, condition_mask: 15 }),
        18 => Some(RecipeFactors { progress_divisor: 50, progress_modifier: 100, quality_divisor: 30, quality_modifier: 100, condition_mask: 15 }),
        19 => Some(RecipeFactors { progress_divisor: 50, progress_modifier: 100, quality_divisor: 30, quality_modifier: 100, condition_mask: 15 }),
        20 => Some(RecipeFactors { progress_divisor: 50, progress_modifier: 100, quality_divisor: 30, quality_modifier: 100, condition_mask: 15 }),
        21 => Some(RecipeFactors { progress_divisor: 50, progress_modifier: 100, quality_divisor: 30, quality_modifier: 100, condition_mask: 15 }),
        22 => Some(RecipeFactors { progress_divisor: 50, progress_modifier: 100, quality_divisor: 30, quality_modifier: 100, condition_mask: 15 }),
        23 => Some(RecipeFactors { progress_divisor: 50, progress_modifier: 100, quality_divisor: 30, quality_modifier: 100, condition_mask: 15 }),
        24 => Some(RecipeFactors { progress_divisor: 50, progress_modifier: 100, quality_divisor: 30, quality_modifier: 100, condition_mask: 15 }),
        25 => Some(RecipeFactors { progress_divisor: 50, progress_modifier: 100, quality_divisor: 30, quality_modifier: 100, condition_mask: 15 }),
        26 => Some(RecipeFactors { progress_divisor: 50, progress_modifier: 100, quality_divisor: 30, quality_modifier: 100, condition_mask: 15 }),
        27 => Some(RecipeFactors { progress_divisor: 50, progress_modifier: 100, quality_divisor: 30, quality_modifier: 100, condition_mask: 15 }),
        28 => Some(RecipeFactors { progress_divisor: 50, progress_modifier: 100, quality_divisor: 30, quality_modifier: 100, condition_mask: 15 }),
        29 => Some(RecipeFactors { progress_divisor: 50, progress_modifier: 100, quality_divisor: 30, quality_modifier: 100, condition_mask: 15 }),
        30 => Some(RecipeFactors { progress_divisor: 50, progress_modifier: 100, quality_divisor: 30, quality_modifier: 100, condition_mask: 15 }),
        31 => Some(RecipeFactors { progress_divisor: 50, progress_modifier: 100, quality_divisor: 30, quality_modifier: 100, condition_mask: 15 }),
        32 => Some(RecipeFactors { progress_divisor: 50, progress_modifier: 100, quality_divisor: 30, quality_modifier: 100, condition_mask: 15 }),
        33 => Some(RecipeFactors { progress_divisor: 50, progress_modifier: 100, quality_divisor: 30, quality_modifier: 100, condition_mask: 15 }),
        34 => Some(RecipeFactors { progress_divisor: 50, progress_modifier: 100, quality_divisor: 30, quality_modifier: 100, condition_mask: 15 }),
        35 => Some(RecipeFactors { progress_divisor: 50, progress_modifier: 100, quality_divisor: 30, quality_modifier: 100, condition_mask: 15 }),
        36 => Some(RecipeFactors { progress_divisor: 50, progress_modifier: 100, quality_divisor: 30, quality_modifier: 100, condition_mask: 15 }),
        37 => Some(RecipeFactors { progress_divisor: 50, progress_modifier: 100, quality_divisor: 30, quality_modifier: 100, condition_mask: 15 }),
        38 => Some(RecipeFactors { progress_divisor: 50, progress_modifier: 100, quality_divisor: 30, quality_modifier: 100, condition_mask: 15 }),
        39 => Some(RecipeFactors { progress_divisor: 50, progress_modifier: 100, quality_divisor: 30, quality_modifier: 100, condition_mask: 15 }),
        40 => Some(RecipeFactors { progress_divisor: 50, progress_modifier: 100, quality_divisor: 30, quality_modifier: 100, condition_mask: 15 }),
        41 => Some(RecipeFactors { progress_divisor: 50, progress_modifier: 100, quality_divisor: 30, quality_modifier: 100, condition_mask: 15 }),
        42 => Some(RecipeFactors { progress_divisor: 50, progress_modifier: 100, quality_divisor: 30, quality_modifier: 100, condition_mask: 15 }),
        43 => Some(RecipeFactors { progress_divisor: 50, progress_modifier: 100, quality_divisor: 30, quality_modifier: 100, condition_mask: 15 }),
        44 => Some(RecipeFactors { progress_divisor: 50, progress_modifier: 100, quality_divisor: 30, quality_modifier: 100, condition_mask: 15 }),
        45 => Some(RecipeFactors { progress_divisor: 50, progress_modifier: 100, quality_divisor: 30, quality_modifier: 100, condition_mask: 15 }),
        46 => Some(RecipeFactors { progress_divisor: 50, progress_modifier: 100, quality_divisor: 30, quality_modifier: 100, condition_mask: 15 }),
        47 => Some(RecipeFactors { progress_divisor: 50, progress_modifier: 100, quality_divisor: 30, quality_modifier: 100, condition_mask: 15 }),
        48 => Some(RecipeFactors { progress_divisor: 50, progress_modifier: 100, quality_divisor: 30, quality_modifier: 100, condition_mask: 15 }),
        49 => Some(RecipeFactors { progress_divisor: 50, progress_modifier: 100, quality_divisor: 30, quality_modifier: 100, condition_mask: 15 }),
        50 => Some(RecipeFactors { progress_divisor: 50, progress_modifier: 100, quality_divisor: 30, quality_modifier: 100, condition_mask: 15 }),
        55 => Some(RecipeFactors { progress_divisor: 50, progress_modifier: 100, quality_divisor: 30, quality_modifier: 100, condition_mask: 15 }),
        70 => Some(RecipeFactors { progress_divisor: 50, progress_modifier: 80, quality_divisor: 30, quality_modifier: 70, condition_mask: 15 }),
        90 => Some(RecipeFactors { progress_divisor: 50, progress_modifier: 80, quality_divisor: 30, quality_modifier: 70, condition_mask: 15 }),
        110 => Some(RecipeFactors { progress_divisor: 50, progress_modifier: 80, quality_divisor: 30, quality_modifier: 70, condition_mask: 15 }),
        115 => Some(RecipeFactors { progress_divisor: 61, progress_modifier: 100, quality_divisor: 39, quality_modifier: 100, condition_mask: 15 }),
        125 => Some(RecipeFactors { progress_divisor: 62, progress_modifier: 100, quality_divisor: 43, quality_modifier: 100, condition_mask: 15 }),
        130 => Some(RecipeFactors { progress_divisor: 63, progress_modifier: 100, quality_divisor: 43, quality_modifier: 100, condition_mask: 15 }),
        133 => Some(RecipeFactors { progress_divisor: 64, progress_modifier: 100, quality_divisor: 44, quality_modifier: 100, condition_mask: 15 }),
        136 => Some(RecipeFactors { progress_divisor: 65, progress_modifier: 100, quality_divisor: 45, quality_modifier: 100, condition_mask: 15 }),
        139 => Some(RecipeFactors { progress_divisor: 66, progress_modifier: 100, quality_divisor: 46, quality_modifier: 100, condition_mask: 15 }),
        142 => Some(RecipeFactors { progress_divisor: 67, progress_modifier: 100, quality_divisor: 47, quality_modifier: 100, condition_mask: 15 }),
        145 => Some(RecipeFactors { progress_divisor: 68, progress_modifier: 100, quality_divisor: 48, quality_modifier: 100, condition_mask: 15 }),
        148 => Some(RecipeFactors { progress_divisor: 69, progress_modifier: 100, quality_divisor: 49, quality_modifier: 100, condition_mask: 15 }),
        150 => Some(RecipeFactors { progress_divisor: 70, progress_modifier: 100, quality_divisor: 50, quality_modifier: 100, condition_mask: 15 }),
        160 => Some(RecipeFactors { progress_divisor: 70, progress_modifier: 100, quality_divisor: 50, quality_modifier: 100, condition_mask: 15 }),
        180 => Some(RecipeFactors { progress_divisor: 70, progress_modifier: 80, quality_divisor: 50, quality_modifier: 70, condition_mask: 15 }),
        210 => Some(RecipeFactors { progress_divisor: 70, progress_modifier: 80, quality_divisor: 50, quality_modifier: 70, condition_mask: 15 }),
        220 => Some(RecipeFactors { progress_divisor: 70, progress_modifier: 80, quality_divisor: 50, quality_modifier: 70, condition_mask: 15 }),
        250 => Some(RecipeFactors { progress_divisor: 70, progress_modifier: 80, quality_divisor: 50, quality_modifier: 70, condition_mask: 15 }),
        255 => Some(RecipeFactors { progress_divisor: 81, progress_modifier: 100, quality_divisor: 58, quality_modifier: 100, condition_mask: 15 }),
        265 => Some(RecipeFactors { progress_divisor: 82, progress_modifier: 100, quality_divisor: 61, quality_modifier: 100, condition_mask: 15 }),
        270 => Some(RecipeFactors { progress_divisor: 83, progress_modifier: 100, quality_divisor: 64, quality_modifier: 100, condition_mask: 15 }),
        273 => Some(RecipeFactors { progress_divisor: 84, progress_modifier: 100, quality_divisor: 65, quality_modifier: 100, condition_mask: 15 }),
        276 => Some(RecipeFactors { progress_divisor: 85, progress_modifier: 100, quality_divisor: 66, quality_modifier: 100, condition_mask: 15 }),
        279 => Some(RecipeFactors { progress_divisor: 86, progress_modifier: 100, quality_divisor: 66, quality_modifier: 100, condition_mask: 15 }),
        282 => Some(RecipeFactors { progress_divisor: 87, progress_modifier: 100, quality_divisor: 68, quality_modifier: 100, condition_mask: 15 }),
        285 => Some(RecipeFactors { progress_divisor: 88, progress_modifier: 100, quality_divisor: 68, quality_modifier: 100, condition_mask: 15 }),
        288 => Some(RecipeFactors { progress_divisor: 89, progress_modifier: 100, quality_divisor: 68, quality_modifier: 100, condition_mask: 15 }),
        290 => Some(RecipeFactors { progress_divisor: 90, progress_modifier: 100, quality_divisor: 70, quality_modifier: 100, condition_mask: 15 }),
        300 => Some(RecipeFactors { progress_divisor: 90, progress_modifier: 100, quality_divisor: 70, quality_modifier: 100, condition_mask: 15 }),
        320 => Some(RecipeFactors { progress_divisor: 90, progress_modifier: 80, quality_divisor: 70, quality_modifier: 70, condition_mask: 15 }),
        350 => Some(RecipeFactors { progress_divisor: 90, progress_modifier: 80, quality_divisor: 70, quality_modifier: 70, condition_mask: 15 }),
        380 => Some(RecipeFactors { progress_divisor: 90, progress_modifier: 80, quality_divisor: 70, quality_modifier: 70, condition_mask: 15 }),
        390 => Some(RecipeFactors { progress_divisor: 101, progress_modifier: 100, quality_divisor: 81, quality_modifier: 100, condition_mask: 15 }),
        395 => Some(RecipeFactors { progress_divisor: 102, progress_modifier: 100, quality_divisor: 82, quality_modifier: 100, condition_mask: 15 }),
        400 => Some(RecipeFactors { progress_divisor: 103, progress_modifier: 100, quality_divisor: 83, quality_modifier: 100, condition_mask: 15 }),
        403 => Some(RecipeFactors { progress_divisor: 104, progress_modifier: 100, quality_divisor: 84, quality_modifier: 100, condition_mask: 15 }),
        406 => Some(RecipeFactors { progress_divisor: 105, progress_modifier: 100, quality_divisor: 85, quality_modifier: 100, condition_mask: 15 }),
        409 => Some(RecipeFactors { progress_divisor: 106, progress_modifier: 100, quality_divisor: 86, quality_modifier: 100, condition_mask: 15 }),
        412 => Some(RecipeFactors { progress_divisor: 107, progress_modifier: 100, quality_divisor: 87, quality_modifier: 100, condition_mask: 15 }),
        415 => Some(RecipeFactors { progress_divisor: 108, progress_modifier: 100, quality_divisor: 88, quality_modifier: 100, condition_mask: 15 }),
        418 => Some(RecipeFactors { progress_divisor: 109, progress_modifier: 100, quality_divisor: 89, quality_modifier: 100, condition_mask: 15 }),
        430 => Some(RecipeFactors { progress_divisor: 110, progress_modifier: 100, quality_divisor: 90, quality_modifier: 100, condition_mask: 15 }),
        440 => Some(RecipeFactors { progress_divisor: 110, progress_modifier: 100, quality_divisor: 90, quality_modifier: 100, condition_mask: 15 }),
        450 => Some(RecipeFactors { progress_divisor: 110, progress_modifier: 80, quality_divisor: 90, quality_modifier: 70, condition_mask: 15 }),
        480 => Some(RecipeFactors { progress_divisor: 110, progress_modifier: 80, quality_divisor: 90, quality_modifier: 70, condition_mask: 15 }),
        481 => Some(RecipeFactors { progress_divisor: 140, progress_modifier: 100, quality_divisor: 130, quality_modifier: 100, condition_mask: 115 }),
        490 => Some(RecipeFactors { progress_divisor: 110, progress_modifier: 80, quality_divisor: 90, quality_modifier: 70, condition_mask: 15 }),
        511 => Some(RecipeFactors { progress_divisor: 140, progress_modifier: 100, quality_divisor: 130, quality_modifier: 100, condition_mask: 115 }),
        512 => Some(RecipeFactors { progress_divisor: 140, progress_modifier: 100, quality_divisor: 130, quality_modifier: 100, condition_mask: 115 }),
        513 => Some(RecipeFactors { progress_divisor: 140, progress_modifier: 100, quality_divisor: 130, quality_modifier: 100, condition_mask: 483 }),
        514 => Some(RecipeFactors { progress_divisor: 140, progress_modifier: 100, quality_divisor: 130, quality_modifier: 100, condition_mask: 115 }),
        515 => Some(RecipeFactors { progress_divisor: 140, progress_modifier: 100, quality_divisor: 130, quality_modifier: 100, condition_mask: 483 }),
        516 => Some(RecipeFactors { progress_divisor: 140, progress_modifier: 100, quality_divisor: 130, quality_modifier: 100, condition_mask: 499 }),
        517 => Some(RecipeFactors { progress_divisor: 121, progress_modifier: 100, quality_divisor: 105, quality_modifier: 100, condition_mask: 15 }),
        520 => Some(RecipeFactors { progress_divisor: 122, progress_modifier: 100, quality_divisor: 106, quality_modifier: 100, condition_mask: 15 }),
        525 => Some(RecipeFactors { progress_divisor: 123, progress_modifier: 100, quality_divisor: 107, quality_modifier: 100, condition_mask: 15 }),
        530 => Some(RecipeFactors { progress_divisor: 124, progress_modifier: 100, quality_divisor: 108, quality_modifier: 100, condition_mask: 15 }),
        535 => Some(RecipeFactors { progress_divisor: 125, progress_modifier: 100, quality_divisor: 109, quality_modifier: 100, condition_mask: 15 }),
        540 => Some(RecipeFactors { progress_divisor: 126, progress_modifier: 100, quality_divisor: 110, quality_modifier: 100, condition_mask: 15 }),
        545 => Some(RecipeFactors { progress_divisor: 127, progress_modifier: 100, quality_divisor: 111, quality_modifier: 100, condition_mask: 15 }),
        550 => Some(RecipeFactors { progress_divisor: 128, progress_modifier: 100, quality_divisor: 112, quality_modifier: 100, condition_mask: 15 }),
        555 => Some(RecipeFactors { progress_divisor: 129, progress_modifier: 100, quality_divisor: 113, quality_modifier: 100, condition_mask: 15 }),
        560 => Some(RecipeFactors { progress_divisor: 130, progress_modifier: 90, quality_divisor: 115, quality_modifier: 80, condition_mask: 15 }),
        570 => Some(RecipeFactors { progress_divisor: 130, progress_modifier: 90, quality_divisor: 115, quality_modifier: 80, condition_mask: 15 }),
        580 => Some(RecipeFactors { progress_divisor: 130, progress_modifier: 80, quality_divisor: 115, quality_modifier: 70, condition_mask: 15 }),
        590 => Some(RecipeFactors { progress_divisor: 130, progress_modifier: 80, quality_divisor: 115, quality_modifier: 70, condition_mask: 15 }),
        610 => Some(RecipeFactors { progress_divisor: 130, progress_modifier: 80, quality_divisor: 115, quality_modifier: 70, condition_mask: 15 }),
        611 => Some(RecipeFactors { progress_divisor: 180, progress_modifier: 100, quality_divisor: 180, quality_modifier: 100, condition_mask: 435 }),
        620 => Some(RecipeFactors { progress_divisor: 130, progress_modifier: 80, quality_divisor: 115, quality_modifier: 70, condition_mask: 15 }),
        640 => Some(RecipeFactors { progress_divisor: 130, progress_modifier: 80, quality_divisor: 115, quality_modifier: 70, condition_mask: 15 }),
        641 => Some(RecipeFactors { progress_divisor: 180, progress_modifier: 100, quality_divisor: 180, quality_modifier: 100, condition_mask: 995 }),
        _ => None,
    };
    match row {
        Some(f) => Ok(f),
        None => Err(FactorError::TierNotFound(recipe_level)),
    }
}

/// The effective crafting tier of a player's job level: the level itself up
/// to 50, the tabulated tier for 51 to 90, and `TierNotFound` above.
pub fn crafting_level(job_level: i64) -> (r: Result<i64, FactorError>)
    ensures
        r == crafting_level_spec(job_level),
{
    if job_level <= 50 {
        return Ok(job_level);
    }
    let tier = match job_level {
        51 => Some(120),
        52 => Some(125),
        53 => Some(130),
        54 => Some(133),
        55 => Some(136),
        56 => Some(139),
        57 => Some(142),
        58 => Some(145),
        59 => Some(148),
        60 => Some(150),
        61 => Some(260),
        62 => Some(265),
        63 => Some(270),
        64 => Some(273),
        65 => Some(276),
        66 => Some(279),
        67 => Some(282),
        68 => Some(285),
        69 => Some(288),
        70 => Some(290),
        71 => Some(390),
        72 => Some(395),
        73 => Some(400),
        74 => Some(403),
        75 => Some(406),
        76 => Some(409),
        77 => Some(412),
        78 => Some(415),
        79 => Some(418),
        80 => Some(420),
        81 => Some(517),
        82 => Some(520),
        83 => Some(525),
        84 => Some(530),
        85 => Some(535),
        86 => Some(540),
        87 => Some(545),
        88 => Some(550),
        89 => Some(555),
        90 => Some(560),
        _ => None,
    };
    match tier {
        Some(t) => Ok(t),
        None => Err(FactorError::TierNotFound(job_level)),
    }
}

/// The progress divisor of a recipe tier.
pub fn progress_div(recipe_level: i64) -> (r: Result<i64, FactorError>)
    ensures
        r == recipe_field(recipe_level, |f: RecipeFactors| f.progress_divisor),
{
    match recipe_factors(recipe_level) {
        Ok(f) => Ok(f.progress_divisor),
        Err(e) => Err(e),
    }
}

/// The progress modifier of a recipe tier, in percent.
pub fn progress_mod(recipe_level: i64) -> (r: Result<i64, FactorError>)
    ensures
        r == recipe_field(recipe_level, |f: RecipeFactors| f.progress_modifier),
{
    match recipe_factors(recipe_level) {
        Ok(f) => Ok(f.progress_modifier),
        Err(e) => Err(e),
    }
}

/// The quality divisor of a recipe tier.
pub fn quality_div(recipe_level: i64) -> (r: Result<i64, FactorError>)
    ensures
        r == recipe_field(recipe_level, |f: RecipeFactors| f.quality_divisor),
{
    match recipe_factors(recipe_level) {
        Ok(f) => Ok(f.quality_divisor),
        Err(e) => Err(e),
    }
}

/// The quality modifier of a recipe tier, in percent.
pub fn quality_mod(recipe_level: i64) -> (r: Result<i64, FactorError>)
    ensures
        r == recipe_field(recipe_level, |f: RecipeFactors| f.quality_modifier),
{
    match recipe_factors(recipe_level) {
        Ok(f) => Ok(f.quality_modifier),
        Err(e) => Err(e),
    }
}

/// The condition-eligibility mask of a recipe tier.
pub fn condition_mask(recipe_level: i64) -> (r: Result<i64, FactorError>)
    ensures
        r == recipe_field(recipe_level, |f: RecipeFactors| f.condition_mask),
{
    match recipe_factors(recipe_level) {
        Ok(f) => Ok(f.condition_mask),
        Err(e) => Err(e),
    }
}

/// Whether a recipe tier is expert: its mask is anything but `STANDARD_MASK`.
pub fn is_expert_recipe(recipe_level: i64) -> (r: Result<bool, FactorError>)
    ensures
        r == is_expert_spec(recipe_level),
{
    match condition_mask(recipe_level) {
        Ok(mask) => Ok(mask != STANDARD_MASK),
        Err(e) => Err(e),
    }
}

/// A skill level above 50 outside the level table is refused with `TierNotFound`.
pub proof fn lemma_unknown_skill_level(job_level: i64)
    requires
        job_level > 50,
        level_table(job_level) is None,
    ensures
        crafting_level_spec(job_level) == Err::<i64, FactorError>(FactorError::TierNotFound(job_level)),
{
}

/// A recipe tier is expert exactly when its condition mask differs from `STANDARD_MASK`.
pub proof fn lemma_expert_iff_mask(recipe_level: i64)
    requires
        recipe_table(recipe_level) is Some,
    ensures
        recipe_field(recipe_level, |f: RecipeFactors| f.condition_mask) matches Ok(mask)
            && is_expert_spec(recipe_level) == Ok::<bool, FactorError>(mask != STANDARD_MASK),
{
}

} // verus!
