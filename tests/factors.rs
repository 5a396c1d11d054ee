use craft_factors::{
    all_status_conditions, condition_bit, condition_mask, crafting_level,
    expert_condition_probability, is_expert_recipe, progress_div, progress_mod, quality_div,
    quality_mod, recipe_factors, transition_probabilities, FactorError, RecipeFactors,
    StatusCondition, CERTAIN,
};

fn sum(d: &[(StatusCondition, u32)]) -> u32 {
    d.iter().map(|p| p.1).sum()
}

#[test]
fn crafting_level_identity_up_to_fifty() {
    assert_eq!(crafting_level(50), Ok(50));
    assert_eq!(crafting_level(1), Ok(1));
}

#[test]
fn crafting_level_table_values() {
    assert_eq!(crafting_level(51), Ok(120));
    assert_eq!(crafting_level(61), Ok(260));
    assert_eq!(crafting_level(81), Ok(517));
    assert_eq!(crafting_level(90), Ok(560));
}

#[test]
fn crafting_level_above_table_fails() {
    assert_eq!(crafting_level(91), Err(FactorError::TierNotFound(91)));
}

#[test]
fn recipe_table_spot_values() {
    assert_eq!(progress_div(481), Ok(140));
    assert_eq!(quality_div(641), Ok(180));
    assert_eq!(progress_div(1), Ok(50));
    assert_eq!(progress_div(641), Ok(180));
    assert_eq!(progress_mod(641), Ok(100));
}

#[test]
fn recipe_factors_record() {
    let f: RecipeFactors = recipe_factors(481).unwrap();
    assert_eq!(f.progress_divisor, 140);
    assert_eq!(f.quality_divisor, 130);
    assert_eq!(f.condition_mask, 115);
    assert_eq!(Ok(f.progress_modifier), progress_mod(481));
    assert_eq!(Ok(f.quality_modifier), quality_mod(481));
}

#[test]
fn unknown_recipe_tier_fails_everywhere() {
    for tier in [0, 51, 491, 642, -3] {
        let e = Err(FactorError::TierNotFound(tier));
        assert_eq!(progress_div(tier), e);
        assert_eq!(progress_mod(tier), e);
        assert_eq!(quality_div(tier), e);
        assert_eq!(quality_mod(tier), e);
        assert_eq!(condition_mask(tier), e);
        assert_eq!(is_expert_recipe(tier), Err(FactorError::TierNotFound(tier)));
        assert_eq!(
            transition_probabilities(tier, 80, StatusCondition::Normal),
            Err(FactorError::TierNotFound(tier))
        );
    }
}

#[test]
fn expert_iff_mask_not_standard() {
    for tier in [1, 50, 480, 481, 490, 511, 513, 516, 517, 611, 620, 641] {
        let mask = condition_mask(tier).unwrap();
        assert_eq!(is_expert_recipe(tier), Ok(mask != 15));
    }
    assert_eq!(is_expert_recipe(481), Ok(true));
    assert_eq!(is_expert_recipe(480), Ok(false));
}

#[test]
fn condition_bits_are_distinct_powers_of_two() {
    let bits: Vec<i64> = all_status_conditions().into_iter().map(condition_bit).collect();
    assert_eq!(bits, vec![1, 2, 4, 8, 16, 32, 64, 128, 256, 512]);
}

#[test]
fn expert_probability_of_normal_is_refused() {
    assert_eq!(
        expert_condition_probability(StatusCondition::Normal),
        Err(FactorError::InvalidProbabilityQuery)
    );
    assert_eq!(expert_condition_probability(StatusCondition::Centred), Ok(15));
    assert_eq!(expert_condition_probability(StatusCondition::Excellent), Ok(0));
}

#[test]
fn expert_distribution_exact() {
    let d = transition_probabilities(481, 80, StatusCondition::Normal).unwrap();
    assert_eq!(
        d,
        vec![
            (StatusCondition::Good, 12),
            (StatusCondition::Centred, 15),
            (StatusCondition::Sturdy, 15),
            (StatusCondition::Pliant, 12),
            (StatusCondition::Normal, 46),
        ]
    );
    let d = transition_probabilities(641, 90, StatusCondition::Sturdy).unwrap();
    assert_eq!(
        d,
        vec![
            (StatusCondition::Good, 12),
            (StatusCondition::Sturdy, 15),
            (StatusCondition::Pliant, 12),
            (StatusCondition::Malleable, 12),
            (StatusCondition::Primed, 12),
            (StatusCondition::GoodOmen, 12),
            (StatusCondition::Normal, 25),
        ]
    );
}

#[test]
fn expert_distributions_sum_to_one() {
    for tier in [481, 511, 512, 513, 514, 515, 516, 611, 641] {
        for c in all_status_conditions() {
            if c == StatusCondition::GoodOmen {
                continue;
            }
            let d = transition_probabilities(tier, 70, c).unwrap();
            assert_eq!(sum(&d), CERTAIN);
            for i in 0..d.len() {
                for j in (i + 1)..d.len() {
                    assert_ne!(d[i].0, d[j].0);
                }
            }
        }
    }
}

#[test]
fn expert_good_omen_resolves_to_good() {
    for tier in [481, 513, 516, 611, 641] {
        for jl in [1, 62, 63, 90] {
            assert_eq!(
                transition_probabilities(tier, jl, StatusCondition::GoodOmen),
                Ok(vec![(StatusCondition::Good, 100)])
            );
        }
    }
}

#[test]
fn standard_deterministic_steps() {
    for tier in [1, 50, 480, 560] {
        assert_eq!(
            transition_probabilities(tier, 70, StatusCondition::Excellent),
            Ok(vec![(StatusCondition::Poor, 100)])
        );
        assert_eq!(
            transition_probabilities(tier, 70, StatusCondition::Good),
            Ok(vec![(StatusCondition::Normal, 100)])
        );
        assert_eq!(
            transition_probabilities(tier, 70, StatusCondition::Poor),
            Ok(vec![(StatusCondition::Normal, 100)])
        );
    }
}

#[test]
fn standard_normal_step_by_job_level() {
    assert_eq!(
        transition_probabilities(480, 62, StatusCondition::Normal),
        Ok(vec![
            (StatusCondition::Normal, 76),
            (StatusCondition::Good, 20),
            (StatusCondition::Excellent, 4),
        ])
    );
    assert_eq!(
        transition_probabilities(480, 63, StatusCondition::Normal),
        Ok(vec![
            (StatusCondition::Normal, 71),
            (StatusCondition::Good, 25),
            (StatusCondition::Excellent, 4),
        ])
    );
}

#[test]
fn standard_recipe_refuses_expert_conditions() {
    for c in [
        StatusCondition::Centred,
        StatusCondition::Sturdy,
        StatusCondition::Pliant,
        StatusCondition::Malleable,
        StatusCondition::Primed,
        StatusCondition::GoodOmen,
    ] {
        assert_eq!(
            transition_probabilities(50, 70, c),
            Err(FactorError::InvalidConditionForRecipe(c))
        );
    }
}
