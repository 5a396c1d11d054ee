use vstd::prelude::*;

use crate::condition::{
    all_status_conditions, condition_bit, condition_order, expert_condition_probability,
    lemma_condition_order, mask_admits, StatusCondition,
};
use crate::error::FactorError;
use crate::tables::{
    is_expert_spec, recipe_factors, recipe_field, recipe_table, RecipeFactors, STANDARD_MASK,
};

verus! {

/// The whole of a probability, in hundredths.
pub const CERTAIN: u32 = 100;

/// A distribution over the next condition: each listed condition with its
/// probability in hundredths. Conditions that are not listed have none.
pub type Distribution = Vec<(StatusCondition, u32)>;

/// Sum of the probabilities of a distribution.
pub open spec fn total(d: Seq<(StatusCondition, u32)>) -> int
    decreases d.len(),
{
    if d.len() == 0 {
        0
    } else {
        total(d.drop_last()) + d.last().1
    }
}

/// The random outcomes of an expert recipe among the first `n` conditions
/// after `Normal`: each one its mask admits, with its expert share.
pub open spec fn eligible_outcomes(mask: i64, n: nat) -> Seq<(StatusCondition, u32)>
    decreases n,
{
    if n == 0 {
        seq![]
    } else {
        let prev = eligible_outcomes(mask, (n - 1) as nat);
        let c = condition_order()[n as int];
        if mask_admits(mask, c) {
            prev.push((c, c.expert_share()))
        } else {
            prev
        }
    }
}

/// Largest total the first `n` conditions after `Normal` can reach.
pub open spec fn share_cap(n: nat) -> int
    decreases n,
{
    if n == 0 {
        0
    } else {
        share_cap((n - 1) as nat) + condition_order()[n as int].expert_share()
    }
}

/// Next-step distribution of an expert recipe with eligibility `mask`.
pub open spec fn expert_transition(mask: i64, current: StatusCondition) -> Seq<
    (StatusCondition, u32),
> {
    if current == StatusCondition::GoodOmen {
        seq![(StatusCondition::Good, CERTAIN)]
    } else {
        let drawn = eligible_outcomes(mask, 9);
        drawn.push((StatusCondition::Normal, (CERTAIN - total(drawn)) as u32))
    }
}

/// Chance, in hundredths, that a `Normal` step of a standard recipe turns `Good`.
pub open spec fn good_share(job_level: i64) -> u32 {
    if job_level >= 63 {
        25
    } else {
        20
    }
}

/// Next-step distribution of a standard recipe.
pub open spec fn standard_transition(job_level: i64, current: StatusCondition) -> Result<
    Seq<(StatusCondition, u32)>,
    FactorError,
> {
    match current {
        StatusCondition::Excellent => Ok(seq![(StatusCondition::Poor, CERTAIN)]),
        StatusCondition::Good | StatusCondition::Poor => Ok(seq![(StatusCondition::Normal, CERTAIN)]),
        StatusCondition::Normal => Ok(
            seq![
                (StatusCondition::Normal, (CERTAIN - good_share(job_level) - 4) as u32),
                (StatusCondition::Good, good_share(job_level)),
                (StatusCondition::Excellent, 4u32),
            ],
        ),
        _ => Err(FactorError::InvalidConditionForRecipe(current)),
    }
}

/// Next-step distribution for a recipe tier, a job level and the current condition.
pub open spec fn transition_spec(recipe_level: i64, job_level: i64, current: StatusCondition) -> Result<
    Seq<(StatusCondition, u32)>,
    FactorError,
> {
    match recipe_table(recipe_level) {
        None => Err(FactorError::TierNotFound(recipe_level)),
        Some(f) => if f.condition_mask != STANDARD_MASK {
            Ok(expert_transition(f.condition_mask, current))
        } else {
            standard_transition(job_level, current)
        },
    }
}

proof fn lemma_total_push(d: Seq<(StatusCondition, u32)>, x: (StatusCondition, u32))
    ensures
        total(d.push(x)) == total(d) + x.1,
{
    assert(d.push(x).drop_last() =~= d);
}

proof fn lemma_eligible_total(mask: i64, n: nat)
    requires
        n <= 9,
    ensures
        0 <= total(eligible_outcomes(mask, n)) <= share_cap(n),
    decreases n,
{
    if n > 0 {
        lemma_eligible_total(mask, (n - 1) as nat);
        let prev = eligible_outcomes(mask, (n - 1) as nat);
        let c = condition_order()[n as int];
        lemma_total_push(prev, (c, c.expert_share()));
    }
}

proof fn lemma_share_cap()
    ensures
        share_cap(9) == 90,
{
    reveal_with_fuel(share_cap, 10);
}

/// Next-step distribution of an expert recipe with eligibility `mask`.
fn expert_recipe_transition_probabilities(mask: i64, current: StatusCondition) -> (r: Distribution)
    ensures
        r@ == expert_transition(mask, current),
{
    if current == StatusCondition::GoodOmen {
        let r = vec![(StatusCondition::Good, CERTAIN)];
        assert(r@ =~= seq![(StatusCondition::Good, CERTAIN)]);
        return r;
    }
    let conditions = all_status_conditions();
    proof {
        lemma_condition_order();
        lemma_share_cap();
    }
    let mut probas: Distribution = Vec::new();
    let mut sum: u32 = 0;
    let mut i: usize = 1;
    while i < conditions.len()
        invariant
            conditions@ == condition_order(),
            1 <= i <= 10,
            probas@ == eligible_outcomes(mask, (i - 1) as nat),
            sum == total(probas@),
            sum <= share_cap((i - 1) as nat),
            share_cap(9) == 90,
        decreases 10 - i,
    {
        let condition = conditions[i];
        proof {
            lemma_eligible_total(mask, (i - 1) as nat);
            lemma_eligible_total(mask, i as nat);
            assert(condition.ordinal() == i);
            reveal_with_fuel(share_cap, 10);
        }
        let bit = condition_bit(condition);
        if mask & bit != 0 {
            let proba = match expert_condition_probability(condition) {
                Ok(p) => p,
                Err(_) => 0,
            };
            proof {
                lemma_total_push(probas@, (condition, proba));
            }
            probas.push((condition, proba));
            sum = sum + proba;
        }
        i = i + 1;
    }
    proof {
        lemma_total_push(probas@, (StatusCondition::Normal, (CERTAIN - sum) as u32));
    }
    probas.push((StatusCondition::Normal, CERTAIN - sum));
    probas
}

/// Next-step distribution of a standard recipe; only `Normal`, `Good`,
/// `Excellent` and `Poor` occur there, any other current condition is refused.
fn normal_recipe_transition_probabilities(job_level: i64, current: StatusCondition) -> (r: Result<
    Distribution,
    FactorError,
>)
    ensures
        match (r, standard_transition(job_level, current)) {
            (Ok(d), Ok(s)) => d@ == s,
            (Err(e), Err(s)) => e == s,
            _ => false,
        },
{
    match current {
        StatusCondition::Excellent => {
            let r = vec![(StatusCondition::Poor, CERTAIN)];
            assert(r@ =~= seq![(StatusCondition::Poor, CERTAIN)]);
            Ok(r)
        },
        StatusCondition::Good | StatusCondition::Poor => {
            let r = vec![(StatusCondition::Normal, CERTAIN)];
            assert(r@ =~= seq![(StatusCondition::Normal, CERTAIN)]);
            Ok(r)
        },
        StatusCondition::Normal => {
            let good_proba: u32 = if job_level >= 63 {
                25
            } else {
                20
            };
            let excellent_proba: u32 = 4;
            let normal_proba = CERTAIN - good_proba - excellent_proba;
            let r = vec![
                (StatusCondition::Normal, normal_proba),
                (StatusCondition::Good, good_proba),
                (StatusCondition::Excellent, excellent_proba),
            ];
            assert(r@ =~= seq![
                (StatusCondition::Normal, (CERTAIN - good_share(job_level) - 4) as u32),
                (StatusCondition::Good, good_share(job_level)),
                (StatusCondition::Excellent, 4u32),
            ]);
            Ok(r)
        },
        _ => Err(FactorError::InvalidConditionForRecipe(current)),
    }
}

/// The exact distribution, in hundredths, of the condition at the next step
/// of a craft on recipe tier `recipe_level` by a player of `job_level` whose
/// current condition is `current`.
pub fn transition_probabilities(recipe_level: i64, job_level: i64, current: StatusCondition) -> (r:
    Result<Distribution, FactorError>)
    ensures
        match (r, transition_spec(recipe_level, job_level, current)) {
            (Ok(d), Ok(s)) => d@ == s,
            (Err(e), Err(s)) => e == s,
            _ => false,
        },
{
    let factors: RecipeFactors = match recipe_factors(recipe_level) {
        Ok(f) => f,
        Err(e) => return Err(e),
    };
    if factors.condition_mask != STANDARD_MASK {
        Ok(expert_recipe_transition_probabilities(factors.condition_mask, current))
    } else {
        normal_recipe_transition_probabilities(job_level, current)
    }
}

/// Every distribution the model produces is complete: its probabilities add
/// up to exactly one whole.
pub proof fn lemma_distribution_total(recipe_level: i64, job_level: i64, current: StatusCondition)
    ensures
        transition_spec(recipe_level, job_level, current) matches Ok(d) ==> total(d) == CERTAIN,
{
    reveal_with_fuel(total, 4);
    if let Some(f) = recipe_table(recipe_level) {
        if f.condition_mask != STANDARD_MASK && current != StatusCondition::GoodOmen {
            let drawn = eligible_outcomes(f.condition_mask, 9);
            lemma_eligible_total(f.condition_mask, 9);
            lemma_share_cap();
            lemma_total_push(drawn, (StatusCondition::Normal, (CERTAIN - total(drawn)) as u32));
        }
    }
}

/// On an expert recipe, a `GoodOmen` step is always followed by a `Good` one,
/// whatever the job level.
pub proof fn lemma_good_omen_resolves(recipe_level: i64, job_level: i64)
    requires
        recipe_table(recipe_level) matches Some(f) && f.condition_mask != STANDARD_MASK,
    ensures
        transition_spec(recipe_level, job_level, StatusCondition::GoodOmen) == Ok::<
            Seq<(StatusCondition, u32)>,
            FactorError,
        >(seq![(StatusCondition::Good, CERTAIN)]),
{
}

/// On a standard recipe, `Excellent` always degrades to `Poor`, and `Good`
/// and `Poor` always return to `Normal`.
pub proof fn lemma_standard_settles(recipe_level: i64, job_level: i64)
    requires
        recipe_table(recipe_level) matches Some(f) && f.condition_mask == STANDARD_MASK,
    ensures
        transition_spec(recipe_level, job_level, StatusCondition::Excellent) == Ok::<
            Seq<(StatusCondition, u32)>,
            FactorError,
        >(seq![(StatusCondition::Poor, CERTAIN)]),
        transition_spec(recipe_level, job_level, StatusCondition::Good) == Ok::<
            Seq<(StatusCondition, u32)>,
            FactorError,
        >(seq![(StatusCondition::Normal, CERTAIN)]),
        transition_spec(recipe_level, job_level, StatusCondition::Poor) == Ok::<
            Seq<(StatusCondition, u32)>,
            FactorError,
        >(seq![(StatusCondition::Normal, CERTAIN)]),
{
}

/// On a standard recipe, a `Normal` step turns `Good` with chance 20/100
/// below job level 63 and 25/100 from 63 on, `Excellent` with chance 4/100,
/// and stays `Normal` otherwise.
pub proof fn lemma_standard_from_normal(recipe_level: i64, job_level: i64)
    requires
        recipe_table(recipe_level) matches Some(f) && f.condition_mask == STANDARD_MASK,
    ensures
        job_level < 63 ==> transition_spec(recipe_level, job_level, StatusCondition::Normal)
            == Ok::<Seq<(StatusCondition, u32)>, FactorError>(
            seq![
                (StatusCondition::Normal, 76u32),
                (StatusCondition::Good, 20u32),
                (StatusCondition::Excellent, 4u32),
            ],
        ),
        job_level >= 63 ==> transition_spec(recipe_level, job_level, StatusCondition::Normal)
            == Ok::<Seq<(StatusCondition, u32)>, FactorError>(
            seq![
                (StatusCondition::Normal, 71u32),
                (StatusCondition::Good, 25u32),
                (StatusCondition::Excellent, 4u32),
            ],
        ),
{
}

/// A tier outside the recipe table is refused with `TierNotFound` by every
/// recipe lookup and by the transition model, never given a default.
pub proof fn lemma_unknown_recipe_tier(recipe_level: i64, job_level: i64, current: StatusCondition)
    requires
        recipe_table(recipe_level) is None,
    ensures
        recipe_field(recipe_level, |f: RecipeFactors| f.progress_divisor) == Err::<i64, FactorError>(
            FactorError::TierNotFound(recipe_level),
        ),
        recipe_field(recipe_level, |f: RecipeFactors| f.progress_modifier) == Err::<i64, FactorError>(
            FactorError::TierNotFound(recipe_level),
        ),
        recipe_field(recipe_level, |f: RecipeFactors| f.quality_divisor) == Err::<i64, FactorError>(
            FactorError::TierNotFound(recipe_level),
        ),
        recipe_field(recipe_level, |f: RecipeFactors| f.quality_modifier) == Err::<i64, FactorError>(
            FactorError::TierNotFound(recipe_level),
        ),
        recipe_field(recipe_level, |f: RecipeFactors| f.condition_mask) == Err::<i64, FactorError>(
            FactorError::TierNotFound(recipe_level),
        ),
        is_expert_spec(recipe_level) == Err::<bool, FactorError>(FactorError::TierNotFound(recipe_level)),
        transition_spec(recipe_level, job_level, current) == Err::<
            Seq<(StatusCondition, u32)>,
            FactorError,
        >(FactorError::TierNotFound(recipe_level)),
{
}

proof fn lemma_eligible_ordered(mask: i64, n: nat)
    requires
        n <= 9,
    ensures
        forall|i: int|
            0 <= i < eligible_outcomes(mask, n).len() ==> 1 <= (
            #[trigger] eligible_outcomes(mask, n)[i]).0.ordinal() <= n,
        forall|i: int, j: int|
            0 <= i < j < eligible_outcomes(mask, n).len() ==> (
            #[trigger] eligible_outcomes(mask, n)[i]).0.ordinal() < (
            #[trigger] eligible_outcomes(mask, n)[j]).0.ordinal(),
    decreases n,
{
    if n > 0 {
        lemma_eligible_ordered(mask, (n - 1) as nat);
        lemma_condition_order();
        let prev = eligible_outcomes(mask, (n - 1) as nat);
        let c = condition_order()[n as int];
        assert(c.ordinal() == n);
        if mask_admits(mask, c) {
            let cur = prev.push((c, c.expert_share()));
            assert(eligible_outcomes(mask, n) == cur);
            assert forall|i: int| 0 <= i < cur.len() implies 1 <= (#[trigger] cur[i]).0.ordinal()
                <= n by {
                if i < prev.len() {
                    assert(cur[i] == prev[i]);
                }
            }
            assert forall|i: int, j: int| 0 <= i < j < cur.len() implies (
            #[trigger] cur[i]).0.ordinal() < (#[trigger] cur[j]).0.ordinal() by {
                assert(cur[i] == prev[i]);
                if j < prev.len() {
                    assert(cur[j] == prev[j]);
                }
            }
        }
    }
}

/// No distribution the model produces lists a condition twice.
pub proof fn lemma_distribution_distinct(recipe_level: i64, job_level: i64, current: StatusCondition)
    ensures
        transition_spec(recipe_level, job_level, current) matches Ok(d) ==> forall|i: int, j: int|
            0 <= i < j < d.len() ==> (#[trigger] d[i]).0 != (#[trigger] d[j]).0,
{
    if let Some(f) = recipe_table(recipe_level) {
        if f.condition_mask != STANDARD_MASK && current != StatusCondition::GoodOmen {
            let drawn = eligible_outcomes(f.condition_mask, 9);
            let d = drawn.push((StatusCondition::Normal, (CERTAIN - total(drawn)) as u32));
            lemma_eligible_ordered(f.condition_mask, 9);
            assert forall|i: int, j: int| 0 <= i < j < d.len() implies (#[trigger] d[i]).0 != (
            #[trigger] d[j]).0 by {
                if j == drawn.len() {
                    assert(drawn[i].0.ordinal() >= 1);
                } else {
                    assert(drawn[i].0.ordinal() < drawn[j].0.ordinal());
                }
            }
        }
    }
}

} // verus!
