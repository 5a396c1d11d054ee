use vstd::arithmetic::power2::{lemma2_to64, pow2};
use vstd::prelude::*;

use crate::error::FactorError;

verus! {

/// The hidden status modifier of a craft step.
#[derive(Clone, Copy, Debug, PartialEq, Eq, Hash, Structural)]
pub enum StatusCondition {
    Normal,
    Good,
    Excellent,
    Poor,
    Centred,
    Sturdy,
    Pliant,
    Malleable,
    Primed,
    GoodOmen,
}

impl StatusCondition {
    /// Position of the condition in declaration order; its flag is `2^ordinal`.
    pub open spec fn ordinal(self) -> nat {
        match self {
            StatusCondition::Normal => 0,
            StatusCondition::Good => 1,
            StatusCondition::Excellent => 2,
            StatusCondition::Poor => 3,
            StatusCondition::Centred => 4,
            StatusCondition::Sturdy => 5,
            StatusCondition::Pliant => 6,
            StatusCondition::Malleable => 7,
            StatusCondition::Primed => 8,
            StatusCondition::GoodOmen => 9,
        }
    }

    /// The flag that stands for the condition in an eligibility mask.
    pub open spec fn flag(self) -> i64 {
        pow2(self.ordinal()) as i64
    }

    /// Chance, in hundredths, that an expert recipe draws this condition at
    /// random. `Normal` has none of its own: it takes what the others leave.
    /// The `GoodOmen` share (and its flag) are provisional game data.
    pub open spec fn expert_share(self) -> u32 {
        match self {
            StatusCondition::Normal => 0,
            StatusCondition::Good => 12,
            StatusCondition::Excellent => 0,
            StatusCondition::Poor => 0,
            StatusCondition::Centred => 15,
            StatusCondition::Sturdy => 15,
            StatusCondition::Pliant => 12,
            StatusCondition::Malleable => 12,
            StatusCondition::Primed => 12,
            StatusCondition::GoodOmen => 12,
        }
    }
}

/// Every condition, in declaration order.
pub open spec fn condition_order() -> Seq<StatusCondition> {
    seq![
        StatusCondition::Normal,
        StatusCondition::Good,
        StatusCondition::Excellent,
        StatusCondition::Poor,
        StatusCondition::Centred,
        StatusCondition::Sturdy,
        StatusCondition::Pliant,
        StatusCondition::Malleable,
        StatusCondition::Primed,
        StatusCondition::GoodOmen,
    ]
}

/// Whether `mask` admits condition `c`.
pub open spec fn mask_admits(mask: i64, c: StatusCondition) -> bool {
    mask & c.flag() != 0
}

/// Each condition stands at its own ordinal in `condition_order`.
pub proof fn lemma_condition_order()
    ensures
        condition_order().len() == 10,
        forall|i: int| 0 <= i < 10 ==> (#[trigger] condition_order()[i]).ordinal() == i,
        forall|c: StatusCondition| c.ordinal() < 10 && condition_order()[c.ordinal() as int] == c,
{
}

/// All ten conditions, in declaration order.
pub fn all_status_conditions() -> (r: Vec<StatusCondition>)
    ensures
        r@ == condition_order(),
{
    let r = vec![
        StatusCondition::Normal,
        StatusCondition::Good,
        StatusCondition::Excellent,
        StatusCondition::Poor,
        StatusCondition::Centred,
        StatusCondition::Sturdy,
        StatusCondition::Pliant,
        StatusCondition::Malleable,
        StatusCondition::Primed,
        StatusCondition::GoodOmen,
    ];
    assert(r@ =~= condition_order());
    r
}

/// The mask flag of a condition: a distinct power of two for each.
pub fn condition_bit(condition: StatusCondition) -> (r: i64)
    ensures
        r == condition.flag(),
        r as int == pow2(condition.ordinal()),
{
    proof {
        lemma2_to64();
    }
    match condition {
        StatusCondition::Normal => 1,
        StatusCondition::Good => 2,
        StatusCondition::Excellent => 4,
        StatusCondition::Poor => 8,
        StatusCondition::Centred => 16,
        StatusCondition::Sturdy => 32,
        StatusCondition::Pliant => 64,
        StatusCondition::Malleable => 128,
        StatusCondition::Primed => 256,
        StatusCondition::GoodOmen => 512,
    }
}

/// The random-draw chance, in hundredths, of a condition on an expert recipe.
/// `Normal` is refused: its chance is always derived as a remainder.
pub fn expert_condition_probability(condition: StatusCondition) -> (r: Result<u32, FactorError>)
    ensures
        condition == StatusCondition::Normal ==> r == Err::<u32, FactorError>(
            FactorError::InvalidProbabilityQuery,
        ),
        condition != StatusCondition::Normal ==> r == Ok::<u32, FactorError>(condition.expert_share()),
{
    match condition {
        StatusCondition::Normal => Err(FactorError::InvalidProbabilityQuery),
        StatusCondition::Good => Ok(12),
        StatusCondition::Excellent => Ok(0),
        StatusCondition::Poor => Ok(0),
        StatusCondition::Centred => Ok(15),
        StatusCondition::Sturdy => Ok(15),
        StatusCondition::Pliant => Ok(12),
        StatusCondition::Malleable => Ok(12),
        StatusCondition::Primed => Ok(12),
        StatusCondition::GoodOmen => Ok(12),
    }
}

} // verus!
