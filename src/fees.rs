use vstd::prelude::*;

use crate::error::WinError;
use crate::state::WingsType;

verus! {

/// Denominator of the fee rate.
pub const FEE_DENOMINATOR: u128 = 10000;

/// The split of a settled game's takings.
#[derive(Clone, Copy, Debug, PartialEq, Eq, Structural)]
pub struct FeeSplit {
    /// Paid to the community treasury.
    pub community_fee: u64,
    /// Paid to the organizer.
    pub organizer_fee: u64,
}

/// The tier discount applied to the configured fee rate.
pub open spec fn tier_multiplier(wings_type: WingsType) -> int {
    match wings_type {
        WingsType::Gold => 7,
        WingsType::Silver => 8,
        WingsType::Bronze => 9,
        WingsType::NoWings => 10,
    }
}

/// The community's share: `total_earn * (rate * multiplier) / 10000`, floored.
pub open spec fn community_share(total_earn: int, community_fee: int, wings_type: WingsType) -> int {
    total_earn * (community_fee * tier_multiplier(wings_type)) / 10000
}

/// The fee split of `total_earn` under the given rate and tier; overflow of
/// the tiered rate (a `u16`) or a share above the takings is refused.
pub open spec fn fee_split_of(total_earn: u64, community_fee: u16, wings_type: WingsType) -> Result<FeeSplit, WinError> {
    let share = community_share(total_earn as int, community_fee as int, wings_type);
    if community_fee * tier_multiplier(wings_type) > u16::MAX {
        Err(WinError::NumericalOverflow)
    } else if share > total_earn {
        Err(WinError::NumericalOverflow)
    } else {
        Ok(FeeSplit { community_fee: share as u64, organizer_fee: (total_earn - share) as u64 })
    }
}

/// The tier multiplier as a machine integer.
pub fn fee_multiplier(wings_type: WingsType) -> (r: u16)
    ensures
        r == tier_multiplier(wings_type),
{
    match wings_type {
        WingsType::Gold => 7,
        WingsType::Silver => 8,
        WingsType::Bronze => 9,
        WingsType::NoWings => 10,
    }
}

/// Splits a settled game's takings between the community treasury and the
/// organizer. The same computation serves native and fungible settlement.
pub fn compute_fee_split(total_earn: u64, community_fee: u16, wings_type: WingsType) -> (r: Result<FeeSplit, WinError>)
    ensures
        r == fee_split_of(total_earn, community_fee, wings_type),
{
    let multiplier = fee_multiplier(wings_type);
    let rate = match community_fee.checked_mul(multiplier) {
        Some(v) => v,
        None => return Err(WinError::NumericalOverflow),
    };
    assert((total_earn as u128) * (rate as u128) <= u64::MAX * u16::MAX) by (nonlinear_arith);
    let share: u128 = (total_earn as u128) * (rate as u128) / FEE_DENOMINATOR;
    if share > total_earn as u128 {
        return Err(WinError::NumericalOverflow);
    }
    let community = share as u64;
    Ok(FeeSplit { community_fee: community, organizer_fee: total_earn - community })
}

/// Fee split exactness: whenever the split succeeds, the community fee and the
/// organizer fee add up to the takings exactly; and it succeeds for every
/// tier and every takings whenever the tiered rate is at most 100%.
pub proof fn lemma_fee_split_exact(total_earn: u64, community_fee: u16, wings_type: WingsType)
    ensures
        fee_split_of(total_earn, community_fee, wings_type) matches Ok(s)
            ==> s.community_fee + s.organizer_fee == total_earn,
        community_fee * tier_multiplier(wings_type) <= 10000
            ==> fee_split_of(total_earn, community_fee, wings_type) is Ok,
{
    let rate = community_fee * tier_multiplier(wings_type);
    if rate <= 10000 {
        assert(0 <= rate);
        assert(total_earn * rate <= total_earn * 10000) by (nonlinear_arith)
            requires
                0 <= rate <= 10000,
                0 <= total_earn,
        ;
        assert((total_earn * rate) / 10000 <= total_earn) by (nonlinear_arith)
            requires
                total_earn * rate <= total_earn * 10000,
                0 <= total_earn,
        ;
    }
}

} // verus!
