use vstd::prelude::*;
use crate::errors::ErrorCode;
use crate::events::TreasuryParamsUpdated;
use crate::identity::Identity;
use crate::state::{Treasury, MAX_FEE_BPS};

verus! {

/// The treasury after a change of parameters at `slot`: each parameter that
/// is given replaces the old one, each that is not stays.
pub open spec fn spec_treasury_params(
    treasury: Treasury,
    fee_bps: Option<u16>,
    max_trade_units: Option<u64>,
    paused: Option<bool>,
    slot: u64,
) -> Treasury {
    Treasury {
        fee_bps: match fee_bps {
            Some(new_fee) => new_fee,
            None => treasury.fee_bps,
        },
        max_trade_units: match max_trade_units {
            Some(new_max) => new_max,
            None => treasury.max_trade_units,
        },
        paused: match paused {
            Some(new_paused) => new_paused,
            None => treasury.paused,
        },
        last_params_slot: slot,
        ..treasury
    }
}

/// Why a change of the treasury's parameters is refused, if it is: the
/// caller is not the authority over them, or the new fee exceeds ten
/// percent.
pub open spec fn spec_treasury_params_refusal(
    treasury: Treasury,
    authority: Identity,
    fee_bps: Option<u16>,
) -> Option<ErrorCode> {
    if authority != treasury.params_authority {
        Some(ErrorCode::Unauthorized)
    } else if fee_bps matches Some(new_fee) && new_fee > MAX_FEE_BPS {
        Some(ErrorCode::FeeTooHigh)
    } else {
        None
    }
}

/// Changes the treasury's fee, trade limit and pause flag, each where a new
/// value is given, and reports the fee and the limit before and after. A
/// refused change leaves the treasury as it was.
pub fn set_treasury_params(
    treasury: &mut Treasury,
    authority: Identity,
    fee_bps: Option<u16>,
    max_trade_units: Option<u64>,
    paused: Option<bool>,
    slot: u64,
    now: i64,
) -> (r: Result<TreasuryParamsUpdated, ErrorCode>)
    ensures
        match spec_treasury_params_refusal(*old(treasury), authority, fee_bps) {
            Some(e) => {
                &&& *final(treasury) == *old(treasury)
                &&& r == Err::<TreasuryParamsUpdated, ErrorCode>(e)
            },
            None => {
                &&& *final(treasury) == spec_treasury_params(
                    *old(treasury),
                    fee_bps,
                    max_trade_units,
                    paused,
                    slot,
                )
                &&& r == Ok::<TreasuryParamsUpdated, ErrorCode>(
                    TreasuryParamsUpdated {
                        old_fee_bps: old(treasury).fee_bps,
                        new_fee_bps: final(treasury).fee_bps,
                        old_max_trade: old(treasury).max_trade_units,
                        new_max_trade: final(treasury).max_trade_units,
                        timestamp: now,
                    },
                )
            },
        },
        old(treasury).wf() ==> final(treasury).wf(),
{
    if authority != treasury.params_authority {
        return Err(ErrorCode::Unauthorized);
    }
    let old_fee = treasury.fee_bps;
    let old_max_trade = treasury.max_trade_units;
    match fee_bps {
        Some(new_fee) => {
            if new_fee > MAX_FEE_BPS {
                return Err(ErrorCode::FeeTooHigh);
            }
            treasury.fee_bps = new_fee;
        },
        None => {},
    }
    match max_trade_units {
        Some(new_max) => {
            treasury.max_trade_units = new_max;
        },
        None => {},
    }
    match paused {
        Some(new_paused) => {
            treasury.paused = new_paused;
        },
        None => {},
    }
    treasury.last_params_slot = slot;
    Ok(
        TreasuryParamsUpdated {
            old_fee_bps: old_fee,
            new_fee_bps: treasury.fee_bps,
            old_max_trade,
            new_max_trade: treasury.max_trade_units,
            timestamp: now,
        },
    )
}

} // verus!
