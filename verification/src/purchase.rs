//! The purchase engine: validation and token accounting of a buy.

use vstd::prelude::*;

use crate::errors::PresaleError;
use crate::state::Presale;
use crate::state::same_config;

verus! {

/// What a buy of `amount_sol` settlement-currency units decides at time
/// `now`, before any asset moves: either the number of tokens to hand over,
/// or the first failing precondition, in the fixed fail-fast order of the
/// operation (active switch, window start, window end, lower bound, upper
/// bound, token-amount overflow, running-total overflow).
pub open spec fn purchase_decision(p: Presale, amount_sol: u64, now: i64) -> Result<
    u64,
    PresaleError,
> {
    if !p.is_active {
        Err(PresaleError::PresaleNotActive)
    } else if now < p.presale_start {
        Err(PresaleError::PresaleNotStarted)
    } else if now > p.presale_end {
        Err(PresaleError::PresaleEnded)
    } else if amount_sol < p.min_purchase {
        Err(PresaleError::BelowMinimumPurchase)
    } else if amount_sol > p.max_purchase {
        Err(PresaleError::AboveMaximumPurchase)
    } else if amount_sol * p.rate > u64::MAX {
        Err(PresaleError::CalculationError)
    } else if p.total_sold + amount_sol * p.rate > u64::MAX {
        Err(PresaleError::CalculationError)
    } else {
        Ok((amount_sol * p.rate) as u64)
    }
}

/// Validates a buy request against the record and, when it passes, adds the
/// purchased tokens to the running total and returns their number.
///
/// `now` is the wall-clock time supplied by the execution environment. The
/// host must then move, as the same atomic unit, `amount_sol` currency from
/// the buyer to `p.treasury` and the returned token amount from
/// `p.presale_token_account` to the buyer's token account, rolling the
/// record update back if either transfer fails.
pub fn buy_tokens(p: &mut Presale, amount_sol: u64, now: i64) -> (r: Result<u64, PresaleError>)
    ensures
        r == purchase_decision(*old(p), amount_sol, now),
        r is Err ==> *final(p) == *old(p),
        r is Ok ==> final(p).total_sold == old(p).total_sold + amount_sol * old(p).rate,
        same_config(*old(p), *final(p)),
        final(p).is_active == old(p).is_active,
        final(p).total_sold >= old(p).total_sold,
{
    if !p.is_active {
        return Err(PresaleError::PresaleNotActive);
    }
    if now < p.presale_start {
        return Err(PresaleError::PresaleNotStarted);
    }
    if now > p.presale_end {
        return Err(PresaleError::PresaleEnded);
    }
    if amount_sol < p.min_purchase {
        return Err(PresaleError::BelowMinimumPurchase);
    }
    if amount_sol > p.max_purchase {
        return Err(PresaleError::AboveMaximumPurchase);
    }
    let tokens_to_purchase: u64 = match amount_sol.checked_mul(p.rate) {
        Some(t) => t,
        None => {
            return Err(PresaleError::CalculationError);
        },
    };
    let new_total: u64 = match p.total_sold.checked_add(tokens_to_purchase) {
        Some(t) => t,
        None => {
            return Err(PresaleError::CalculationError);
        },
    };
    p.total_sold = new_total;
    Ok(tokens_to_purchase)
}

} // verus!
