//! The administrator operations: the activity switch and the two
//! withdrawals.

use vstd::prelude::*;

use crate::errors::PresaleError;
use crate::state::AccountId;
use crate::state::Presale;
use crate::state::same_config;

verus! {

/// What toggling the switch decides: the record with `is_active` overwritten
/// when the caller is the administrator, `Unauthorized` otherwise. There is
/// no time-window check: the switch and the window are two independent gates
/// on every purchase.
pub open spec fn toggle_decision(p: Presale, caller: AccountId, is_active: bool) -> Result<
    Presale,
    PresaleError,
> {
    if caller != p.admin {
        Err(PresaleError::Unauthorized)
    } else {
        Ok(Presale { is_active, ..p })
    }
}

/// Overwrites the activity switch when `caller` is the administrator;
/// otherwise refuses and leaves the record untouched.
pub fn toggle_presale(p: &mut Presale, caller: AccountId, is_active: bool) -> (r: Result<
    (),
    PresaleError,
>)
    ensures
        r is Ok <==> caller == old(p).admin,
        r matches Err(e) ==> e == PresaleError::Unauthorized && *final(p) == *old(p),
        r is Ok ==> Ok::<Presale, PresaleError>(*final(p)) == toggle_decision(
            *old(p),
            caller,
            is_active,
        ),
        r is Ok ==> *final(p) == (Presale { is_active, ..*old(p) }),
        same_config(*old(p), *final(p)),
        final(p).total_sold == old(p).total_sold,
{
    if caller != p.admin {
        return Err(PresaleError::Unauthorized);
    }
    p.is_active = is_active;
    Ok(())
}

/// What sweeping the unsold tokens decides: the amount to move out of the
/// sale token account — its entire current balance — or the failing
/// precondition. Only the administrator may sweep, and only after the sale
/// window has closed (strictly after `presale_end`).
pub open spec fn unsold_withdrawal_decision(
    p: Presale,
    caller: AccountId,
    now: i64,
    sale_token_balance: u64,
) -> Result<u64, PresaleError> {
    if caller != p.admin {
        Err(PresaleError::Unauthorized)
    } else if now <= p.presale_end {
        Err(PresaleError::PresaleNotEnded)
    } else {
        Ok(sale_token_balance)
    }
}

/// Decides the sweep of unsold tokens. `sale_token_balance` is the current
/// balance of `p.presale_token_account`, read by the host; on success the
/// host moves the returned amount — the entire balance — to the
/// administrator's token account under the program's derived authority.
/// Once the balance is zero, a further call succeeds and moves zero.
pub fn withdraw_unsold_tokens(
    p: &Presale,
    caller: AccountId,
    now: i64,
    sale_token_balance: u64,
) -> (r: Result<u64, PresaleError>)
    ensures
        r == unsold_withdrawal_decision(*p, caller, now, sale_token_balance),
{
    if caller != p.admin {
        return Err(PresaleError::Unauthorized);
    }
    if now <= p.presale_end {
        return Err(PresaleError::PresaleNotEnded);
    }
    Ok(sale_token_balance)
}

/// The balances that a currency withdrawal settles on.
#[derive(Clone, Copy, Debug, PartialEq, Eq, Structural)]
pub struct SolWithdrawal {
    /// The settlement-currency amount moved from the treasury to the
    /// administrator.
    pub withdrawn: u64,
    /// The treasury's balance after the move.
    pub treasury_lamports_after: u64,
    /// The administrator's balance after the move.
    pub admin_lamports_after: u64,
}

/// What a currency withdrawal decides. Only the administrator may withdraw.
/// An explicit `amount` must not exceed the treasury's current balance; with
/// no amount given, the entire treasury balance is withdrawn. The credit to
/// the administrator is overflow-checked even though the debit cannot
/// underflow once the bound check has passed.
pub open spec fn sol_withdrawal_decision(
    p: Presale,
    caller: AccountId,
    amount: Option<u64>,
    treasury_lamports: u64,
    admin_lamports: u64,
) -> Result<SolWithdrawal, PresaleError> {
    if caller != p.admin {
        Err(PresaleError::Unauthorized)
    } else if amount matches Some(amt) && amt > treasury_lamports {
        Err(PresaleError::InsufficientBalance)
    } else {
        let w = if amount is Some {
            amount->0
        } else {
            treasury_lamports
        };
        if admin_lamports + w > u64::MAX {
            Err(PresaleError::CalculationError)
        } else {
            Ok(
                SolWithdrawal {
                    withdrawn: w,
                    treasury_lamports_after: (treasury_lamports - w) as u64,
                    admin_lamports_after: (admin_lamports + w) as u64,
                },
            )
        }
    }
}

/// Decides a currency withdrawal and computes the new balances with checked
/// arithmetic. `treasury_lamports` and `admin_lamports` are the current
/// balances of `p.treasury` and of the administrator, read by the host; on
/// success the host overwrites both balances with the returned ones, as one
/// atomic unit. The record itself is only read.
pub fn withdraw_sol(
    p: &Presale,
    caller: AccountId,
    amount: Option<u64>,
    treasury_lamports: u64,
    admin_lamports: u64,
) -> (r: Result<SolWithdrawal, PresaleError>)
    ensures
        r == sol_withdrawal_decision(*p, caller, amount, treasury_lamports, admin_lamports),
{
    if caller != p.admin {
        return Err(PresaleError::Unauthorized);
    }
    let withdraw_amount: u64 = match amount {
        Some(amt) => {
            if amt > treasury_lamports {
                return Err(PresaleError::InsufficientBalance);
            }
            amt
        },
        None => treasury_lamports,
    };
    let new_treasury_balance: u64 = match treasury_lamports.checked_sub(withdraw_amount) {
        Some(b) => b,
        None => {
            return Err(PresaleError::CalculationError);
        },
    };
    let new_admin_balance: u64 = match admin_lamports.checked_add(withdraw_amount) {
        Some(b) => b,
        None => {
            return Err(PresaleError::CalculationError);
        },
    };
    Ok(
        SolWithdrawal {
            withdrawn: withdraw_amount,
            treasury_lamports_after: new_treasury_balance,
            admin_lamports_after: new_admin_balance,
        },
    )
}

} // verus!
