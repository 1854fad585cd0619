//! The laws of the presale: properties that hold of every input, proved
//! over the decision functions that the operations' own contracts are
//! stated with.

use vstd::prelude::*;

use crate::errors::PresaleError;
use crate::state::AccountId;
use crate::state::Presale;
use crate::lifecycle::SolWithdrawal;
use crate::lifecycle::sol_withdrawal_decision;
use crate::lifecycle::toggle_decision;
use crate::lifecycle::unsold_withdrawal_decision;
use crate::purchase::purchase_decision;

verus! {

/// A valid purchase accounts exactly: the tokens granted are
/// `amount_sol * rate`, with no rounding, and they fit both the unsigned
/// 64-bit domain and the running total.
pub proof fn law_purchase_exact_accounting(p: Presale, amount_sol: u64, now: i64)
    ensures
        purchase_decision(p, amount_sol, now) matches Ok(tokens) ==> {
            &&& tokens == amount_sol * p.rate
            &&& p.total_sold + tokens <= u64::MAX
        },
{
}

/// The purchase bounds are sharp: with the sale active and the clock inside
/// the window, a buy is rejected as below the minimum exactly when
/// `amount_sol < min_purchase`, and as above the maximum exactly when
/// `amount_sol > max_purchase`.
pub proof fn law_purchase_bounds(p: Presale, amount_sol: u64, now: i64)
    ensures
        purchase_decision(p, amount_sol, now) == Err::<u64, PresaleError>(
            PresaleError::BelowMinimumPurchase,
        ) <==> {
            &&& p.is_active
            &&& p.presale_start <= now <= p.presale_end
            &&& amount_sol < p.min_purchase
        },
        purchase_decision(p, amount_sol, now) == Err::<u64, PresaleError>(
            PresaleError::AboveMaximumPurchase,
        ) <==> {
            &&& p.is_active
            &&& p.presale_start <= now <= p.presale_end
            &&& amount_sol >= p.min_purchase
            &&& amount_sol > p.max_purchase
        },
{
}

/// Both purchase bounds are inclusive: spending exactly `min_purchase` or
/// exactly `max_purchase`, with the sale active, the clock inside the
/// window and the arithmetic in range, succeeds.
pub proof fn law_purchase_boundary_amounts(p: Presale, amount_sol: u64, now: i64)
    requires
        p.is_active,
        p.presale_start <= now <= p.presale_end,
        p.min_purchase <= p.max_purchase,
        amount_sol == p.min_purchase || amount_sol == p.max_purchase,
        amount_sol * p.rate <= u64::MAX,
        p.total_sold + amount_sol * p.rate <= u64::MAX,
    ensures
        purchase_decision(p, amount_sol, now) is Ok,
{
}

/// The sale window is sharp and inclusive at both ends: with the sale
/// active, a buy is rejected as not started exactly when `now` is before
/// `presale_start` and as ended exactly when `now` is after `presale_end`;
/// in a well-ordered window (`presale_start <= presale_end`, which creation
/// never validates), at `now == presale_start` and `now == presale_end`
/// neither rejection occurs.
pub proof fn law_purchase_window(p: Presale, amount_sol: u64, now: i64)
    ensures
        purchase_decision(p, amount_sol, now) == Err::<u64, PresaleError>(
            PresaleError::PresaleNotStarted,
        ) <==> p.is_active && now < p.presale_start,
        purchase_decision(p, amount_sol, now) == Err::<u64, PresaleError>(
            PresaleError::PresaleEnded,
        ) <==> p.is_active && p.presale_start <= now && now > p.presale_end,
        p.presale_start <= p.presale_end && (now == p.presale_start || now == p.presale_end) ==> {
            &&& purchase_decision(p, amount_sol, now) != Err::<u64, PresaleError>(
                PresaleError::PresaleNotStarted,
            )
            &&& purchase_decision(p, amount_sol, now) != Err::<u64, PresaleError>(
                PresaleError::PresaleEnded,
            )
        },
{
}

/// A purchase whose token amount overflows the unsigned 64-bit domain —
/// either on its own or added to the running total — is rejected as a
/// calculation error; the caller's contract then leaves the record, and so
/// `total_sold`, unchanged.
pub proof fn law_purchase_overflow_rejected(p: Presale, amount_sol: u64, now: i64)
    requires
        p.is_active,
        p.presale_start <= now <= p.presale_end,
        p.min_purchase <= amount_sol <= p.max_purchase,
        amount_sol * p.rate > u64::MAX || p.total_sold + amount_sol * p.rate > u64::MAX,
    ensures
        purchase_decision(p, amount_sol, now) == Err::<u64, PresaleError>(
            PresaleError::CalculationError,
        ),
{
}

/// The administrator gate: every caller other than `p.admin` is refused as
/// unauthorized by the switch and by both withdrawals, whatever the other
/// inputs; the administrator is never refused on that ground.
pub proof fn law_admin_gate(
    p: Presale,
    caller: AccountId,
    is_active: bool,
    now: i64,
    sale_token_balance: u64,
    amount: Option<u64>,
    treasury_lamports: u64,
    admin_lamports: u64,
)
    ensures
        caller != p.admin ==> {
            &&& toggle_decision(p, caller, is_active) == Err::<Presale, PresaleError>(
                PresaleError::Unauthorized,
            )
            &&& unsold_withdrawal_decision(p, caller, now, sale_token_balance) == Err::<
                u64,
                PresaleError,
            >(PresaleError::Unauthorized)
            &&& sol_withdrawal_decision(p, caller, amount, treasury_lamports, admin_lamports)
                == Err::<SolWithdrawal, PresaleError>(PresaleError::Unauthorized)
        },
        caller == p.admin ==> {
            &&& toggle_decision(p, caller, is_active) is Ok
            &&& (unsold_withdrawal_decision(p, caller, now, sale_token_balance) matches Err(e)
                ==> e != PresaleError::Unauthorized)
            &&& (sol_withdrawal_decision(p, caller, amount, treasury_lamports, admin_lamports)
                matches Err(e) ==> e != PresaleError::Unauthorized)
        },
{
}

/// An explicit withdrawal beyond the treasury's balance is refused as
/// insufficient, deciding no balance change; with no amount given, the
/// withdrawal drains the treasury to zero and credits the administrator
/// with exactly the prior treasury balance.
pub proof fn law_sol_withdrawal_bounds(
    p: Presale,
    caller: AccountId,
    treasury_lamports: u64,
    admin_lamports: u64,
    amt: u64,
)
    requires
        caller == p.admin,
    ensures
        amt > treasury_lamports ==> sol_withdrawal_decision(
            p,
            caller,
            Some(amt),
            treasury_lamports,
            admin_lamports,
        ) == Err::<SolWithdrawal, PresaleError>(PresaleError::InsufficientBalance),
        admin_lamports + treasury_lamports <= u64::MAX ==> sol_withdrawal_decision(
            p,
            caller,
            None,
            treasury_lamports,
            admin_lamports,
        ) == Ok::<SolWithdrawal, PresaleError>(
            SolWithdrawal {
                withdrawn: treasury_lamports,
                treasury_lamports_after: 0,
                admin_lamports_after: (admin_lamports + treasury_lamports) as u64,
            },
        ),
{
}

/// Switching the sale off blocks every purchase: after the administrator
/// toggles to inactive, any buy, at any time and for any amount, is
/// rejected as not active — the switch overrides the time window.
pub proof fn law_toggle_off_blocks_purchase(p: Presale, caller: AccountId, amount_sol: u64, now: i64)
    requires
        caller == p.admin,
    ensures
        toggle_decision(p, caller, false) matches Ok(q) ==> purchase_decision(q, amount_sol, now)
            == Err::<u64, PresaleError>(PresaleError::PresaleNotActive),
{
}

/// Sweeping the unsold tokens is idempotent at zero: a sweep that succeeds
/// moves the entire balance, and a second sweep at the same or any later
/// time — the sale token account now holding nothing — succeeds and moves
/// zero.
pub proof fn law_unsold_withdrawal_idempotent(
    p: Presale,
    caller: AccountId,
    now: i64,
    later: i64,
    sale_token_balance: u64,
)
    requires
        later >= now,
        unsold_withdrawal_decision(p, caller, now, sale_token_balance) is Ok,
    ensures
        unsold_withdrawal_decision(p, caller, now, sale_token_balance) == Ok::<u64, PresaleError>(
            sale_token_balance,
        ),
        unsold_withdrawal_decision(p, caller, later, 0) == Ok::<u64, PresaleError>(0u64),
{
}

} // verus!
