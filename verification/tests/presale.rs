use solana_presale::errors::PresaleError;
use solana_presale::lifecycle::withdraw_sol;
use solana_presale::lifecycle::withdraw_unsold_tokens;
use solana_presale::lifecycle::toggle_presale;
use solana_presale::lifecycle::SolWithdrawal;
use solana_presale::purchase::buy_tokens;
use solana_presale::state::initialize;
use solana_presale::state::AccountId;
use solana_presale::state::Presale;

const T: i64 = 1_700_000_000;

fn id(tag: u128) -> AccountId {
    AccountId { hi: tag, lo: tag.wrapping_mul(31) }
}

fn sample_presale() -> Presale {
    // rate = 1000, min = 10, max = 1000, window = [T, T + 3600]
    initialize(id(1), id(2), id(3), id(4), 1000, T, T + 3600, 10, 1000)
}

#[test]
fn initialize_copies_every_field() {
    let p = sample_presale();
    assert_eq!(p.admin, id(1));
    assert_eq!(p.token_mint, id(2));
    assert_eq!(p.treasury, id(3));
    assert_eq!(p.presale_token_account, id(4));
    assert_eq!(p.rate, 1000);
    assert_eq!(p.presale_start, T);
    assert_eq!(p.presale_end, T + 3600);
    assert_eq!(p.min_purchase, 10);
    assert_eq!(p.max_purchase, 1000);
    assert_eq!(p.total_sold, 0);
    assert!(p.is_active);
}

#[test]
fn purchase_scenario_with_balances() {
    // Concrete scenario: buying 50 at now = T moves 50 currency to the
    // treasury and 50_000 tokens to the buyer; a second buy of 2000 fails
    // and leaves everything from the first purchase intact.
    let mut p = sample_presale();
    let mut treasury_lamports: u64 = 0;
    let mut buyer_lamports: u64 = 100;
    let mut buyer_tokens: u64 = 0;
    let mut sale_tokens: u64 = 1_000_000;

    let tokens = buy_tokens(&mut p, 50, T).expect("boundary start-time buy must pass");
    assert_eq!(tokens, 50_000);
    assert_eq!(p.total_sold, 50_000);
    // the host performs the two transfers the decision asks for
    buyer_lamports -= 50;
    treasury_lamports += 50;
    sale_tokens -= tokens;
    buyer_tokens += tokens;
    assert_eq!(treasury_lamports, 50);
    assert_eq!(buyer_tokens, 50_000);

    let second = buy_tokens(&mut p, 2000, T);
    assert_eq!(second, Err(PresaleError::AboveMaximumPurchase));
    assert_eq!(p.total_sold, 50_000);
    assert_eq!(treasury_lamports, 50);
    assert_eq!(buyer_lamports, 50);
    assert_eq!(buyer_tokens, 50_000);
    assert_eq!(sale_tokens, 950_000);
}

#[test]
fn purchase_bounds_are_inclusive() {
    let mut p = sample_presale();
    assert_eq!(buy_tokens(&mut p, 10, T + 5), Ok(10_000));
    assert_eq!(buy_tokens(&mut p, 1000, T + 5), Ok(1_000_000));
    assert_eq!(p.total_sold, 1_010_000);
}

#[test]
fn purchase_below_minimum_rejected() {
    let mut p = sample_presale();
    assert_eq!(buy_tokens(&mut p, 9, T + 5), Err(PresaleError::BelowMinimumPurchase));
    assert_eq!(p.total_sold, 0);
}

#[test]
fn purchase_above_maximum_rejected() {
    let mut p = sample_presale();
    assert_eq!(buy_tokens(&mut p, 1001, T + 5), Err(PresaleError::AboveMaximumPurchase));
    assert_eq!(p.total_sold, 0);
}

#[test]
fn purchase_window_is_inclusive() {
    let mut p = sample_presale();
    assert_eq!(buy_tokens(&mut p, 10, T), Ok(10_000));
    assert_eq!(buy_tokens(&mut p, 10, T + 3600), Ok(10_000));
}

#[test]
fn purchase_before_start_rejected() {
    let mut p = sample_presale();
    assert_eq!(buy_tokens(&mut p, 10, T - 1), Err(PresaleError::PresaleNotStarted));
    assert_eq!(p.total_sold, 0);
}

#[test]
fn purchase_after_end_rejected() {
    let mut p = sample_presale();
    assert_eq!(buy_tokens(&mut p, 10, T + 3601), Err(PresaleError::PresaleEnded));
    assert_eq!(p.total_sold, 0);
}

#[test]
fn purchase_overflow_rejected_and_total_unchanged() {
    // amount_sol * rate overflows u64
    let mut p = initialize(id(1), id(2), id(3), id(4), u64::MAX, T, T + 3600, 1, 10);
    assert_eq!(buy_tokens(&mut p, 2, T), Err(PresaleError::CalculationError));
    assert_eq!(p.total_sold, 0);
}

#[test]
fn purchase_total_sold_overflow_rejected() {
    // the second purchase overflows the running total, not the product
    let mut p = initialize(id(1), id(2), id(3), id(4), u64::MAX, T, T + 3600, 1, 10);
    assert_eq!(buy_tokens(&mut p, 1, T), Ok(u64::MAX));
    assert_eq!(p.total_sold, u64::MAX);
    assert_eq!(buy_tokens(&mut p, 1, T), Err(PresaleError::CalculationError));
    assert_eq!(p.total_sold, u64::MAX);
}

#[test]
fn toggle_requires_admin() {
    let mut p = sample_presale();
    assert_eq!(toggle_presale(&mut p, id(9), false), Err(PresaleError::Unauthorized));
    assert!(p.is_active);
    assert_eq!(toggle_presale(&mut p, id(1), false), Ok(()));
    assert!(!p.is_active);
    assert_eq!(toggle_presale(&mut p, id(1), true), Ok(()));
    assert!(p.is_active);
}

#[test]
fn toggled_off_blocks_purchase_inside_window() {
    let mut p = sample_presale();
    toggle_presale(&mut p, id(1), false).expect("admin toggles");
    assert_eq!(buy_tokens(&mut p, 50, T + 5), Err(PresaleError::PresaleNotActive));
    assert_eq!(p.total_sold, 0);
}

#[test]
fn withdraw_unsold_requires_admin_and_closed_window() {
    let p = sample_presale();
    assert_eq!(
        withdraw_unsold_tokens(&p, id(9), T + 3601, 500),
        Err(PresaleError::Unauthorized)
    );
    assert_eq!(
        withdraw_unsold_tokens(&p, id(1), T + 3600, 500),
        Err(PresaleError::PresaleNotEnded)
    );
    assert_eq!(withdraw_unsold_tokens(&p, id(1), T + 3601, 500), Ok(500));
}

#[test]
fn withdraw_unsold_twice_moves_zero_the_second_time() {
    let p = sample_presale();
    let mut sale_tokens: u64 = 500;
    let first = withdraw_unsold_tokens(&p, id(1), T + 3601, sale_tokens).expect("first sweep");
    assert_eq!(first, 500);
    sale_tokens -= first;
    let second = withdraw_unsold_tokens(&p, id(1), T + 3601, sale_tokens).expect("second sweep");
    assert_eq!(second, 0);
}

#[test]
fn withdraw_sol_requires_admin() {
    let p = sample_presale();
    assert_eq!(
        withdraw_sol(&p, id(9), Some(1), 100, 0),
        Err(PresaleError::Unauthorized)
    );
}

#[test]
fn withdraw_sol_explicit_amount() {
    let p = sample_presale();
    assert_eq!(
        withdraw_sol(&p, id(1), Some(30), 100, 7),
        Ok(SolWithdrawal {
            withdrawn: 30,
            treasury_lamports_after: 70,
            admin_lamports_after: 37,
        })
    );
}

#[test]
fn withdraw_sol_over_balance_rejected() {
    let p = sample_presale();
    assert_eq!(
        withdraw_sol(&p, id(1), Some(101), 100, 7),
        Err(PresaleError::InsufficientBalance)
    );
}

#[test]
fn withdraw_sol_none_drains_treasury() {
    let p = sample_presale();
    assert_eq!(
        withdraw_sol(&p, id(1), None, 100, 7),
        Ok(SolWithdrawal {
            withdrawn: 100,
            treasury_lamports_after: 0,
            admin_lamports_after: 107,
        })
    );
}

#[test]
fn withdraw_sol_credit_overflow_rejected() {
    let p = sample_presale();
    assert_eq!(
        withdraw_sol(&p, id(1), Some(2), 10, u64::MAX - 1),
        Err(PresaleError::CalculationError)
    );
    assert_eq!(
        withdraw_sol(&p, id(1), None, 10, u64::MAX - 1),
        Err(PresaleError::CalculationError)
    );
}

#[test]
fn error_order_checks_activity_before_window() {
    let mut p = sample_presale();
    toggle_presale(&mut p, id(1), false).expect("admin toggles");
    // inactive wins over "not started" even outside the window
    assert_eq!(buy_tokens(&mut p, 50, T - 100), Err(PresaleError::PresaleNotActive));
}
