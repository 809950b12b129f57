use credit_market::interest::calculate_interest;
use credit_market::market::accept_lend_offer;
use credit_market::market::add_whitelisted_program;
use credit_market::market::cancel_lend_offer;
use credit_market::market::claim_insurance;
use credit_market::market::execute_trade;
use credit_market::market::initialize;
use credit_market::market::liquidate_loan;
use credit_market::market::mark_default;
use credit_market::market::post_borrow_request;
use credit_market::market::post_lend_offer;
use credit_market::market::remove_whitelisted_program;
use credit_market::market::repay_loan;
use credit_market::market::update_fee_rates;
use credit_market::market::BorrowerProfile;
use credit_market::market::CreditMarketError;
use credit_market::market::Loan;
use credit_market::market::LoanStatus;

const DAY: u64 = 86_400;

fn profile(owner: u64, reputation_score: u16) -> BorrowerProfile {
    BorrowerProfile {
        owner,
        reputation_score,
        loans_repaid: 0,
        defaults: 0,
        total_borrowed: 0,
        created_at: 0,
    }
}

fn active_loan(principal: u64, rate_bps: u16, end_time: i64, threshold_bps: u16) -> Loan {
    Loan {
        id: 1,
        lender: 10,
        borrower: 20,
        principal,
        rate_bps,
        start_time: 0,
        end_time,
        status: LoanStatus::Active,
        vault: 55,
        liquidation_threshold_bps: threshold_bps,
        insurance_claimed: false,
    }
}

#[test]
fn initialize_sets_defaults() {
    let g = initialize(1, 100, 101);
    assert_eq!(g.admin, 1);
    assert_eq!(g.next_loan_id, 1);
    assert_eq!(g.fee_bps, 100);
    assert_eq!(g.insurance_fee_bps, 1000);
    assert_eq!(g.insurance_pool, 100);
    assert_eq!(g.treasury, 101);
    assert_eq!(g.total_insurance_collected, 0);
    assert_eq!(g.total_insurance_claimed, 0);
    assert!(g.whitelisted_programs.is_empty());
}

#[test]
fn post_offer_validates_terms() {
    let mut g = initialize(1, 100, 101);
    assert!(matches!(
        post_lend_offer(&mut g, 10, 0, 500, DAY, 0, 8000, 0),
        Err(CreditMarketError::InvalidAmount)
    ));
    assert!(matches!(
        post_lend_offer(&mut g, 10, 1000, 10_001, DAY, 0, 8000, 0),
        Err(CreditMarketError::InvalidRate)
    ));
    assert!(matches!(
        post_lend_offer(&mut g, 10, 1000, 500, 0, 0, 8000, 0),
        Err(CreditMarketError::InvalidDuration)
    ));
    assert!(matches!(
        post_lend_offer(&mut g, 10, 1000, 500, DAY, 0, 4999, 0),
        Err(CreditMarketError::InvalidLiquidationThreshold)
    ));
    assert!(matches!(
        post_lend_offer(&mut g, 10, 1000, 500, DAY, 0, 10_001, 0),
        Err(CreditMarketError::InvalidLiquidationThreshold)
    ));
    // No rejected call moved the id counter.
    assert_eq!(g.next_loan_id, 1);

    let offer = post_lend_offer(&mut g, 10, 1000, 500, DAY, 600, 8000, 42).unwrap();
    assert_eq!(g.next_loan_id, 2);
    assert_eq!(offer.lender, 10);
    assert_eq!(offer.amount, 1000);
    assert_eq!(offer.min_rate_bps, 500);
    assert_eq!(offer.max_duration_secs, DAY);
    assert_eq!(offer.min_reputation, 600);
    assert_eq!(offer.liquidation_threshold_bps, 8000);
    assert!(offer.is_active);
    assert_eq!(offer.created_at, 42);
}

#[test]
fn cancel_offer_is_lender_only_and_once() {
    let mut g = initialize(1, 100, 101);
    let mut offer = post_lend_offer(&mut g, 10, 1000, 500, DAY, 0, 8000, 0).unwrap();
    assert!(matches!(
        cancel_lend_offer(&mut offer, 11),
        Err(CreditMarketError::Unauthorized)
    ));
    assert!(offer.is_active);
    assert_eq!(cancel_lend_offer(&mut offer, 10), Ok(1000));
    assert!(!offer.is_active);
    assert!(matches!(
        cancel_lend_offer(&mut offer, 10),
        Err(CreditMarketError::OfferNotActive)
    ));
}

#[test]
fn borrow_request_validates_terms() {
    assert!(matches!(
        post_borrow_request(20, 0, 500, DAY, 0),
        Err(CreditMarketError::InvalidAmount)
    ));
    assert!(matches!(
        post_borrow_request(20, 1000, 10_001, DAY, 0),
        Err(CreditMarketError::InvalidRate)
    ));
    assert!(matches!(
        post_borrow_request(20, 1000, 500, 0, 0),
        Err(CreditMarketError::InvalidDuration)
    ));
    let req = post_borrow_request(20, 1000, 500, DAY, 9).unwrap();
    assert_eq!(req.borrower, 20);
    assert_eq!(req.amount, 1000);
    assert!(req.is_active);
    assert_eq!(req.created_at, 9);
}

#[test]
fn accept_requires_reputation_and_one_shot() {
    let mut g = initialize(1, 100, 101);
    let mut offer = post_lend_offer(&mut g, 10, 1000, 500, 30 * DAY, 600, 8000, 0).unwrap();
    let weak = profile(21, 599);
    assert!(matches!(
        accept_lend_offer(&mut offer, &mut g, 21, &weak, 55, 0),
        Err(CreditMarketError::InsufficientReputation)
    ));
    assert!(offer.is_active);

    let strong = profile(20, 650);
    let loan = accept_lend_offer(&mut offer, &mut g, 20, &strong, 55, 100).unwrap();
    assert_eq!(loan.id, 2);
    assert_eq!(loan.lender, 10);
    assert_eq!(loan.borrower, 20);
    assert_eq!(loan.principal, 1000);
    assert_eq!(loan.rate_bps, 500);
    assert_eq!(loan.start_time, 100);
    assert_eq!(loan.end_time, 100 + (30 * DAY) as i64);
    assert_eq!(loan.status, LoanStatus::Active);
    assert_eq!(loan.liquidation_threshold_bps, 8000);
    assert!(!loan.insurance_claimed);
    assert!(!offer.is_active);
    assert_eq!(g.next_loan_id, 3);

    // Accepting the same offer twice fails: the first acceptance spent it.
    assert!(matches!(
        accept_lend_offer(&mut offer, &mut g, 22, &strong, 56, 100),
        Err(CreditMarketError::OfferNotActive)
    ));
}

#[test]
fn interest_matches_the_formula() {
    // 1000 units at 500 bps for 15 days of a 365-day year, floored.
    assert_eq!(calculate_interest(1000, 500, 15 * DAY), Ok(2));
    // No time, no interest.
    assert_eq!(calculate_interest(u64::MAX, 10_000, 0), Ok(0));
    // A full year at 100% of 10000 units is 10000.
    assert_eq!(calculate_interest(10_000, 10_000, 365 * DAY), Ok(10_000));
    // Monotonic in elapsed time and in rate.
    let base = calculate_interest(1_000_000, 800, 100 * DAY).unwrap();
    assert!(calculate_interest(1_000_000, 800, 101 * DAY).unwrap() >= base);
    assert!(calculate_interest(1_000_000, 900, 100 * DAY).unwrap() >= base);
    // Astronomical inputs overflow the wide intermediate, or the result.
    assert_eq!(
        calculate_interest(u64::MAX, u16::MAX, u64::MAX),
        Err(CreditMarketError::MathOverflow)
    );
    assert_eq!(
        calculate_interest(u64::MAX, 10_000, 1 << 40),
        Err(CreditMarketError::MathOverflow)
    );
}

#[test]
fn repay_splits_interest_exactly() {
    // The posted scenario: a 1000-unit offer at 500 bps for up to 30 days,
    // repaid after 15.
    let mut g = initialize(1, 100, 101);
    let mut offer = post_lend_offer(&mut g, 10, 1000, 500, 30 * DAY, 600, 8000, 0).unwrap();
    let mut borrower = profile(20, 650);
    let mut loan = accept_lend_offer(&mut offer, &mut g, 20, &borrower, 55, 0).unwrap();

    let now = (15 * DAY) as i64;
    let out = repay_loan(&mut loan, &mut g, &mut borrower, 20, now).unwrap();
    assert_eq!(out.interest, 2);
    // 10% and 1% of 2 units floor to zero; the remainder is the lender's.
    assert_eq!(out.insurance_fee, 0);
    assert_eq!(out.protocol_fee, 0);
    assert_eq!(out.lender_interest, 2);
    assert_eq!(
        out.lender_interest + out.insurance_fee + out.protocol_fee,
        out.interest
    );
    assert_eq!(out.lender_amount, 1002);
    assert_eq!(out.total_repaid, 1002);
    assert_eq!(loan.status, LoanStatus::Repaid);
    assert_eq!(borrower.reputation_score, 700);
    assert_eq!(borrower.loans_repaid, 1);
    assert_eq!(g.total_insurance_collected, 0);

    // A repaid loan cannot be repaid again.
    assert!(matches!(
        repay_loan(&mut loan, &mut g, &mut borrower, 20, now),
        Err(CreditMarketError::LoanNotActive)
    ));
}

#[test]
fn repay_split_with_nonzero_fees() {
    let mut g = initialize(1, 100, 101);
    let mut borrower = profile(20, 650);
    // 1_000_000 at 10000 bps for a year owes 1_000_000 of interest.
    let mut loan = active_loan(1_000_000, 10_000, (365 * DAY) as i64, 8000);
    let out = repay_loan(&mut loan, &mut g, &mut borrower, 20, (365 * DAY) as i64).unwrap();
    assert_eq!(out.interest, 1_000_000);
    assert_eq!(out.insurance_fee, 100_000);
    assert_eq!(out.protocol_fee, 10_000);
    assert_eq!(out.lender_interest, 890_000);
    assert_eq!(
        out.lender_interest + out.insurance_fee + out.protocol_fee,
        out.interest
    );
    assert_eq!(out.lender_amount, 1_890_000);
    assert_eq!(out.total_repaid, 2_000_000);
    assert_eq!(g.total_insurance_collected, 100_000);
}

#[test]
fn repay_split_remainder_goes_to_lender() {
    let mut g = initialize(1, 100, 101);
    // Raise the insurance fee to 15% so both floors leave a remainder.
    update_fee_rates(&mut g, 1, Some(1500), None).unwrap();
    let mut borrower = profile(20, 650);
    // 999 units at 10000 bps over a full year owe exactly 999 of interest.
    let mut loan = active_loan(999, 10_000, (365 * DAY) as i64, 8000);
    let out = repay_loan(&mut loan, &mut g, &mut borrower, 20, (365 * DAY) as i64).unwrap();
    assert_eq!(out.interest, 999);
    // 15% of 999 floors from 149.85; 1% floors from 9.99.
    assert_eq!(out.insurance_fee, 149);
    assert_eq!(out.protocol_fee, 9);
    // The two lost fractions accrue to the lender, not to nobody.
    assert_eq!(out.lender_interest, 841);
    assert_eq!(
        out.lender_interest + out.insurance_fee + out.protocol_fee,
        out.interest
    );
}

#[test]
fn repay_guards_caller_and_clock() {
    let mut g = initialize(1, 100, 101);
    let mut borrower = profile(20, 650);
    let mut loan = active_loan(1000, 500, 1000, 8000);
    assert!(matches!(
        repay_loan(&mut loan, &mut g, &mut borrower, 21, 10),
        Err(CreditMarketError::Unauthorized)
    ));
    // A clock before the loan's start is a fatal anomaly.
    assert!(matches!(
        repay_loan(&mut loan, &mut g, &mut borrower, 20, -1),
        Err(CreditMarketError::MathOverflow)
    ));
    assert_eq!(loan.status, LoanStatus::Active);
    assert_eq!(borrower.loans_repaid, 0);
}

#[test]
fn liquidation_gating_is_strict() {
    let mut borrower = profile(20, 650);
    // Zero rate: the expected repayment stays the 10000-unit principal.
    let mut loan = active_loan(10_000, 0, 1000, 8000);

    // Exactly at the threshold, within the term: not liquidatable.
    assert!(matches!(
        liquidate_loan(&mut loan, &mut borrower, 8000, 500),
        Err(CreditMarketError::LoanNotLiquidatable)
    ));
    assert_eq!(loan.status, LoanStatus::Active);
    assert_eq!(borrower.defaults, 0);

    // One basis point below: liquidatable.
    let out = liquidate_loan(&mut loan, &mut borrower, 7999, 500).unwrap();
    assert!(out.is_unhealthy);
    assert!(!out.is_past_due);
    assert_eq!(out.recovered, 7999);
    assert_eq!(loan.status, LoanStatus::Liquidated);
    assert_eq!(borrower.defaults, 1);
    assert_eq!(borrower.reputation_score, 450);
}

#[test]
fn liquidation_triggers_on_time_alone() {
    let mut borrower = profile(20, 650);
    let mut loan = active_loan(10_000, 0, 1000, 8000);
    // Past the end time with a fully healthy vault: still liquidatable.
    let out = liquidate_loan(&mut loan, &mut borrower, 20_000, 1001).unwrap();
    assert!(out.is_past_due);
    assert!(!out.is_unhealthy);
    assert_eq!(out.recovered, 20_000);
    assert_eq!(loan.status, LoanStatus::Liquidated);

    // A liquidated loan cannot be liquidated again.
    assert!(matches!(
        liquidate_loan(&mut loan, &mut borrower, 20_000, 1001),
        Err(CreditMarketError::LoanNotActive)
    ));
}

#[test]
fn mark_default_requires_overdue() {
    let mut borrower = profile(20, 650);
    let mut loan = active_loan(1000, 500, 1000, 8000);
    assert!(matches!(
        mark_default(&mut loan, &mut borrower, 1000),
        Err(CreditMarketError::LoanNotOverdue)
    ));
    assert_eq!(mark_default(&mut loan, &mut borrower, 1001), Ok(()));
    assert_eq!(loan.status, LoanStatus::Defaulted);
    assert_eq!(borrower.defaults, 1);
    assert_eq!(borrower.reputation_score, 450);
    assert!(matches!(
        mark_default(&mut loan, &mut borrower, 1001),
        Err(CreditMarketError::LoanNotActive)
    ));
}

#[test]
fn insurance_claim_is_capped_and_single() {
    let mut g = initialize(1, 100, 101);
    let mut loan = active_loan(1000, 500, 1000, 8000);
    let mut borrower = profile(20, 650);

    // Only a defaulted or liquidated loan can claim.
    assert!(matches!(
        claim_insurance(&mut loan, &mut g, 10, 10_000),
        Err(CreditMarketError::LoanNotDefaulted)
    ));
    mark_default(&mut loan, &mut borrower, 1001).unwrap();

    // Only the lender can claim.
    assert!(matches!(
        claim_insurance(&mut loan, &mut g, 11, 10_000),
        Err(CreditMarketError::Unauthorized)
    ));

    // Payout is half the principal when the pool covers it.
    assert_eq!(claim_insurance(&mut loan, &mut g, 10, 10_000), Ok(500));
    assert!(loan.insurance_claimed);
    assert_eq!(g.total_insurance_claimed, 500);

    // Claiming twice fails.
    assert!(matches!(
        claim_insurance(&mut loan, &mut g, 10, 10_000),
        Err(CreditMarketError::InsuranceAlreadyClaimed)
    ));
    assert_eq!(g.total_insurance_claimed, 500);
}

#[test]
fn insurance_claim_limited_by_pool() {
    let mut g = initialize(1, 100, 101);
    let mut loan = active_loan(1000, 500, 1000, 8000);
    let mut borrower = profile(20, 650);
    mark_default(&mut loan, &mut borrower, 1001).unwrap();

    // An empty pool pays nothing and refuses.
    assert!(matches!(
        claim_insurance(&mut loan, &mut g, 10, 0),
        Err(CreditMarketError::InsufficientInsurancePool)
    ));
    assert!(!loan.insurance_claimed);

    // A thin pool pays what it has, never more.
    assert_eq!(claim_insurance(&mut loan, &mut g, 10, 300), Ok(300));
}

#[test]
fn trade_execution_is_whitelist_gated() {
    let mut g = initialize(1, 100, 101);
    let loan = active_loan(1000, 500, 1000, 8000);
    assert!(matches!(
        execute_trade(&loan, &g, 20, 777),
        Err(CreditMarketError::ProgramNotWhitelisted)
    ));
    assert!(matches!(
        add_whitelisted_program(&mut g, 2, 777),
        Err(CreditMarketError::Unauthorized)
    ));
    add_whitelisted_program(&mut g, 1, 777).unwrap();
    // Adding again changes nothing.
    add_whitelisted_program(&mut g, 1, 777).unwrap();
    assert_eq!(g.whitelisted_programs.len(), 1);

    assert!(matches!(
        execute_trade(&loan, &g, 21, 777),
        Err(CreditMarketError::Unauthorized)
    ));
    assert_eq!(execute_trade(&loan, &g, 20, 777), Ok(()));

    assert!(matches!(
        remove_whitelisted_program(&mut g, 2, 777),
        Err(CreditMarketError::Unauthorized)
    ));
    remove_whitelisted_program(&mut g, 1, 777).unwrap();
    assert!(g.whitelisted_programs.is_empty());
    assert!(matches!(
        execute_trade(&loan, &g, 20, 777),
        Err(CreditMarketError::ProgramNotWhitelisted)
    ));
}

#[test]
fn fee_updates_are_admin_only_and_capped() {
    let mut g = initialize(1, 100, 101);
    assert!(matches!(
        update_fee_rates(&mut g, 2, Some(1500), None),
        Err(CreditMarketError::Unauthorized)
    ));
    assert!(matches!(
        update_fee_rates(&mut g, 1, Some(2001), None),
        Err(CreditMarketError::InvalidFeeRate)
    ));
    assert!(matches!(
        update_fee_rates(&mut g, 1, None, Some(501)),
        Err(CreditMarketError::InvalidFeeRate)
    ));
    // A rejected pair leaves both rates untouched.
    assert!(matches!(
        update_fee_rates(&mut g, 1, Some(1500), Some(501)),
        Err(CreditMarketError::InvalidFeeRate)
    ));
    assert_eq!(g.insurance_fee_bps, 1000);
    assert_eq!(g.fee_bps, 100);

    update_fee_rates(&mut g, 1, Some(2000), Some(500)).unwrap();
    assert_eq!(g.insurance_fee_bps, 2000);
    assert_eq!(g.fee_bps, 500);
    update_fee_rates(&mut g, 1, None, Some(0)).unwrap();
    assert_eq!(g.insurance_fee_bps, 2000);
    assert_eq!(g.fee_bps, 0);
}
