use credit_market::router::claim_insurance;
use credit_market::router::collect_repayment;
use credit_market::router::deposit;
use credit_market::router::get_pool_stats;
use credit_market::router::initialize_router;
use credit_market::router::new_lender_position;
use credit_market::router::on_borrow_request;
use credit_market::router::on_loan_repaid;
use credit_market::router::route_to_loan;
use credit_market::router::update_kamino_rate;
use credit_market::router::update_strategy;
use credit_market::router::withdraw;
use credit_market::router::BorrowerExposure;
use credit_market::router::ErrorCode;

#[test]
fn router_initialization_defaults() {
    let (config, pool) = initialize_router(1, 900, 901);
    assert_eq!(config.admin, 1);
    assert_eq!(config.kamino_program, 900);
    assert_eq!(config.kamino_pool, 901);
    assert_eq!(config.kamino_rate_bps, 600);
    assert_eq!(config.fee_bps, 50);
    assert_eq!(pool.total_deposits, 0);
    assert_eq!(pool.total_loaned, 0);
    assert_eq!(pool.total_in_kamino, 0);
    assert_eq!(pool.insurance_pool_balance, 0);

    let p = new_lender_position(10, 5);
    assert_eq!(p.wallet, 10);
    assert_eq!(p.min_p2p_rate_bps, 700);
    assert_eq!(p.kamino_buffer_bps, 100);
    assert!(p.auto_route);
}

#[test]
fn deposits_are_capped_and_go_passive() {
    let (_config, mut pool) = initialize_router(1, 900, 901);
    let mut p = new_lender_position(10, 0);
    assert!(matches!(
        deposit(&mut p, &mut pool, 100_000_001, 1),
        Err(ErrorCode::ExceedsMaxDeposit)
    ));
    assert_eq!(p.total_deposited, 0);

    deposit(&mut p, &mut pool, 100_000_000, 1).unwrap();
    assert_eq!(p.in_kamino, 100_000_000);
    assert_eq!(p.in_p2p, 0);
    assert_eq!(p.total_deposited, 100_000_000);
    assert_eq!(pool.total_in_kamino, 100_000_000);
    assert_eq!(pool.total_deposits, 100_000_000);
    assert_eq!(p.updated_at, 1);
}

#[test]
fn routing_respects_rate_bar_and_caps() {
    let (config, mut pool) = initialize_router(1, 900, 901);
    let mut p = new_lender_position(10, 0);
    deposit(&mut p, &mut pool, 100_000_000, 1).unwrap();
    let mut exposure = BorrowerExposure { borrower: 20, total_exposure: 0 };

    // 699 bps is under the 600 + 100 bar: nothing moves, and that is fine.
    assert_eq!(
        route_to_loan(&mut p, &mut pool, &mut exposure, &config, 7_000_000, 699),
        Ok(0)
    );
    assert_eq!(p.in_kamino, 100_000_000);

    // The per-loan cap is 5% of the pool: 5_000_000 of the 7_000_000 asked.
    assert_eq!(
        route_to_loan(&mut p, &mut pool, &mut exposure, &config, 7_000_000, 800),
        Ok(5_000_000)
    );
    assert_eq!(p.in_kamino, 95_000_000);
    assert_eq!(p.in_p2p, 5_000_000);
    assert_eq!(pool.total_loaned, 5_000_000);
    assert_eq!(exposure.total_exposure, 5_000_000);

    // The borrower cap is 10% of the pool: only 5_000_000 more fits.
    assert_eq!(
        route_to_loan(&mut p, &mut pool, &mut exposure, &config, 7_000_000, 800),
        Ok(5_000_000)
    );
    assert_eq!(exposure.total_exposure, 10_000_000);

    // The borrower is at cap: nothing more routes to them.
    assert_eq!(
        route_to_loan(&mut p, &mut pool, &mut exposure, &config, 7_000_000, 800),
        Ok(0)
    );
    assert_eq!(exposure.total_exposure, 10_000_000);
    assert_eq!(p.in_p2p, 10_000_000);
}

#[test]
fn routing_needs_auto_route() {
    let (config, mut pool) = initialize_router(1, 900, 901);
    let mut p = new_lender_position(10, 0);
    deposit(&mut p, &mut pool, 1_000_000, 1).unwrap();
    update_strategy(&mut p, 10, None, None, Some(false)).unwrap();
    let mut exposure = BorrowerExposure { borrower: 20, total_exposure: 0 };
    assert!(matches!(
        route_to_loan(&mut p, &mut pool, &mut exposure, &config, 1000, 800),
        Err(ErrorCode::AutoRouteDisabled)
    ));
}

#[test]
fn borrow_requests_shift_within_limits() {
    let (config, mut pool) = initialize_router(1, 900, 901);
    let mut p = new_lender_position(10, 0);
    deposit(&mut p, &mut pool, 1_000_000, 1).unwrap();

    // Reputation below the lender's bar: nothing shifts.
    assert_eq!(on_borrow_request(&mut p, &config, 500_000, 800, 699), Ok(0));
    assert_eq!(p.in_p2p, 0);

    // Rate below the bar: nothing shifts.
    assert_eq!(on_borrow_request(&mut p, &config, 500_000, 699, 800), Ok(0));

    assert_eq!(
        on_borrow_request(&mut p, &config, 500_000, 800, 800),
        Ok(500_000)
    );
    assert_eq!(p.in_kamino, 500_000);
    assert_eq!(p.in_p2p, 500_000);

    // Only what the passive allocation holds can shift.
    assert_eq!(
        on_borrow_request(&mut p, &config, 900_000, 800, 800),
        Ok(500_000)
    );
    assert_eq!(p.in_kamino, 0);
    assert_eq!(p.in_p2p, 1_000_000);
}

#[test]
fn collecting_repayment_skims_insurance() {
    let (config, mut pool) = initialize_router(1, 900, 901);
    let mut p = new_lender_position(10, 0);
    deposit(&mut p, &mut pool, 10_000_000, 1).unwrap();
    let mut exposure = BorrowerExposure { borrower: 20, total_exposure: 0 };
    route_to_loan(&mut p, &mut pool, &mut exposure, &config, 500_000, 800).unwrap();
    assert_eq!(p.in_p2p, 500_000);

    collect_repayment(&mut p, &mut pool, &mut exposure, 500_000, 10_000).unwrap();
    // 1% of the interest feeds the insurance pool; the rest returns passive.
    assert_eq!(pool.insurance_pool_balance, 100);
    assert_eq!(p.in_p2p, 0);
    assert_eq!(p.in_kamino, 10_000_000 - 500_000 + 509_900);
    assert_eq!(pool.total_loaned, 0);
    assert_eq!(exposure.total_exposure, 0);
}

#[test]
fn collecting_more_than_loaned_fails() {
    let (_config, mut pool) = initialize_router(1, 900, 901);
    let mut p = new_lender_position(10, 0);
    deposit(&mut p, &mut pool, 1_000_000, 1).unwrap();
    let mut exposure = BorrowerExposure { borrower: 20, total_exposure: 0 };
    assert!(matches!(
        collect_repayment(&mut p, &mut pool, &mut exposure, 1, 0),
        Err(ErrorCode::MathOverflow)
    ));
}

#[test]
fn legacy_repayment_returns_to_passive() {
    let (config, mut pool) = initialize_router(1, 900, 901);
    let mut p = new_lender_position(10, 0);
    deposit(&mut p, &mut pool, 1_000_000, 1).unwrap();
    on_borrow_request(&mut p, &config, 400_000, 800, 800).unwrap();
    on_loan_repaid(&mut p, 400_000, 7_000).unwrap();
    assert_eq!(p.in_p2p, 0);
    assert_eq!(p.in_kamino, 1_007_000);
}

#[test]
fn router_insurance_claims_are_tenth_capped() {
    let (config, mut pool) = initialize_router(1, 900, 901);
    let mut p = new_lender_position(10, 0);
    deposit(&mut p, &mut pool, 10_000_000, 1).unwrap();
    let mut exposure = BorrowerExposure { borrower: 20, total_exposure: 0 };
    route_to_loan(&mut p, &mut pool, &mut exposure, &config, 500_000, 800).unwrap();
    collect_repayment(&mut p, &mut pool, &mut exposure, 500_000, 100_000).unwrap();
    assert_eq!(pool.insurance_pool_balance, 1000);

    assert!(matches!(
        claim_insurance(&mut p, &mut pool, 11, 50),
        Err(ErrorCode::Unauthorized)
    ));
    // At most a tenth of the pool per claim.
    assert_eq!(claim_insurance(&mut p, &mut pool, 10, 500), Ok(100));
    assert_eq!(pool.insurance_pool_balance, 900);
    // And never more than asked.
    assert_eq!(claim_insurance(&mut p, &mut pool, 10, 50), Ok(50));
    assert_eq!(pool.insurance_pool_balance, 850);
}

#[test]
fn empty_insurance_pool_refuses_claims() {
    let (_config, mut pool) = initialize_router(1, 900, 901);
    let mut p = new_lender_position(10, 0);
    assert!(matches!(
        claim_insurance(&mut p, &mut pool, 10, 1000),
        Err(ErrorCode::InsufficientInsurance)
    ));
}

#[test]
fn withdrawal_draws_passive_then_active() {
    let (config, mut pool) = initialize_router(1, 900, 901);
    let mut p = new_lender_position(10, 0);
    deposit(&mut p, &mut pool, 1_000_000, 1).unwrap();
    on_borrow_request(&mut p, &config, 400_000, 800, 800).unwrap();
    assert_eq!(p.in_kamino, 600_000);
    assert_eq!(p.in_p2p, 400_000);
    // The host mirrors a position-level shift into the pool totals.
    pool.total_in_kamino = 600_000;
    pool.total_loaned = 400_000;

    assert!(matches!(
        withdraw(&mut p, &mut pool, 11, 100),
        Err(ErrorCode::Unauthorized)
    ));

    let out = withdraw(&mut p, &mut pool, 10, 700_000).unwrap();
    assert_eq!(out.from_kamino, 600_000);
    assert_eq!(out.from_p2p, 100_000);
    assert_eq!(out.queued, 0);
    assert_eq!(p.in_kamino, 0);
    assert_eq!(p.in_p2p, 300_000);
    assert_eq!(p.total_deposited, 300_000);
    assert_eq!(pool.total_deposits, 300_000);
}

#[test]
fn strategy_and_rate_updates_are_guarded() {
    let (mut config, _pool) = initialize_router(1, 900, 901);
    let mut p = new_lender_position(10, 0);
    assert!(matches!(
        update_strategy(&mut p, 11, Some(800), None, None),
        Err(ErrorCode::Unauthorized)
    ));
    update_strategy(&mut p, 10, Some(800), Some(150), None).unwrap();
    assert_eq!(p.min_p2p_rate_bps, 800);
    assert_eq!(p.kamino_buffer_bps, 150);
    assert!(p.auto_route);

    assert!(matches!(
        update_kamino_rate(&mut config, 2, 700),
        Err(ErrorCode::Unauthorized)
    ));
    update_kamino_rate(&mut config, 1, 700).unwrap();
    assert_eq!(config.kamino_rate_bps, 700);
}

#[test]
fn pool_stats_report_utilization() {
    let (config, mut pool) = initialize_router(1, 900, 901);
    let stats = get_pool_stats(&pool);
    assert_eq!(stats.utilization_pct, 0);

    let mut p = new_lender_position(10, 0);
    deposit(&mut p, &mut pool, 10_000_000, 1).unwrap();
    let mut exposure = BorrowerExposure { borrower: 20, total_exposure: 0 };
    route_to_loan(&mut p, &mut pool, &mut exposure, &config, 500_000, 800).unwrap();
    let stats = get_pool_stats(&pool);
    assert_eq!(stats.total_deposits, 10_000_000);
    assert_eq!(stats.total_loaned, 500_000);
    assert_eq!(stats.total_in_kamino, 9_500_000);
    assert_eq!(stats.utilization_pct, 5);
}
