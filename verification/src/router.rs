//! The liquidity router: splits each lender's deposited funds between a
//! passive yield venue and active peer-to-peer loans, under diversification
//! caps, with a router-level insurance pool fed by an interest skim.
//!
//! Deposits land in the passive allocation by default; funds shift to a
//! loan only on an explicit trigger, only when the offered rate beats the
//! passive rate by the lender's configured buffer, and only within the
//! per-loan and per-borrower caps measured against the pool's current total
//! deposits. Excess beyond either cap stays in the passive allocation.

use vstd::arithmetic::div_mod::lemma_div_is_ordered;
use vstd::arithmetic::div_mod::lemma_div_multiples_vanish;
use vstd::arithmetic::div_mod::lemma_div_pos_is_pos;
use vstd::arithmetic::mul::lemma_mul_inequality;
use vstd::arithmetic::mul::lemma_mul_is_commutative;
use vstd::arithmetic::mul::lemma_mul_nonnegative;
use vstd::prelude::*;

verus! {

/// A single loan may take at most this share of total pool deposits.
pub const MAX_SINGLE_LOAN_PCT: u16 = 500;

/// A single borrower may take at most this share of total pool deposits,
/// across all loans.
pub const MAX_SINGLE_BORROWER_PCT: u16 = 1000;

/// Share of collected interest skimmed into the router's insurance pool.
pub const INSURANCE_FEE_BPS: u16 = 100;

/// A single insurance claim may draw at most this share of the insurance
/// pool's balance.
pub const MAX_INSURANCE_CLAIM_PCT: u16 = 1000;

/// Divisor turning basis points into a fraction.
pub const BPS_DIVISOR: u64 = 10_000;

/// Cap on a single deposit.
pub const MAX_DEPOSIT_AMOUNT: u64 = 100_000_000;

/// Every way a router operation can be refused. Errors are fail-fast: an
/// operation that returns one leaves every record it was given unchanged.
#[derive(Clone, Copy, Debug, PartialEq, Eq, Structural)]
pub enum ErrorCode {
    Unauthorized,
    AutoRouteDisabled,
    InsufficientFunds,
    ExceedsMaxDeposit,
    MathOverflow,
    InsufficientInsurance,
    ExceedsDiversificationCap,
}

/// The router's administrative configuration: the passive venue's identity
/// and advertised rate.
pub struct RouterConfig {
    pub admin: u64,
    pub kamino_program: u64,
    pub kamino_pool: u64,
    pub kamino_rate_bps: u16,
    pub fee_bps: u16,
}

/// Pool-wide totals across all lenders.
pub struct LiquidityPool {
    pub total_deposits: u64,
    pub total_loaned: u64,
    pub total_in_kamino: u64,
    pub insurance_pool_balance: u64,
}

/// Aggregate exposure of the whole pool to one borrower. Created lazily on
/// first use, never deleted.
pub struct BorrowerExposure {
    pub borrower: u64,
    pub total_exposure: u64,
}

/// One lender's split between the passive and active allocations, and the
/// routing preferences that govern automatic shifts.
pub struct LenderPosition {
    pub wallet: u64,
    pub total_deposited: u64,
    pub in_kamino: u64,
    pub in_p2p: u64,
    pub min_p2p_rate_bps: u16,
    pub kamino_buffer_bps: u16,
    pub auto_route: bool,
    pub created_at: i64,
    pub updated_at: i64,
}

/// The smaller of two values.
pub open spec fn spec_min(a: int, b: int) -> int {
    if a <= b {
        a
    } else {
        b
    }
}

/// A percentage (in basis points) of a whole never exceeds the whole.
proof fn lemma_pct_le(x: u64, pct: u16)
    requires
        pct <= BPS_DIVISOR,
    ensures
        0 <= x * pct / (BPS_DIVISOR as int) <= x,
{
    let xi = x as int;
    let p = pct as int;
    let d = BPS_DIVISOR as int;
    lemma_mul_nonnegative(xi, p);
    lemma_div_pos_is_pos(xi * p, d);
    lemma_mul_inequality(p, d, xi);
    lemma_mul_is_commutative(xi, p);
    lemma_mul_is_commutative(xi, d);
    lemma_div_is_ordered(xi * p, xi * d, d);
    lemma_div_multiples_vanish(xi, d);
}

/// Creates the router's configuration and its empty liquidity pool. The
/// passive venue starts at its default advertised rate.
pub fn initialize_router(admin: u64, kamino_program: u64, kamino_pool: u64) -> (r: (
    RouterConfig,
    LiquidityPool,
))
    ensures
        r.0 == (RouterConfig { admin, kamino_program, kamino_pool, kamino_rate_bps: 600, fee_bps: 50 }),
        r.1 == (LiquidityPool {
            total_deposits: 0,
            total_loaned: 0,
            total_in_kamino: 0,
            insurance_pool_balance: 0,
        }),
{
    (
        RouterConfig { admin, kamino_program, kamino_pool, kamino_rate_bps: 600, fee_bps: 50 },
        LiquidityPool {
            total_deposits: 0,
            total_loaned: 0,
            total_in_kamino: 0,
            insurance_pool_balance: 0,
        },
    )
}

/// Creates a lender's position on first deposit: nothing allocated yet, and
/// the default routing preferences — shift to a loan only for at least a
/// 100 bps improvement over the passive rate, with automatic routing on.
pub fn new_lender_position(wallet: u64, now: i64) -> (p: LenderPosition)
    ensures
        p == (LenderPosition {
            wallet,
            total_deposited: 0,
            in_kamino: 0,
            in_p2p: 0,
            min_p2p_rate_bps: 700,
            kamino_buffer_bps: 100,
            auto_route: true,
            created_at: now,
            updated_at: now,
        }),
{
    LenderPosition {
        wallet,
        total_deposited: 0,
        in_kamino: 0,
        in_p2p: 0,
        min_p2p_rate_bps: 700,
        kamino_buffer_bps: 100,
        auto_route: true,
        created_at: now,
        updated_at: now,
    }
}

/// The reason `deposit` refuses, if any.
pub open spec fn deposit_check(
    position: LenderPosition,
    pool: LiquidityPool,
    amount: u64,
) -> Option<ErrorCode> {
    if amount > MAX_DEPOSIT_AMOUNT {
        Some(ErrorCode::ExceedsMaxDeposit)
    } else if position.in_kamino + amount > u64::MAX || pool.total_in_kamino + amount > u64::MAX
        || position.total_deposited + amount > u64::MAX || pool.total_deposits + amount
        > u64::MAX {
        Some(ErrorCode::MathOverflow)
    } else {
        None
    }
}

/// Accepts a lender's deposit, capped per call. The amount lands in the
/// passive allocation by default — routing to a loan takes an explicit
/// trigger, not an automatic match — and the caller owes the amount to the
/// router's vault.
pub fn deposit(
    position: &mut LenderPosition,
    pool: &mut LiquidityPool,
    amount: u64,
    now: i64,
) -> (r: Result<(), ErrorCode>)
    ensures
        deposit_check(*old(position), *old(pool), amount) matches Some(e) ==> {
            &&& r == Err::<(), ErrorCode>(e)
            &&& *final(position) == *old(position)
            &&& *final(pool) == *old(pool)
        },
        deposit_check(*old(position), *old(pool), amount) is None ==> {
            &&& r == Ok::<(), ErrorCode>(())
            &&& *final(position) == (LenderPosition {
                in_kamino: (old(position).in_kamino + amount) as u64,
                total_deposited: (old(position).total_deposited + amount) as u64,
                updated_at: now,
                ..*old(position)
            })
            &&& *final(pool) == (LiquidityPool {
                total_in_kamino: (old(pool).total_in_kamino + amount) as u64,
                total_deposits: (old(pool).total_deposits + amount) as u64,
                ..*old(pool)
            })
        },
{
    if amount > MAX_DEPOSIT_AMOUNT {
        return Err(ErrorCode::ExceedsMaxDeposit);
    }
    let new_position_kamino: u64 = match position.in_kamino.checked_add(amount) {
        Some(v) => v,
        None => {
            return Err(ErrorCode::MathOverflow);
        },
    };
    let new_pool_kamino: u64 = match pool.total_in_kamino.checked_add(amount) {
        Some(v) => v,
        None => {
            return Err(ErrorCode::MathOverflow);
        },
    };
    let new_deposited: u64 = match position.total_deposited.checked_add(amount) {
        Some(v) => v,
        None => {
            return Err(ErrorCode::MathOverflow);
        },
    };
    let new_deposits: u64 = match pool.total_deposits.checked_add(amount) {
        Some(v) => v,
        None => {
            return Err(ErrorCode::MathOverflow);
        },
    };
    position.in_kamino = new_position_kamino;
    position.total_deposited = new_deposited;
    position.updated_at = now;
    pool.total_in_kamino = new_pool_kamino;
    pool.total_deposits = new_deposits;
    Ok(())
}

/// The rate a loan has to beat before this lender's funds shift out of the
/// passive venue: the venue's rate plus the lender's configured buffer.
pub open spec fn spec_min_acceptable_rate(config: RouterConfig, position: LenderPosition) -> int {
    config.kamino_rate_bps + position.kamino_buffer_bps
}

/// The single-loan diversification cap against the pool's current deposits.
pub open spec fn spec_max_per_loan(pool: LiquidityPool) -> int {
    pool.total_deposits * MAX_SINGLE_LOAN_PCT / (BPS_DIVISOR as int)
}

/// The single-borrower diversification cap against the pool's current
/// deposits.
pub open spec fn spec_max_per_borrower(pool: LiquidityPool) -> int {
    pool.total_deposits * MAX_SINGLE_BORROWER_PCT / (BPS_DIVISOR as int)
}

/// How much of a requested loan actually shifts from the passive allocation
/// into the loan: the request, capped by the per-loan cap, by what is left
/// of the borrower's cap, and by what the lender has in the passive venue.
pub open spec fn spec_routed_amount(
    position: LenderPosition,
    pool: LiquidityPool,
    exposure: BorrowerExposure,
    loan_amount: u64,
) -> int {
    let loan_capped = spec_min(loan_amount as int, spec_max_per_loan(pool));
    let remaining_borrower_cap = if spec_max_per_borrower(pool) >= exposure.total_exposure {
        spec_max_per_borrower(pool) - exposure.total_exposure
    } else {
        0
    };
    let to_loan = spec_min(loan_capped, remaining_borrower_cap);
    spec_min(to_loan, position.in_kamino as int)
}

/// The arithmetic limits `route_to_loan` can run into once it has decided
/// to route: a cap product leaving `u64`, a balance growing past `u64`, or
/// the pool's passive total not covering the shift.
pub open spec fn route_overflow(
    position: LenderPosition,
    pool: LiquidityPool,
    exposure: BorrowerExposure,
    loan_amount: u64,
) -> bool {
    let routed = spec_routed_amount(position, pool, exposure, loan_amount);
    ||| pool.total_deposits * MAX_SINGLE_LOAN_PCT > u64::MAX
    ||| pool.total_deposits * MAX_SINGLE_BORROWER_PCT > u64::MAX
    ||| position.in_p2p + routed > u64::MAX
    ||| pool.total_loaned + routed > u64::MAX
    ||| pool.total_in_kamino < routed
}

/// Routes a lender's funds into a loan, under the diversification caps:
/// at most the per-loan share of the pool, at most what is left of the
/// borrower's share, and at most what the lender holds in the passive
/// venue. A rate below the lender's bar routes nothing and succeeds;
/// excess beyond a cap simply stays in the passive allocation. Returns the
/// amount actually shifted, which the host withdraws from the passive
/// venue and places in the loan.
pub fn route_to_loan(
    position: &mut LenderPosition,
    pool: &mut LiquidityPool,
    exposure: &mut BorrowerExposure,
    config: &RouterConfig,
    loan_amount: u64,
    rate_bps: u16,
) -> (r: Result<u64, ErrorCode>)
    ensures
        !old(position).auto_route ==> {
            &&& r == Err::<u64, ErrorCode>(ErrorCode::AutoRouteDisabled)
            &&& *final(position) == *old(position)
            &&& *final(pool) == *old(pool)
            &&& *final(exposure) == *old(exposure)
        },
        old(position).auto_route && rate_bps < spec_min_acceptable_rate(*config, *old(position))
            ==> {
            &&& r == Ok::<u64, ErrorCode>(0)
            &&& *final(position) == *old(position)
            &&& *final(pool) == *old(pool)
            &&& *final(exposure) == *old(exposure)
        },
        old(position).auto_route && rate_bps >= spec_min_acceptable_rate(*config, *old(position))
            && route_overflow(*old(position), *old(pool), *old(exposure), loan_amount) ==> {
            &&& r == Err::<u64, ErrorCode>(ErrorCode::MathOverflow)
            &&& *final(position) == *old(position)
            &&& *final(pool) == *old(pool)
            &&& *final(exposure) == *old(exposure)
        },
        old(position).auto_route && rate_bps >= spec_min_acceptable_rate(*config, *old(position))
            && !route_overflow(*old(position), *old(pool), *old(exposure), loan_amount) ==> {
            let routed = spec_routed_amount(*old(position), *old(pool), *old(exposure), loan_amount);
            &&& r == Ok::<u64, ErrorCode>(routed as u64)
            &&& routed <= spec_max_per_loan(*old(pool))
            &&& (old(exposure).total_exposure <= spec_max_per_borrower(*old(pool))
                ==> final(exposure).total_exposure <= spec_max_per_borrower(*old(pool)))
            &&& *final(position) == (LenderPosition {
                in_kamino: (old(position).in_kamino - routed) as u64,
                in_p2p: (old(position).in_p2p + routed) as u64,
                ..*old(position)
            })
            &&& *final(pool) == (LiquidityPool {
                total_in_kamino: (old(pool).total_in_kamino - routed) as u64,
                total_loaned: (old(pool).total_loaned + routed) as u64,
                ..*old(pool)
            })
            &&& *final(exposure) == (BorrowerExposure {
                total_exposure: (old(exposure).total_exposure + routed) as u64,
                ..*old(exposure)
            })
        },
{
    if !position.auto_route {
        return Err(ErrorCode::AutoRouteDisabled);
    }
    let min_acceptable_rate: u32 = (config.kamino_rate_bps as u32) + (position.kamino_buffer_bps
        as u32);
    if (rate_bps as u32) < min_acceptable_rate {
        return Ok(0);
    }
    let max_per_loan: u64 = match pool.total_deposits.checked_mul(MAX_SINGLE_LOAN_PCT as u64) {
        Some(p) => p / BPS_DIVISOR,
        None => {
            return Err(ErrorCode::MathOverflow);
        },
    };
    let max_per_borrower: u64 = match pool.total_deposits.checked_mul(
        MAX_SINGLE_BORROWER_PCT as u64,
    ) {
        Some(p) => p / BPS_DIVISOR,
        None => {
            return Err(ErrorCode::MathOverflow);
        },
    };
    let loan_capped: u64 = if loan_amount <= max_per_loan {
        loan_amount
    } else {
        max_per_loan
    };
    let remaining_borrower_cap: u64 = max_per_borrower.saturating_sub(exposure.total_exposure);
    let to_loan: u64 = if loan_capped <= remaining_borrower_cap {
        loan_capped
    } else {
        remaining_borrower_cap
    };
    let to_route: u64 = if to_loan <= position.in_kamino {
        to_loan
    } else {
        position.in_kamino
    };
    let new_in_p2p: u64 = match position.in_p2p.checked_add(to_route) {
        Some(v) => v,
        None => {
            return Err(ErrorCode::MathOverflow);
        },
    };
    let new_total_loaned: u64 = match pool.total_loaned.checked_add(to_route) {
        Some(v) => v,
        None => {
            return Err(ErrorCode::MathOverflow);
        },
    };
    let new_total_in_kamino: u64 = match pool.total_in_kamino.checked_sub(to_route) {
        Some(v) => v,
        None => {
            return Err(ErrorCode::MathOverflow);
        },
    };
    proof {
        lemma_pct_le(pool.total_deposits, MAX_SINGLE_BORROWER_PCT);
    }
    let new_exposure: u64 = exposure.total_exposure + to_route;
    position.in_kamino = position.in_kamino - to_route;
    position.in_p2p = new_in_p2p;
    pool.total_in_kamino = new_total_in_kamino;
    pool.total_loaned = new_total_loaned;
    exposure.total_exposure = new_exposure;
    Ok(to_route)
}

/// The arithmetic limit `on_borrow_request` can run into: the active
/// allocation growing past `u64`.
pub open spec fn shift_overflow(position: LenderPosition, amount: u64) -> bool {
    position.in_p2p + spec_min(amount as int, position.in_kamino as int) > u64::MAX
}

/// Reacts to an incoming borrow request: shifts up to `amount` from this
/// lender's passive allocation to the active one, provided automatic
/// routing is on, the rate beats the lender's bar, and the borrower's
/// reputation meets the lender's configured minimum. Returns the amount
/// shifted; a request that fails a bar shifts nothing and succeeds.
pub fn on_borrow_request(
    position: &mut LenderPosition,
    config: &RouterConfig,
    amount: u64,
    rate_bps: u16,
    borrower_reputation: u16,
) -> (r: Result<u64, ErrorCode>)
    ensures
        !old(position).auto_route ==> r == Err::<u64, ErrorCode>(ErrorCode::AutoRouteDisabled)
            && *final(position) == *old(position),
        old(position).auto_route && (rate_bps < spec_min_acceptable_rate(*config, *old(position))
            || borrower_reputation < old(position).min_p2p_rate_bps) ==> r == Ok::<u64, ErrorCode>(
            0,
        ) && *final(position) == *old(position),
        old(position).auto_route && rate_bps >= spec_min_acceptable_rate(*config, *old(position))
            && borrower_reputation >= old(position).min_p2p_rate_bps && shift_overflow(
            *old(position),
            amount,
        ) ==> r == Err::<u64, ErrorCode>(ErrorCode::MathOverflow) && *final(position)
            == *old(position),
        old(position).auto_route && rate_bps >= spec_min_acceptable_rate(*config, *old(position))
            && borrower_reputation >= old(position).min_p2p_rate_bps && !shift_overflow(
            *old(position),
            amount,
        ) ==> {
            let shifted = spec_min(amount as int, old(position).in_kamino as int);
            &&& r == Ok::<u64, ErrorCode>(shifted as u64)
            &&& *final(position) == (LenderPosition {
                in_kamino: (old(position).in_kamino - shifted) as u64,
                in_p2p: (old(position).in_p2p + shifted) as u64,
                ..*old(position)
            })
        },
{
    if !position.auto_route {
        return Err(ErrorCode::AutoRouteDisabled);
    }
    let min_acceptable_rate: u32 = (config.kamino_rate_bps as u32) + (position.kamino_buffer_bps
        as u32);
    if (rate_bps as u32) < min_acceptable_rate {
        return Ok(0);
    }
    if borrower_reputation < position.min_p2p_rate_bps {
        return Ok(0);
    }
    let to_shift: u64 = if amount <= position.in_kamino {
        amount
    } else {
        position.in_kamino
    };
    let new_in_p2p: u64 = match position.in_p2p.checked_add(to_shift) {
        Some(v) => v,
        None => {
            return Err(ErrorCode::MathOverflow);
        },
    };
    position.in_kamino = position.in_kamino - to_shift;
    position.in_p2p = new_in_p2p;
    Ok(to_shift)
}

/// The insurance skim on collected interest.
pub open spec fn spec_router_insurance_fee(interest: u64) -> int {
    interest * INSURANCE_FEE_BPS / (BPS_DIVISOR as int)
}

/// The arithmetic limits `collect_repayment` can run into.
pub open spec fn collect_overflow(
    position: LenderPosition,
    pool: LiquidityPool,
    principal: u64,
    interest: u64,
) -> bool {
    let fee = spec_router_insurance_fee(interest);
    let total_to_lender = principal + interest - fee;
    ||| interest * INSURANCE_FEE_BPS > u64::MAX
    ||| total_to_lender > u64::MAX
    ||| pool.insurance_pool_balance + fee > u64::MAX
    ||| position.in_p2p < principal
    ||| pool.total_loaned < principal
    ||| position.in_kamino + total_to_lender > u64::MAX
    ||| pool.total_in_kamino + total_to_lender > u64::MAX
}

/// Collects a loan repayment: a 100 bps skim of the interest feeds the
/// insurance pool, and the principal plus the lender's share of interest
/// returns to the lender's passive allocation — rolling straight into a new
/// loan is not part of this design. The borrower's exposure shrinks by the
/// principal, saturating at zero.
pub fn collect_repayment(
    position: &mut LenderPosition,
    pool: &mut LiquidityPool,
    exposure: &mut BorrowerExposure,
    principal: u64,
    interest: u64,
) -> (r: Result<(), ErrorCode>)
    ensures
        collect_overflow(*old(position), *old(pool), principal, interest) ==> {
            &&& r == Err::<(), ErrorCode>(ErrorCode::MathOverflow)
            &&& *final(position) == *old(position)
            &&& *final(pool) == *old(pool)
            &&& *final(exposure) == *old(exposure)
        },
        !collect_overflow(*old(position), *old(pool), principal, interest) ==> {
            let fee = spec_router_insurance_fee(interest);
            let total_to_lender = principal + interest - fee;
            &&& r == Ok::<(), ErrorCode>(())
            &&& *final(position) == (LenderPosition {
                in_kamino: (old(position).in_kamino + total_to_lender) as u64,
                in_p2p: (old(position).in_p2p - principal) as u64,
                ..*old(position)
            })
            &&& *final(pool) == (LiquidityPool {
                insurance_pool_balance: (old(pool).insurance_pool_balance + fee) as u64,
                total_loaned: (old(pool).total_loaned - principal) as u64,
                total_in_kamino: (old(pool).total_in_kamino + total_to_lender) as u64,
                ..*old(pool)
            })
            &&& *final(exposure) == (BorrowerExposure {
                total_exposure: if old(exposure).total_exposure >= principal {
                    (old(exposure).total_exposure - principal) as u64
                } else {
                    0
                },
                ..*old(exposure)
            })
        },
{
    let insurance_fee: u64 = match interest.checked_mul(INSURANCE_FEE_BPS as u64) {
        Some(p) => p / BPS_DIVISOR,
        None => {
            return Err(ErrorCode::MathOverflow);
        },
    };
    proof {
        lemma_pct_le(interest, INSURANCE_FEE_BPS);
    }
    let lender_interest: u64 = interest - insurance_fee;
    let total_to_lender: u64 = match principal.checked_add(lender_interest) {
        Some(t) => t,
        None => {
            return Err(ErrorCode::MathOverflow);
        },
    };
    let new_insurance: u64 = match pool.insurance_pool_balance.checked_add(insurance_fee) {
        Some(v) => v,
        None => {
            return Err(ErrorCode::MathOverflow);
        },
    };
    let new_in_p2p: u64 = match position.in_p2p.checked_sub(principal) {
        Some(v) => v,
        None => {
            return Err(ErrorCode::MathOverflow);
        },
    };
    let new_total_loaned: u64 = match pool.total_loaned.checked_sub(principal) {
        Some(v) => v,
        None => {
            return Err(ErrorCode::MathOverflow);
        },
    };
    let new_in_kamino: u64 = match position.in_kamino.checked_add(total_to_lender) {
        Some(v) => v,
        None => {
            return Err(ErrorCode::MathOverflow);
        },
    };
    let new_total_in_kamino: u64 = match pool.total_in_kamino.checked_add(total_to_lender) {
        Some(v) => v,
        None => {
            return Err(ErrorCode::MathOverflow);
        },
    };
    position.in_p2p = new_in_p2p;
    position.in_kamino = new_in_kamino;
    pool.insurance_pool_balance = new_insurance;
    pool.total_loaned = new_total_loaned;
    pool.total_in_kamino = new_total_in_kamino;
    exposure.total_exposure = exposure.total_exposure.saturating_sub(principal);
    Ok(())
}

/// The arithmetic limits `on_loan_repaid` can run into.
pub open spec fn repaid_overflow(position: LenderPosition, principal: u64, interest: u64) -> bool {
    ||| principal + interest > u64::MAX
    ||| position.in_p2p < principal
    ||| position.in_kamino + principal + interest > u64::MAX
}

/// Returns a repaid loan's principal and interest to the lender's passive
/// allocation, without the pool-level bookkeeping of `collect_repayment`.
pub fn on_loan_repaid(position: &mut LenderPosition, principal: u64, interest: u64) -> (r: Result<
    (),
    ErrorCode,
>)
    ensures
        repaid_overflow(*old(position), principal, interest) ==> r == Err::<(), ErrorCode>(
            ErrorCode::MathOverflow,
        ) && *final(position) == *old(position),
        !repaid_overflow(*old(position), principal, interest) ==> {
            &&& r == Ok::<(), ErrorCode>(())
            &&& *final(position) == (LenderPosition {
                in_p2p: (old(position).in_p2p - principal) as u64,
                in_kamino: (old(position).in_kamino + principal + interest) as u64,
                ..*old(position)
            })
        },
{
    let total_returned: u64 = match principal.checked_add(interest) {
        Some(t) => t,
        None => {
            return Err(ErrorCode::MathOverflow);
        },
    };
    let new_in_p2p: u64 = match position.in_p2p.checked_sub(principal) {
        Some(v) => v,
        None => {
            return Err(ErrorCode::MathOverflow);
        },
    };
    let new_in_kamino: u64 = match position.in_kamino.checked_add(total_returned) {
        Some(v) => v,
        None => {
            return Err(ErrorCode::MathOverflow);
        },
    };
    position.in_p2p = new_in_p2p;
    position.in_kamino = new_in_kamino;
    Ok(())
}

/// The amount one insurance claim pays: the requested default amount,
/// capped at a tenth of the insurance pool's balance.
pub open spec fn spec_claim_amount(pool: LiquidityPool, default_amount: u64) -> int {
    spec_min(
        default_amount as int,
        pool.insurance_pool_balance * MAX_INSURANCE_CLAIM_PCT / (BPS_DIVISOR as int),
    )
}

/// The reason the router-level `claim_insurance` refuses, if any.
pub open spec fn router_claim_check(
    position: LenderPosition,
    pool: LiquidityPool,
    lender: u64,
    default_amount: u64,
) -> Option<ErrorCode> {
    let claim = spec_claim_amount(pool, default_amount);
    let defaulted = spec_min(position.in_p2p as int, default_amount as int);
    if position.wallet != lender {
        Some(ErrorCode::Unauthorized)
    } else if pool.insurance_pool_balance * MAX_INSURANCE_CLAIM_PCT > u64::MAX {
        Some(ErrorCode::MathOverflow)
    } else if claim == 0 {
        Some(ErrorCode::InsufficientInsurance)
    } else if position.in_kamino + claim > u64::MAX || pool.total_in_kamino + claim > u64::MAX
        || pool.total_loaned < defaulted {
        Some(ErrorCode::MathOverflow)
    } else {
        None
    }
}

/// Pays a lender's insurance claim after a default: at most a tenth of the
/// insurance pool per claim, and at most the requested default amount. The
/// payout moves from the insurance pool into the lender's passive
/// allocation, and the defaulted amount leaves the active allocation.
pub fn claim_insurance(
    position: &mut LenderPosition,
    pool: &mut LiquidityPool,
    lender: u64,
    default_amount: u64,
) -> (r: Result<u64, ErrorCode>)
    ensures
        router_claim_check(*old(position), *old(pool), lender, default_amount) matches Some(e)
            ==> {
            &&& r == Err::<u64, ErrorCode>(e)
            &&& *final(position) == *old(position)
            &&& *final(pool) == *old(pool)
        },
        router_claim_check(*old(position), *old(pool), lender, default_amount) is None ==> {
            let claim = spec_claim_amount(*old(pool), default_amount);
            let defaulted = spec_min(old(position).in_p2p as int, default_amount as int);
            &&& r == Ok::<u64, ErrorCode>(claim as u64)
            &&& 10 * claim <= old(pool).insurance_pool_balance
            &&& *final(position) == (LenderPosition {
                in_kamino: (old(position).in_kamino + claim) as u64,
                in_p2p: (old(position).in_p2p - defaulted) as u64,
                ..*old(position)
            })
            &&& *final(pool) == (LiquidityPool {
                insurance_pool_balance: (old(pool).insurance_pool_balance - claim) as u64,
                total_in_kamino: (old(pool).total_in_kamino + claim) as u64,
                total_loaned: (old(pool).total_loaned - defaulted) as u64,
                ..*old(pool)
            })
        },
{
    if position.wallet != lender {
        return Err(ErrorCode::Unauthorized);
    }
    let max_claimable: u64 = match pool.insurance_pool_balance.checked_mul(
        MAX_INSURANCE_CLAIM_PCT as u64,
    ) {
        Some(p) => p / BPS_DIVISOR,
        None => {
            return Err(ErrorCode::MathOverflow);
        },
    };
    let claim_amount: u64 = if default_amount <= max_claimable {
        default_amount
    } else {
        max_claimable
    };
    if claim_amount == 0 {
        return Err(ErrorCode::InsufficientInsurance);
    }
    proof {
        lemma_pct_le(pool.insurance_pool_balance, MAX_INSURANCE_CLAIM_PCT);
        assert(10 * ((pool.insurance_pool_balance * MAX_INSURANCE_CLAIM_PCT) as int
            / (BPS_DIVISOR as int)) <= pool.insurance_pool_balance) by {
            vstd::arithmetic::div_mod::lemma_fundamental_div_mod(
                pool.insurance_pool_balance * MAX_INSURANCE_CLAIM_PCT,
                BPS_DIVISOR as int,
            );
        };
    }
    let new_in_kamino: u64 = match position.in_kamino.checked_add(claim_amount) {
        Some(v) => v,
        None => {
            return Err(ErrorCode::MathOverflow);
        },
    };
    let new_total_in_kamino: u64 = match pool.total_in_kamino.checked_add(claim_amount) {
        Some(v) => v,
        None => {
            return Err(ErrorCode::MathOverflow);
        },
    };
    let defaulted: u64 = if position.in_p2p <= default_amount {
        position.in_p2p
    } else {
        default_amount
    };
    let new_total_loaned: u64 = match pool.total_loaned.checked_sub(defaulted) {
        Some(v) => v,
        None => {
            return Err(ErrorCode::MathOverflow);
        },
    };
    pool.insurance_pool_balance = pool.insurance_pool_balance - claim_amount;
    position.in_kamino = new_in_kamino;
    pool.total_in_kamino = new_total_in_kamino;
    position.in_p2p = position.in_p2p - defaulted;
    pool.total_loaned = new_total_loaned;
    Ok(claim_amount)
}

/// What a withdrawal drew from each allocation. The passive allocation is
/// drawn first, then the active one; what neither covers is left queued for
/// when loans repay.
pub struct WithdrawOutcome {
    pub from_kamino: u64,
    pub from_p2p: u64,
    pub queued: u64,
}

/// The reason `withdraw` refuses, if any.
pub open spec fn withdraw_check(
    position: LenderPosition,
    pool: LiquidityPool,
    lender: u64,
    amount: u64,
) -> Option<ErrorCode> {
    let from_kamino = spec_min(amount as int, position.in_kamino as int);
    let from_p2p = spec_min(amount - from_kamino, position.in_p2p as int);
    if position.wallet != lender {
        Some(ErrorCode::Unauthorized)
    } else if pool.total_in_kamino < from_kamino || pool.total_loaned < from_p2p
        || position.total_deposited < amount || pool.total_deposits < amount {
        Some(ErrorCode::MathOverflow)
    } else {
        None
    }
}

/// Withdraws a lender's funds, drawing on the passive allocation first and
/// the active one second; the whole requested amount leaves the lender's
/// deposit total and is owed to the lender, with any part covered by
/// neither allocation queued against future repayments.
pub fn withdraw(
    position: &mut LenderPosition,
    pool: &mut LiquidityPool,
    lender: u64,
    amount: u64,
) -> (r: Result<WithdrawOutcome, ErrorCode>)
    ensures
        withdraw_check(*old(position), *old(pool), lender, amount) matches Some(e) ==> {
            &&& r == Err::<WithdrawOutcome, ErrorCode>(e)
            &&& *final(position) == *old(position)
            &&& *final(pool) == *old(pool)
        },
        withdraw_check(*old(position), *old(pool), lender, amount) is None ==> {
            let from_kamino = spec_min(amount as int, old(position).in_kamino as int);
            let from_p2p = spec_min(amount - from_kamino, old(position).in_p2p as int);
            &&& r == Ok::<WithdrawOutcome, ErrorCode>(
                WithdrawOutcome {
                    from_kamino: from_kamino as u64,
                    from_p2p: from_p2p as u64,
                    queued: (amount - from_kamino - from_p2p) as u64,
                },
            )
            &&& *final(position) == (LenderPosition {
                in_kamino: (old(position).in_kamino - from_kamino) as u64,
                in_p2p: (old(position).in_p2p - from_p2p) as u64,
                total_deposited: (old(position).total_deposited - amount) as u64,
                ..*old(position)
            })
            &&& *final(pool) == (LiquidityPool {
                total_in_kamino: (old(pool).total_in_kamino - from_kamino) as u64,
                total_loaned: (old(pool).total_loaned - from_p2p) as u64,
                total_deposits: (old(pool).total_deposits - amount) as u64,
                ..*old(pool)
            })
        },
{
    if position.wallet != lender {
        return Err(ErrorCode::Unauthorized);
    }
    let from_kamino: u64 = if amount <= position.in_kamino {
        amount
    } else {
        position.in_kamino
    };
    let remaining: u64 = amount - from_kamino;
    let from_p2p: u64 = if remaining <= position.in_p2p {
        remaining
    } else {
        position.in_p2p
    };
    let queued: u64 = remaining - from_p2p;
    let new_total_in_kamino: u64 = match pool.total_in_kamino.checked_sub(from_kamino) {
        Some(v) => v,
        None => {
            return Err(ErrorCode::MathOverflow);
        },
    };
    let new_total_loaned: u64 = match pool.total_loaned.checked_sub(from_p2p) {
        Some(v) => v,
        None => {
            return Err(ErrorCode::MathOverflow);
        },
    };
    let new_deposited: u64 = match position.total_deposited.checked_sub(amount) {
        Some(v) => v,
        None => {
            return Err(ErrorCode::MathOverflow);
        },
    };
    let new_deposits: u64 = match pool.total_deposits.checked_sub(amount) {
        Some(v) => v,
        None => {
            return Err(ErrorCode::MathOverflow);
        },
    };
    position.in_kamino = position.in_kamino - from_kamino;
    position.in_p2p = position.in_p2p - from_p2p;
    position.total_deposited = new_deposited;
    pool.total_in_kamino = new_total_in_kamino;
    pool.total_loaned = new_total_loaned;
    pool.total_deposits = new_deposits;
    Ok(WithdrawOutcome { from_kamino, from_p2p, queued })
}

/// Updates a lender's routing preferences; an argument left as `None`
/// leaves that preference as it was. Only the position's owner may update.
pub fn update_strategy(
    position: &mut LenderPosition,
    lender: u64,
    min_p2p_rate_bps: Option<u16>,
    kamino_buffer_bps: Option<u16>,
    auto_route: Option<bool>,
) -> (r: Result<(), ErrorCode>)
    ensures
        old(position).wallet != lender ==> r == Err::<(), ErrorCode>(ErrorCode::Unauthorized)
            && *final(position) == *old(position),
        old(position).wallet == lender ==> {
            &&& r == Ok::<(), ErrorCode>(())
            &&& *final(position) == (LenderPosition {
                min_p2p_rate_bps: match min_p2p_rate_bps {
                    Some(v) => v,
                    None => old(position).min_p2p_rate_bps,
                },
                kamino_buffer_bps: match kamino_buffer_bps {
                    Some(v) => v,
                    None => old(position).kamino_buffer_bps,
                },
                auto_route: match auto_route {
                    Some(v) => v,
                    None => old(position).auto_route,
                },
                ..*old(position)
            })
        },
{
    if position.wallet != lender {
        return Err(ErrorCode::Unauthorized);
    }
    if let Some(rate) = min_p2p_rate_bps {
        position.min_p2p_rate_bps = rate;
    }
    if let Some(buffer) = kamino_buffer_bps {
        position.kamino_buffer_bps = buffer;
    }
    if let Some(auto) = auto_route {
        position.auto_route = auto;
    }
    Ok(())
}

/// Updates the passive venue's advertised rate. Admin only.
pub fn update_kamino_rate(config: &mut RouterConfig, admin: u64, new_rate_bps: u16) -> (r: Result<
    (),
    ErrorCode,
>)
    ensures
        old(config).admin != admin ==> r == Err::<(), ErrorCode>(ErrorCode::Unauthorized)
            && *final(config) == *old(config),
        old(config).admin == admin ==> r == Ok::<(), ErrorCode>(()) && *final(config) == (
        RouterConfig { kamino_rate_bps: new_rate_bps, ..*old(config) }),
{
    if config.admin != admin {
        return Err(ErrorCode::Unauthorized);
    }
    config.kamino_rate_bps = new_rate_bps;
    Ok(())
}

/// A snapshot of the pool's totals, with its utilization: the loaned share
/// of deposits, in whole percent, zero for an empty pool.
pub struct PoolStats {
    pub total_deposits: u64,
    pub total_loaned: u64,
    pub total_in_kamino: u64,
    pub insurance_pool_balance: u64,
    pub utilization_pct: u128,
}

/// The pool's utilization in whole percent.
pub open spec fn spec_utilization_pct(pool: LiquidityPool) -> int {
    if pool.total_deposits > 0 {
        pool.total_loaned * 100 / (pool.total_deposits as int)
    } else {
        0
    }
}

/// Reads the pool's statistics.
pub fn get_pool_stats(pool: &LiquidityPool) -> (stats: PoolStats)
    ensures
        stats.total_deposits == pool.total_deposits,
        stats.total_loaned == pool.total_loaned,
        stats.total_in_kamino == pool.total_in_kamino,
        stats.insurance_pool_balance == pool.insurance_pool_balance,
        stats.utilization_pct == spec_utilization_pct(*pool),
{
    let utilization_pct: u128 = if pool.total_deposits > 0 {
        assert(pool.total_loaned * 100 <= u128::MAX) by (nonlinear_arith)
            requires
                pool.total_loaned <= u64::MAX,
        ;
        ((pool.total_loaned as u128) * 100) / (pool.total_deposits as u128)
    } else {
        0
    };
    PoolStats {
        total_deposits: pool.total_deposits,
        total_loaned: pool.total_loaned,
        total_in_kamino: pool.total_in_kamino,
        insurance_pool_balance: pool.insurance_pool_balance,
        utilization_pct,
    }
}

} // verus!
