//! The loan ledger: standing lend offers and borrow requests, the loan state
//! machine, repayment fee-splitting, liquidation and default decisions, and
//! insurance claims against defaulted loans.
//!
//! Custody of funds is an external collaborator: operations take the relevant
//! balances as plain values and return the amounts to be moved. Every
//! operation is fail-fast — when it returns an error, every record passed by
//! mutable reference is unchanged.

use crate::interest::calculate_interest;
use crate::interest::interest_fits;
use crate::interest::interest_owed;
use vstd::arithmetic::div_mod::lemma_div_is_ordered;
use vstd::arithmetic::div_mod::lemma_div_multiples_vanish;
use vstd::arithmetic::div_mod::lemma_div_pos_is_pos;
use vstd::arithmetic::div_mod::lemma_fundamental_div_mod;
use vstd::arithmetic::mul::lemma_mul_inequality;
use vstd::arithmetic::mul::lemma_mul_is_commutative;
use vstd::arithmetic::mul::lemma_mul_is_distributive_add;
use vstd::arithmetic::mul::lemma_mul_nonnegative;
use vstd::prelude::*;

verus! {

/// Divisor turning basis points into a fraction: 10000 bps is the whole.
pub const BPS_DIVISOR: u64 = 10_000;

/// Share of interest skimmed into the insurance pool at initialization.
pub const INSURANCE_FEE_BPS: u16 = 1000;

/// Share of interest sent to the protocol treasury at initialization.
pub const PROTOCOL_FEE_BPS: u16 = 100;

/// Hard cap on the configurable insurance fee.
pub const MAX_INSURANCE_FEE_BPS: u16 = 2000;

/// Hard cap on the configurable protocol fee.
pub const MAX_PROTOCOL_FEE_BPS: u16 = 500;

/// Insurance pays out at most this share of a defaulted loan's principal.
pub const INSURANCE_PAYOUT_BPS: u64 = 5000;

/// Highest acceptable interest rate an offer or request may quote.
pub const MAX_RATE_BPS: u16 = 10_000;

/// Lowest admissible liquidation health threshold.
pub const MIN_LIQUIDATION_THRESHOLD_BPS: u16 = 5000;

/// Highest admissible liquidation health threshold.
pub const MAX_LIQUIDATION_THRESHOLD_BPS: u16 = 10_000;

/// Bound on the whitelist of programs eligible for trade execution.
pub const MAX_WHITELISTED_PROGRAMS: usize = 20;

/// Every way a credit-market operation can be refused. Errors are fail-fast:
/// an operation that returns one leaves every record it was given unchanged.
#[derive(Clone, Copy, Debug, PartialEq, Eq, Structural)]
pub enum CreditMarketError {
    OfferNotActive,
    Unauthorized,
    LoanNotActive,
    InsufficientReputation,
    MathOverflow,
    ProgramNotWhitelisted,
    LoanNotOverdue,
    LoanNotLiquidatable,
    InvalidAmount,
    InvalidRate,
    InvalidDuration,
    InvalidLiquidationThreshold,
    LoanNotDefaulted,
    InsuranceAlreadyClaimed,
    InsufficientInsurancePool,
    InvalidFeeRate,
}

/// The lifecycle states of a loan. Transitions are one-way: a loan that has
/// reached `Repaid`, `Defaulted` or `Liquidated` never becomes active again.
#[derive(Clone, Copy, Debug, PartialEq, Eq, Structural)]
pub enum LoanStatus {
    /// Reserved for an offer or request that is recorded but not yet matched.
    Open,
    /// The borrower holds the funds and owes principal plus interest.
    Active,
    /// The borrower repaid in full.
    Repaid,
    /// Past due and marked as defaulted, for accounting only.
    Defaulted,
    /// Force-closed for being past due or unhealthy.
    Liquidated,
}

impl Default for LoanStatus {
    fn default() -> (r: Self)
        ensures
            r is Open,
    {
        LoanStatus::Open
    }
}

/// A standing lending offer: the lender's terms, waiting for a borrower.
/// The offer leaves the active state exactly once, on cancel or acceptance.
pub struct LendOffer {
    pub lender: u64,
    pub amount: u64,
    pub min_rate_bps: u16,
    pub max_duration_secs: u64,
    pub min_reputation: u16,
    pub liquidation_threshold_bps: u16,
    pub is_active: bool,
    pub created_at: i64,
}

impl LendOffer {
    /// Terms a posted offer always satisfies.
    pub open spec fn wf(self) -> bool {
        &&& self.amount > 0
        &&& self.min_rate_bps <= MAX_RATE_BPS
        &&& self.max_duration_secs > 0
        &&& MIN_LIQUIDATION_THRESHOLD_BPS <= self.liquidation_threshold_bps
            <= MAX_LIQUIDATION_THRESHOLD_BPS
    }
}

/// A standing borrow request. Informational: matching is by a borrower
/// directly accepting a specific offer, not by an automated matcher.
pub struct BorrowRequest {
    pub borrower: u64,
    pub amount: u64,
    pub max_rate_bps: u16,
    pub duration_secs: u64,
    pub is_active: bool,
    pub created_at: i64,
}

impl BorrowRequest {
    /// Terms a posted request always satisfies.
    pub open spec fn wf(self) -> bool {
        &&& self.amount > 0
        &&& self.max_rate_bps <= MAX_RATE_BPS
        &&& self.duration_secs > 0
    }
}

/// A loan created from an accepted offer. The terms are copied from the
/// offer at creation and never recomputed; `vault` names the escrow-like
/// holding of the principal.
pub struct Loan {
    pub id: u64,
    pub lender: u64,
    pub borrower: u64,
    pub principal: u64,
    pub rate_bps: u16,
    pub start_time: i64,
    pub end_time: i64,
    pub status: LoanStatus,
    pub vault: u64,
    pub liquidation_threshold_bps: u16,
    pub insurance_claimed: bool,
}

impl Loan {
    /// Shape every created loan has: it runs forward in time and holds a
    /// positive principal.
    pub open spec fn wf(self) -> bool {
        &&& self.start_time <= self.end_time
        &&& self.principal > 0
    }
}

/// The borrower's standing with the market, read at acceptance and updated
/// by every loan outcome.
pub struct BorrowerProfile {
    pub owner: u64,
    pub reputation_score: u16,
    pub loans_repaid: u32,
    pub defaults: u32,
    pub total_borrowed: u64,
    pub created_at: i64,
}

/// The market-wide singleton: fee configuration, the monotonically
/// increasing loan-id counter, insurance audit totals, and the whitelist of
/// programs eligible for trade execution.
pub struct GlobalState {
    pub admin: u64,
    pub next_loan_id: u64,
    pub fee_bps: u16,
    pub insurance_fee_bps: u16,
    pub insurance_pool: u64,
    pub treasury: u64,
    pub total_insurance_collected: u64,
    pub total_insurance_claimed: u64,
    pub whitelisted_programs: Vec<u64>,
}

impl GlobalState {
    /// Invariant established at initialization and preserved by every
    /// operation: fees stay under their caps, the id counter has started,
    /// and the whitelist stays bounded.
    pub open spec fn wf(self) -> bool {
        &&& self.fee_bps <= MAX_PROTOCOL_FEE_BPS
        &&& self.insurance_fee_bps <= MAX_INSURANCE_FEE_BPS
        &&& self.next_loan_id >= 1
        &&& self.whitelisted_programs@.len() <= MAX_WHITELISTED_PROGRAMS
    }
}

/// Creates the market's global state: the caller becomes admin, fees start
/// at their defaults, and the loan-id counter starts at one.
pub fn initialize(admin: u64, insurance_pool: u64, treasury: u64) -> (g: GlobalState)
    ensures
        g.wf(),
        g.admin == admin,
        g.next_loan_id == 1,
        g.fee_bps == PROTOCOL_FEE_BPS,
        g.insurance_fee_bps == INSURANCE_FEE_BPS,
        g.insurance_pool == insurance_pool,
        g.treasury == treasury,
        g.total_insurance_collected == 0,
        g.total_insurance_claimed == 0,
        g.whitelisted_programs@.len() == 0,
{
    GlobalState {
        admin,
        next_loan_id: 1,
        fee_bps: PROTOCOL_FEE_BPS,
        insurance_fee_bps: INSURANCE_FEE_BPS,
        insurance_pool,
        treasury,
        total_insurance_collected: 0,
        total_insurance_claimed: 0,
        whitelisted_programs: Vec::new(),
    }
}

/// The reason `post_lend_offer` refuses, if any: the validations in the
/// order they are checked, then the id counter running out.
pub open spec fn offer_check(
    amount: u64,
    min_rate_bps: u16,
    max_duration_secs: u64,
    liquidation_threshold_bps: u16,
    next_loan_id: u64,
) -> Option<CreditMarketError> {
    if amount == 0 {
        Some(CreditMarketError::InvalidAmount)
    } else if min_rate_bps > MAX_RATE_BPS {
        Some(CreditMarketError::InvalidRate)
    } else if max_duration_secs == 0 {
        Some(CreditMarketError::InvalidDuration)
    } else if liquidation_threshold_bps < MIN_LIQUIDATION_THRESHOLD_BPS
        || liquidation_threshold_bps > MAX_LIQUIDATION_THRESHOLD_BPS {
        Some(CreditMarketError::InvalidLiquidationThreshold)
    } else if next_loan_id == u64::MAX {
        Some(CreditMarketError::MathOverflow)
    } else {
        None
    }
}

/// Posts a lending offer with the given terms. On success the offer is
/// active, `amount` is owed to escrow by the caller, and the global id
/// counter advances.
pub fn post_lend_offer(
    global: &mut GlobalState,
    lender: u64,
    amount: u64,
    min_rate_bps: u16,
    max_duration_secs: u64,
    min_reputation: u16,
    liquidation_threshold_bps: u16,
    now: i64,
) -> (r: Result<LendOffer, CreditMarketError>)
    requires
        old(global).wf(),
    ensures
        final(global).wf(),
        offer_check(
            amount,
            min_rate_bps,
            max_duration_secs,
            liquidation_threshold_bps,
            old(global).next_loan_id,
        ) matches Some(e) ==> r == Err::<LendOffer, CreditMarketError>(e) && *final(global)
            == *old(global),
        offer_check(
            amount,
            min_rate_bps,
            max_duration_secs,
            liquidation_threshold_bps,
            old(global).next_loan_id,
        ) is None ==> {
            &&& r matches Ok(offer)
            &&& (r matches Ok(offer) ==> offer == (LendOffer {
                lender,
                amount,
                min_rate_bps,
                max_duration_secs,
                min_reputation,
                liquidation_threshold_bps,
                is_active: true,
                created_at: now,
            }) && offer.wf())
            &&& *final(global) == (GlobalState {
                next_loan_id: (old(global).next_loan_id + 1) as u64,
                ..*old(global)
            })
        },
{
    if amount == 0 {
        return Err(CreditMarketError::InvalidAmount);
    }
    if min_rate_bps > MAX_RATE_BPS {
        return Err(CreditMarketError::InvalidRate);
    }
    if max_duration_secs == 0 {
        return Err(CreditMarketError::InvalidDuration);
    }
    if liquidation_threshold_bps < MIN_LIQUIDATION_THRESHOLD_BPS || liquidation_threshold_bps
        > MAX_LIQUIDATION_THRESHOLD_BPS {
        return Err(CreditMarketError::InvalidLiquidationThreshold);
    }
    if global.next_loan_id == u64::MAX {
        return Err(CreditMarketError::MathOverflow);
    }
    global.next_loan_id = global.next_loan_id + 1;
    Ok(
        LendOffer {
            lender,
            amount,
            min_rate_bps,
            max_duration_secs,
            min_reputation,
            liquidation_threshold_bps,
            is_active: true,
            created_at: now,
        },
    )
}

/// Cancels an active offer. Only the offer's lender may cancel; on success
/// the offer is deactivated and the returned amount is released from escrow
/// back to the lender.
pub fn cancel_lend_offer(offer: &mut LendOffer, caller: u64) -> (r: Result<
    u64,
    CreditMarketError,
>)
    ensures
        !old(offer).is_active ==> r == Err::<u64, CreditMarketError>(
            CreditMarketError::OfferNotActive,
        ) && *final(offer) == *old(offer),
        old(offer).is_active && caller != old(offer).lender ==> r == Err::<u64, CreditMarketError>(
            CreditMarketError::Unauthorized,
        ) && *final(offer) == *old(offer),
        old(offer).is_active && caller == old(offer).lender ==> r == Ok::<u64, CreditMarketError>(
            old(offer).amount,
        ) && *final(offer) == (LendOffer { is_active: false, ..*old(offer) }),
{
    if !offer.is_active {
        return Err(CreditMarketError::OfferNotActive);
    }
    if offer.lender != caller {
        return Err(CreditMarketError::Unauthorized);
    }
    offer.is_active = false;
    Ok(offer.amount)
}

/// The reason `post_borrow_request` refuses, if any.
pub open spec fn request_check(amount: u64, max_rate_bps: u16, duration_secs: u64) -> Option<
    CreditMarketError,
> {
    if amount == 0 {
        Some(CreditMarketError::InvalidAmount)
    } else if max_rate_bps > MAX_RATE_BPS {
        Some(CreditMarketError::InvalidRate)
    } else if duration_secs == 0 {
        Some(CreditMarketError::InvalidDuration)
    } else {
        None
    }
}

/// Records a borrow request. No funds move: the request only publishes the
/// borrower's intent, and matching happens by direct acceptance of an offer.
pub fn post_borrow_request(
    borrower: u64,
    amount: u64,
    max_rate_bps: u16,
    duration_secs: u64,
    now: i64,
) -> (r: Result<BorrowRequest, CreditMarketError>)
    ensures
        request_check(amount, max_rate_bps, duration_secs) matches Some(e) ==> r == Err::<
            BorrowRequest,
            CreditMarketError,
        >(e),
        request_check(amount, max_rate_bps, duration_secs) is None ==> r == Ok::<
            BorrowRequest,
            CreditMarketError,
        >(
            BorrowRequest {
                borrower,
                amount,
                max_rate_bps,
                duration_secs,
                is_active: true,
                created_at: now,
            },
        ),
        r matches Ok(request) ==> request.wf(),
{
    if amount == 0 {
        return Err(CreditMarketError::InvalidAmount);
    }
    if max_rate_bps > MAX_RATE_BPS {
        return Err(CreditMarketError::InvalidRate);
    }
    if duration_secs == 0 {
        return Err(CreditMarketError::InvalidDuration);
    }
    Ok(BorrowRequest { borrower, amount, max_rate_bps, duration_secs, is_active: true, created_at: now })
}

/// The reason `accept_lend_offer` refuses, if any: an inactive offer first,
/// then insufficient reputation, then arithmetic limits on the id counter
/// and the loan's end time.
pub open spec fn accept_check(
    offer: LendOffer,
    reputation_score: u16,
    next_loan_id: u64,
    now: i64,
) -> Option<CreditMarketError> {
    if !offer.is_active {
        Some(CreditMarketError::OfferNotActive)
    } else if reputation_score < offer.min_reputation {
        Some(CreditMarketError::InsufficientReputation)
    } else if next_loan_id == u64::MAX {
        Some(CreditMarketError::MathOverflow)
    } else if now + offer.max_duration_secs > i64::MAX {
        Some(CreditMarketError::MathOverflow)
    } else {
        None
    }
}

/// Accepts an active offer: deactivates the offer, allocates the next loan
/// id, and creates the loan on the offer's terms, running from `now` for the
/// offer's maximum duration. On success the offer's escrowed amount is owed
/// to the new loan's vault.
pub fn accept_lend_offer(
    offer: &mut LendOffer,
    global: &mut GlobalState,
    borrower: u64,
    borrower_profile: &BorrowerProfile,
    vault: u64,
    now: i64,
) -> (r: Result<Loan, CreditMarketError>)
    requires
        old(offer).wf(),
        old(global).wf(),
    ensures
        final(global).wf(),
        accept_check(
            *old(offer),
            borrower_profile.reputation_score,
            old(global).next_loan_id,
            now,
        ) matches Some(e) ==> r == Err::<Loan, CreditMarketError>(e) && *final(offer) == *old(
            offer,
        ) && *final(global) == *old(global),
        accept_check(
            *old(offer),
            borrower_profile.reputation_score,
            old(global).next_loan_id,
            now,
        ) is None ==> {
            &&& r == Ok::<Loan, CreditMarketError>(
                Loan {
                    id: old(global).next_loan_id,
                    lender: old(offer).lender,
                    borrower,
                    principal: old(offer).amount,
                    rate_bps: old(offer).min_rate_bps,
                    start_time: now,
                    end_time: (now + old(offer).max_duration_secs) as i64,
                    status: LoanStatus::Active,
                    vault,
                    liquidation_threshold_bps: old(offer).liquidation_threshold_bps,
                    insurance_claimed: false,
                },
            )
            &&& (r matches Ok(loan) ==> loan.wf())
            &&& *final(offer) == (LendOffer { is_active: false, ..*old(offer) })
            &&& *final(global) == (GlobalState {
                next_loan_id: (old(global).next_loan_id + 1) as u64,
                ..*old(global)
            })
        },
{
    if !offer.is_active {
        return Err(CreditMarketError::OfferNotActive);
    }
    if borrower_profile.reputation_score < offer.min_reputation {
        return Err(CreditMarketError::InsufficientReputation);
    }
    if global.next_loan_id == u64::MAX {
        return Err(CreditMarketError::MathOverflow);
    }
    let end_wide: i128 = (now as i128) + (offer.max_duration_secs as i128);
    if end_wide > i64::MAX as i128 {
        return Err(CreditMarketError::MathOverflow);
    }
    let end_time: i64 = end_wide as i64;
    offer.is_active = false;
    let loan_id = global.next_loan_id;
    global.next_loan_id = loan_id + 1;
    Ok(
        Loan {
            id: loan_id,
            lender: offer.lender,
            borrower,
            principal: offer.amount,
            rate_bps: offer.min_rate_bps,
            start_time: now,
            end_time,
            status: LoanStatus::Active,
            vault,
            liquidation_threshold_bps: offer.liquidation_threshold_bps,
            insurance_claimed: false,
        },
    )
}

/// An offer is accepted at most once: acceptance deactivates the offer, and
/// on an inactive offer every further acceptance attempt is refused with
/// `OfferNotActive`, whoever tries and whenever.
pub proof fn lemma_offer_accepted_at_most_once(
    offer: LendOffer,
    reputation_score: u16,
    next_loan_id: u64,
    now: i64,
)
    requires
        !offer.is_active,
    ensures
        accept_check(offer, reputation_score, next_loan_id, now) == Some(
            CreditMarketError::OfferNotActive,
        ),
{
}

/// Seconds elapsed between a loan's start and `now`. Meaningful when `now`
/// is not before the start; any `i64` difference fits a `u64`.
pub open spec fn elapsed_secs(start_time: i64, now: i64) -> u64 {
    (now - start_time) as u64
}

/// A share of the interest, in basis points, rounded down.
pub open spec fn spec_fee_share(interest: int, share_bps: u16) -> int {
    interest * share_bps / (BPS_DIVISOR as int)
}

/// Floor division loses at most the remainder: the quotients of two parts
/// never add up to more than the quotient of their sum.
proof fn lemma_div_sum_le(x: int, y: int, d: int)
    requires
        x >= 0,
        y >= 0,
        d > 0,
    ensures
        x / d + y / d <= (x + y) / d,
{
    lemma_fundamental_div_mod(x, d);
    lemma_fundamental_div_mod(y, d);
    lemma_fundamental_div_mod(x + y, d);
    assert(x / d + y / d <= (x + y) / d) by (nonlinear_arith)
        requires
            x == d * (x / d) + (x % d),
            y == d * (y / d) + (y % d),
            x + y == d * ((x + y) / d) + ((x + y) % d),
            0 <= (x % d) < d,
            0 <= (y % d) < d,
            0 <= ((x + y) % d) < d,
            d > 0,
    ;
}

/// The repayment split never leaks: both fee shares are non-negative, and as
/// long as the two fee rates together stay within the whole (10000 bps) the
/// fees never exceed the interest. The lender's share is the remainder, so
/// both floor-division leftovers accrue to the lender and the three parts
/// sum back to the interest exactly.
pub proof fn lemma_fee_split_bounded(interest: u64, insurance_fee_bps: u16, fee_bps: u16)
    requires
        insurance_fee_bps + fee_bps <= BPS_DIVISOR,
    ensures
        0 <= spec_fee_share(interest as int, insurance_fee_bps),
        0 <= spec_fee_share(interest as int, fee_bps),
        spec_fee_share(interest as int, insurance_fee_bps) + spec_fee_share(
            interest as int,
            fee_bps,
        ) <= interest,
        (interest - spec_fee_share(interest as int, insurance_fee_bps) - spec_fee_share(
            interest as int,
            fee_bps,
        )) + spec_fee_share(interest as int, insurance_fee_bps) + spec_fee_share(
            interest as int,
            fee_bps,
        ) == interest,
{
    let i = interest as int;
    let a = insurance_fee_bps as int;
    let b = fee_bps as int;
    let d = BPS_DIVISOR as int;
    lemma_mul_nonnegative(i, a);
    lemma_mul_nonnegative(i, b);
    lemma_div_pos_is_pos(i * a, d);
    lemma_div_pos_is_pos(i * b, d);
    lemma_div_sum_le(i * a, i * b, d);
    lemma_mul_is_distributive_add(i, a, b);
    lemma_mul_inequality(a + b, d, i);
    lemma_mul_is_commutative(i, a + b);
    lemma_mul_is_commutative(i, d);
    lemma_div_is_ordered(i * (a + b), i * d, d);
    lemma_div_multiples_vanish(i, d);
}

/// The amounts moved by a successful repayment: the borrower pays
/// `total_repaid` in all, of which `lender_amount` goes to the lender,
/// `insurance_fee` to the insurance pool and `protocol_fee` to the treasury.
/// A transfer whose amount is zero may simply be skipped.
pub struct RepaymentOutcome {
    pub interest: u64,
    pub lender_interest: u64,
    pub insurance_fee: u64,
    pub protocol_fee: u64,
    pub lender_amount: u64,
    pub total_repaid: u64,
}

/// The reason `repay_loan` refuses, if any, in the order the checks are
/// made: state, authorization, the clock anomaly of a repayment before the
/// loan started, then each arithmetic step that would leave its width.
pub open spec fn repay_check(
    loan: Loan,
    global: GlobalState,
    profile: BorrowerProfile,
    borrower: u64,
    now: i64,
) -> Option<CreditMarketError> {
    let elapsed = elapsed_secs(loan.start_time, now);
    let interest = interest_owed(loan.principal, loan.rate_bps, elapsed);
    if !(loan.status is Active) {
        Some(CreditMarketError::LoanNotActive)
    } else if borrower != loan.borrower {
        Some(CreditMarketError::Unauthorized)
    } else if now < loan.start_time {
        Some(CreditMarketError::MathOverflow)
    } else if !interest_fits(loan.principal, loan.rate_bps, elapsed) {
        Some(CreditMarketError::MathOverflow)
    } else if interest * global.insurance_fee_bps > u64::MAX {
        Some(CreditMarketError::MathOverflow)
    } else if interest * global.fee_bps > u64::MAX {
        Some(CreditMarketError::MathOverflow)
    } else if loan.principal + interest > u64::MAX {
        Some(CreditMarketError::MathOverflow)
    } else if global.total_insurance_collected + spec_fee_share(interest, global.insurance_fee_bps)
        > u64::MAX {
        Some(CreditMarketError::MathOverflow)
    } else if profile.loans_repaid == u32::MAX {
        Some(CreditMarketError::MathOverflow)
    } else {
        None
    }
}

/// Repays an active loan in full. Only the borrower may repay. The interest
/// accrued since the start is split three ways — the configured insurance
/// and protocol fees are floored, and the remainder, including both
/// rounding leftovers, accrues to the lender — so the three parts always
/// sum to the interest exactly. The loan becomes `Repaid`, the insurance
/// audit total grows by the insurance fee, and the borrower's profile gains
/// reputation and a repayment.
pub fn repay_loan(
    loan: &mut Loan,
    global: &mut GlobalState,
    profile: &mut BorrowerProfile,
    borrower: u64,
    now: i64,
) -> (r: Result<RepaymentOutcome, CreditMarketError>)
    requires
        old(global).wf(),
    ensures
        final(global).wf(),
        repay_check(*old(loan), *old(global), *old(profile), borrower, now) matches Some(e) ==> {
            &&& r == Err::<RepaymentOutcome, CreditMarketError>(e)
            &&& *final(loan) == *old(loan)
            &&& *final(global) == *old(global)
            &&& *final(profile) == *old(profile)
        },
        repay_check(*old(loan), *old(global), *old(profile), borrower, now) is None ==> {
            let interest = interest_owed(
                old(loan).principal,
                old(loan).rate_bps,
                elapsed_secs(old(loan).start_time, now),
            );
            &&& r matches Ok(out)
            &&& (r matches Ok(out) ==> {
                &&& out.interest == interest
                &&& out.insurance_fee == spec_fee_share(interest, old(global).insurance_fee_bps)
                &&& out.protocol_fee == spec_fee_share(interest, old(global).fee_bps)
                &&& out.lender_interest + out.insurance_fee + out.protocol_fee == out.interest
                &&& out.lender_amount == old(loan).principal + out.lender_interest
                &&& out.total_repaid == old(loan).principal + out.interest
                &&& out.lender_amount + out.insurance_fee + out.protocol_fee == out.total_repaid
                &&& *final(loan) == (Loan { status: LoanStatus::Repaid, ..*old(loan) })
                &&& *final(global) == (GlobalState {
                    total_insurance_collected: (old(global).total_insurance_collected
                        + out.insurance_fee) as u64,
                    ..*old(global)
                })
                &&& *final(profile) == (BorrowerProfile {
                    reputation_score: if old(profile).reputation_score + 50 > u16::MAX {
                        u16::MAX
                    } else {
                        (old(profile).reputation_score + 50) as u16
                    },
                    loans_repaid: (old(profile).loans_repaid + 1) as u32,
                    ..*old(profile)
                })
            })
        },
{
    if loan.status != LoanStatus::Active {
        return Err(CreditMarketError::LoanNotActive);
    }
    if borrower != loan.borrower {
        return Err(CreditMarketError::Unauthorized);
    }
    if now < loan.start_time {
        return Err(CreditMarketError::MathOverflow);
    }
    assert(0 <= now - loan.start_time <= u64::MAX);
    let elapsed: u64 = ((now as i128) - (loan.start_time as i128)) as u64;
    let interest: u64 = match calculate_interest(loan.principal, loan.rate_bps, elapsed) {
        Ok(i) => i,
        Err(e) => {
            return Err(e);
        },
    };
    let insurance_fee: u64 = match interest.checked_mul(global.insurance_fee_bps as u64) {
        Some(p) => p / BPS_DIVISOR,
        None => {
            return Err(CreditMarketError::MathOverflow);
        },
    };
    let protocol_fee: u64 = match interest.checked_mul(global.fee_bps as u64) {
        Some(p) => p / BPS_DIVISOR,
        None => {
            return Err(CreditMarketError::MathOverflow);
        },
    };
    proof {
        lemma_fee_split_bounded(interest, global.insurance_fee_bps, global.fee_bps);
    }
    let lender_interest: u64 = interest - insurance_fee - protocol_fee;
    let total_repaid: u64 = match loan.principal.checked_add(interest) {
        Some(t) => t,
        None => {
            return Err(CreditMarketError::MathOverflow);
        },
    };
    let lender_amount: u64 = loan.principal + lender_interest;
    let new_collected: u64 = match global.total_insurance_collected.checked_add(insurance_fee) {
        Some(c) => c,
        None => {
            return Err(CreditMarketError::MathOverflow);
        },
    };
    let new_loans_repaid: u32 = match profile.loans_repaid.checked_add(1) {
        Some(n) => n,
        None => {
            return Err(CreditMarketError::MathOverflow);
        },
    };
    loan.status = LoanStatus::Repaid;
    global.total_insurance_collected = new_collected;
    profile.reputation_score = profile.reputation_score.saturating_add(50);
    profile.loans_repaid = new_loans_repaid;
    Ok(
        RepaymentOutcome {
            interest,
            lender_interest,
            insurance_fee,
            protocol_fee,
            lender_amount,
            total_repaid,
        },
    )
}

/// The health of an active loan in basis points: the vault's remaining
/// balance measured against the expected repayment. An expected repayment
/// of zero counts as fully healthy, avoiding a division by zero.
pub open spec fn spec_health_factor_bps(vault_balance: u64, expected_repayment: int) -> int {
    if expected_repayment == 0 {
        BPS_DIVISOR as int
    } else {
        vault_balance * BPS_DIVISOR / expected_repayment
    }
}

/// Computes the health factor of a loan backed by `vault_balance` against
/// `expected_repayment` owed. The result is exact: the scaling to basis
/// points is done in 128 bits, where it cannot overflow.
pub fn health_factor_bps(vault_balance: u64, expected_repayment: u64) -> (h: u128)
    ensures
        h == spec_health_factor_bps(vault_balance, expected_repayment as int),
{
    if expected_repayment == 0 {
        BPS_DIVISOR as u128
    } else {
        assert(vault_balance * BPS_DIVISOR <= u128::MAX) by (nonlinear_arith)
            requires
                vault_balance <= u64::MAX,
        ;
        let scaled: u128 = (vault_balance as u128) * (BPS_DIVISOR as u128);
        scaled / (expected_repayment as u128)
    }
}

/// The two independent liquidation triggers: a loan can be seized either
/// for running past its end time or for its health factor falling strictly
/// below the threshold fixed at creation — whichever occurs first. A loan
/// exactly at its threshold is not liquidatable.
pub open spec fn liquidatable(loan: Loan, vault_balance: u64, now: i64) -> bool {
    let interest = interest_owed(
        loan.principal,
        loan.rate_bps,
        elapsed_secs(loan.start_time, now),
    );
    let expected = loan.principal + interest;
    now > loan.end_time || spec_health_factor_bps(vault_balance, expected)
        < loan.liquidation_threshold_bps
}

/// The reason `liquidate_loan` refuses, if any.
pub open spec fn liquidate_check(
    loan: Loan,
    profile: BorrowerProfile,
    vault_balance: u64,
    now: i64,
) -> Option<CreditMarketError> {
    let elapsed = elapsed_secs(loan.start_time, now);
    let interest = interest_owed(loan.principal, loan.rate_bps, elapsed);
    if !(loan.status is Active) {
        Some(CreditMarketError::LoanNotActive)
    } else if now < loan.start_time {
        Some(CreditMarketError::MathOverflow)
    } else if !interest_fits(loan.principal, loan.rate_bps, elapsed) {
        Some(CreditMarketError::MathOverflow)
    } else if loan.principal + interest > u64::MAX {
        Some(CreditMarketError::MathOverflow)
    } else if !liquidatable(loan, vault_balance, now) {
        Some(CreditMarketError::LoanNotLiquidatable)
    } else if profile.defaults == u32::MAX {
        Some(CreditMarketError::MathOverflow)
    } else {
        None
    }
}

/// What a successful liquidation moves and why it was permitted. The whole
/// remaining vault balance goes to the lender, even where it exceeds what
/// was owed: there is no refund path to the borrower.
pub struct LiquidationOutcome {
    pub recovered: u64,
    pub is_past_due: bool,
    pub is_unhealthy: bool,
}

/// Liquidates an active loan that is past due or unhealthy. Anyone may call
/// it — a keeper needs no standing — but never on a loan that is neither
/// trigger's: a healthy, current loan is protected. The lender absorbs any
/// shortfall between the recovered balance and what was owed; the borrower
/// is penalized one default and 200 reputation points, floored at zero.
pub fn liquidate_loan(
    loan: &mut Loan,
    profile: &mut BorrowerProfile,
    vault_balance: u64,
    now: i64,
) -> (r: Result<LiquidationOutcome, CreditMarketError>)
    ensures
        liquidate_check(*old(loan), *old(profile), vault_balance, now) matches Some(e) ==> {
            &&& r == Err::<LiquidationOutcome, CreditMarketError>(e)
            &&& *final(loan) == *old(loan)
            &&& *final(profile) == *old(profile)
        },
        liquidate_check(*old(loan), *old(profile), vault_balance, now) is None ==> {
            let interest = interest_owed(
                old(loan).principal,
                old(loan).rate_bps,
                elapsed_secs(old(loan).start_time, now),
            );
            let expected = old(loan).principal + interest;
            &&& r == Ok::<LiquidationOutcome, CreditMarketError>(
                LiquidationOutcome {
                    recovered: vault_balance,
                    is_past_due: now > old(loan).end_time,
                    is_unhealthy: spec_health_factor_bps(vault_balance, expected) < old(
                        loan,
                    ).liquidation_threshold_bps,
                },
            )
            &&& *final(loan) == (Loan { status: LoanStatus::Liquidated, ..*old(loan) })
            &&& *final(profile) == (BorrowerProfile {
                reputation_score: if old(profile).reputation_score >= 200 {
                    (old(profile).reputation_score - 200) as u16
                } else {
                    0
                },
                defaults: (old(profile).defaults + 1) as u32,
                ..*old(profile)
            })
        },
{
    if loan.status != LoanStatus::Active {
        return Err(CreditMarketError::LoanNotActive);
    }
    if now < loan.start_time {
        return Err(CreditMarketError::MathOverflow);
    }
    assert(0 <= now - loan.start_time <= u64::MAX);
    let elapsed: u64 = ((now as i128) - (loan.start_time as i128)) as u64;
    let interest: u64 = match calculate_interest(loan.principal, loan.rate_bps, elapsed) {
        Ok(i) => i,
        Err(e) => {
            return Err(e);
        },
    };
    let expected_repayment: u64 = match loan.principal.checked_add(interest) {
        Some(t) => t,
        None => {
            return Err(CreditMarketError::MathOverflow);
        },
    };
    let is_past_due = now > loan.end_time;
    let health = health_factor_bps(vault_balance, expected_repayment);
    let is_unhealthy = health < loan.liquidation_threshold_bps as u128;
    if !(is_past_due || is_unhealthy) {
        return Err(CreditMarketError::LoanNotLiquidatable);
    }
    let new_defaults: u32 = match profile.defaults.checked_add(1) {
        Some(n) => n,
        None => {
            return Err(CreditMarketError::MathOverflow);
        },
    };
    loan.status = LoanStatus::Liquidated;
    profile.reputation_score = profile.reputation_score.saturating_sub(200);
    profile.defaults = new_defaults;
    Ok(LiquidationOutcome { recovered: vault_balance, is_past_due, is_unhealthy })
}

/// Liquidation gating is strict: a loan exactly at its threshold and still
/// within its term is not liquidatable; one strictly below the threshold
/// is; and one past its end time is, however healthy its vault.
pub proof fn lemma_liquidation_gating(loan: Loan, vault_balance: u64, now: i64)
    ensures
        ({
            let interest = interest_owed(
                loan.principal,
                loan.rate_bps,
                elapsed_secs(loan.start_time, now),
            );
            let health = spec_health_factor_bps(vault_balance, loan.principal + interest);
            &&& (health == loan.liquidation_threshold_bps && now <= loan.end_time ==> !liquidatable(
                loan,
                vault_balance,
                now,
            ))
            &&& (health < loan.liquidation_threshold_bps ==> liquidatable(
                loan,
                vault_balance,
                now,
            ))
            &&& (now > loan.end_time ==> liquidatable(loan, vault_balance, now))
        }),
{
}

/// The reason `mark_default` refuses, if any.
pub open spec fn mark_default_check(loan: Loan, profile: BorrowerProfile, now: i64) -> Option<
    CreditMarketError,
> {
    if !(loan.status is Active) {
        Some(CreditMarketError::LoanNotActive)
    } else if now <= loan.end_time {
        Some(CreditMarketError::LoanNotOverdue)
    } else if profile.defaults == u32::MAX {
        Some(CreditMarketError::MathOverflow)
    } else {
        None
    }
}

/// Marks an overdue loan as defaulted: the accounting-only alternative to
/// liquidation. No funds move. The borrower takes the same reputation
/// penalty as a liquidation.
pub fn mark_default(loan: &mut Loan, profile: &mut BorrowerProfile, now: i64) -> (r: Result<
    (),
    CreditMarketError,
>)
    ensures
        mark_default_check(*old(loan), *old(profile), now) matches Some(e) ==> {
            &&& r == Err::<(), CreditMarketError>(e)
            &&& *final(loan) == *old(loan)
            &&& *final(profile) == *old(profile)
        },
        mark_default_check(*old(loan), *old(profile), now) is None ==> {
            &&& r == Ok::<(), CreditMarketError>(())
            &&& *final(loan) == (Loan { status: LoanStatus::Defaulted, ..*old(loan) })
            &&& *final(profile) == (BorrowerProfile {
                reputation_score: if old(profile).reputation_score >= 200 {
                    (old(profile).reputation_score - 200) as u16
                } else {
                    0
                },
                defaults: (old(profile).defaults + 1) as u32,
                ..*old(profile)
            })
        },
{
    if loan.status != LoanStatus::Active {
        return Err(CreditMarketError::LoanNotActive);
    }
    if now <= loan.end_time {
        return Err(CreditMarketError::LoanNotOverdue);
    }
    let new_defaults: u32 = match profile.defaults.checked_add(1) {
        Some(n) => n,
        None => {
            return Err(CreditMarketError::MathOverflow);
        },
    };
    loan.status = LoanStatus::Defaulted;
    profile.reputation_score = profile.reputation_score.saturating_sub(200);
    profile.defaults = new_defaults;
    Ok(())
}

/// Status transitions are one-way: once a loan has left `Active` — for
/// `Repaid`, `Defaulted` or `Liquidated` — every transition out of it is
/// refused, so no loan re-activates.
pub proof fn lemma_terminal_status_is_final(
    loan: Loan,
    global: GlobalState,
    profile: BorrowerProfile,
    borrower: u64,
    vault_balance: u64,
    now: i64,
)
    requires
        !(loan.status is Active),
    ensures
        repay_check(loan, global, profile, borrower, now) == Some(
            CreditMarketError::LoanNotActive,
        ),
        liquidate_check(loan, profile, vault_balance, now) == Some(
            CreditMarketError::LoanNotActive,
        ),
        mark_default_check(loan, profile, now) == Some(CreditMarketError::LoanNotActive),
{
}

/// The insurance payout owed on a defaulted or liquidated loan: half the
/// principal, floored, but never more than the pool holds.
pub open spec fn spec_insurance_payout(principal: u64, pool_balance: u64) -> int {
    let covered = principal * INSURANCE_PAYOUT_BPS / (BPS_DIVISOR as int);
    if covered <= pool_balance {
        covered
    } else {
        pool_balance as int
    }
}

/// The reason `claim_insurance` refuses, if any.
pub open spec fn claim_check(
    loan: Loan,
    global: GlobalState,
    lender: u64,
    pool_balance: u64,
) -> Option<CreditMarketError> {
    if !(loan.status is Defaulted || loan.status is Liquidated) {
        Some(CreditMarketError::LoanNotDefaulted)
    } else if lender != loan.lender {
        Some(CreditMarketError::Unauthorized)
    } else if loan.insurance_claimed {
        Some(CreditMarketError::InsuranceAlreadyClaimed)
    } else if loan.principal * INSURANCE_PAYOUT_BPS > u64::MAX {
        Some(CreditMarketError::MathOverflow)
    } else if spec_insurance_payout(loan.principal, pool_balance) == 0 {
        Some(CreditMarketError::InsufficientInsurancePool)
    } else if global.total_insurance_claimed + spec_insurance_payout(loan.principal, pool_balance)
        > u64::MAX {
        Some(CreditMarketError::MathOverflow)
    } else {
        None
    }
}

/// Pays the lender of a defaulted or liquidated loan a one-time, capped,
/// partial recovery out of the insurance pool: the returned amount — at
/// most half the principal and at most the pool's balance — moves from the
/// pool to the lender, the loan's claimed flag flips, and the cumulative
/// claimed total grows. Not a guarantee of full principal return.
pub fn claim_insurance(
    loan: &mut Loan,
    global: &mut GlobalState,
    lender: u64,
    pool_balance: u64,
) -> (r: Result<u64, CreditMarketError>)
    requires
        old(global).wf(),
    ensures
        final(global).wf(),
        claim_check(*old(loan), *old(global), lender, pool_balance) matches Some(e) ==> {
            &&& r == Err::<u64, CreditMarketError>(e)
            &&& *final(loan) == *old(loan)
            &&& *final(global) == *old(global)
        },
        claim_check(*old(loan), *old(global), lender, pool_balance) is None ==> {
            let payout = spec_insurance_payout(old(loan).principal, pool_balance);
            &&& r == Ok::<u64, CreditMarketError>(payout as u64)
            &&& payout <= pool_balance
            &&& 2 * payout <= old(loan).principal
            &&& *final(loan) == (Loan { insurance_claimed: true, ..*old(loan) })
            &&& *final(global) == (GlobalState {
                total_insurance_claimed: (old(global).total_insurance_claimed + payout) as u64,
                ..*old(global)
            })
        },
{
    if !(loan.status == LoanStatus::Defaulted || loan.status == LoanStatus::Liquidated) {
        return Err(CreditMarketError::LoanNotDefaulted);
    }
    if lender != loan.lender {
        return Err(CreditMarketError::Unauthorized);
    }
    if loan.insurance_claimed {
        return Err(CreditMarketError::InsuranceAlreadyClaimed);
    }
    let covered: u64 = match loan.principal.checked_mul(INSURANCE_PAYOUT_BPS) {
        Some(p) => p / BPS_DIVISOR,
        None => {
            return Err(CreditMarketError::MathOverflow);
        },
    };
    let payout: u64 = if covered <= pool_balance {
        covered
    } else {
        pool_balance
    };
    if payout == 0 {
        return Err(CreditMarketError::InsufficientInsurancePool);
    }
    let new_claimed: u64 = match global.total_insurance_claimed.checked_add(payout) {
        Some(c) => c,
        None => {
            return Err(CreditMarketError::MathOverflow);
        },
    };
    loan.insurance_claimed = true;
    global.total_insurance_claimed = new_claimed;
    Ok(payout)
}

/// Insurance is claimed at most once per loan: once the claimed flag is
/// set, every further claim by anyone is refused with
/// `InsuranceAlreadyClaimed`, whatever the pool holds.
pub proof fn lemma_insurance_claimed_once(
    loan: Loan,
    global: GlobalState,
    lender: u64,
    pool_balance: u64,
)
    requires
        loan.status is Defaulted || loan.status is Liquidated,
        lender == loan.lender,
        loan.insurance_claimed,
    ensures
        claim_check(loan, global, lender, pool_balance) == Some(
            CreditMarketError::InsuranceAlreadyClaimed,
        ),
{
}

/// The insurance payout never exceeds the pool's balance, and never exceeds
/// half of the defaulted loan's principal.
pub proof fn lemma_insurance_payout_capped(principal: u64, pool_balance: u64)
    ensures
        spec_insurance_payout(principal, pool_balance) <= pool_balance,
        2 * spec_insurance_payout(principal, pool_balance) <= principal,
{
    assert(2 * (principal * INSURANCE_PAYOUT_BPS / (BPS_DIVISOR as int)) <= principal) by {
        lemma_fundamental_div_mod(principal * INSURANCE_PAYOUT_BPS, BPS_DIVISOR as int);
    };
}

/// True exactly when `programs` holds `program_id`.
pub(crate) fn contains_program(programs: &Vec<u64>, program_id: u64) -> (r: bool)
    ensures
        r == programs@.contains(program_id),
{
    let mut i: usize = 0;
    while i < programs.len()
        invariant
            0 <= i <= programs@.len(),
            forall|k: int| 0 <= k < i ==> programs@[k] != program_id,
        decreases programs@.len() - i,
    {
        if programs[i] == program_id {
            assert(programs@.contains(program_id)) by {
                assert(programs@[i as int] == program_id);
            };
            return true;
        }
        i = i + 1;
    }
    false
}

/// The reason `execute_trade` refuses, if any.
pub open spec fn trade_check(
    loan: Loan,
    global: GlobalState,
    borrower: u64,
    target_program: u64,
) -> Option<CreditMarketError> {
    if !(loan.status is Active) {
        Some(CreditMarketError::LoanNotActive)
    } else if borrower != loan.borrower {
        Some(CreditMarketError::Unauthorized)
    } else if !global.whitelisted_programs@.contains(target_program) {
        Some(CreditMarketError::ProgramNotWhitelisted)
    } else {
        None
    }
}

/// Clears a trade with borrowed funds for execution: the borrower of an
/// active loan may delegate only to a whitelisted program. Success means
/// the capability check passed; the delegated call itself is the opaque
/// external pass-through.
pub fn execute_trade(
    loan: &Loan,
    global: &GlobalState,
    borrower: u64,
    target_program: u64,
) -> (r: Result<(), CreditMarketError>)
    ensures
        trade_check(*loan, *global, borrower, target_program) matches Some(e) ==> r == Err::<
            (),
            CreditMarketError,
        >(e),
        trade_check(*loan, *global, borrower, target_program) is None ==> r == Ok::<
            (),
            CreditMarketError,
        >(()),
{
    if loan.status != LoanStatus::Active {
        return Err(CreditMarketError::LoanNotActive);
    }
    if borrower != loan.borrower {
        return Err(CreditMarketError::Unauthorized);
    }
    if !contains_program(&global.whitelisted_programs, target_program) {
        return Err(CreditMarketError::ProgramNotWhitelisted);
    }
    Ok(())
}

/// Admits a program to the trade-execution whitelist. Admin only; adding a
/// program already present changes nothing. The whitelist is a bounded
/// stored list, so an actual insertion needs a free slot.
pub fn add_whitelisted_program(global: &mut GlobalState, admin: u64, program_id: u64) -> (r:
    Result<(), CreditMarketError>)
    requires
        old(global).wf(),
        admin == old(global).admin && !old(global).whitelisted_programs@.contains(program_id)
            ==> old(global).whitelisted_programs@.len() < MAX_WHITELISTED_PROGRAMS,
    ensures
        final(global).wf(),
        admin != old(global).admin ==> r == Err::<(), CreditMarketError>(
            CreditMarketError::Unauthorized,
        ) && *final(global) == *old(global),
        admin == old(global).admin && old(global).whitelisted_programs@.contains(program_id) ==> r
            == Ok::<(), CreditMarketError>(()) && *final(global) == *old(global),
        admin == old(global).admin && !old(global).whitelisted_programs@.contains(program_id)
            ==> {
            &&& r == Ok::<(), CreditMarketError>(())
            &&& final(global).whitelisted_programs@ == old(
                global,
            ).whitelisted_programs@.push(program_id)
            &&& *final(global) == (GlobalState {
                whitelisted_programs: final(global).whitelisted_programs,
                ..*old(global)
            })
        },
{
    if global.admin != admin {
        return Err(CreditMarketError::Unauthorized);
    }
    if !contains_program(&global.whitelisted_programs, program_id) {
        global.whitelisted_programs.push(program_id);
    }
    Ok(())
}

/// The whitelist with every copy of `program_id` struck out, the order of
/// the rest kept.
pub open spec fn without_program(programs: Seq<u64>, program_id: u64) -> Seq<u64> {
    programs.filter(|p: u64| p != program_id)
}

/// Strikes a program from the trade-execution whitelist. Admin only; after
/// success the program is no longer whitelisted, and the remaining entries
/// are exactly the old ones in their old order.
pub fn remove_whitelisted_program(global: &mut GlobalState, admin: u64, program_id: u64) -> (r:
    Result<(), CreditMarketError>)
    requires
        old(global).wf(),
    ensures
        final(global).wf(),
        admin != old(global).admin ==> r == Err::<(), CreditMarketError>(
            CreditMarketError::Unauthorized,
        ) && *final(global) == *old(global),
        admin == old(global).admin ==> {
            &&& r == Ok::<(), CreditMarketError>(())
            &&& final(global).whitelisted_programs@ == without_program(
                old(global).whitelisted_programs@,
                program_id,
            )
            &&& !final(global).whitelisted_programs@.contains(program_id)
            &&& forall|p: u64|
                final(global).whitelisted_programs@.contains(p) <==> (old(
                    global,
                ).whitelisted_programs@.contains(p) && p != program_id)
            &&& final(global).whitelisted_programs@.len() <= old(
                global,
            ).whitelisted_programs@.len()
            &&& *final(global) == (GlobalState {
                whitelisted_programs: final(global).whitelisted_programs,
                ..*old(global)
            })
        },
{
    if global.admin != admin {
        return Err(CreditMarketError::Unauthorized);
    }
    let ghost s = global.whitelisted_programs@;
    let mut kept: Vec<u64> = Vec::new();
    let mut i: usize = 0;
    while i < global.whitelisted_programs.len()
        invariant
            global.whitelisted_programs@ == s,
            0 <= i <= s.len(),
            kept@.len() <= i,
            kept@ == without_program(s.subrange(0, i as int), program_id),
            forall|k: int| 0 <= k < kept@.len() ==> kept@[k] != program_id && s.contains(kept@[k]),
            forall|j: int| 0 <= j < i && s[j] != program_id ==> kept@.contains(#[trigger] s[j]),
        decreases s.len() - i,
    {
        let ghost sub_before = s.subrange(0, i as int);
        let candidate = global.whitelisted_programs[i];
        if candidate != program_id {
            let ghost kept_before = kept@;
            kept.push(candidate);
            proof {
                assert(s.contains(s[i as int]));
                assert(kept@[kept_before.len() as int] == candidate);
                assert forall|p: u64| kept_before.contains(p) implies kept@.contains(p) by {
                    let k = choose|k: int| 0 <= k < kept_before.len() && kept_before[k] == p;
                    assert(kept@[k] == p);
                };
            }
        }
        proof {
            reveal_with_fuel(Seq::<u64>::filter, 2);
            let sub_after = s.subrange(0, i + 1 as int);
            assert(sub_after.drop_last() =~= sub_before);
            assert(sub_after.last() == s[i as int]);
        }
        i = i + 1;
    }
    proof {
        assert(s.subrange(0, s.len() as int) =~= s);
    }
    global.whitelisted_programs = kept;
    assert forall|p: u64| global.whitelisted_programs@.contains(p) implies (s.contains(p) && p
        != program_id) by {
        let k = choose|k: int|
            0 <= k < global.whitelisted_programs@.len() && global.whitelisted_programs@[k] == p;
        assert(global.whitelisted_programs@[k] != program_id);
    };
    Ok(())
}

/// The reason `update_fee_rates` refuses, if any.
pub open spec fn fee_update_check(
    global: GlobalState,
    admin: u64,
    new_insurance_fee_bps: Option<u16>,
    new_protocol_fee_bps: Option<u16>,
) -> Option<CreditMarketError> {
    if admin != global.admin {
        Some(CreditMarketError::Unauthorized)
    } else if new_insurance_fee_bps matches Some(b) && b > MAX_INSURANCE_FEE_BPS {
        Some(CreditMarketError::InvalidFeeRate)
    } else if new_protocol_fee_bps matches Some(b) && b > MAX_PROTOCOL_FEE_BPS {
        Some(CreditMarketError::InvalidFeeRate)
    } else {
        None
    }
}

/// Updates the configurable fee rates, admin only, each capped: the
/// insurance fee at 2000 bps and the protocol fee at 500 bps. An argument
/// left as `None` leaves that rate as it was; a rejected rate leaves both
/// untouched.
pub fn update_fee_rates(
    global: &mut GlobalState,
    admin: u64,
    new_insurance_fee_bps: Option<u16>,
    new_protocol_fee_bps: Option<u16>,
) -> (r: Result<(), CreditMarketError>)
    requires
        old(global).wf(),
    ensures
        final(global).wf(),
        fee_update_check(*old(global), admin, new_insurance_fee_bps, new_protocol_fee_bps)
            matches Some(e) ==> r == Err::<(), CreditMarketError>(e) && *final(global) == *old(
            global,
        ),
        fee_update_check(*old(global), admin, new_insurance_fee_bps, new_protocol_fee_bps)
            is None ==> {
            &&& r == Ok::<(), CreditMarketError>(())
            &&& *final(global) == (GlobalState {
                insurance_fee_bps: match new_insurance_fee_bps {
                    Some(b) => b,
                    None => old(global).insurance_fee_bps,
                },
                fee_bps: match new_protocol_fee_bps {
                    Some(b) => b,
                    None => old(global).fee_bps,
                },
                ..*old(global)
            })
        },
{
    if global.admin != admin {
        return Err(CreditMarketError::Unauthorized);
    }
    if let Some(b) = new_insurance_fee_bps {
        if b > MAX_INSURANCE_FEE_BPS {
            return Err(CreditMarketError::InvalidFeeRate);
        }
    }
    if let Some(b) = new_protocol_fee_bps {
        if b > MAX_PROTOCOL_FEE_BPS {
            return Err(CreditMarketError::InvalidFeeRate);
        }
    }
    if let Some(b) = new_insurance_fee_bps {
        global.insurance_fee_bps = b;
    }
    if let Some(b) = new_protocol_fee_bps {
        global.fee_bps = b;
    }
    Ok(())
}

} // verus!
