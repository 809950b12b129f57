//! The reputation ledger: per-borrower credit history, the derived score,
//! and the graduated credit tier and borrowing limit.
//!
//! The score and the tier are always recomputed in full from the cumulative
//! counters — they are never patched incrementally, so they can never drift
//! from the history they summarise. Counters only ever grow, saturating at
//! their width instead of overflowing.

use vstd::prelude::*;

verus! {

/// Credit limit of tier 1, in millionths of the unit of account.
pub const TIER_1_LIMIT: u64 = 50_000_000;

/// Credit limit of tier 2.
pub const TIER_2_LIMIT: u64 = 500_000_000;

/// Credit limit of tier 3.
pub const TIER_3_LIMIT: u64 = 5_000_000_000;

/// Credit limit of tier 4.
pub const TIER_4_LIMIT: u64 = 25_000_000_000;

/// Credit limit of tier 5.
pub const TIER_5_LIMIT: u64 = 75_000_000_000;

/// Successful repayments needed to reach tier 2.
pub const TIER_2_THRESHOLD: u32 = 1;

/// Successful repayments needed to reach tier 3.
pub const TIER_3_THRESHOLD: u32 = 5;

/// Successful repayments needed to reach tier 4.
pub const TIER_4_THRESHOLD: u32 = 20;

/// Successful repayments needed to reach tier 5.
pub const TIER_5_THRESHOLD: u32 = 50;

/// Credit-limit reduction per recorded default.
pub const DEFAULT_PENALTY: u64 = 10_000_000_000;

/// Errors of the reputation ledger's host interface.
#[derive(Clone, Copy, Debug, PartialEq, Eq, Structural)]
pub enum ErrorCode {
    ProfileNotFound,
    Unauthorized,
    ExceedsCreditLimit,
}

/// `x + y`, capped at the top of `u32`.
pub open spec fn sat_add_u32(x: u32, y: u32) -> u32 {
    if x + y > u32::MAX {
        u32::MAX
    } else {
        (x + y) as u32
    }
}

/// `x + y`, capped at the top of `u64`.
pub open spec fn sat_add_u64(x: u64, y: u64) -> u64 {
    if x + y > u64::MAX {
        u64::MAX
    } else {
        (x + y) as u64
    }
}

/// The base credit limit earned by a count of successful repayments,
/// before any default penalty.
pub open spec fn spec_base_limit(successful_repayments: u32) -> u64 {
    if successful_repayments >= TIER_5_THRESHOLD {
        TIER_5_LIMIT
    } else if successful_repayments >= TIER_4_THRESHOLD {
        TIER_4_LIMIT
    } else if successful_repayments >= TIER_3_THRESHOLD {
        TIER_3_LIMIT
    } else if successful_repayments >= TIER_2_THRESHOLD {
        TIER_2_LIMIT
    } else {
        TIER_1_LIMIT
    }
}

/// The effective credit limit: the repayment-earned base minus one fixed
/// penalty per default, floored at the tier-1 minimum — never negative,
/// never below the floor.
pub open spec fn spec_credit_limit(successful_repayments: u32, defaults: u32) -> u64 {
    let adjusted = spec_base_limit(successful_repayments) - defaults * DEFAULT_PENALTY;
    if adjusted >= TIER_1_LIMIT {
        adjusted as u64
    } else {
        TIER_1_LIMIT
    }
}

/// The tier a given credit limit falls into.
pub open spec fn spec_tier_of_limit(limit: u64) -> u8 {
    if limit >= TIER_5_LIMIT {
        5
    } else if limit >= TIER_4_LIMIT {
        4
    } else if limit >= TIER_3_LIMIT {
        3
    } else if limit >= TIER_2_LIMIT {
        2
    } else {
        1
    }
}

/// The effective credit tier: recomputed from the penalty-adjusted limit,
/// not from the repayment count — a heavily-defaulted agent is demoted to
/// whatever tier its surviving limit falls into, not frozen at its
/// historical best.
pub open spec fn spec_credit_tier(successful_repayments: u32, defaults: u32) -> u8 {
    spec_tier_of_limit(spec_credit_limit(successful_repayments, defaults))
}

/// The reputation score derived from the cumulative counters: base 500,
/// plus 20 per successful repayment, plus 1 per whole unit repaid, plus 1
/// per ten whole units lent, minus 100 per default and 5 per currently-open
/// loan, clamped to 0..=1000.
pub open spec fn spec_score(
    loans_taken: u32,
    loans_repaid: u32,
    successful_repayments: u32,
    defaults: u32,
    total_repaid: u64,
    total_lent: u64,
) -> int {
    let open_loans: int = if loans_taken >= loans_repaid {
        loans_taken - loans_repaid
    } else {
        0
    };
    let raw: int = 500 + successful_repayments * 20 + total_repaid as int / 1_000_000
        + total_lent as int / 10_000_000 - defaults * 100 - open_loans * 5;
    if raw < 0 {
        0
    } else if raw > 1000 {
        1000
    } else {
        raw
    }
}

/// A borrower's lifetime credit history and the values derived from it.
pub struct AgentProfile {
    pub wallet: u64,
    pub loans_taken: u32,
    pub loans_repaid: u32,
    pub loans_defaulted: u32,
    pub total_borrowed: u64,
    pub total_repaid: u64,
    pub total_lent: u64,
    pub score: u16,
    pub successful_repayments: u32,
    pub defaults: u32,
    pub credit_tier: u8,
    pub max_borrow_limit: u64,
    pub created_at: i64,
    pub updated_at: i64,
}

impl AgentProfile {
    /// The derived fields are exactly the deterministic functions of the
    /// counters: established at registration, preserved by every record.
    pub open spec fn wf(self) -> bool {
        &&& self.score == spec_score(
            self.loans_taken,
            self.loans_repaid,
            self.successful_repayments,
            self.defaults,
            self.total_repaid,
            self.total_lent,
        )
        &&& self.credit_tier == spec_credit_tier(self.successful_repayments, self.defaults)
        &&& self.max_borrow_limit == spec_credit_limit(self.successful_repayments, self.defaults)
    }
}

/// Computes the credit tier and maximum borrow limit earned by a history of
/// successful repayments and defaults. Each default costs a fixed penalty
/// off the base limit; the result is floored at the tier-1 minimum, and the
/// tier is read off the adjusted limit.
pub fn calculate_credit_tier(successful_repayments: u32, defaults: u32) -> (r: (u8, u64))
    ensures
        r.0 == spec_credit_tier(successful_repayments, defaults),
        r.1 == spec_credit_limit(successful_repayments, defaults),
        TIER_1_LIMIT <= r.1 <= TIER_5_LIMIT,
        1 <= r.0 <= 5,
{
    let base_limit: u64 = if successful_repayments >= TIER_5_THRESHOLD {
        TIER_5_LIMIT
    } else if successful_repayments >= TIER_4_THRESHOLD {
        TIER_4_LIMIT
    } else if successful_repayments >= TIER_3_THRESHOLD {
        TIER_3_LIMIT
    } else if successful_repayments >= TIER_2_THRESHOLD {
        TIER_2_LIMIT
    } else {
        TIER_1_LIMIT
    };
    let penalty: u64 = match (defaults as u64).checked_mul(DEFAULT_PENALTY) {
        Some(p) => p,
        None => u64::MAX,
    };
    let adjusted: u64 = base_limit.saturating_sub(penalty);
    let final_limit: u64 = if adjusted >= TIER_1_LIMIT {
        adjusted
    } else {
        TIER_1_LIMIT
    };
    let effective_tier: u8 = if final_limit >= TIER_5_LIMIT {
        5
    } else if final_limit >= TIER_4_LIMIT {
        4
    } else if final_limit >= TIER_3_LIMIT {
        3
    } else if final_limit >= TIER_2_LIMIT {
        2
    } else {
        1
    };
    (effective_tier, final_limit)
}

/// The maximum borrow amount for a given history: the limit half of
/// `calculate_credit_tier`.
pub fn calculate_max_borrow(successful_repayments: u32, defaults: u32) -> (limit: u64)
    ensures
        limit == spec_credit_limit(successful_repayments, defaults),
{
    let (_, limit) = calculate_credit_tier(successful_repayments, defaults);
    limit
}

/// The tier after the given one, topping out at tier 5.
pub open spec fn spec_next_tier(current_tier: u8) -> u8 {
    if current_tier == 1 {
        2
    } else if current_tier == 2 {
        3
    } else if current_tier == 3 {
        4
    } else if current_tier == 4 {
        5
    } else if current_tier == 5 {
        5
    } else {
        1
    }
}

/// How many more successful repayments the next tier asks for; zero at the
/// top or when the threshold is already met.
pub open spec fn spec_repayments_to_next_tier(current_tier: u8, successful_repayments: u32) -> u32 {
    let threshold: u32 = if current_tier == 1 {
        TIER_2_THRESHOLD
    } else if current_tier == 2 {
        TIER_3_THRESHOLD
    } else if current_tier == 3 {
        TIER_4_THRESHOLD
    } else if current_tier == 4 {
        TIER_5_THRESHOLD
    } else {
        0
    };
    if threshold >= successful_repayments {
        (threshold - successful_repayments) as u32
    } else {
        0
    }
}

/// Requirements for the next tier up from `current_tier`.
fn get_next_tier_requirements(current_tier: u8, successful_repayments: u32) -> (r: (u8, u32))
    ensures
        r.0 == spec_next_tier(current_tier),
        r.1 == spec_repayments_to_next_tier(current_tier, successful_repayments),
{
    if current_tier == 1 {
        (2, TIER_2_THRESHOLD.saturating_sub(successful_repayments))
    } else if current_tier == 2 {
        (3, TIER_3_THRESHOLD.saturating_sub(successful_repayments))
    } else if current_tier == 3 {
        (4, TIER_4_THRESHOLD.saturating_sub(successful_repayments))
    } else if current_tier == 4 {
        (5, TIER_5_THRESHOLD.saturating_sub(successful_repayments))
    } else if current_tier == 5 {
        (5, 0)
    } else {
        (1, 0)
    }
}

/// Computes the reputation score from a profile's counters: the exact
/// clamp-to-`0..=1000` formula of `spec_score`, evaluated in 64-bit signed
/// arithmetic, which the counter widths can never overflow.
pub fn calculate_score(profile: &AgentProfile) -> (s: u16)
    ensures
        s == spec_score(
            profile.loans_taken,
            profile.loans_repaid,
            profile.successful_repayments,
            profile.defaults,
            profile.total_repaid,
            profile.total_lent,
        ),
{
    let repaid_units: u64 = profile.total_repaid / 1_000_000;
    let lent_units: u64 = profile.total_lent / 10_000_000;
    let open_loans: u32 = profile.loans_taken.saturating_sub(profile.loans_repaid);
    let mut score: i64 = 500;
    score = score + (profile.successful_repayments as i64) * 20;
    score = score + (repaid_units as i64);
    score = score + (lent_units as i64);
    score = score - (profile.defaults as i64) * 100;
    score = score - (open_loans as i64) * 5;
    let clamped: i64 = if score < 0 {
        0
    } else if score > 1000 {
        1000
    } else {
        score
    };
    clamped as u16
}

/// Creates the profile of a newly registered agent: empty history, the base
/// score of 500, tier 1 and its limit.
pub fn register_agent(wallet: u64, now: i64) -> (p: AgentProfile)
    ensures
        p.wf(),
        p == (AgentProfile {
            wallet,
            loans_taken: 0,
            loans_repaid: 0,
            loans_defaulted: 0,
            total_borrowed: 0,
            total_repaid: 0,
            total_lent: 0,
            score: 500,
            successful_repayments: 0,
            defaults: 0,
            credit_tier: 1,
            max_borrow_limit: TIER_1_LIMIT,
            created_at: now,
            updated_at: now,
        }),
{
    AgentProfile {
        wallet,
        loans_taken: 0,
        loans_repaid: 0,
        loans_defaulted: 0,
        total_borrowed: 0,
        total_repaid: 0,
        total_lent: 0,
        score: 500,
        successful_repayments: 0,
        defaults: 0,
        credit_tier: 1,
        max_borrow_limit: TIER_1_LIMIT,
        created_at: now,
        updated_at: now,
    }
}

/// Records a successful repayment of `amount`: the repayment counters grow
/// (saturating), and the tier, limit and score are recomputed in full.
pub fn record_repayment(profile: &mut AgentProfile, amount: u64, now: i64)
    ensures
        final(profile).wf(),
        *final(profile) == (AgentProfile {
            loans_repaid: sat_add_u32(old(profile).loans_repaid, 1),
            total_repaid: sat_add_u64(old(profile).total_repaid, amount),
            successful_repayments: sat_add_u32(old(profile).successful_repayments, 1),
            credit_tier: final(profile).credit_tier,
            max_borrow_limit: final(profile).max_borrow_limit,
            score: final(profile).score,
            updated_at: now,
            ..*old(profile)
        }),
{
    profile.loans_repaid = profile.loans_repaid.saturating_add(1);
    profile.total_repaid = profile.total_repaid.saturating_add(amount);
    profile.successful_repayments = profile.successful_repayments.saturating_add(1);
    let (tier, limit) = calculate_credit_tier(profile.successful_repayments, profile.defaults);
    profile.credit_tier = tier;
    profile.max_borrow_limit = limit;
    profile.score = calculate_score(profile);
    profile.updated_at = now;
}

/// Records a default: the default counters grow (saturating), the penalty
/// takes effect through the recomputed tier and limit, and the score drops.
/// `amount` is the defaulted value, kept for the host's event reporting; it
/// does not enter the derivation.
#[allow(unused_variables)]
pub fn record_default(profile: &mut AgentProfile, amount: u64, now: i64)
    ensures
        final(profile).wf(),
        *final(profile) == (AgentProfile {
            loans_defaulted: sat_add_u32(old(profile).loans_defaulted, 1),
            defaults: sat_add_u32(old(profile).defaults, 1),
            credit_tier: final(profile).credit_tier,
            max_borrow_limit: final(profile).max_borrow_limit,
            score: final(profile).score,
            updated_at: now,
            ..*old(profile)
        }),
{
    profile.loans_defaulted = profile.loans_defaulted.saturating_add(1);
    profile.defaults = profile.defaults.saturating_add(1);
    let (tier, limit) = calculate_credit_tier(profile.successful_repayments, profile.defaults);
    profile.credit_tier = tier;
    profile.max_borrow_limit = limit;
    profile.score = calculate_score(profile);
    profile.updated_at = now;
}

/// Records lending activity: the lent total grows (saturating) and the
/// score is recomputed — a lender's score benefits from value lent.
pub fn record_lending(profile: &mut AgentProfile, amount: u64, now: i64)
    requires
        old(profile).wf(),
    ensures
        final(profile).wf(),
        *final(profile) == (AgentProfile {
            total_lent: sat_add_u64(old(profile).total_lent, amount),
            score: final(profile).score,
            updated_at: now,
            ..*old(profile)
        }),
{
    profile.total_lent = profile.total_lent.saturating_add(amount);
    profile.score = calculate_score(profile);
    profile.updated_at = now;
}

/// Records a loan being taken: the open-loan counters grow (saturating) and
/// the score is recomputed — an open loan weighs on the score until repaid.
pub fn record_loan_taken(profile: &mut AgentProfile, amount: u64, now: i64)
    requires
        old(profile).wf(),
    ensures
        final(profile).wf(),
        *final(profile) == (AgentProfile {
            loans_taken: sat_add_u32(old(profile).loans_taken, 1),
            total_borrowed: sat_add_u64(old(profile).total_borrowed, amount),
            score: final(profile).score,
            updated_at: now,
            ..*old(profile)
        }),
{
    profile.loans_taken = profile.loans_taken.saturating_add(1);
    profile.total_borrowed = profile.total_borrowed.saturating_add(amount);
    profile.score = calculate_score(profile);
    profile.updated_at = now;
}

/// Reads the current reputation score.
pub fn get_score(profile: &AgentProfile) -> (s: u16)
    ensures
        s == profile.score,
{
    profile.score
}

/// Reads the current maximum borrow limit.
pub fn get_max_borrow(profile: &AgentProfile) -> (limit: u64)
    ensures
        limit == profile.max_borrow_limit,
{
    profile.max_borrow_limit
}

/// A read-only snapshot of an agent's credit standing and what the next
/// tier asks of it.
pub struct CreditTierInfo {
    pub current_tier: u8,
    pub max_borrow_limit: u64,
    pub successful_repayments: u32,
    pub defaults: u32,
    pub next_tier: u8,
    pub repayments_to_next_tier: u32,
}

/// Reads the agent's tier standing, with the next tier and the repayments
/// still needed to reach it.
pub fn get_credit_tier_info(profile: &AgentProfile) -> (info: CreditTierInfo)
    ensures
        info.current_tier == profile.credit_tier,
        info.max_borrow_limit == profile.max_borrow_limit,
        info.successful_repayments == profile.successful_repayments,
        info.defaults == profile.defaults,
        info.next_tier == spec_next_tier(profile.credit_tier),
        info.repayments_to_next_tier == spec_repayments_to_next_tier(
            profile.credit_tier,
            profile.successful_repayments,
        ),
{
    let (next_tier, repayments_needed) = get_next_tier_requirements(
        profile.credit_tier,
        profile.successful_repayments,
    );
    CreditTierInfo {
        current_tier: profile.credit_tier,
        max_borrow_limit: profile.max_borrow_limit,
        successful_repayments: profile.successful_repayments,
        defaults: profile.defaults,
        next_tier,
        repayments_to_next_tier: repayments_needed,
    }
}

/// With no defaults, the credit tier never decreases as the repayment count
/// grows across the thresholds.
pub proof fn lemma_tier_monotonic(reps1: u32, reps2: u32)
    requires
        reps1 <= reps2,
    ensures
        spec_credit_tier(reps1, 0) <= spec_credit_tier(reps2, 0),
{
}

/// The effective credit limit is always within its designed band: at least
/// the tier-1 floor, at most the tier-5 limit — a penalty can never push it
/// negative or below the floor — and the tier always lands in 1..=5.
pub proof fn lemma_limit_bounds(reps: u32, defaults: u32)
    ensures
        TIER_1_LIMIT <= spec_credit_limit(reps, defaults) <= TIER_5_LIMIT,
        1 <= spec_credit_tier(reps, defaults) <= 5,
{
}

} // verus!
