use vstd::prelude::*;

use crate::vesting::VestingSchedule;

verus! {

/// Smallest-unit count of one whole native coin (9 decimals).
pub const LAMPORTS_PER_SOL: u64 = 1_000_000_000;

/// Smallest-unit count of one whole project token (9 decimals).
pub const TOKEN_UNIT: u64 = 1_000_000_000;

/// Per-transaction cap: $10,000 in 6-decimal USD units.
pub const MAX_TRANSACTION_USD: u64 = 10_000 * 1_000_000;

/// Purchases above $5,000 (6-decimal USD units) require a verified KYC flag.
pub const KYC_THRESHOLD_USD: u64 = 5_000 * 1_000_000;

/// Minimum spacing between two successful purchases by the same buyer.
pub const RATE_LIMIT_SECONDS: i64 = 300;

pub const SECONDS_30_DAYS: i64 = 30 * 24 * 60 * 60;
pub const SECONDS_60_DAYS: i64 = 60 * 24 * 60 * 60;
pub const SECONDS_90_DAYS: i64 = 90 * 24 * 60 * 60;

/// The emergency-withdraw time lock set at initialization: 30 days.
pub const WITHDRAW_LOCK_SECONDS: i64 = 30 * 24 * 60 * 60;

/// Token allocation of each round: 100 million whole tokens in 9-decimal
/// smallest units.
pub const ROUND_ALLOCATION: u64 = 100_000_000 * 1_000_000_000;

/// Upper bound on every timestamp, cliff and duration the core stores
/// (about a quarter of `i64::MAX` seconds). Keeping all times under this
/// bound lets every sum of two time values fit in an `i64`.
pub const MAX_TIME: i64 = 0x3fff_ffff_ffff_ffff;

/// The three presale rounds, in chronological order.
#[derive(Clone, Copy, Debug, PartialEq, Eq, Structural)]
pub enum Round {
    Private,
    Presale1,
    Presale2,
}

/// Accepted payment methods; the price-feed table has one entry per method.
#[derive(Clone, Copy, Debug, PartialEq, Eq, Structural)]
pub enum PaymentMethod {
    Eth,
    Usdt,
    Usdc,
    Sol,
}

/// Configuration and running totals of one round.
#[derive(Clone, Copy, Debug, PartialEq, Eq, Structural)]
pub struct RoundConfig {
    /// 6-decimal USD units per whole project token.
    pub price: u64,
    /// Additive bonus percent applied to the base token amount.
    pub bonus: u8,
    /// Token smallest units offered in this round.
    pub allocation: u64,
    /// Token smallest units sold so far in this round.
    pub sold: u64,
    pub start_time: i64,
    pub end_time: i64,
    pub vesting_cliff: i64,
    pub vesting_duration: i64,
    /// Percent of a purchase claimable immediately, even during the cliff.
    pub immediate_release: u8,
    pub requires_whitelist: bool,
}

impl RoundConfig {
    pub open spec fn wf(self) -> bool {
        &&& self.price > 0
        &&& self.bonus <= 100
        &&& self.immediate_release <= 100
        &&& self.sold <= self.allocation
        &&& 0 <= self.start_time <= self.end_time <= MAX_TIME
        &&& 0 <= self.vesting_cliff <= MAX_TIME
        &&& 0 <= self.vesting_duration <= MAX_TIME
    }
}

/// Per-buyer ledger entry.
#[derive(Clone, Copy, Debug, PartialEq, Eq, Structural)]
pub struct BuyerState {
    /// Principal that owns this entry (an opaque, host-authenticated id).
    pub owner: u64,
    /// Cumulative 6-decimal USD invested; zeroed by a refund.
    pub total_invested_usd: u64,
    /// Time of the most recent successful purchase; 0 before any.
    pub last_purchase_time: i64,
    pub purchase_count: u16,
    pub whitelisted: bool,
    pub kyc_verified: bool,
    /// Aggregated vesting schedule across all of this buyer's purchases.
    pub vesting_schedule: VestingSchedule,
}

impl BuyerState {
    pub open spec fn wf(self) -> bool {
        &&& 0 <= self.last_purchase_time <= MAX_TIME
        &&& self.vesting_schedule.wf()
    }

    /// The zero-valued entry materialized for a buyer seen for the first
    /// time.
    pub fn new(owner: u64) -> (b: BuyerState)
        ensures
            b.wf(),
            b.owner == owner,
            b.total_invested_usd == 0,
            b.last_purchase_time == 0,
            b.purchase_count == 0,
            !b.whitelisted,
            !b.kyc_verified,
            b.vesting_schedule == VestingSchedule::empty(),
    {
        BuyerState {
            owner,
            total_invested_usd: 0,
            last_purchase_time: 0,
            purchase_count: 0,
            whitelisted: false,
            kyc_verified: false,
            vesting_schedule: VestingSchedule {
                total_amount: 0,
                released_amount: 0,
                start_time: 0,
                cliff: 0,
                duration: 0,
                immediate_release: 0,
            },
        }
    }
}

/// The presale aggregate: caps, totals, lifecycle flags, the three rounds
/// and the price-feed table.
#[derive(Clone, Copy, Debug)]
pub struct Presale {
    /// Administrative principal (host-authenticated).
    pub authority: u64,
    /// Opaque identifier of the token being sold.
    pub hype_mint: u64,
    pub soft_cap: u64,
    pub hard_cap: u64,
    /// 6-decimal USD raised so far; never decreases.
    pub total_raised: u64,
    pub soft_cap_reached: bool,
    pub finalized: bool,
    pub current_round: Round,
    pub round_private: RoundConfig,
    pub round_presale1: RoundConfig,
    pub round_presale2: RoundConfig,
    /// 6-decimal USD price per unit of each payment method; 0 means unset.
    pub price_feed_eth: u64,
    pub price_feed_usdt: u64,
    pub price_feed_usdc: u64,
    pub price_feed_sol: u64,
    /// Recorded multisig owners; informational for this core.
    pub multisig_owners: [u64; 3],
    /// Emergency withdrawal is refused before this time.
    pub withdraw_lock_time: i64,
}

impl Presale {
    pub open spec fn spec_round(self, r: Round) -> RoundConfig {
        match r {
            Round::Private => self.round_private,
            Round::Presale1 => self.round_presale1,
            Round::Presale2 => self.round_presale2,
        }
    }

    /// The configuration of round `r`.
    pub fn round(&self, r: Round) -> (rc: RoundConfig)
        ensures
            rc == self.spec_round(r),
    {
        match r {
            Round::Private => self.round_private,
            Round::Presale1 => self.round_presale1,
            Round::Presale2 => self.round_presale2,
        }
    }

    pub open spec fn spec_price_feed(self, m: PaymentMethod) -> u64 {
        match m {
            PaymentMethod::Eth => self.price_feed_eth,
            PaymentMethod::Usdt => self.price_feed_usdt,
            PaymentMethod::Usdc => self.price_feed_usdc,
            PaymentMethod::Sol => self.price_feed_sol,
        }
    }

    /// The recorded USD price of one unit of `m`; 0 means unset.
    pub fn price_feed(&self, m: PaymentMethod) -> (p: u64)
        ensures
            p == self.spec_price_feed(m),
    {
        match m {
            PaymentMethod::Eth => self.price_feed_eth,
            PaymentMethod::Usdt => self.price_feed_usdt,
            PaymentMethod::Usdc => self.price_feed_usdc,
            PaymentMethod::Sol => self.price_feed_sol,
        }
    }

    pub open spec fn wf(self) -> bool {
        &&& self.soft_cap <= self.hard_cap
        &&& self.total_raised <= self.hard_cap
        &&& (self.soft_cap_reached ==> self.total_raised >= self.soft_cap)
        &&& self.round_private.wf()
        &&& self.round_presale1.wf()
        &&& self.round_presale2.wf()
        &&& 0 <= self.withdraw_lock_time <= MAX_TIME
    }
}

/// Sum of the recorded investments over a ledger of buyer entries.
pub open spec fn spec_sum_invested(buyers: Seq<BuyerState>) -> int
    decreases buyers.len(),
{
    if buyers.len() == 0 {
        0
    } else {
        buyers[0].total_invested_usd + spec_sum_invested(buyers.drop_first())
    }
}

/// Sum of a sequence of paid-out amounts.
pub open spec fn spec_sum_amounts(amounts: Seq<u64>) -> int
    decreases amounts.len(),
{
    if amounts.len() == 0 {
        0
    } else {
        amounts[0] + spec_sum_amounts(amounts.drop_first())
    }
}

/// Refund solvency: `refund` pays each buyer exactly the investment their
/// entry records and then zeroes it, so paying every buyer of a ledger
/// once pays out, in sum, exactly the total recorded at finalization.
pub proof fn lemma_refund_solvency(buyers: Seq<BuyerState>, refunds: Seq<u64>)
    requires
        refunds.len() == buyers.len(),
        forall|i: int| 0 <= i < buyers.len() ==> refunds[i] == buyers[i].total_invested_usd,
    ensures
        spec_sum_amounts(refunds) == spec_sum_invested(buyers),
    decreases buyers.len(),
{
    if buyers.len() > 0 {
        assert forall|i: int| 0 <= i < buyers.drop_first().len() implies refunds.drop_first()[i]
            == buyers.drop_first()[i].total_invested_usd by {
            assert(refunds.drop_first()[i] == refunds[i + 1]);
            assert(buyers.drop_first()[i] == buyers[i + 1]);
        }
        lemma_refund_solvency(buyers.drop_first(), refunds.drop_first());
    }
}

/// Total raised never exceeds the hard cap in any well-formed state.
/// `initialize` establishes well-formedness and every operation preserves
/// it, so the bound holds along every execution trace.
pub proof fn lemma_raised_within_hard_cap(p: Presale)
    requires
        p.wf(),
    ensures
        p.total_raised <= p.hard_cap,
{
}

/// No round ever sells past its allocation in any well-formed state.
/// `initialize` establishes well-formedness and every operation preserves
/// it, so the bound holds for every round along every execution trace.
pub proof fn lemma_sold_within_allocation(p: Presale, r: Round)
    requires
        p.wf(),
    ensures
        p.spec_round(r).sold <= p.spec_round(r).allocation,
{
}

} // verus!
