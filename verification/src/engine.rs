use vstd::prelude::*;

use crate::errors::PresaleError;
use crate::events::Event;
use crate::events::EmergencyWithdrawEvent;
use crate::events::KycVerifiedEvent;
use crate::events::PresaleFinalizedEvent;
use crate::events::PriceFeedUpdatedEvent;
use crate::events::RefundIssuedEvent;
use crate::events::SoftCapReachedEvent;
use crate::events::TokensClaimedEvent;
use crate::events::TokensPurchasedEvent;
use crate::events::WhitelistUpdatedEvent;
use crate::math::calculate_token_amount;
use crate::math::sol_to_usd;
use crate::math::spec_sol_to_usd;
use crate::math::spec_token_amount;
use crate::state::BuyerState;
use crate::state::PaymentMethod;
use crate::state::Presale;
use crate::state::Round;
use crate::state::RoundConfig;
use crate::state::KYC_THRESHOLD_USD;
use crate::state::MAX_TIME;
use crate::state::MAX_TRANSACTION_USD;
use crate::state::RATE_LIMIT_SECONDS;
use crate::state::ROUND_ALLOCATION;
use crate::state::SECONDS_30_DAYS;
use crate::state::SECONDS_60_DAYS;
use crate::state::SECONDS_90_DAYS;
use crate::state::WITHDRAW_LOCK_SECONDS;
use crate::vesting::calculate_claimable;
use crate::vesting::lemma_immediate_bounds;
use crate::vesting::lemma_vested_bounds;
use crate::vesting::spec_claimable;
use crate::vesting::spec_vested;
use crate::vesting::VestingSchedule;

verus! {

/// Creates the presale aggregate at time `now`: caps and principals
/// recorded, nothing raised, no flag latched, the current round set to
/// Private, the price feeds unset, the emergency-withdraw lock set 30 days
/// out, and the three rounds written with their fixed contract parameters.
pub fn initialize(
    authority: u64,
    hype_mint: u64,
    soft_cap: u64,
    hard_cap: u64,
    multisig_owners: [u64; 3],
    now: i64,
) -> (p: Presale)
    requires
        soft_cap <= hard_cap,
        0 <= now,
        now + SECONDS_90_DAYS <= MAX_TIME,
    ensures
        p.wf(),
        p.authority == authority,
        p.hype_mint == hype_mint,
        p.soft_cap == soft_cap,
        p.hard_cap == hard_cap,
        p.total_raised == 0,
        !p.soft_cap_reached,
        !p.finalized,
        p.current_round == Round::Private,
        p.multisig_owners == multisig_owners,
        p.withdraw_lock_time == now + WITHDRAW_LOCK_SECONDS,
        p.price_feed_eth == 0 && p.price_feed_usdt == 0 && p.price_feed_usdc == 0
            && p.price_feed_sol == 0,
        p.round_private == (RoundConfig {
            price: 10_000,
            bonus: 20,
            allocation: ROUND_ALLOCATION,
            sold: 0,
            start_time: now,
            end_time: (now + SECONDS_30_DAYS) as i64,
            vesting_cliff: 0,
            vesting_duration: SECONDS_90_DAYS,
            immediate_release: 25,
            requires_whitelist: true,
        }),
        p.round_presale1 == (RoundConfig {
            price: 15_000,
            bonus: 10,
            allocation: ROUND_ALLOCATION,
            sold: 0,
            start_time: (now + SECONDS_30_DAYS) as i64,
            end_time: (now + SECONDS_60_DAYS) as i64,
            vesting_cliff: 0,
            vesting_duration: SECONDS_30_DAYS,
            immediate_release: 50,
            requires_whitelist: false,
        }),
        p.round_presale2 == (RoundConfig {
            price: 20_000,
            bonus: 0,
            allocation: ROUND_ALLOCATION,
            sold: 0,
            start_time: (now + SECONDS_60_DAYS) as i64,
            end_time: (now + SECONDS_90_DAYS) as i64,
            vesting_cliff: 0,
            vesting_duration: 0,
            immediate_release: 100,
            requires_whitelist: false,
        }),
{
    Presale {
        authority,
        hype_mint,
        soft_cap,
        hard_cap,
        total_raised: 0,
        soft_cap_reached: false,
        finalized: false,
        current_round: Round::Private,
        round_private: RoundConfig {
            price: 10_000,
            bonus: 20,
            allocation: ROUND_ALLOCATION,
            sold: 0,
            start_time: now,
            end_time: now + SECONDS_30_DAYS,
            vesting_cliff: 0,
            vesting_duration: SECONDS_90_DAYS,
            immediate_release: 25,
            requires_whitelist: true,
        },
        round_presale1: RoundConfig {
            price: 15_000,
            bonus: 10,
            allocation: ROUND_ALLOCATION,
            sold: 0,
            start_time: now + SECONDS_30_DAYS,
            end_time: now + SECONDS_60_DAYS,
            vesting_cliff: 0,
            vesting_duration: SECONDS_30_DAYS,
            immediate_release: 50,
            requires_whitelist: false,
        },
        round_presale2: RoundConfig {
            price: 20_000,
            bonus: 0,
            allocation: ROUND_ALLOCATION,
            sold: 0,
            start_time: now + SECONDS_60_DAYS,
            end_time: now + SECONDS_90_DAYS,
            vesting_cliff: 0,
            vesting_duration: 0,
            immediate_release: 100,
            requires_whitelist: false,
        },
        price_feed_eth: 0,
        price_feed_usdt: 0,
        price_feed_usdc: 0,
        price_feed_sol: 0,
        multisig_owners,
        withdraw_lock_time: now + WITHDRAW_LOCK_SECONDS,
    }
}

/// The guards every purchase runs first, in order: lifecycle, round window,
/// whitelist, rate limit. `None` means all passed.
pub open spec fn spec_common_guard(p: Presale, b: BuyerState, now: i64) -> Option<PresaleError> {
    let rc = p.spec_round(p.current_round);
    if p.finalized {
        Some(PresaleError::PresaleFinalized)
    } else if now < rc.start_time {
        Some(PresaleError::RoundNotStarted)
    } else if now > rc.end_time {
        Some(PresaleError::RoundEnded)
    } else if rc.requires_whitelist && !b.whitelisted {
        Some(PresaleError::NotWhitelisted)
    } else if now < b.last_purchase_time + RATE_LIMIT_SECONDS {
        Some(PresaleError::RateLimitExceeded)
    } else {
        None
    }
}

/// The guards run once the purchase's USD value is known, in order:
/// per-transaction cap, KYC threshold, token-amount overflow, round
/// allocation, hard cap, and the bookkeeping fields that the purchase would
/// overflow. `None` means the purchase goes through.
pub open spec fn spec_purchase_guard(p: Presale, b: BuyerState, usd: u64, now: i64) -> Option<
    PresaleError,
> {
    let rc = p.spec_round(p.current_round);
    let tokens = spec_token_amount(usd, rc);
    if usd > MAX_TRANSACTION_USD {
        Some(PresaleError::ExceedsMaxTransaction)
    } else if usd > KYC_THRESHOLD_USD && !b.kyc_verified {
        Some(PresaleError::KycRequired)
    } else if tokens > u64::MAX {
        Some(PresaleError::Overflow)
    } else if rc.sold + tokens > rc.allocation {
        Some(PresaleError::ExceedsRoundAllocation)
    } else if p.total_raised + usd > p.hard_cap {
        Some(PresaleError::ExceedsHardCap)
    } else if b.purchase_count == u16::MAX {
        Some(PresaleError::Overflow)
    } else if b.total_invested_usd + usd > u64::MAX {
        Some(PresaleError::Overflow)
    } else if b.vesting_schedule.total_amount != 0 && b.vesting_schedule.total_amount + tokens
        > u64::MAX {
        Some(PresaleError::Overflow)
    } else {
        None
    }
}

/// Why a native-coin purchase fails, or `None` if it succeeds: the common
/// guards, then the price feed and the USD conversion, then the USD guards.
pub open spec fn spec_buy_sol_error(p: Presale, b: BuyerState, sol_amount: u64, now: i64) -> Option<
    PresaleError,
> {
    if spec_common_guard(p, b, now) is Some {
        spec_common_guard(p, b, now)
    } else if p.price_feed_sol == 0 {
        Some(PresaleError::PriceFeedNotSet)
    } else if spec_sol_to_usd(sol_amount, p.price_feed_sol) > u64::MAX {
        Some(PresaleError::Overflow)
    } else {
        spec_purchase_guard(p, b, spec_sol_to_usd(sol_amount, p.price_feed_sol) as u64, now)
    }
}

/// Why a USDC purchase fails, or `None` if it succeeds. USDC shares the
/// 6-decimal USD scale, so the amount passes through unconverted.
pub open spec fn spec_buy_usdc_error(p: Presale, b: BuyerState, usdc_amount: u64, now: i64) -> Option<
    PresaleError,
> {
    if spec_common_guard(p, b, now) is Some {
        spec_common_guard(p, b, now)
    } else {
        spec_purchase_guard(p, b, usdc_amount, now)
    }
}

pub open spec fn spec_set_round(p: Presale, r: Round, rc: RoundConfig) -> Presale {
    match r {
        Round::Private => Presale { round_private: rc, ..p },
        Round::Presale1 => Presale { round_presale1: rc, ..p },
        Round::Presale2 => Presale { round_presale2: rc, ..p },
    }
}

/// Whether a successful purchase of `usd` latches the soft-cap flag.
pub open spec fn spec_latches_soft_cap(p: Presale, usd: u64) -> bool {
    !p.soft_cap_reached && p.total_raised + usd >= p.soft_cap
}

/// The presale aggregate after a successful purchase: the current round's
/// sold count and the total raised grow, and the soft-cap flag latches if
/// the new total reaches the soft cap.
pub open spec fn spec_apply_purchase_presale(p: Presale, usd: u64, tokens: u64) -> Presale {
    let rc = p.spec_round(p.current_round);
    let p1 = spec_set_round(p, p.current_round, RoundConfig { sold: (rc.sold + tokens) as u64, ..rc });
    Presale {
        total_raised: (p.total_raised + usd) as u64,
        soft_cap_reached: p.soft_cap_reached || p.total_raised + usd >= p.soft_cap,
        ..p1
    }
}

/// The buyer's ledger entry after a successful purchase: investment, time
/// and count updated, and the vesting schedule created on the first
/// purchase (with the round's terms) or grown on later ones (keeping the
/// first purchase's clock).
pub open spec fn spec_apply_purchase_buyer(
    b: BuyerState,
    rc: RoundConfig,
    usd: u64,
    tokens: u64,
    now: i64,
) -> BuyerState {
    BuyerState {
        total_invested_usd: (b.total_invested_usd + usd) as u64,
        last_purchase_time: now,
        purchase_count: (b.purchase_count + 1) as u16,
        vesting_schedule: if b.vesting_schedule.total_amount == 0 {
            VestingSchedule {
                total_amount: tokens,
                released_amount: 0,
                start_time: now,
                cliff: rc.vesting_cliff,
                duration: rc.vesting_duration,
                immediate_release: rc.immediate_release,
            }
        } else {
            VestingSchedule {
                total_amount: (b.vesting_schedule.total_amount + tokens) as u64,
                ..b.vesting_schedule
            }
        },
        ..b
    }
}

pub open spec fn spec_soft_cap_event(p: Presale, usd: u64, now: i64) -> Event {
    Event::SoftCapReached(
        SoftCapReachedEvent { amount: (p.total_raised + usd) as u64, timestamp: now },
    )
}

pub open spec fn spec_purchased_event(
    p: Presale,
    buyer: u64,
    tokens: u64,
    method: PaymentMethod,
    now: i64,
) -> Event {
    Event::TokensPurchased(
        TokensPurchasedEvent {
            buyer,
            amount: tokens,
            price: p.spec_round(p.current_round).price,
            payment_method: method,
            round: p.current_round,
            timestamp: now,
        },
    )
}

/// What holds after a successful purchase: the token amount is the priced
/// amount plus bonus, both state aggregates are updated as one step, and
/// the soft-cap event precedes nothing but the purchase event.
pub open spec fn spec_buy_ok_post(
    p0: Presale,
    b0: BuyerState,
    p1: Presale,
    b1: BuyerState,
    ev0: Seq<Event>,
    ev1: Seq<Event>,
    buyer: u64,
    usd: u64,
    tokens: u64,
    method: PaymentMethod,
    now: i64,
) -> bool {
    let rc = p0.spec_round(p0.current_round);
    &&& tokens == spec_token_amount(usd, rc)
    &&& p1 == spec_apply_purchase_presale(p0, usd, tokens)
    &&& b1 == spec_apply_purchase_buyer(b0, rc, usd, tokens, now)
    &&& (spec_latches_soft_cap(p0, usd) ==> ev1 == ev0.push(spec_soft_cap_event(p0, usd, now)).push(
        spec_purchased_event(p0, buyer, tokens, method, now),
    ))
    &&& (!spec_latches_soft_cap(p0, usd) ==> ev1 == ev0.push(
        spec_purchased_event(p0, buyer, tokens, method, now),
    ))
}

/// Applies the bookkeeping of an admitted purchase atomically: round sold
/// count, total raised, the buyer's investment, purchase time and count,
/// the vesting schedule, and the soft-cap latch with its event. Callers
/// have already validated every guard, so nothing here can fail.
pub fn process_purchase(
    presale: &mut Presale,
    buyer_state: &mut BuyerState,
    token_amount: u64,
    usd_amount: u64,
    current_time: i64,
    events: &mut Vec<Event>,
)
    requires
        old(presale).wf(),
        old(buyer_state).wf(),
        old(presale).spec_round(old(presale).current_round).sold + token_amount <= old(presale).spec_round(old(presale).current_round).allocation,
        old(presale).total_raised + usd_amount <= old(presale).hard_cap,
        old(buyer_state).purchase_count < u16::MAX,
        old(buyer_state).total_invested_usd + usd_amount <= u64::MAX,
        old(buyer_state).vesting_schedule.total_amount != 0 ==> old(buyer_state).vesting_schedule.total_amount + token_amount <= u64::MAX,
        0 <= current_time <= MAX_TIME,
    ensures
        final(presale).wf(),
        final(buyer_state).wf(),
        *final(presale) == spec_apply_purchase_presale(*old(presale), usd_amount, token_amount),
        *final(buyer_state) == spec_apply_purchase_buyer(
            *old(buyer_state),
            old(presale).spec_round(old(presale).current_round),
            usd_amount,
            token_amount,
            current_time,
        ),
        spec_latches_soft_cap(*old(presale), usd_amount) ==> final(events)@ == old(events)@.push(
            spec_soft_cap_event(*old(presale), usd_amount, current_time),
        ),
        !spec_latches_soft_cap(*old(presale), usd_amount) ==> final(events)@ == old(events)@,
        // The soft-cap flag latches: this step can only set it, never
        // clear it.
        old(presale).soft_cap_reached ==> final(presale).soft_cap_reached,
{
    let cur = presale.current_round;
    match cur {
        Round::Private => {
            presale.round_private.sold = presale.round_private.sold + token_amount;
        },
        Round::Presale1 => {
            presale.round_presale1.sold = presale.round_presale1.sold + token_amount;
        },
        Round::Presale2 => {
            presale.round_presale2.sold = presale.round_presale2.sold + token_amount;
        },
    }
    presale.total_raised = presale.total_raised + usd_amount;

    buyer_state.total_invested_usd = buyer_state.total_invested_usd + usd_amount;
    buyer_state.last_purchase_time = current_time;
    buyer_state.purchase_count = buyer_state.purchase_count + 1;

    let rc = presale.round(cur);
    if buyer_state.vesting_schedule.total_amount == 0 {
        buyer_state.vesting_schedule = VestingSchedule {
            total_amount: token_amount,
            released_amount: 0,
            start_time: current_time,
            cliff: rc.vesting_cliff,
            duration: rc.vesting_duration,
            immediate_release: rc.immediate_release,
        };
    } else {
        buyer_state.vesting_schedule.total_amount = buyer_state.vesting_schedule.total_amount
            + token_amount;
    }

    if !presale.soft_cap_reached && presale.total_raised >= presale.soft_cap {
        presale.soft_cap_reached = true;
        events.push(
            Event::SoftCapReached(
                SoftCapReachedEvent { amount: presale.total_raised, timestamp: current_time },
            ),
        );
    }
}

/// A purchase paid in the native coin. All guards are validated before any
/// state mutation; on failure the state and the event sink are untouched
/// and the error names the first guard that failed. On success the returned
/// token amount (base plus bonus) is booked into the current round and the
/// buyer's vesting schedule, and the purchase event is emitted, preceded by
/// the soft-cap event exactly when this purchase latches the flag. The
/// inbound coin transfer itself is the host's to perform.
pub fn buy_tokens_sol(
    presale: &mut Presale,
    buyer_state: &mut BuyerState,
    buyer: u64,
    sol_amount: u64,
    now: i64,
    events: &mut Vec<Event>,
) -> (r: Result<u64, PresaleError>)
    requires
        old(presale).wf(),
        old(buyer_state).wf(),
    ensures
        final(presale).wf(),
        final(buyer_state).wf(),
        r is Ok <==> spec_buy_sol_error(*old(presale), *old(buyer_state), sol_amount, now)
            is None,
        r matches Err(e) ==> Some(e) == spec_buy_sol_error(
            *old(presale),
            *old(buyer_state),
            sol_amount,
            now,
        ) && *final(presale) == *old(presale) && *final(buyer_state) == *old(buyer_state) && final(events)@ == old(events)@,
        r matches Ok(tokens) ==> spec_buy_ok_post(
            *old(presale),
            *old(buyer_state),
            *final(presale),
            *final(buyer_state),
            old(events)@,
            final(events)@,
            buyer,
            spec_sol_to_usd(sol_amount, old(presale).price_feed_sol) as u64,
            tokens,
            PaymentMethod::Sol,
            now,
        ),
        // KYC gate: a successful purchase above the threshold implies the
        // flag was set at purchase time.
        r is Ok && spec_sol_to_usd(sol_amount, old(presale).price_feed_sol) > KYC_THRESHOLD_USD
            ==> old(buyer_state).kyc_verified,
        // Rate limit: a successful purchase is at least the minimum spacing
        // after the buyer's previous one, and records its own time.
        r is Ok ==> now >= old(buyer_state).last_purchase_time + RATE_LIMIT_SECONDS && final(buyer_state).last_purchase_time == now,
        // The soft-cap and finalization flags latch.
        old(presale).soft_cap_reached ==> final(presale).soft_cap_reached,
        final(presale).finalized == old(presale).finalized,
{
    if presale.finalized {
        return Err(PresaleError::PresaleFinalized);
    }
    let cur = presale.current_round;
    let rc = presale.round(cur);
    if now < rc.start_time {
        return Err(PresaleError::RoundNotStarted);
    }
    if now > rc.end_time {
        return Err(PresaleError::RoundEnded);
    }
    if rc.requires_whitelist && !buyer_state.whitelisted {
        return Err(PresaleError::NotWhitelisted);
    }
    if now < buyer_state.last_purchase_time + RATE_LIMIT_SECONDS {
        return Err(PresaleError::RateLimitExceeded);
    }
    let sol_price = presale.price_feed_sol;
    if sol_price == 0 {
        return Err(PresaleError::PriceFeedNotSet);
    }
    let usd_amount = match sol_to_usd(sol_amount, sol_price) {
        Ok(usd) => usd,
        Err(e) => {
            return Err(e);
        },
    };
    match purchase_with_usd(presale, buyer_state, buyer, usd_amount, PaymentMethod::Sol, now, events)
    {
        Ok(tokens) => Ok(tokens),
        Err(e) => Err(e),
    }
}

/// A purchase paid in USDC, which shares the 6-decimal USD scale and so
/// passes through unconverted. Guards, bookkeeping and events are as for
/// the native-coin path, without the price-feed step; the inbound token
/// transfer itself is the host's to perform.
pub fn buy_tokens_usdc(
    presale: &mut Presale,
    buyer_state: &mut BuyerState,
    buyer: u64,
    usdc_amount: u64,
    now: i64,
    events: &mut Vec<Event>,
) -> (r: Result<u64, PresaleError>)
    requires
        old(presale).wf(),
        old(buyer_state).wf(),
    ensures
        final(presale).wf(),
        final(buyer_state).wf(),
        r is Ok <==> spec_buy_usdc_error(*old(presale), *old(buyer_state), usdc_amount, now)
            is None,
        r matches Err(e) ==> Some(e) == spec_buy_usdc_error(
            *old(presale),
            *old(buyer_state),
            usdc_amount,
            now,
        ) && *final(presale) == *old(presale) && *final(buyer_state) == *old(buyer_state) && final(events)@ == old(events)@,
        r matches Ok(tokens) ==> spec_buy_ok_post(
            *old(presale),
            *old(buyer_state),
            *final(presale),
            *final(buyer_state),
            old(events)@,
            final(events)@,
            buyer,
            usdc_amount,
            tokens,
            PaymentMethod::Usdc,
            now,
        ),
        // KYC gate: a successful purchase above the threshold implies the
        // flag was set at purchase time.
        r is Ok && usdc_amount > KYC_THRESHOLD_USD ==> old(buyer_state).kyc_verified,
        // Rate limit: a successful purchase is at least the minimum spacing
        // after the buyer's previous one, and records its own time.
        r is Ok ==> now >= old(buyer_state).last_purchase_time + RATE_LIMIT_SECONDS && final(buyer_state).last_purchase_time == now,
        // The soft-cap and finalization flags latch.
        old(presale).soft_cap_reached ==> final(presale).soft_cap_reached,
        final(presale).finalized == old(presale).finalized,
{
    if presale.finalized {
        return Err(PresaleError::PresaleFinalized);
    }
    let cur = presale.current_round;
    let rc = presale.round(cur);
    if now < rc.start_time {
        return Err(PresaleError::RoundNotStarted);
    }
    if now > rc.end_time {
        return Err(PresaleError::RoundEnded);
    }
    if rc.requires_whitelist && !buyer_state.whitelisted {
        return Err(PresaleError::NotWhitelisted);
    }
    if now < buyer_state.last_purchase_time + RATE_LIMIT_SECONDS {
        return Err(PresaleError::RateLimitExceeded);
    }
    match purchase_with_usd(
        presale,
        buyer_state,
        buyer,
        usdc_amount,
        PaymentMethod::Usdc,
        now,
        events,
    ) {
        Ok(tokens) => Ok(tokens),
        Err(e) => Err(e),
    }
}

/// The shared tail of both purchase paths, from a known USD value on: the
/// USD guards, the token-amount computation, the atomic bookkeeping and the
/// purchase event.
fn purchase_with_usd(
    presale: &mut Presale,
    buyer_state: &mut BuyerState,
    buyer: u64,
    usd_amount: u64,
    method: PaymentMethod,
    now: i64,
    events: &mut Vec<Event>,
) -> (r: Result<u64, PresaleError>)
    requires
        old(presale).wf(),
        old(buyer_state).wf(),
        !old(presale).finalized,
        old(presale).spec_round(old(presale).current_round).start_time <= now <= old(presale).spec_round(old(presale).current_round).end_time,
    ensures
        final(presale).wf(),
        final(buyer_state).wf(),
        r is Ok <==> spec_purchase_guard(*old(presale), *old(buyer_state), usd_amount, now)
            is None,
        r matches Err(e) ==> Some(e) == spec_purchase_guard(
            *old(presale),
            *old(buyer_state),
            usd_amount,
            now,
        ) && *final(presale) == *old(presale) && *final(buyer_state) == *old(buyer_state) && final(events)@ == old(events)@,
        r matches Ok(tokens) ==> spec_buy_ok_post(
            *old(presale),
            *old(buyer_state),
            *final(presale),
            *final(buyer_state),
            old(events)@,
            final(events)@,
            buyer,
            usd_amount,
            tokens,
            method,
            now,
        ),
        r is Ok ==> final(buyer_state).last_purchase_time == now,
        old(presale).soft_cap_reached ==> final(presale).soft_cap_reached,
        final(presale).finalized == old(presale).finalized,
{
    let cur = presale.current_round;
    let rc = presale.round(cur);
    if usd_amount > MAX_TRANSACTION_USD {
        return Err(PresaleError::ExceedsMaxTransaction);
    }
    if usd_amount > KYC_THRESHOLD_USD && !buyer_state.kyc_verified {
        return Err(PresaleError::KycRequired);
    }
    let token_amount = match calculate_token_amount(usd_amount, &rc) {
        Ok(tokens) => tokens,
        Err(e) => {
            return Err(e);
        },
    };
    if token_amount > rc.allocation - rc.sold {
        return Err(PresaleError::ExceedsRoundAllocation);
    }
    if usd_amount > presale.hard_cap - presale.total_raised {
        return Err(PresaleError::ExceedsHardCap);
    }
    if buyer_state.purchase_count == u16::MAX {
        return Err(PresaleError::Overflow);
    }
    if usd_amount > u64::MAX - buyer_state.total_invested_usd {
        return Err(PresaleError::Overflow);
    }
    if buyer_state.vesting_schedule.total_amount != 0 && token_amount > u64::MAX
        - buyer_state.vesting_schedule.total_amount {
        return Err(PresaleError::Overflow);
    }
    process_purchase(presale, buyer_state, token_amount, usd_amount, now, events);
    events.push(
        Event::TokensPurchased(
            TokensPurchasedEvent {
                buyer,
                amount: token_amount,
                price: rc.price,
                payment_method: method,
                round: cur,
                timestamp: now,
            },
        ),
    );
    Ok(token_amount)
}

/// A buyer's claim of vested tokens at time `now`. Only allowed after
/// finalization, and only in claim mode: with the soft cap missed the sale
/// ends in refund mode, claim and refund are exclusive by the value the
/// flag had at finalization, and a claim releases nothing. In claim mode
/// it pays out exactly what the vesting curve has released and not yet
/// been claimed, fails with `NoTokensAvailable` when that is zero, and
/// with `Overflow` when more has been released than is vested at `now`
/// (only a clock that ran backwards can produce that state). The returned
/// amount is what the host must transfer to the buyer.
pub fn claim_tokens(
    presale: &Presale,
    buyer_state: &mut BuyerState,
    buyer: u64,
    now: i64,
    events: &mut Vec<Event>,
) -> (r: Result<u64, PresaleError>)
    requires
        old(buyer_state).wf(),
    ensures
        final(buyer_state).wf(),
        !presale.finalized ==> r == Err::<u64, PresaleError>(PresaleError::PresaleNotFinalized)
            && *final(buyer_state) == *old(buyer_state) && final(events)@ == old(events)@,
        // Refund mode: with the soft cap missed, a claim releases nothing.
        presale.finalized && !presale.soft_cap_reached ==> r == Err::<u64, PresaleError>(
            PresaleError::NoTokensAvailable,
        ) && *final(buyer_state) == *old(buyer_state) && final(events)@ == old(events)@,
        presale.finalized && presale.soft_cap_reached && spec_claimable(
            old(buyer_state).vesting_schedule,
            now,
        ) < 0 ==> r == Err::<u64, PresaleError>(PresaleError::Overflow) && *final(buyer_state)
            == *old(buyer_state) && final(events)@ == old(events)@,
        presale.finalized && presale.soft_cap_reached && spec_claimable(
            old(buyer_state).vesting_schedule,
            now,
        ) == 0 ==> r == Err::<u64, PresaleError>(PresaleError::NoTokensAvailable) && *final(buyer_state) == *old(buyer_state) && final(events)@ == old(events)@,
        presale.finalized && presale.soft_cap_reached && spec_claimable(
            old(buyer_state).vesting_schedule,
            now,
        ) > 0 ==> r == Ok::<u64, PresaleError>(
            spec_claimable(old(buyer_state).vesting_schedule, now) as u64,
        ) && *final(buyer_state) == (BuyerState {
            vesting_schedule: (VestingSchedule {
                released_amount: (old(buyer_state).vesting_schedule.released_amount
                    + spec_claimable(old(buyer_state).vesting_schedule, now)) as u64,
                ..old(buyer_state).vesting_schedule
            }),
            ..*old(buyer_state)
        }) && final(events)@ == old(events)@.push(
            Event::TokensClaimed(
                TokensClaimedEvent {
                    buyer,
                    amount: spec_claimable(old(buyer_state).vesting_schedule, now) as u64,
                    timestamp: now,
                },
            ),
        ),
        // After a successful claim nothing more is claimable at `now`: the
        // released amount has caught up with the vested amount.
        r is Ok ==> final(buyer_state).vesting_schedule.released_amount == spec_vested(
            final(buyer_state).vesting_schedule,
            now,
        ),
{
    if !presale.finalized {
        return Err(PresaleError::PresaleNotFinalized);
    }
    if !presale.soft_cap_reached {
        return Err(PresaleError::NoTokensAvailable);
    }
    proof {
        lemma_immediate_bounds(old(buyer_state).vesting_schedule);
        lemma_vested_bounds(old(buyer_state).vesting_schedule, now);
    }
    let claimable = match calculate_claimable(buyer_state, now) {
        Ok(amount) => amount,
        Err(e) => {
            return Err(e);
        },
    };
    if claimable == 0 {
        return Err(PresaleError::NoTokensAvailable);
    }
    buyer_state.vesting_schedule.released_amount = buyer_state.vesting_schedule.released_amount
        + claimable;
    events.push(
        Event::TokensClaimed(TokensClaimedEvent { buyer, amount: claimable, timestamp: now }),
    );
    Ok(claimable)
}

/// A buyer's refund after a failed sale: only once the presale is
/// finalized without the soft cap latched, and only once per buyer. Pays
/// back exactly the buyer's recorded investment and zeroes it together
/// with the purchase count; a second attempt fails with `AlreadyRefunded`.
/// The returned amount is what the host must transfer back, in the unit it
/// tracks for this buyer.
pub fn refund(
    presale: &Presale,
    buyer_state: &mut BuyerState,
    buyer: u64,
    now: i64,
    events: &mut Vec<Event>,
) -> (r: Result<u64, PresaleError>)
    requires
        old(buyer_state).wf(),
    ensures
        final(buyer_state).wf(),
        !presale.finalized ==> r == Err::<u64, PresaleError>(PresaleError::PresaleNotFinalized)
            && *final(buyer_state) == *old(buyer_state) && final(events)@ == old(events)@,
        presale.finalized && presale.soft_cap_reached ==> r == Err::<u64, PresaleError>(
            PresaleError::SoftCapReached,
        ) && *final(buyer_state) == *old(buyer_state) && final(events)@ == old(events)@,
        presale.finalized && !presale.soft_cap_reached && old(buyer_state).total_invested_usd == 0
            ==> r == Err::<u64, PresaleError>(PresaleError::AlreadyRefunded) && *final(buyer_state)
            == *old(buyer_state) && final(events)@ == old(events)@,
        presale.finalized && !presale.soft_cap_reached && old(buyer_state).total_invested_usd > 0
            ==> r == Ok::<u64, PresaleError>(old(buyer_state).total_invested_usd) && *final(buyer_state) == (BuyerState { total_invested_usd: 0, purchase_count: 0, ..*old(buyer_state) }) && final(events)@ == old(events)@.push(
            Event::RefundIssued(
                RefundIssuedEvent {
                    buyer,
                    amount: old(buyer_state).total_invested_usd,
                    timestamp: now,
                },
            ),
        ),
{
    if !presale.finalized {
        return Err(PresaleError::PresaleNotFinalized);
    }
    if presale.soft_cap_reached {
        return Err(PresaleError::SoftCapReached);
    }
    let refund_amount = buyer_state.total_invested_usd;
    if refund_amount == 0 {
        return Err(PresaleError::AlreadyRefunded);
    }
    buyer_state.total_invested_usd = 0;
    buyer_state.purchase_count = 0;
    events.push(
        Event::RefundIssued(RefundIssuedEvent { buyer, amount: refund_amount, timestamp: now }),
    );
    Ok(refund_amount)
}

/// Admin: sets the buyer's whitelist flag. The host has already
/// authenticated the caller as the recorded authority.
pub fn whitelist_address(buyer_state: &mut BuyerState, status: bool, events: &mut Vec<Event>)
    requires
        old(buyer_state).wf(),
    ensures
        final(buyer_state).wf(),
        *final(buyer_state) == (BuyerState { whitelisted: status, ..*old(buyer_state) }),
        final(events)@ == old(events)@.push(
            Event::WhitelistUpdated(
                WhitelistUpdatedEvent { user: old(buyer_state).owner, status },
            ),
        ),
{
    buyer_state.whitelisted = status;
    events.push(
        Event::WhitelistUpdated(WhitelistUpdatedEvent { user: buyer_state.owner, status }),
    );
}

/// Admin: sets the buyer's KYC flag. The host has already authenticated
/// the caller as the recorded authority.
pub fn verify_kyc(buyer_state: &mut BuyerState, status: bool, events: &mut Vec<Event>)
    requires
        old(buyer_state).wf(),
    ensures
        final(buyer_state).wf(),
        *final(buyer_state) == (BuyerState { kyc_verified: status, ..*old(buyer_state) }),
        final(events)@ == old(events)@.push(
            Event::KycVerified(KycVerifiedEvent { user: old(buyer_state).owner, status }),
        ),
{
    buyer_state.kyc_verified = status;
    events.push(Event::KycVerified(KycVerifiedEvent { user: buyer_state.owner, status }));
}

pub open spec fn spec_set_price_feed(p: Presale, m: PaymentMethod, price: u64) -> Presale {
    match m {
        PaymentMethod::Eth => Presale { price_feed_eth: price, ..p },
        PaymentMethod::Usdt => Presale { price_feed_usdt: price, ..p },
        PaymentMethod::Usdc => Presale { price_feed_usdc: price, ..p },
        PaymentMethod::Sol => Presale { price_feed_sol: price, ..p },
    }
}

/// Admin: records the USD price of one unit of `payment_method`. Each
/// price is authoritative at operation time; 0 marks the feed unset.
pub fn update_price_feed(
    presale: &mut Presale,
    payment_method: PaymentMethod,
    price: u64,
    events: &mut Vec<Event>,
)
    requires
        old(presale).wf(),
    ensures
        final(presale).wf(),
        *final(presale) == spec_set_price_feed(*old(presale), payment_method, price),
        final(events)@ == old(events)@.push(
            Event::PriceFeedUpdated(PriceFeedUpdatedEvent { method: payment_method, price }),
        ),
{
    match payment_method {
        PaymentMethod::Eth => {
            presale.price_feed_eth = price;
        },
        PaymentMethod::Usdt => {
            presale.price_feed_usdt = price;
        },
        PaymentMethod::Usdc => {
            presale.price_feed_usdc = price;
        },
        PaymentMethod::Sol => {
            presale.price_feed_sol = price;
        },
    }
    events.push(
        Event::PriceFeedUpdated(PriceFeedUpdatedEvent { method: payment_method, price }),
    );
}

/// Admin: ends the purchase phase. Fails if already finalized; otherwise
/// latches the flag (it never clears again) and freezes the total raised.
pub fn finalize_presale(presale: &mut Presale, now: i64, events: &mut Vec<Event>) -> (r: Result<
    (),
    PresaleError,
>)
    requires
        old(presale).wf(),
    ensures
        final(presale).wf(),
        old(presale).finalized ==> r == Err::<(), PresaleError>(PresaleError::AlreadyFinalized)
            && *final(presale) == *old(presale) && final(events)@ == old(events)@,
        !old(presale).finalized ==> r == Ok::<(), PresaleError>(()) && *final(presale) == (Presale {
            finalized: true,
            ..*old(presale)
        }) && final(events)@ == old(events)@.push(
            Event::PresaleFinalized(
                PresaleFinalizedEvent { total_raised: old(presale).total_raised, timestamp: now },
            ),
        ),
        // The finalization flag latches: once true, never false.
        old(presale).finalized ==> final(presale).finalized,
        r is Ok ==> final(presale).finalized,
{
    if presale.finalized {
        return Err(PresaleError::AlreadyFinalized);
    }
    presale.finalized = true;
    events.push(
        Event::PresaleFinalized(
            PresaleFinalizedEvent { total_raised: presale.total_raised, timestamp: now },
        ),
    );
    Ok(())
}

/// Admin: drain of the held native reserve, refused before the recorded
/// time lock expires. The movement of value itself is the host's to
/// perform; the core only admits the command and emits the event.
pub fn emergency_withdraw(
    presale: &Presale,
    amount: u64,
    now: i64,
    events: &mut Vec<Event>,
) -> (r: Result<(), PresaleError>)
    ensures
        now < presale.withdraw_lock_time ==> r == Err::<(), PresaleError>(
            PresaleError::TimeLockActive,
        ) && final(events)@ == old(events)@,
        now >= presale.withdraw_lock_time ==> r == Ok::<(), PresaleError>(()) && final(events)@
            == old(events)@.push(
            Event::EmergencyWithdraw(
                EmergencyWithdrawEvent { owner: presale.authority, amount, timestamp: now },
            ),
        ),
{
    if now < presale.withdraw_lock_time {
        return Err(PresaleError::TimeLockActive);
    }
    events.push(
        Event::EmergencyWithdraw(
            EmergencyWithdrawEvent { owner: presale.authority, amount, timestamp: now },
        ),
    );
    Ok(())
}

} // verus!
