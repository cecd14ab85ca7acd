use hype_presale::engine::buy_tokens_sol;
use hype_presale::engine::buy_tokens_usdc;
use hype_presale::engine::claim_tokens;
use hype_presale::engine::finalize_presale;
use hype_presale::engine::initialize;
use hype_presale::engine::refund;
use hype_presale::engine::update_price_feed;
use hype_presale::engine::verify_kyc;
use hype_presale::engine::whitelist_address;
use hype_presale::errors::PresaleError;
use hype_presale::events::Event;
use hype_presale::events::SoftCapReachedEvent;
use hype_presale::events::TokensPurchasedEvent;
use hype_presale::state::BuyerState;
use hype_presale::state::PaymentMethod;
use hype_presale::state::Presale;
use hype_presale::state::Round;
use hype_presale::state::SECONDS_90_DAYS;
use hype_presale::vesting::VestingSchedule;

const T0: i64 = 1_700_000_000;
const AUTHORITY: u64 = 11;
const MINT: u64 = 22;
const BUYER: u64 = 33;

fn fresh_presale(soft_cap: u64, hard_cap: u64) -> Presale {
    initialize(AUTHORITY, MINT, soft_cap, hard_cap, [1, 2, 3], T0)
}

#[test]
fn happy_path_private_buy() {
    let mut p = fresh_presale(10_000_000 * 1_000_000, 100_000_000 * 1_000_000);
    let mut b = BuyerState::new(BUYER);
    let mut events: Vec<Event> = Vec::new();
    // $150 per native coin, 6 decimals.
    update_price_feed(&mut p, PaymentMethod::Sol, 150_000_000, &mut events);
    whitelist_address(&mut b, true, &mut events);
    events.clear();

    // 10 whole native coins = $1,500 = 150_000_000_000 base units at $0.01
    // per token, plus 20% bonus.
    let r = buy_tokens_sol(&mut p, &mut b, BUYER, 10_000_000_000, T0 + 60, &mut events);
    assert_eq!(r, Ok(180_000_000_000_000));
    assert_eq!(p.total_raised, 1_500_000_000);
    assert_eq!(p.round_private.sold, 180_000_000_000_000);
    assert_eq!(b.total_invested_usd, 1_500_000_000);
    assert_eq!(b.purchase_count, 1);
    assert_eq!(b.last_purchase_time, T0 + 60);
    assert_eq!(b.vesting_schedule.total_amount, 180_000_000_000_000);
    assert_eq!(b.vesting_schedule.start_time, T0 + 60);
    assert_eq!(
        events,
        vec![Event::TokensPurchased(TokensPurchasedEvent {
            buyer: BUYER,
            amount: 180_000_000_000_000,
            price: 10_000,
            payment_method: PaymentMethod::Sol,
            round: Round::Private,
            timestamp: T0 + 60,
        })]
    );
}

#[test]
fn kyc_gate() {
    let mut p = fresh_presale(10_000_000 * 1_000_000, 100_000_000 * 1_000_000);
    let mut b = BuyerState::new(BUYER);
    let mut events: Vec<Event> = Vec::new();
    whitelist_address(&mut b, true, &mut events);

    // $6,000 is above the $5,000 KYC threshold.
    let r = buy_tokens_usdc(&mut p, &mut b, BUYER, 6_000_000_000, T0 + 60, &mut events);
    assert_eq!(r, Err(PresaleError::KycRequired));
    assert_eq!(p.total_raised, 0);
    assert_eq!(b.total_invested_usd, 0);

    verify_kyc(&mut b, true, &mut events);
    let r = buy_tokens_usdc(&mut p, &mut b, BUYER, 6_000_000_000, T0 + 60, &mut events);
    assert!(r.is_ok());
    assert_eq!(p.total_raised, 6_000_000_000);
    assert_eq!(b.total_invested_usd, 6_000_000_000);
}

#[test]
fn rate_limit() {
    let mut p = fresh_presale(10_000_000 * 1_000_000, 100_000_000 * 1_000_000);
    let mut b = BuyerState::new(BUYER);
    let mut events: Vec<Event> = Vec::new();
    whitelist_address(&mut b, true, &mut events);

    let t = T0 + 60;
    let r = buy_tokens_usdc(&mut p, &mut b, BUYER, 1_000_000_000, t, &mut events);
    assert!(r.is_ok());
    let r = buy_tokens_usdc(&mut p, &mut b, BUYER, 1_000_000_000, t + 299, &mut events);
    assert_eq!(r, Err(PresaleError::RateLimitExceeded));
    let r = buy_tokens_usdc(&mut p, &mut b, BUYER, 1_000_000_000, t + 300, &mut events);
    assert!(r.is_ok());
    assert_eq!(b.purchase_count, 2);
    assert_eq!(b.last_purchase_time, t + 300);
}

#[test]
fn vesting_private_schedule() {
    // A Private-round purchase of 1,000,000 whole tokens at T0 + 60:
    // 25% immediately, the rest linearly over 90 days, no cliff. The soft
    // cap was reached, so the sale finalizes into claim mode.
    let mut p = fresh_presale(1_000_000, 100_000_000 * 1_000_000);
    p.total_raised = 1_000_000;
    p.soft_cap_reached = true;
    let mut events: Vec<Event> = Vec::new();
    let r = finalize_presale(&mut p, T0 + 120, &mut events);
    assert!(r.is_ok());

    let mut b = BuyerState::new(BUYER);
    b.vesting_schedule = VestingSchedule {
        total_amount: 1_000_000_000_000_000,
        released_amount: 0,
        start_time: T0 + 60,
        cliff: 0,
        duration: SECONDS_90_DAYS,
        immediate_release: 25,
    };

    let r = claim_tokens(&p, &mut b, BUYER, T0 + 60, &mut events);
    assert_eq!(r, Ok(250_000_000_000_000));
    assert_eq!(b.vesting_schedule.released_amount, 250_000_000_000_000);

    let half = T0 + 60 + SECONDS_90_DAYS / 2;
    let r = claim_tokens(&p, &mut b, BUYER, half, &mut events);
    assert_eq!(r, Ok(375_000_000_000_000));
    assert_eq!(b.vesting_schedule.released_amount, 625_000_000_000_000);

    let full = T0 + 60 + SECONDS_90_DAYS;
    let r = claim_tokens(&p, &mut b, BUYER, full, &mut events);
    assert_eq!(r, Ok(375_000_000_000_000));
    assert_eq!(b.vesting_schedule.released_amount, 1_000_000_000_000_000);

    // Nothing further is claimable once everything is released.
    let r = claim_tokens(&p, &mut b, BUYER, full + 1, &mut events);
    assert_eq!(r, Err(PresaleError::NoTokensAvailable));
}

#[test]
fn soft_cap_refund_path() {
    // Soft cap $10M; only $5M raised at finalization, so buyers refund.
    let mut p = fresh_presale(10_000_000 * 1_000_000, 100_000_000 * 1_000_000);
    let mut b = BuyerState::new(BUYER);
    let mut events: Vec<Event> = Vec::new();
    whitelist_address(&mut b, true, &mut events);

    // A real purchase, so the buyer holds a vesting schedule with tokens.
    let r = buy_tokens_usdc(&mut p, &mut b, BUYER, 3_000_000_000, T0 + 60, &mut events);
    assert!(r.is_ok());
    assert!(b.vesting_schedule.total_amount > 0);
    p.total_raised = 5_000_000 * 1_000_000;

    let r = finalize_presale(&mut p, T0 + 120, &mut events);
    assert!(r.is_ok());
    assert!(!p.soft_cap_reached);

    // Refund mode: a claim gets past the finalization gate but releases
    // nothing, even long after everything would have vested.
    let r = claim_tokens(&p, &mut b, BUYER, T0 + 120, &mut events);
    assert_eq!(r, Err(PresaleError::NoTokensAvailable));
    let r = claim_tokens(&p, &mut b, BUYER, T0 + 60 + SECONDS_90_DAYS, &mut events);
    assert_eq!(r, Err(PresaleError::NoTokensAvailable));
    assert_eq!(b.vesting_schedule.released_amount, 0);

    let r = refund(&p, &mut b, BUYER, T0 + 130, &mut events);
    assert_eq!(r, Ok(3_000_000_000));
    assert_eq!(b.total_invested_usd, 0);
    assert_eq!(b.purchase_count, 0);

    let r = refund(&p, &mut b, BUYER, T0 + 140, &mut events);
    assert_eq!(r, Err(PresaleError::AlreadyRefunded));
}

#[test]
fn refund_solvency_across_buyers() {
    // Soft cap missed: every buyer is refunded exactly once, and the sum
    // of the refunds equals the sum of the recorded investments.
    let mut p = fresh_presale(10_000_000 * 1_000_000, 100_000_000 * 1_000_000);
    let invested = [1_500_000_000u64, 42u64, 9_999_000_000u64];
    p.total_raised = invested.iter().sum();
    let mut events: Vec<Event> = Vec::new();
    finalize_presale(&mut p, T0 + 120, &mut events).unwrap();

    let mut buyers: Vec<BuyerState> = Vec::new();
    for (k, amount) in invested.iter().enumerate() {
        let mut b = BuyerState::new(100 + k as u64);
        b.total_invested_usd = *amount;
        buyers.push(b);
    }

    let mut paid: u64 = 0;
    for b in buyers.iter_mut() {
        let owner = b.owner;
        paid += refund(&p, b, owner, T0 + 130, &mut events).unwrap();
    }
    assert_eq!(paid, invested.iter().sum());

    // A second pass pays nothing more.
    for b in buyers.iter_mut() {
        let owner = b.owner;
        assert_eq!(refund(&p, b, owner, T0 + 140, &mut events), Err(PresaleError::AlreadyRefunded));
    }
}

#[test]
fn hard_cap_edge() {
    // Hard cap $5M, $4,999,000 already raised.
    let mut p = fresh_presale(1_000_000, 5_000_000 * 1_000_000);
    p.total_raised = 4_999_000 * 1_000_000;
    p.soft_cap_reached = true;
    let mut b = BuyerState::new(BUYER);
    let mut events: Vec<Event> = Vec::new();
    whitelist_address(&mut b, true, &mut events);
    events.clear();

    // $1,001 would overshoot the cap by one dollar.
    let r = buy_tokens_usdc(&mut p, &mut b, BUYER, 1_001_000_000, T0 + 60, &mut events);
    assert_eq!(r, Err(PresaleError::ExceedsHardCap));
    assert_eq!(p.total_raised, 4_999_000 * 1_000_000);
    assert!(events.is_empty());

    // $1,000 lands exactly on the cap and latches nothing extra.
    let r = buy_tokens_usdc(&mut p, &mut b, BUYER, 1_000_000_000, T0 + 60, &mut events);
    assert!(r.is_ok());
    assert_eq!(p.total_raised, 5_000_000 * 1_000_000);
    assert_eq!(events.len(), 1);
    assert!(matches!(events[0], Event::TokensPurchased(_)));
}

#[test]
fn soft_cap_latches_with_event_before_purchase_event() {
    let mut p = fresh_presale(2_000_000_000, 100_000_000 * 1_000_000);
    let mut b = BuyerState::new(BUYER);
    let mut events: Vec<Event> = Vec::new();
    whitelist_address(&mut b, true, &mut events);
    verify_kyc(&mut b, true, &mut events);
    events.clear();

    // First buy stays below the $2,000 soft cap.
    let r = buy_tokens_usdc(&mut p, &mut b, BUYER, 1_500_000_000, T0 + 60, &mut events);
    assert!(r.is_ok());
    assert!(!p.soft_cap_reached);
    assert_eq!(events.len(), 1);

    // The second buy crosses it: the soft-cap event precedes the purchase
    // event, and the flag stays latched afterwards.
    events.clear();
    let r = buy_tokens_usdc(&mut p, &mut b, BUYER, 1_500_000_000, T0 + 600, &mut events);
    assert!(r.is_ok());
    assert!(p.soft_cap_reached);
    assert_eq!(events.len(), 2);
    assert_eq!(
        events[0],
        Event::SoftCapReached(SoftCapReachedEvent { amount: 3_000_000_000, timestamp: T0 + 600 })
    );
    assert!(matches!(events[1], Event::TokensPurchased(_)));

    // A further buy emits no second soft-cap event: the flag latched.
    events.clear();
    let r = buy_tokens_usdc(&mut p, &mut b, BUYER, 1_000_000_000, T0 + 1200, &mut events);
    assert!(r.is_ok());
    assert!(p.soft_cap_reached);
    assert_eq!(events.len(), 1);
    assert!(matches!(events[0], Event::TokensPurchased(_)));
}
