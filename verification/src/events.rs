use vstd::prelude::*;

use crate::state::PaymentMethod;
use crate::state::Round;

verus! {

#[derive(Clone, Copy, Debug, PartialEq, Eq, Structural)]
pub struct TokensPurchasedEvent {
    pub buyer: u64,
    /// Token smallest units bought, bonus included.
    pub amount: u64,
    /// Round price at purchase time, USD (6 decimals) per whole token.
    pub price: u64,
    pub payment_method: PaymentMethod,
    pub round: Round,
    pub timestamp: i64,
}

#[derive(Clone, Copy, Debug, PartialEq, Eq, Structural)]
pub struct TokensClaimedEvent {
    pub buyer: u64,
    pub amount: u64,
    pub timestamp: i64,
}

#[derive(Clone, Copy, Debug, PartialEq, Eq, Structural)]
pub struct RefundIssuedEvent {
    pub buyer: u64,
    pub amount: u64,
    pub timestamp: i64,
}

#[derive(Clone, Copy, Debug, PartialEq, Eq, Structural)]
pub struct SoftCapReachedEvent {
    /// Total raised at the moment the soft cap latched.
    pub amount: u64,
    pub timestamp: i64,
}

#[derive(Clone, Copy, Debug, PartialEq, Eq, Structural)]
pub struct PresaleFinalizedEvent {
    pub total_raised: u64,
    pub timestamp: i64,
}

#[derive(Clone, Copy, Debug, PartialEq, Eq, Structural)]
pub struct WhitelistUpdatedEvent {
    pub user: u64,
    pub status: bool,
}

#[derive(Clone, Copy, Debug, PartialEq, Eq, Structural)]
pub struct KycVerifiedEvent {
    pub user: u64,
    pub status: bool,
}

#[derive(Clone, Copy, Debug, PartialEq, Eq, Structural)]
pub struct EmergencyWithdrawEvent {
    pub owner: u64,
    pub amount: u64,
    pub timestamp: i64,
}

#[derive(Clone, Copy, Debug, PartialEq, Eq, Structural)]
pub struct PriceFeedUpdatedEvent {
    pub method: PaymentMethod,
    pub price: u64,
}

/// One entry of the event sink. Operations append the events they emit to a
/// recording `Vec<Event>`; a failed command appends nothing.
#[derive(Clone, Copy, Debug, PartialEq, Eq, Structural)]
pub enum Event {
    TokensPurchased(TokensPurchasedEvent),
    TokensClaimed(TokensClaimedEvent),
    RefundIssued(RefundIssuedEvent),
    SoftCapReached(SoftCapReachedEvent),
    PresaleFinalized(PresaleFinalizedEvent),
    WhitelistUpdated(WhitelistUpdatedEvent),
    KycVerified(KycVerifiedEvent),
    EmergencyWithdraw(EmergencyWithdrawEvent),
    PriceFeedUpdated(PriceFeedUpdatedEvent),
}

} // verus!
