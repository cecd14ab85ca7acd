use vstd::prelude::*;

verus! {

/// Domain errors of the presale core. Every operation that fails with one of
/// these aborts with zero state mutation and zero events emitted.
///
/// `Overflow` marks arithmetic that would leave the 64-bit state (or the
/// 16-bit purchase counter); it is fatal to the command, never to the
/// process.
#[derive(Clone, Copy, Debug, PartialEq, Eq, Structural)]
pub enum PresaleError {
    PresaleFinalized,
    PresaleNotFinalized,
    RoundNotStarted,
    RoundEnded,
    NotWhitelisted,
    RateLimitExceeded,
    PriceFeedNotSet,
    ExceedsMaxTransaction,
    KycRequired,
    ExceedsRoundAllocation,
    ExceedsHardCap,
    NoTokensAvailable,
    SoftCapReached,
    AlreadyRefunded,
    AlreadyFinalized,
    TimeLockActive,
    Overflow,
}

} // verus!
