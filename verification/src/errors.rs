use vstd::prelude::*;

verus! {

/// Every way a lifecycle operation can be refused.
///
/// Each operation checks its guards in a fixed order and returns the first
/// error whose condition fails; the spec functions in `lifecycle` and
/// `config` state that order exactly. A failed operation has no effect.
#[derive(Clone, Copy, Debug, PartialEq, Eq, Structural)]
pub enum TradingChallengeError {
    /// The stake offered at creation is zero.
    InvalidStakeAmount,
    /// The stake offered at creation is below the minimum threshold.
    MinimumStakeNotMet,
    /// The requested expiry is not in the future.
    InvalidExpiryTime,
    /// The challenge is not in `Pending` status.
    ChallengeNotPending,
    /// The acceptance window has already closed.
    ChallengeNotExpired,
    /// The acceptance window has not yet elapsed, so a refund is premature.
    ChallengeExpired,
    /// A creator may not accept their own challenge.
    CreatorCannotAccept,
    /// The acceptor's stake does not match the creator's stake.
    StakeMismatch,
    /// The challenge is not in `Active` status.
    ChallengeNotActive,
    /// The proposed payout amounts do not sum to the pot.
    InvalidPayoutAmounts,
    /// Winner and loser are not exactly the two participants.
    InvalidParticipants,
    /// Only the creator may cancel a challenge.
    UnauthorizedCancellation,
    /// The challenge has not reached a terminal status.
    ChallengeNotFinalized,
    /// Only the creator may close a challenge.
    UnauthorizedClosure,
    /// The caller is not the configured oracle.
    UnauthorizedOracle,
    /// The oracle's signature is missing (checked by the host environment).
    OracleSignatureRequired,
    /// The caller is not the configured admin.
    UnauthorizedAdmin,
    /// A PnL figure lies below the total-loss floor.
    InvalidPnlData,
}

} // verus!
