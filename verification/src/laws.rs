use vstd::prelude::*;
use crate::challenge::{ChallengeAccount, ChallengeStatus, PnlData, PNL_FLOOR_BASIS_POINTS};
use crate::config::ProgramState;
use crate::errors::TradingChallengeError;
use crate::identity::Identity;
use crate::lifecycle::{
    accept_challenge_error, cancel_challenge_error, claim_payout_error, close_challenge_error,
    payout_pair_valid,
};

verus! {

/// For every completed challenge, the recorded payout is an exact split of
/// the pot: `winner_amount + loser_amount == total_pot`.
pub proof fn lemma_completed_payout_splits_pot(challenge: ChallengeAccount)
    requires
        challenge.wf(),
        challenge.status == ChallengeStatus::Completed,
    ensures
        challenge.settlement matches Some(s) && s.winner_amount + s.loser_amount
            == challenge.total_pot,
{
}

/// For every accepted challenge — active or already completed — the pot is
/// exactly the two stakes together: `total_pot == creator_stake + acceptor_stake`.
pub proof fn lemma_accepted_pot_is_both_stakes(challenge: ChallengeAccount)
    requires
        challenge.wf(),
        challenge.status == ChallengeStatus::Active || challenge.status
            == ChallengeStatus::Completed,
    ensures
        challenge.acceptance matches Some(a) && challenge.total_pot
            == challenge.creator_stake_amount + a.acceptor_stake_amount,
{
}

/// A challenge can never be accepted by its own creator: the acceptance
/// validation refuses the call, and `accept_challenge`'s contract then
/// guarantees that nothing changes.
pub proof fn lemma_creator_cannot_accept(
    challenge: ChallengeAccount,
    acceptor: Identity,
    stake_amount: u64,
    now: i64,
)
    requires
        acceptor == challenge.creator,
    ensures
        accept_challenge_error(challenge, acceptor, stake_amount, now) is Some,
{
}

/// A challenge can never be accepted once the current time is past its
/// expiry: the acceptance validation refuses the call.
pub proof fn lemma_expired_cannot_be_accepted(
    challenge: ChallengeAccount,
    acceptor: Identity,
    stake_amount: u64,
    now: i64,
)
    requires
        now > challenge.expires_at,
    ensures
        accept_challenge_error(challenge, acceptor, stake_amount, now) is Some,
{
}

/// A challenge can never be cancelled while its acceptance window is still
/// open, nor while it is not pending: the cancellation validation refuses
/// the call either way.
pub proof fn lemma_cancel_needs_elapsed_pending(
    challenge: ChallengeAccount,
    caller: Identity,
    now: i64,
)
    requires
        now <= challenge.expires_at || challenge.status != ChallengeStatus::Pending,
    ensures
        cancel_challenge_error(challenge, caller, now) is Some,
{
}

/// A payout goes through only when winner and loser are exactly the two
/// participants; any other pair is refused with the participant error, no
/// matter which assignment was tried.
pub proof fn lemma_payout_pair_must_be_participants(
    state: ProgramState,
    challenge: ChallengeAccount,
    caller: Identity,
    winner: Identity,
    loser: Identity,
    winner_amount: u64,
    loser_amount: u64,
    pnl_data: PnlData,
)
    ensures
        claim_payout_error(
            state,
            challenge,
            caller,
            winner,
            loser,
            winner_amount,
            loser_amount,
            pnl_data,
        ) is None ==> payout_pair_valid(challenge, winner, loser),
        caller == state.oracle_authority && challenge.status == ChallengeStatus::Active
            && winner_amount + loser_amount == challenge.total_pot && !payout_pair_valid(
            challenge,
            winner,
            loser,
        ) ==> claim_payout_error(
            state,
            challenge,
            caller,
            winner,
            loser,
            winner_amount,
            loser_amount,
            pnl_data,
        ) == Some(TradingChallengeError::InvalidParticipants),
{
}

/// A payout is refused whenever either PnL figure lies below the
/// total-loss floor of minus ten thousand basis points.
pub proof fn lemma_payout_respects_pnl_floor(
    state: ProgramState,
    challenge: ChallengeAccount,
    caller: Identity,
    winner: Identity,
    loser: Identity,
    winner_amount: u64,
    loser_amount: u64,
    pnl_data: PnlData,
)
    requires
        pnl_data.creator_pnl_percentage < PNL_FLOOR_BASIS_POINTS
            || pnl_data.acceptor_pnl_percentage < PNL_FLOOR_BASIS_POINTS,
    ensures
        claim_payout_error(
            state,
            challenge,
            caller,
            winner,
            loser,
            winner_amount,
            loser_amount,
            pnl_data,
        ) is Some,
{
}

/// Terminal means terminal: once a challenge is completed or cancelled,
/// every fund-moving transition — acceptance, payout, cancellation — is
/// refused, and each operation's contract then guarantees that the record
/// and the vault stay exactly as they were.
pub proof fn lemma_terminal_status_is_final(
    state: ProgramState,
    challenge: ChallengeAccount,
    caller: Identity,
    other: Identity,
    amount_a: u64,
    amount_b: u64,
    pnl_data: PnlData,
    now: i64,
)
    requires
        challenge.is_terminal(),
    ensures
        accept_challenge_error(challenge, caller, amount_a, now) is Some,
        claim_payout_error(
            state,
            challenge,
            caller,
            caller,
            other,
            amount_a,
            amount_b,
            pnl_data,
        ) is Some,
        cancel_challenge_error(challenge, caller, now) is Some,
{
}

/// Closing is gated exactly by terminality and authorship: it succeeds if
/// and only if the challenge is terminal and the caller created it.
pub proof fn lemma_close_needs_terminal_creator(challenge: ChallengeAccount, caller: Identity)
    ensures
        close_challenge_error(challenge, caller) is None <==> (challenge.is_terminal() && caller
            == challenge.creator),
{
}

} // verus!
