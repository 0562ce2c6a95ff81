use vstd::prelude::*;
use crate::challenge::{
    Acceptance, ChallengeAccount, ChallengeStatus, PnlData, Settlement, MINIMUM_STAKE_LAMPORTS,
    PNL_FLOOR_BASIS_POINTS,
};
use crate::config::ProgramState;
use crate::errors::TradingChallengeError;
use crate::guards::{is_creator, is_oracle};
use crate::identity::Identity;
use crate::vault::Vault;

verus! {

/// Announcement of a newly opened challenge.
#[derive(Clone, Copy, Debug)]
pub struct ChallengeCreated {
    pub creator: Identity,
    pub stake_amount: u64,
    pub expires_at: i64,
}

/// Announcement of an accepted challenge.
#[derive(Clone, Copy, Debug)]
pub struct ChallengeAccepted {
    pub acceptor: Identity,
    pub stake_amount: u64,
    pub start_timestamp: i64,
}

/// Announcement of a settled challenge. The two amounts double as the
/// transfer orders the host must apply: `winner_amount` to `winner` and
/// `loser_amount` to `loser`.
#[derive(Clone, Copy, Debug)]
pub struct ChallengeCompleted {
    pub winner: Identity,
    pub loser: Identity,
    pub winner_amount: u64,
    pub loser_amount: u64,
    pub creator_pnl: i32,
    pub acceptor_pnl: i32,
    pub oracle: Identity,
}

/// Announcement of a cancelled challenge. `refund_amount` is the transfer
/// order the host must apply back to `creator`.
#[derive(Clone, Copy, Debug)]
pub struct ChallengeCancelled {
    pub creator: Identity,
    pub refund_amount: u64,
}

/// The outcome of `create_challenge`'s validation, with the checks in the
/// order the operation performs them: `None` means the creation goes
/// through, `Some(e)` that it is refused with exactly `e`.
pub open spec fn create_challenge_error(stake_amount: u64, expires_at: i64, now: i64) -> Option<
    TradingChallengeError,
> {
    if stake_amount == 0 {
        Some(TradingChallengeError::InvalidStakeAmount)
    } else if expires_at <= now {
        Some(TradingChallengeError::InvalidExpiryTime)
    } else if stake_amount < MINIMUM_STAKE_LAMPORTS {
        Some(TradingChallengeError::MinimumStakeNotMet)
    } else {
        None
    }
}

/// The record a successful creation builds: a pending challenge whose pot
/// so far is the creator's own stake.
pub open spec fn created_challenge(
    creator: Identity,
    stake_amount: u64,
    expires_at: i64,
    now: i64,
) -> ChallengeAccount {
    ChallengeAccount {
        creator,
        creator_stake_amount: stake_amount,
        status: ChallengeStatus::Pending,
        expires_at,
        created_at: now,
        total_pot: stake_amount,
        acceptance: None,
        settlement: None,
    }
}

/// Open a challenge: validate the stake and expiry, then build the pending
/// record together with a vault already holding the creator's deposit.
///
/// The host debits the creator by `stake_amount` and emits the returned
/// event; on an error nothing is built and nothing moves.
pub fn create_challenge(creator: Identity, stake_amount: u64, expires_at: i64, now: i64) -> (r:
    Result<(ChallengeAccount, Vault, ChallengeCreated), TradingChallengeError>)
    ensures
        (match create_challenge_error(stake_amount, expires_at, now) {
            Some(e) => r matches Err(ae) && ae == e,
            None => r matches Ok(out) && {
                &&& out.0 == created_challenge(creator, stake_amount, expires_at, now)
                &&& out.0.wf()
                &&& out.1.balance == stake_amount
                &&& out.0.vault_funded(out.1)
                &&& out.2 == (ChallengeCreated { creator, stake_amount, expires_at })
            },
        }),
{
    if stake_amount == 0 {
        return Err(TradingChallengeError::InvalidStakeAmount);
    }
    if expires_at <= now {
        return Err(TradingChallengeError::InvalidExpiryTime);
    }
    if stake_amount < MINIMUM_STAKE_LAMPORTS {
        return Err(TradingChallengeError::MinimumStakeNotMet);
    }
    let challenge = ChallengeAccount {
        creator,
        creator_stake_amount: stake_amount,
        status: ChallengeStatus::Pending,
        expires_at,
        created_at: now,
        total_pot: stake_amount,
        acceptance: None,
        settlement: None,
    };
    let mut vault = Vault::new();
    vault.deposit(stake_amount);
    Ok((challenge, vault, ChallengeCreated { creator, stake_amount, expires_at }))
}

/// The outcome of `accept_challenge`'s validation, in operation order:
/// the challenge must still be pending and inside its acceptance window,
/// the acceptor must not be the creator, and the stake must match.
pub open spec fn accept_challenge_error(
    challenge: ChallengeAccount,
    acceptor: Identity,
    stake_amount: u64,
    now: i64,
) -> Option<TradingChallengeError> {
    if challenge.status != ChallengeStatus::Pending {
        Some(TradingChallengeError::ChallengeNotPending)
    } else if now > challenge.expires_at {
        Some(TradingChallengeError::ChallengeNotExpired)
    } else if acceptor == challenge.creator {
        Some(TradingChallengeError::CreatorCannotAccept)
    } else if stake_amount != challenge.creator_stake_amount {
        Some(TradingChallengeError::StakeMismatch)
    } else {
        None
    }
}

/// The record a successful acceptance leaves: active, with the acceptance
/// value set and the pot doubled to both stakes.
pub open spec fn accepted_challenge(
    challenge: ChallengeAccount,
    acceptor: Identity,
    stake_amount: u64,
    now: i64,
) -> ChallengeAccount {
    ChallengeAccount {
        status: ChallengeStatus::Active,
        acceptance: Some(
            Acceptance { acceptor, acceptor_stake_amount: stake_amount, started_at: now },
        ),
        total_pot: (challenge.creator_stake_amount + stake_amount) as u64,
        ..challenge
    }
}

/// Join a pending challenge by matching the creator's stake.
///
/// The host debits the acceptor by `stake_amount` and emits the returned
/// event. A refused acceptance leaves both the record and the vault exactly
/// as they were. The arithmetic precondition is the one machine limit: when
/// the acceptance would go through, the doubled pot must fit in a `u64`.
pub fn accept_challenge(
    challenge: &mut ChallengeAccount,
    vault: &mut Vault,
    acceptor: Identity,
    stake_amount: u64,
    now: i64,
) -> (r: Result<ChallengeAccepted, TradingChallengeError>)
    requires
        old(challenge).wf(),
        old(challenge).vault_funded(*old(vault)),
        accept_challenge_error(*old(challenge), acceptor, stake_amount, now) is None ==> old(
            challenge,
        ).creator_stake_amount + stake_amount <= u64::MAX,
    ensures
        (match accept_challenge_error(*old(challenge), acceptor, stake_amount, now) {
            Some(e) => {
                &&& r matches Err(ae) && ae == e
                &&& *final(challenge) == *old(challenge)
                &&& *final(vault) == *old(vault)
            },
            None => {
                &&& r matches Ok(ev) && ev == (ChallengeAccepted {
                    acceptor,
                    stake_amount,
                    start_timestamp: now,
                })
                &&& *final(challenge) == accepted_challenge(
                    *old(challenge),
                    acceptor,
                    stake_amount,
                    now,
                )
                &&& final(vault).balance == old(vault).balance + stake_amount
                &&& final(challenge).wf()
                &&& final(challenge).vault_funded(*final(vault))
            },
        }),
{
    if challenge.status != ChallengeStatus::Pending {
        return Err(TradingChallengeError::ChallengeNotPending);
    }
    if now > challenge.expires_at {
        return Err(TradingChallengeError::ChallengeNotExpired);
    }
    if is_creator(acceptor, challenge) {
        return Err(TradingChallengeError::CreatorCannotAccept);
    }
    if stake_amount != challenge.creator_stake_amount {
        return Err(TradingChallengeError::StakeMismatch);
    }
    challenge.acceptance = Some(
        Acceptance { acceptor, acceptor_stake_amount: stake_amount, started_at: now },
    );
    challenge.status = ChallengeStatus::Active;
    challenge.total_pot = challenge.creator_stake_amount + stake_amount;
    vault.deposit(stake_amount);
    Ok(ChallengeAccepted { acceptor, stake_amount, start_timestamp: now })
}

/// Whether the proposed winner and loser are exactly the challenge's two
/// participants, in either assignment.
pub open spec fn payout_pair_valid(
    challenge: ChallengeAccount,
    winner: Identity,
    loser: Identity,
) -> bool {
    challenge.acceptance matches Some(a) && {
        ||| winner == challenge.creator && loser == a.acceptor
        ||| winner == a.acceptor && loser == challenge.creator
    }
}

/// The outcome of `claim_payout`'s validation, in operation order: the
/// caller must be the oracle, the challenge active, the amounts an exact
/// split of the pot, the pair exactly the participants, and both PnL
/// figures at or above the total-loss floor.
pub open spec fn claim_payout_error(
    state: ProgramState,
    challenge: ChallengeAccount,
    caller: Identity,
    winner: Identity,
    loser: Identity,
    winner_amount: u64,
    loser_amount: u64,
    pnl_data: PnlData,
) -> Option<TradingChallengeError> {
    if caller != state.oracle_authority {
        Some(TradingChallengeError::UnauthorizedOracle)
    } else if challenge.status != ChallengeStatus::Active {
        Some(TradingChallengeError::ChallengeNotActive)
    } else if winner_amount + loser_amount != challenge.total_pot {
        Some(TradingChallengeError::InvalidPayoutAmounts)
    } else if !payout_pair_valid(challenge, winner, loser) {
        Some(TradingChallengeError::InvalidParticipants)
    } else if pnl_data.creator_pnl_percentage < PNL_FLOOR_BASIS_POINTS {
        Some(TradingChallengeError::InvalidPnlData)
    } else if pnl_data.acceptor_pnl_percentage < PNL_FLOOR_BASIS_POINTS {
        Some(TradingChallengeError::InvalidPnlData)
    } else {
        None
    }
}

/// The record a successful settlement leaves: completed, with the
/// settlement value recorded and everything already committed unchanged.
pub open spec fn settled_challenge(
    challenge: ChallengeAccount,
    winner: Identity,
    winner_amount: u64,
    loser_amount: u64,
    pnl_data: PnlData,
    now: i64,
) -> ChallengeAccount {
    ChallengeAccount {
        status: ChallengeStatus::Completed,
        settlement: Some(
            Settlement { winner, winner_amount, loser_amount, final_outcome: pnl_data, completed_at: now },
        ),
        ..challenge
    }
}

/// Settle an active challenge. Oracle only.
///
/// On success the whole pot leaves the vault: the host credits `winner` and
/// `loser` with the two amounts named in the returned event. A refused
/// settlement leaves both the record and the vault exactly as they were.
pub fn claim_payout(
    state: &ProgramState,
    challenge: &mut ChallengeAccount,
    vault: &mut Vault,
    caller: Identity,
    winner: Identity,
    loser: Identity,
    winner_amount: u64,
    loser_amount: u64,
    pnl_data: PnlData,
    now: i64,
) -> (r: Result<ChallengeCompleted, TradingChallengeError>)
    requires
        old(challenge).wf(),
        old(challenge).vault_funded(*old(vault)),
    ensures
        (match claim_payout_error(
            *state,
            *old(challenge),
            caller,
            winner,
            loser,
            winner_amount,
            loser_amount,
            pnl_data,
        ) {
            Some(e) => {
                &&& r matches Err(ae) && ae == e
                &&& *final(challenge) == *old(challenge)
                &&& *final(vault) == *old(vault)
            },
            None => {
                &&& r matches Ok(ev) && ev == (ChallengeCompleted {
                    winner,
                    loser,
                    winner_amount,
                    loser_amount,
                    creator_pnl: pnl_data.creator_pnl_percentage,
                    acceptor_pnl: pnl_data.acceptor_pnl_percentage,
                    oracle: caller,
                })
                &&& *final(challenge) == settled_challenge(
                    *old(challenge),
                    winner,
                    winner_amount,
                    loser_amount,
                    pnl_data,
                    now,
                )
                &&& final(vault).balance == 0
                &&& final(challenge).wf()
                &&& final(challenge).vault_funded(*final(vault))
            },
        }),
{
    if !is_oracle(caller, state) {
        return Err(TradingChallengeError::UnauthorizedOracle);
    }
    if challenge.status != ChallengeStatus::Active {
        return Err(TradingChallengeError::ChallengeNotActive);
    }
    if !(winner_amount <= challenge.total_pot && challenge.total_pot - winner_amount
        == loser_amount) {
        return Err(TradingChallengeError::InvalidPayoutAmounts);
    }
    let acceptance = challenge.acceptance.unwrap();
    let pair_valid = (winner == challenge.creator && loser == acceptance.acceptor) || (winner
        == acceptance.acceptor && loser == challenge.creator);
    if !pair_valid {
        return Err(TradingChallengeError::InvalidParticipants);
    }
    if pnl_data.creator_pnl_percentage < PNL_FLOOR_BASIS_POINTS {
        return Err(TradingChallengeError::InvalidPnlData);
    }
    if pnl_data.acceptor_pnl_percentage < PNL_FLOOR_BASIS_POINTS {
        return Err(TradingChallengeError::InvalidPnlData);
    }
    vault.withdraw(winner_amount);
    vault.withdraw(loser_amount);
    challenge.status = ChallengeStatus::Completed;
    challenge.settlement = Some(
        Settlement {
            winner,
            winner_amount,
            loser_amount,
            final_outcome: pnl_data,
            completed_at: now,
        },
    );
    Ok(
        ChallengeCompleted {
            winner,
            loser,
            winner_amount,
            loser_amount,
            creator_pnl: pnl_data.creator_pnl_percentage,
            acceptor_pnl: pnl_data.acceptor_pnl_percentage,
            oracle: caller,
        },
    )
}

/// The outcome of `cancel_challenge`'s validation, in operation order: the
/// challenge must still be pending, its acceptance window must already have
/// elapsed, and only the creator may reclaim the stake.
pub open spec fn cancel_challenge_error(
    challenge: ChallengeAccount,
    caller: Identity,
    now: i64,
) -> Option<TradingChallengeError> {
    if challenge.status != ChallengeStatus::Pending {
        Some(TradingChallengeError::ChallengeNotPending)
    } else if now <= challenge.expires_at {
        Some(TradingChallengeError::ChallengeExpired)
    } else if caller != challenge.creator {
        Some(TradingChallengeError::UnauthorizedCancellation)
    } else {
        None
    }
}

/// The record a successful cancellation leaves: cancelled, nothing else
/// touched.
pub open spec fn cancelled_challenge(challenge: ChallengeAccount) -> ChallengeAccount {
    ChallengeAccount { status: ChallengeStatus::Cancelled, ..challenge }
}

/// Refund an unaccepted challenge after its acceptance window has elapsed.
/// Creator only.
///
/// On success the creator's stake leaves the vault: the host credits the
/// creator with the refund named in the returned event. A refused
/// cancellation leaves both the record and the vault exactly as they were.
pub fn cancel_challenge(
    challenge: &mut ChallengeAccount,
    vault: &mut Vault,
    caller: Identity,
    now: i64,
) -> (r: Result<ChallengeCancelled, TradingChallengeError>)
    requires
        old(challenge).wf(),
        old(challenge).vault_funded(*old(vault)),
    ensures
        (match cancel_challenge_error(*old(challenge), caller, now) {
            Some(e) => {
                &&& r matches Err(ae) && ae == e
                &&& *final(challenge) == *old(challenge)
                &&& *final(vault) == *old(vault)
            },
            None => {
                &&& r matches Ok(ev) && ev == (ChallengeCancelled {
                    creator: old(challenge).creator,
                    refund_amount: old(challenge).creator_stake_amount,
                })
                &&& *final(challenge) == cancelled_challenge(*old(challenge))
                &&& final(vault).balance == 0
                &&& final(challenge).wf()
                &&& final(challenge).vault_funded(*final(vault))
            },
        }),
{
    if challenge.status != ChallengeStatus::Pending {
        return Err(TradingChallengeError::ChallengeNotPending);
    }
    if now <= challenge.expires_at {
        return Err(TradingChallengeError::ChallengeExpired);
    }
    if !is_creator(caller, challenge) {
        return Err(TradingChallengeError::UnauthorizedCancellation);
    }
    vault.withdraw(challenge.creator_stake_amount);
    challenge.status = ChallengeStatus::Cancelled;
    Ok(
        ChallengeCancelled {
            creator: challenge.creator,
            refund_amount: challenge.creator_stake_amount,
        },
    )
}

/// The outcome of `close_challenge`'s validation: only a terminal challenge
/// may be closed, and only by its creator.
pub open spec fn close_challenge_error(challenge: ChallengeAccount, caller: Identity) -> Option<
    TradingChallengeError,
> {
    if !challenge.is_terminal() {
        Some(TradingChallengeError::ChallengeNotFinalized)
    } else if caller != challenge.creator {
        Some(TradingChallengeError::UnauthorizedClosure)
    } else {
        None
    }
}

/// Approve reclaiming a challenge's storage. Creator only, and only once
/// the challenge is terminal; the host drops the record and the emptied
/// vault on `Ok`.
pub fn close_challenge(challenge: &ChallengeAccount, caller: Identity) -> (r: Result<
    (),
    TradingChallengeError,
>)
    ensures
        (match close_challenge_error(*challenge, caller) {
            Some(e) => r matches Err(ae) && ae == e,
            None => r is Ok,
        }),
{
    let terminal = challenge.status == ChallengeStatus::Completed || challenge.status
        == ChallengeStatus::Cancelled;
    if !terminal {
        return Err(TradingChallengeError::ChallengeNotFinalized);
    }
    if !is_creator(caller, challenge) {
        return Err(TradingChallengeError::UnauthorizedClosure);
    }
    Ok(())
}

} // verus!
