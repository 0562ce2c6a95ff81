use vstd::prelude::*;
use crate::identity::Identity;
use crate::vault::Vault;

verus! {

/// The smallest stake a creator may open a challenge with, in the smallest
/// currency unit (one tenth of a whole unit).
pub const MINIMUM_STAKE_LAMPORTS: u64 = 100_000_000;

/// The floor on reported PnL figures: minus one hundred percent, in basis
/// points. A position cannot lose more than its whole value; gains are
/// unconstrained to allow for leverage.
pub const PNL_FLOOR_BASIS_POINTS: i32 = -10_000;

/// Where a challenge stands in its lifecycle.
///
/// `Pending` is the initial status; `Active` follows acceptance;
/// `Completed` and `Cancelled` are terminal: no fund-moving transition
/// applies to them, and only `close_challenge` may follow.
#[derive(Clone, Copy, Debug, PartialEq, Eq, Structural)]
pub enum ChallengeStatus {
    Pending,
    Active,
    Completed,
    Cancelled,
}

/// Off-chain outcome figures submitted by the oracle at settlement.
///
/// Only the two PnL floors are checked; the digest of the off-chain
/// computation is recorded for audit and not verified here.
#[derive(Clone, Copy, Debug)]
pub struct PnlData {
    pub creator_pnl_percentage: i32,
    pub acceptor_pnl_percentage: i32,
    pub calculation_timestamp: i64,
    pub data_source_hash: [u8; 32],
}

/// Everything set when a challenge is accepted: the acceptor, their stake
/// and the start time are recorded together or not at all.
#[derive(Clone, Copy, Debug)]
pub struct Acceptance {
    pub acceptor: Identity,
    pub acceptor_stake_amount: u64,
    pub started_at: i64,
}

/// Everything set when a challenge is settled: the winner, the split of the
/// pot, the outcome figures and the completion time are recorded together
/// or not at all.
#[derive(Clone, Copy, Debug)]
pub struct Settlement {
    pub winner: Identity,
    pub winner_amount: u64,
    pub loser_amount: u64,
    pub final_outcome: PnlData,
    pub completed_at: i64,
}

/// The escrow record for one staked, two-party competition.
#[derive(Clone, Copy, Debug)]
pub struct ChallengeAccount {
    pub creator: Identity,
    pub creator_stake_amount: u64,
    pub status: ChallengeStatus,
    pub expires_at: i64,
    pub created_at: i64,
    pub total_pot: u64,
    pub acceptance: Option<Acceptance>,
    pub settlement: Option<Settlement>,
}

impl ChallengeAccount {
    /// The record invariant: every challenge that `create_challenge` builds
    /// and the other lifecycle operations preserve satisfies this.
    ///
    /// It ties the optional acceptance and settlement values to the status,
    /// keeps `total_pot` equal to the sum of the known stakes, and keeps a
    /// settlement an exact split of the pot between the two participants.
    pub open spec fn wf(self) -> bool {
        &&& self.creator_stake_amount >= MINIMUM_STAKE_LAMPORTS
        &&& match self.status {
            ChallengeStatus::Pending => {
                &&& self.acceptance is None
                &&& self.settlement is None
                &&& self.total_pot == self.creator_stake_amount
            },
            ChallengeStatus::Active => {
                &&& self.accepted_wf()
                &&& self.settlement is None
            },
            ChallengeStatus::Completed => {
                &&& self.accepted_wf()
                &&& self.settlement matches Some(s) && {
                    &&& s.winner_amount + s.loser_amount == self.total_pot
                    &&& (s.winner == self.creator
                        || (self.acceptance matches Some(a) && s.winner == a.acceptor))
                }
            },
            ChallengeStatus::Cancelled => {
                &&& self.acceptance is None
                &&& self.settlement is None
                &&& self.total_pot == self.creator_stake_amount
            },
        }
    }

    /// What acceptance guarantees: an acceptor distinct from the creator,
    /// a matched stake, and a pot equal to both stakes together.
    pub open spec fn accepted_wf(self) -> bool {
        self.acceptance matches Some(a) && {
            &&& a.acceptor != self.creator
            &&& a.acceptor_stake_amount == self.creator_stake_amount
            &&& self.total_pot == self.creator_stake_amount + a.acceptor_stake_amount
        }
    }

    /// The custody invariant coupling a challenge to its vault: the vault
    /// holds the whole pot while funds are owed and nothing once the
    /// challenge is settled or refunded.
    pub open spec fn vault_funded(self, vault: Vault) -> bool {
        match self.status {
            ChallengeStatus::Pending => vault.balance == self.total_pot,
            ChallengeStatus::Active => vault.balance == self.total_pot,
            ChallengeStatus::Completed => vault.balance == 0,
            ChallengeStatus::Cancelled => vault.balance == 0,
        }
    }

    /// Whether the challenge has reached a terminal status.
    pub open spec fn is_terminal(self) -> bool {
        self.status == ChallengeStatus::Completed || self.status == ChallengeStatus::Cancelled
    }
}

} // verus!
