use memeshot::challenge::{ChallengeStatus, PnlData, MINIMUM_STAKE_LAMPORTS};
use memeshot::config::{initialize_program, update_oracle_authority};
use memeshot::errors::TradingChallengeError;
use memeshot::guards::{is_acceptor, is_admin, is_creator, is_oracle};
use memeshot::identity::Identity;
use memeshot::lifecycle::{accept_challenge, claim_payout, create_challenge};
use memeshot::vault::Vault;

const CREATOR: Identity = Identity { value: 11 };
const ACCEPTOR: Identity = Identity { value: 22 };
const ORACLE: Identity = Identity { value: 33 };
const ADMIN: Identity = Identity { value: 44 };
const OUTSIDER: Identity = Identity { value: 55 };
const STAKE: u64 = 100_000_000;

fn pnl(creator_bp: i32, acceptor_bp: i32) -> PnlData {
    PnlData {
        creator_pnl_percentage: creator_bp,
        acceptor_pnl_percentage: acceptor_bp,
        calculation_timestamp: 30,
        data_source_hash: [0u8; 32],
    }
}

#[test]
fn create_rejects_zero_stake() {
    let result = create_challenge(CREATOR, 0, 1_000, 10);
    assert_eq!(result.unwrap_err(), TradingChallengeError::InvalidStakeAmount);
}

#[test]
fn create_rejects_stake_below_minimum() {
    let result = create_challenge(CREATOR, MINIMUM_STAKE_LAMPORTS - 1, 1_000, 10);
    assert_eq!(result.unwrap_err(), TradingChallengeError::MinimumStakeNotMet);
}

#[test]
fn create_rejects_expiry_not_in_future() {
    let result = create_challenge(CREATOR, STAKE, 10, 10);
    assert_eq!(result.unwrap_err(), TradingChallengeError::InvalidExpiryTime);
    let result = create_challenge(CREATOR, STAKE, 9, 10);
    assert_eq!(result.unwrap_err(), TradingChallengeError::InvalidExpiryTime);
}

#[test]
fn create_accepts_exact_minimum_stake() {
    let (challenge, _vault, _event) =
        create_challenge(CREATOR, MINIMUM_STAKE_LAMPORTS, 1_000, 10).unwrap();
    assert_eq!(challenge.status, ChallengeStatus::Pending);
}

#[test]
fn payout_requires_oracle_caller() {
    let (state, _event) = initialize_program(ADMIN, ORACLE);
    let (mut challenge, mut vault, _event) = create_challenge(CREATOR, STAKE, 1_000, 10).unwrap();
    accept_challenge(&mut challenge, &mut vault, ACCEPTOR, STAKE, 20).unwrap();
    let result = claim_payout(
        &state,
        &mut challenge,
        &mut vault,
        ADMIN,
        ACCEPTOR,
        CREATOR,
        150_000_000,
        50_000_000,
        pnl(0, 0),
        30,
    );
    assert_eq!(result.unwrap_err(), TradingChallengeError::UnauthorizedOracle);
    assert_eq!(vault.balance, 200_000_000);
}

#[test]
fn payout_requires_active_challenge() {
    let (state, _event) = initialize_program(ADMIN, ORACLE);
    let (mut challenge, mut vault, _event) = create_challenge(CREATOR, STAKE, 1_000, 10).unwrap();
    let result = claim_payout(
        &state,
        &mut challenge,
        &mut vault,
        ORACLE,
        ACCEPTOR,
        CREATOR,
        50_000_000,
        50_000_000,
        pnl(0, 0),
        30,
    );
    assert_eq!(result.unwrap_err(), TradingChallengeError::ChallengeNotActive);
    assert_eq!(challenge.status, ChallengeStatus::Pending);
    assert_eq!(vault.balance, 100_000_000);
}

#[test]
fn payout_rejects_pair_that_is_not_the_participants() {
    let (state, _event) = initialize_program(ADMIN, ORACLE);
    let (mut challenge, mut vault, _event) = create_challenge(CREATOR, STAKE, 1_000, 10).unwrap();
    accept_challenge(&mut challenge, &mut vault, ACCEPTOR, STAKE, 20).unwrap();
    // an outsider in either role fails, and so does the same party twice
    for (winner, loser) in [
        (OUTSIDER, CREATOR),
        (ACCEPTOR, OUTSIDER),
        (CREATOR, CREATOR),
        (ACCEPTOR, ACCEPTOR),
    ] {
        let result = claim_payout(
            &state,
            &mut challenge,
            &mut vault,
            ORACLE,
            winner,
            loser,
            150_000_000,
            50_000_000,
            pnl(0, 0),
            30,
        );
        assert_eq!(result.unwrap_err(), TradingChallengeError::InvalidParticipants);
    }
    assert_eq!(challenge.status, ChallengeStatus::Active);
    assert_eq!(vault.balance, 200_000_000);
}

#[test]
fn payout_accepts_either_participant_assignment() {
    let (state, _event) = initialize_program(ADMIN, ORACLE);
    let (mut challenge, mut vault, _event) = create_challenge(CREATOR, STAKE, 1_000, 10).unwrap();
    accept_challenge(&mut challenge, &mut vault, ACCEPTOR, STAKE, 20).unwrap();
    let event = claim_payout(
        &state,
        &mut challenge,
        &mut vault,
        ORACLE,
        CREATOR,
        ACCEPTOR,
        200_000_000,
        0,
        pnl(20_000, -10_000),
        30,
    )
    .unwrap();
    assert_eq!(event.winner, CREATOR);
    assert_eq!(event.loser, ACCEPTOR);
    assert_eq!(vault.balance, 0);
}

#[test]
fn payout_rejects_pnl_below_floor() {
    let (state, _event) = initialize_program(ADMIN, ORACLE);
    for bad in [pnl(-10_001, 0), pnl(0, -10_001), pnl(-20_000, -10_001)] {
        let (mut challenge, mut vault, _event) =
            create_challenge(CREATOR, STAKE, 1_000, 10).unwrap();
        accept_challenge(&mut challenge, &mut vault, ACCEPTOR, STAKE, 20).unwrap();
        let result = claim_payout(
            &state,
            &mut challenge,
            &mut vault,
            ORACLE,
            ACCEPTOR,
            CREATOR,
            150_000_000,
            50_000_000,
            bad,
            30,
        );
        assert_eq!(result.unwrap_err(), TradingChallengeError::InvalidPnlData);
        assert_eq!(challenge.status, ChallengeStatus::Active);
        assert_eq!(vault.balance, 200_000_000);
    }
}

#[test]
fn payout_accepts_pnl_at_exact_floor() {
    let (state, _event) = initialize_program(ADMIN, ORACLE);
    let (mut challenge, mut vault, _event) = create_challenge(CREATOR, STAKE, 1_000, 10).unwrap();
    accept_challenge(&mut challenge, &mut vault, ACCEPTOR, STAKE, 20).unwrap();
    let result = claim_payout(
        &state,
        &mut challenge,
        &mut vault,
        ORACLE,
        ACCEPTOR,
        CREATOR,
        150_000_000,
        50_000_000,
        pnl(-10_000, -10_000),
        30,
    );
    assert!(result.is_ok());
}

#[test]
fn cancel_requires_creator() {
    let (mut challenge, mut vault, _event) = create_challenge(CREATOR, STAKE, 1_000, 10).unwrap();
    let result =
        memeshot::lifecycle::cancel_challenge(&mut challenge, &mut vault, OUTSIDER, 1_001);
    assert_eq!(result.unwrap_err(), TradingChallengeError::UnauthorizedCancellation);
    assert_eq!(challenge.status, ChallengeStatus::Pending);
    assert_eq!(vault.balance, 100_000_000);
}

#[test]
fn bootstrap_records_admin_and_oracle() {
    let (state, event) = initialize_program(ADMIN, ORACLE);
    assert_eq!(state.admin, ADMIN);
    assert_eq!(state.oracle_authority, ORACLE);
    assert_eq!(event.admin, ADMIN);
    assert_eq!(event.oracle_authority, ORACLE);
}

#[test]
fn oracle_rotation_is_admin_only() {
    let (mut state, _event) = initialize_program(ADMIN, ORACLE);
    let result = update_oracle_authority(&mut state, OUTSIDER, OUTSIDER);
    assert_eq!(result.unwrap_err(), TradingChallengeError::UnauthorizedAdmin);
    assert_eq!(state.oracle_authority, ORACLE);
    assert_eq!(state.admin, ADMIN);

    let event = update_oracle_authority(&mut state, ADMIN, OUTSIDER).unwrap();
    assert_eq!(state.oracle_authority, OUTSIDER);
    assert_eq!(state.admin, ADMIN);
    assert_eq!(event.old_oracle, ORACLE);
    assert_eq!(event.new_oracle, OUTSIDER);
    assert_eq!(event.updated_by, ADMIN);
}

#[test]
fn rotated_oracle_takes_over_settlement_authority() {
    let (mut state, _event) = initialize_program(ADMIN, ORACLE);
    update_oracle_authority(&mut state, ADMIN, OUTSIDER).unwrap();
    let (mut challenge, mut vault, _event) = create_challenge(CREATOR, STAKE, 1_000, 10).unwrap();
    accept_challenge(&mut challenge, &mut vault, ACCEPTOR, STAKE, 20).unwrap();
    // the old oracle is refused, the new one settles
    let refused = claim_payout(
        &state,
        &mut challenge,
        &mut vault,
        ORACLE,
        ACCEPTOR,
        CREATOR,
        150_000_000,
        50_000_000,
        pnl(0, 0),
        30,
    );
    assert_eq!(refused.unwrap_err(), TradingChallengeError::UnauthorizedOracle);
    let settled = claim_payout(
        &state,
        &mut challenge,
        &mut vault,
        OUTSIDER,
        ACCEPTOR,
        CREATOR,
        150_000_000,
        50_000_000,
        pnl(0, 0),
        30,
    );
    assert!(settled.is_ok());
}

#[test]
fn guard_predicates_match_identities() {
    let (state, _event) = initialize_program(ADMIN, ORACLE);
    assert!(is_admin(ADMIN, &state));
    assert!(!is_admin(ORACLE, &state));
    assert!(is_oracle(ORACLE, &state));
    assert!(!is_oracle(ADMIN, &state));

    let (mut challenge, mut vault, _event) = create_challenge(CREATOR, STAKE, 1_000, 10).unwrap();
    assert!(is_creator(CREATOR, &challenge));
    assert!(!is_creator(ACCEPTOR, &challenge));
    assert!(!is_acceptor(ACCEPTOR, &challenge));
    accept_challenge(&mut challenge, &mut vault, ACCEPTOR, STAKE, 20).unwrap();
    assert!(is_acceptor(ACCEPTOR, &challenge));
    assert!(!is_acceptor(CREATOR, &challenge));
}

#[test]
fn vault_tracks_deposits_and_withdrawals() {
    let mut vault = Vault::new();
    assert_eq!(vault.balance, 0);
    vault.deposit(75);
    vault.deposit(25);
    assert_eq!(vault.balance, 100);
    vault.withdraw(40);
    assert_eq!(vault.balance, 60);
    vault.withdraw(60);
    assert_eq!(vault.balance, 0);
}
