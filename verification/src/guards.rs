use vstd::prelude::*;
use crate::challenge::ChallengeAccount;
use crate::config::ProgramState;
use crate::identity::Identity;

verus! {

/// Whether the caller is the configured admin.
pub fn is_admin(caller: Identity, config: &ProgramState) -> (r: bool)
    ensures
        r == (caller == config.admin),
{
    caller == config.admin
}

/// Whether the caller is the configured oracle.
pub fn is_oracle(caller: Identity, config: &ProgramState) -> (r: bool)
    ensures
        r == (caller == config.oracle_authority),
{
    caller == config.oracle_authority
}

/// Whether the caller created the challenge.
pub fn is_creator(caller: Identity, challenge: &ChallengeAccount) -> (r: bool)
    ensures
        r == (caller == challenge.creator),
{
    caller == challenge.creator
}

/// Whether the caller accepted the challenge.
pub fn is_acceptor(caller: Identity, challenge: &ChallengeAccount) -> (r: bool)
    ensures
        r == (challenge.acceptance matches Some(a) && caller == a.acceptor),
{
    match &challenge.acceptance {
        Some(a) => caller == a.acceptor,
        None => false,
    }
}

} // verus!
