use vstd::prelude::*;
use crate::errors::TradingChallengeError;
use crate::identity::Identity;

verus! {

/// The system's single configuration record: who may settle challenges and
/// who may rotate that authority.
///
/// The hosting environment creates exactly one instance, at bootstrap, and
/// the admin identity is immutable thereafter; only `update_oracle_authority`
/// changes the oracle identity.
#[derive(Clone, Copy, Debug)]
pub struct ProgramState {
    pub oracle_authority: Identity,
    pub admin: Identity,
}

/// Announcement of the one-time bootstrap.
#[derive(Clone, Copy, Debug)]
pub struct ProgramInitialized {
    pub oracle_authority: Identity,
    pub admin: Identity,
}

/// Announcement of an oracle rotation.
#[derive(Clone, Copy, Debug)]
pub struct OracleAuthorityUpdated {
    pub old_oracle: Identity,
    pub new_oracle: Identity,
    pub updated_by: Identity,
}

/// One-time setup: record the bootstrapping caller as admin and the
/// deploy-time oracle identity as the settlement authority.
pub fn initialize_program(admin: Identity, oracle_authority: Identity) -> (r: (
    ProgramState,
    ProgramInitialized,
))
    ensures
        r.0 == (ProgramState { oracle_authority, admin }),
        r.1 == (ProgramInitialized { oracle_authority, admin }),
{
    let state = ProgramState { oracle_authority, admin };
    let event = ProgramInitialized { oracle_authority, admin };
    (state, event)
}

/// Rotate the oracle identity. Admin only; the admin identity itself never
/// changes, and a refused call leaves the configuration untouched.
pub fn update_oracle_authority(state: &mut ProgramState, caller: Identity, new_oracle: Identity)
    -> (r: Result<OracleAuthorityUpdated, TradingChallengeError>)
    ensures
        caller != old(state).admin ==> {
            &&& r matches Err(e) && e == TradingChallengeError::UnauthorizedAdmin
            &&& *final(state) == *old(state)
        },
        caller == old(state).admin ==> {
            &&& *final(state) == (ProgramState {
                oracle_authority: new_oracle,
                admin: old(state).admin,
            })
            &&& r matches Ok(ev) && ev == (OracleAuthorityUpdated {
                old_oracle: old(state).oracle_authority,
                new_oracle,
                updated_by: caller,
            })
        },
{
    if !crate::guards::is_admin(caller, state) {
        return Err(TradingChallengeError::UnauthorizedAdmin);
    }
    let old_oracle = state.oracle_authority;
    state.oracle_authority = new_oracle;
    Ok(OracleAuthorityUpdated { old_oracle, new_oracle, updated_by: caller })
}

} // verus!
