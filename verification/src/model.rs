use vstd::prelude::*;

use crate::error::LoadError;
use crate::handle::{AccountHandle, ConfigView, HandleView};
use crate::pda::{bus_seeds, derived_address, treasury_seeds};
use crate::state::{bus_of, treasury_of};
use crate::token::{mint_decodes, token_account_decodes};

verus! {

/// How a loader's result relates to its mathematical outcome: on success the
/// loader returns the very handle it was given, on failure exactly the
/// outcome's error.
pub open spec fn agrees(
    r: Result<&AccountHandle, LoadError>,
    h: &AccountHandle,
    outcome: Result<(), LoadError>,
) -> bool {
    match outcome {
        Ok(_) => r == Ok::<&AccountHandle, LoadError>(h),
        Err(e) => r == Err::<&AccountHandle, LoadError>(e),
    }
}

/// The outcome of the signer gate: accept exactly the handles that carry the
/// signer capability.
pub open spec fn signer_outcome(h: HandleView) -> Result<(), LoadError> {
    if !h.is_signer {
        Err(LoadError::MissingSignature)
    } else {
        Ok(())
    }
}

/// The outcome of the ownership gate: accept exactly the handles whose
/// declared owner equals the expected authority; no bytes are inspected.
pub open spec fn owner_outcome(h: HandleView, expected: Seq<u8>) -> Result<(), LoadError> {
    if h.owner != expected {
        Err(LoadError::InvalidAccountOwner)
    } else {
        Ok(())
    }
}

/// The outcome of validating a program-owned derived-address account: the
/// handle's address must equal the address derived from the seeds under the
/// program's identity, its owner must be the program itself, and, where the
/// caller asks for a writable account, it must be writable.
pub open spec fn pda_outcome(
    h: HandleView,
    seeds: Seq<Seq<u8>>,
    writable: bool,
    cfg: ConfigView,
) -> Result<(), LoadError> {
    match derived_address(seeds, cfg.program_id) {
        None => Err(LoadError::InvalidSeeds),
        Some(k) => if h.address != k {
            Err(LoadError::InvalidSeeds)
        } else if h.owner != cfg.program_id {
            Err(LoadError::InvalidAccountOwner)
        } else if writable && !h.is_writable {
            Err(LoadError::InvalidAccountData)
        } else {
            Ok(())
        },
    }
}

/// The outcome of the uninitialized gate: the handle must be writable, its
/// buffer empty, and its owner the runtime's default allocator — the
/// precondition for this program to claim and initialize the account. A
/// non-writable handle is a caller-configuration bug (`InvalidAccountData`);
/// a populated or already-claimed one is the expected race
/// (`AccountAlreadyInitialized`).
pub open spec fn uninitialized_outcome(h: HandleView, cfg: ConfigView) -> Result<(), LoadError> {
    if !h.is_writable {
        Err(LoadError::InvalidAccountData)
    } else if h.data.len() > 0 || h.owner != cfg.system_program_id {
        Err(LoadError::AccountAlreadyInitialized)
    } else {
        Ok(())
    }
}

/// The outcome of validating a not-yet-claimed derived-address account: the
/// address must match the derivation, then the full uninitialized gate
/// applies.
pub open spec fn uninitialized_pda_outcome(
    h: HandleView,
    seeds: Seq<Seq<u8>>,
    cfg: ConfigView,
) -> Result<(), LoadError> {
    match derived_address(seeds, cfg.program_id) {
        None => Err(LoadError::InvalidSeeds),
        Some(k) => if h.address != k {
            Err(LoadError::InvalidSeeds)
        } else {
            uninitialized_outcome(h, cfg)
        },
    }
}

/// The outcome of validating a bus account: owned by the program, populated,
/// and standing at the address derived from the bus tag together with the id
/// and bump its own bytes declare.
pub open spec fn bus_outcome(h: HandleView, cfg: ConfigView) -> Result<(), LoadError> {
    if h.owner != cfg.program_id {
        Err(LoadError::InvalidAccountOwner)
    } else if h.data.len() == 0 {
        Err(LoadError::UninitializedAccount)
    } else {
        let bus = bus_of(h.data);
        match derived_address(bus_seeds(bus.id, bus.bump), cfg.program_id) {
            None => Err(LoadError::InvalidSeeds),
            Some(k) => if h.address != k {
                Err(LoadError::InvalidSeeds)
            } else {
                Ok(())
            },
        }
    }
}

/// The outcome of validating the treasury account: owned by the program,
/// populated, and standing at the address derived from the treasury tag
/// together with the bump its own bytes declare.
pub open spec fn treasury_outcome(h: HandleView, cfg: ConfigView) -> Result<(), LoadError> {
    if h.owner != cfg.program_id {
        Err(LoadError::InvalidAccountOwner)
    } else if h.data.len() == 0 {
        Err(LoadError::UninitializedAccount)
    } else {
        let treasury = treasury_of(h.data);
        match derived_address(treasury_seeds(treasury.bump), cfg.program_id) {
            None => Err(LoadError::InvalidSeeds),
            Some(k) => if h.address != k {
                Err(LoadError::InvalidSeeds)
            } else {
                Ok(())
            },
        }
    }
}

/// The outcome of validating the one expected external mint: owned by the
/// external token program, populated, decodable under the external mint
/// layout, and standing at the single fixed expected mint address.
pub open spec fn mint_outcome(h: HandleView, cfg: ConfigView) -> Result<(), LoadError> {
    if h.owner != cfg.token_program_id {
        Err(LoadError::InvalidAccountOwner)
    } else if h.data.len() == 0 {
        Err(LoadError::UninitializedAccount)
    } else if !mint_decodes(h.data) {
        Err(LoadError::InvalidAccountData)
    } else if h.address != cfg.mint_address {
        Err(LoadError::InvalidAccountData)
    } else {
        Ok(())
    }
}

/// The outcome of validating an external token account: owned by the
/// external token program, populated, decodable under the external
/// token-account layout, and carrying exactly the expected mint and holder
/// in its decoded record.
pub open spec fn token_account_outcome(
    h: HandleView,
    owner: Seq<u8>,
    mint: Seq<u8>,
    cfg: ConfigView,
) -> Result<(), LoadError> {
    if h.owner != cfg.token_program_id {
        Err(LoadError::InvalidAccountOwner)
    } else if h.data.len() == 0 {
        Err(LoadError::UninitializedAccount)
    } else if !token_account_decodes(h.data) {
        Err(LoadError::InvalidAccountData)
    } else if h.data.subrange(0, 32) != mint {
        Err(LoadError::InvalidAccountData)
    } else if h.data.subrange(32, 64) != owner {
        Err(LoadError::InvalidAccountData)
    } else {
        Ok(())
    }
}

/// The outcome of the plain identity check: the handle's address must equal
/// the expected one; no ownership or content is inspected.
pub open spec fn account_outcome(h: HandleView, key: Seq<u8>) -> Result<(), LoadError> {
    if h.address != key {
        Err(LoadError::InvalidAccountData)
    } else {
        Ok(())
    }
}

} // verus!
