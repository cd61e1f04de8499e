use vstd::prelude::*;

use crate::address::{bytes_eq, Address};
use crate::error::LoadError;
use crate::handle::{AccountHandle, Config};
use crate::model::{
    account_outcome, agrees, bus_outcome, mint_outcome, owner_outcome, pda_outcome,
    signer_outcome, token_account_outcome, treasury_outcome, uninitialized_outcome,
    uninitialized_pda_outcome,
};
use crate::pda::{
    bus_seeds, bus_tag, byte_seed, derived_address, seeds_view, treasury_seeds, treasury_tag,
};
use crate::state::{decode_bus, decode_treasury, BUS_RECORD_LEN, TREASURY_RECORD_LEN};
use crate::token::{spl_mint_decodes, spl_token_account_decode};

verus! {

/// Returns the handle unchanged exactly when it carries the signer
/// capability; fails with `MissingSignature` otherwise, whatever the other
/// fields hold.
pub fn load_signer<'a>(info: &'a AccountHandle) -> (r: Result<&'a AccountHandle, LoadError>)
    ensures
        agrees(r, info, signer_outcome(info@)),
{
    if !info.is_signer {
        return Err(LoadError::MissingSignature);
    }
    Ok(info)
}

/// Returns the handle unchanged exactly when its declared owner equals the
/// expected authority; fails with `InvalidAccountOwner` otherwise. A pure
/// comparison: the handle's bytes are never inspected.
pub fn require_owner<'a>(info: &'a AccountHandle, expected: &Address) -> (r: Result<
    &'a AccountHandle,
    LoadError,
>)
    ensures
        agrees(r, info, owner_outcome(info@, expected@)),
{
    if !bytes_eq(&info.owner.bytes, &expected.bytes) {
        return Err(LoadError::InvalidAccountOwner);
    }
    Ok(info)
}

/// Validates a program-owned derived-address account: the handle's address
/// must equal the address derived from `seeds` under the program's identity
/// (`InvalidSeeds` otherwise, also when the seeds derive no valid address),
/// its declared owner must be the program itself (`InvalidAccountOwner`),
/// and, where `writable` is asked, the handle must be writable
/// (`InvalidAccountData`). Returns the handle unchanged on success.
pub fn load_pda<'a>(
    info: &'a AccountHandle,
    seeds: &Vec<Vec<u8>>,
    writable: bool,
    cfg: &Config,
) -> (r: Result<&'a AccountHandle, LoadError>)
    requires
        cfg.wf(),
    ensures
        agrees(r, info, pda_outcome(info@, seeds_view(seeds@), writable, cfg@)),
{
    let key = match crate::pda::derive_address(seeds, &cfg.program_id) {
        Ok(k) => k,
        Err(e) => return Err(e),
    };
    if !bytes_eq(&info.address.bytes, &key.bytes) {
        return Err(LoadError::InvalidSeeds);
    }
    if let Err(e) = require_owner(info, &cfg.program_id) {
        return Err(e);
    }
    if writable {
        if !info.is_writable {
            return Err(LoadError::InvalidAccountData);
        }
    }
    Ok(info)
}

/// Validates a not-yet-claimed derived-address account: the handle's address
/// must equal the address derived from `seeds` under the program's identity
/// (`InvalidSeeds` otherwise), and the handle must pass the full
/// uninitialized gate. Returns the handle unchanged on success.
pub fn load_uninitialized_pda<'a>(
    info: &'a AccountHandle,
    seeds: &Vec<Vec<u8>>,
    cfg: &Config,
) -> (r: Result<&'a AccountHandle, LoadError>)
    requires
        cfg.wf(),
    ensures
        agrees(r, info, uninitialized_pda_outcome(info@, seeds_view(seeds@), cfg@)),
{
    let key = match crate::pda::derive_address(seeds, &cfg.program_id) {
        Ok(k) => k,
        Err(e) => return Err(e),
    };
    if !bytes_eq(&info.address.bytes, &key.bytes) {
        return Err(LoadError::InvalidSeeds);
    }
    load_uninitialized_account(info, cfg)
}

/// Validates a bus account: owned by the program (`InvalidAccountOwner`),
/// populated (`UninitializedAccount`), and standing at the address derived
/// from the bus tag with the slot id and bump that its own bytes declare
/// (`InvalidSeeds`). A program-owned, populated bus buffer is a maintained
/// invariant of the program, so a buffer of the wrong length indicates data
/// corruption and is excluded by precondition rather than reported.
pub fn load_bus<'a>(info: &'a AccountHandle, cfg: &Config) -> (r: Result<
    &'a AccountHandle,
    LoadError,
>)
    requires
        cfg.wf(),
        info@.owner == cfg@.program_id && info@.data.len() > 0 ==> info@.data.len()
            == BUS_RECORD_LEN,
    ensures
        agrees(r, info, bus_outcome(info@, cfg@)),
{
    if let Err(e) = require_owner(info, &cfg.program_id) {
        return Err(e);
    }
    if info.data.len() == 0 {
        return Err(LoadError::UninitializedAccount);
    }
    let bus = match decode_bus(&info.data) {
        Ok(b) => b,
        Err(e) => return Err(e),
    };
    let mut seeds: Vec<Vec<u8>> = Vec::new();
    seeds.push(bus_tag());
    seeds.push(byte_seed((bus.id % 256) as u8));
    seeds.push(byte_seed((bus.bump % 256) as u8));
    proof {
        assert(seeds_view(seeds@) =~~= bus_seeds(bus.id, bus.bump));
    }
    let key = match crate::pda::derive_address(&seeds, &cfg.program_id) {
        Ok(k) => k,
        Err(e) => return Err(e),
    };
    if !bytes_eq(&info.address.bytes, &key.bytes) {
        return Err(LoadError::InvalidSeeds);
    }
    Ok(info)
}

/// Validates the treasury account: owned by the program
/// (`InvalidAccountOwner`), populated (`UninitializedAccount`), and standing
/// at the address derived from the treasury tag with the bump that its own
/// bytes declare (`InvalidSeeds`). As with a bus, a buffer of the wrong
/// length indicates data corruption and is excluded by precondition.
pub fn load_treasury<'a>(info: &'a AccountHandle, cfg: &Config) -> (r: Result<
    &'a AccountHandle,
    LoadError,
>)
    requires
        cfg.wf(),
        info@.owner == cfg@.program_id && info@.data.len() > 0 ==> info@.data.len()
            == TREASURY_RECORD_LEN,
    ensures
        agrees(r, info, treasury_outcome(info@, cfg@)),
{
    if let Err(e) = require_owner(info, &cfg.program_id) {
        return Err(e);
    }
    if info.data.len() == 0 {
        return Err(LoadError::UninitializedAccount);
    }
    let treasury = match decode_treasury(&info.data) {
        Ok(t) => t,
        Err(e) => return Err(e),
    };
    let mut seeds: Vec<Vec<u8>> = Vec::new();
    seeds.push(treasury_tag());
    seeds.push(byte_seed((treasury.bump % 256) as u8));
    proof {
        assert(seeds_view(seeds@) =~~= treasury_seeds(treasury.bump));
    }
    let key = match crate::pda::derive_address(&seeds, &cfg.program_id) {
        Ok(k) => k,
        Err(e) => return Err(e),
    };
    if !bytes_eq(&info.address.bytes, &key.bytes) {
        return Err(LoadError::InvalidSeeds);
    }
    Ok(info)
}

/// Validates the one expected external mint: owned by the external token
/// program (`InvalidAccountOwner`), populated (`UninitializedAccount`),
/// decodable under the external mint layout, and standing at the single
/// fixed expected mint address (`InvalidAccountData` for either). A decode
/// failure here is reported, not fatal: the account is foreign-owned, so its
/// shape is no invariant of this program.
pub fn load_mint<'a>(info: &'a AccountHandle, cfg: &Config) -> (r: Result<
    &'a AccountHandle,
    LoadError,
>)
    ensures
        agrees(r, info, mint_outcome(info@, cfg@)),
{
    if let Err(e) = require_owner(info, &cfg.token_program_id) {
        return Err(e);
    }
    if info.data.len() == 0 {
        return Err(LoadError::UninitializedAccount);
    }
    if !spl_mint_decodes(&info.data) {
        return Err(LoadError::InvalidAccountData);
    }
    if !bytes_eq(&info.address.bytes, &cfg.mint_address.bytes) {
        return Err(LoadError::InvalidAccountData);
    }
    Ok(info)
}

/// Validates an external token account: owned by the external token program
/// (`InvalidAccountOwner`), populated (`UninitializedAccount`), decodable
/// under the external token-account layout, and carrying exactly the
/// caller's expected mint and holder in its decoded record
/// (`InvalidAccountData` for any of the three).
pub fn load_token_account<'a>(
    info: &'a AccountHandle,
    owner: &Address,
    mint: &Address,
    cfg: &Config,
) -> (r: Result<&'a AccountHandle, LoadError>)
    ensures
        agrees(r, info, token_account_outcome(info@, owner@, mint@, cfg@)),
{
    if let Err(e) = require_owner(info, &cfg.token_program_id) {
        return Err(e);
    }
    if info.data.len() == 0 {
        return Err(LoadError::UninitializedAccount);
    }
    let record = match spl_token_account_decode(&info.data) {
        Some(t) => t,
        None => return Err(LoadError::InvalidAccountData),
    };
    if !bytes_eq(&record.mint.bytes, &mint.bytes) {
        return Err(LoadError::InvalidAccountData);
    }
    if !bytes_eq(&record.owner.bytes, &owner.bytes) {
        return Err(LoadError::InvalidAccountData);
    }
    Ok(info)
}

/// Validates that an account is still unclaimed: writable
/// (`InvalidAccountData` otherwise — a caller-configuration bug), with an
/// empty buffer and owned by the runtime's default allocator
/// (`AccountAlreadyInitialized` otherwise — the expected race in retry
/// logic). Returns the handle unchanged on success.
pub fn load_uninitialized_account<'a>(info: &'a AccountHandle, cfg: &Config) -> (r: Result<
    &'a AccountHandle,
    LoadError,
>)
    ensures
        agrees(r, info, uninitialized_outcome(info@, cfg@)),
{
    if !info.is_writable {
        return Err(LoadError::InvalidAccountData);
    }
    if info.data.len() != 0 || !bytes_eq(&info.owner.bytes, &cfg.system_program_id.bytes) {
        return Err(LoadError::AccountAlreadyInitialized);
    }
    Ok(info)
}

/// Confirms an account's identity alone: the handle's address must equal the
/// expected one (`InvalidAccountData` otherwise); no ownership or content
/// check — used where the caller only needs a passthrough reference.
pub fn load_account<'a>(info: &'a AccountHandle, key: &Address) -> (r: Result<
    &'a AccountHandle,
    LoadError,
>)
    ensures
        agrees(r, info, account_outcome(info@, key@)),
{
    if !bytes_eq(&info.address.bytes, &key.bytes) {
        return Err(LoadError::InvalidAccountData);
    }
    Ok(info)
}

} // verus!
