use vstd::prelude::*;

use crate::error::LoadError;
use crate::handle::{ConfigView, HandleView};
use crate::model::{
    bus_outcome, mint_outcome, pda_outcome, signer_outcome, token_account_outcome,
    treasury_outcome, uninitialized_outcome, uninitialized_pda_outcome,
};
use crate::pda::derived_address;
use crate::token::{mint_decodes, token_account_decodes};

verus! {

/// Address derivation is deterministic: identical seed sequences under
/// identical program identities derive identical results.
pub proof fn lemma_derivation_deterministic(
    seeds1: Seq<Seq<u8>>,
    seeds2: Seq<Seq<u8>>,
    pid1: Seq<u8>,
    pid2: Seq<u8>,
)
    requires
        seeds1 == seeds2,
        pid1 == pid2,
    ensures
        derived_address(seeds1, pid1) == derived_address(seeds2, pid2),
{
}

/// The signer gate rejects every handle without the signer capability and
/// accepts every handle with it, regardless of the other fields.
pub proof fn lemma_signer_gate(h: HandleView)
    ensures
        h.is_signer ==> signer_outcome(h) == Ok::<(), LoadError>(()),
        !h.is_signer ==> signer_outcome(h) == Err::<(), LoadError>(LoadError::MissingSignature),
{
}

/// A derived-address account whose address differs from the derivation is
/// rejected with `InvalidSeeds`, even where its owner and writability are
/// otherwise correct.
pub proof fn lemma_pda_rejects_wrong_address(
    h: HandleView,
    seeds: Seq<Seq<u8>>,
    writable: bool,
    cfg: ConfigView,
)
    ensures
        derived_address(seeds, cfg.program_id) matches Some(k) ==> (h.address != k ==> pda_outcome(
            h,
            seeds,
            writable,
            cfg,
        ) == Err::<(), LoadError>(LoadError::InvalidSeeds)),
{
}

/// A bus handle owned by any authority other than the program itself is
/// rejected with `InvalidAccountOwner`, whatever its address.
pub proof fn lemma_bus_requires_program_owner(h: HandleView, cfg: ConfigView)
    ensures
        h.owner != cfg.program_id ==> bus_outcome(h, cfg) == Err::<(), LoadError>(
            LoadError::InvalidAccountOwner,
        ),
{
}

/// A treasury handle owned by any authority other than the program itself is
/// rejected with `InvalidAccountOwner`, whatever its address.
pub proof fn lemma_treasury_requires_program_owner(h: HandleView, cfg: ConfigView)
    ensures
        h.owner != cfg.program_id ==> treasury_outcome(h, cfg) == Err::<(), LoadError>(
            LoadError::InvalidAccountOwner,
        ),
{
}

/// The uninitialized gate rejects a non-writable handle with
/// `InvalidAccountData`, rejects a writable handle with a non-empty buffer
/// with `AccountAlreadyInitialized`, and accepts a handle that is writable,
/// empty, and owned by the default allocator.
pub proof fn lemma_uninitialized_gate(h: HandleView, cfg: ConfigView)
    ensures
        !h.is_writable ==> uninitialized_outcome(h, cfg) == Err::<(), LoadError>(
            LoadError::InvalidAccountData,
        ),
        h.is_writable && h.data.len() > 0 ==> uninitialized_outcome(h, cfg) == Err::<
            (),
            LoadError,
        >(LoadError::AccountAlreadyInitialized),
        h.is_writable && h.data.len() == 0 && h.owner == cfg.system_program_id
            ==> uninitialized_outcome(h, cfg) == Ok::<(), LoadError>(()),
{
}

/// Once the address of a not-yet-claimed derived-address account matches its
/// derivation, the validation defers entirely to the uninitialized gate.
pub proof fn lemma_uninitialized_pda_defers(h: HandleView, seeds: Seq<Seq<u8>>, cfg: ConfigView)
    ensures
        derived_address(seeds, cfg.program_id) matches Some(k) ==> (h.address == k
            ==> uninitialized_pda_outcome(h, seeds, cfg) == uninitialized_outcome(h, cfg)),
{
}

/// The mint gate rejects any address other than the single fixed expected
/// mint address with `InvalidAccountData`, even where the buffer decodes as
/// a well-formed mint record under the right owner.
pub proof fn lemma_mint_fixed_address(h: HandleView, cfg: ConfigView)
    ensures
        h.owner == cfg.token_program_id && h.data.len() > 0 && mint_decodes(h.data) && h.address
            != cfg.mint_address ==> mint_outcome(h, cfg) == Err::<(), LoadError>(
            LoadError::InvalidAccountData,
        ),
{
}

/// A token account whose decoded mint or holder field differs from the
/// caller's expectation is rejected with `InvalidAccountData`, independent
/// of the handle's own address.
pub proof fn lemma_token_account_field_match(
    h: HandleView,
    owner: Seq<u8>,
    mint: Seq<u8>,
    cfg: ConfigView,
)
    ensures
        h.owner == cfg.token_program_id && h.data.len() > 0 && token_account_decodes(h.data)
            && h.data.subrange(0, 32) != mint ==> token_account_outcome(h, owner, mint, cfg)
            == Err::<(), LoadError>(LoadError::InvalidAccountData),
        h.owner == cfg.token_program_id && h.data.len() > 0 && token_account_decodes(h.data)
            && h.data.subrange(32, 64) != owner ==> token_account_outcome(h, owner, mint, cfg)
            == Err::<(), LoadError>(LoadError::InvalidAccountData),
{
}

} // verus!
