//! Account-validation layer for an on-chain program.
//!
//! Every instruction receives a set of untyped account handles from the host
//! runtime; nothing about them is trustworthy. Before any business logic may
//! read or mutate an account, the loaders here prove that the handle is
//! exactly the entity the instruction expects: the right derived address,
//! the right owning authority, the right layout, and the right
//! initialization state.

mod address;
mod error;
mod handle;
mod laws;
mod loaders;
mod model;
mod pda;
mod state;
mod token;

pub use address::{address_eq, bytes_eq, Address, ADDRESS_LEN};
pub use error::LoadError;
pub use handle::{AccountHandle, Config, ConfigView, HandleView};
pub use laws::{
    lemma_bus_requires_program_owner, lemma_derivation_deterministic, lemma_mint_fixed_address,
    lemma_pda_rejects_wrong_address, lemma_signer_gate, lemma_token_account_field_match,
    lemma_treasury_requires_program_owner, lemma_uninitialized_gate,
    lemma_uninitialized_pda_defers,
};
pub use loaders::{
    load_account, load_bus, load_mint, load_pda, load_signer, load_token_account, load_treasury,
    load_uninitialized_account, load_uninitialized_pda, require_owner,
};
pub use model::{
    account_outcome, agrees, bus_outcome, mint_outcome, owner_outcome, pda_outcome, signer_outcome,
    token_account_outcome, treasury_outcome, uninitialized_outcome, uninitialized_pda_outcome,
};
pub use pda::{
    bus_seeds, bus_tag, bus_tag_spec, byte_seed, derive_address, derived_address, seeds_view,
    treasury_seeds, treasury_tag, treasury_tag_spec,
};
pub use state::{
    bus_of, decode_bus, decode_treasury, le_u64, treasury_of, Bus, Treasury, BUS_RECORD_LEN,
    TREASURY_RECORD_LEN,
};
pub use token::{
    coption_tag_ok, mint_decodes, token_account_decodes, TokenAccountRecord, MINT_RECORD_LEN,
    TOKEN_ACCOUNT_RECORD_LEN,
};
