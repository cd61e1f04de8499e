use vstd::prelude::*;

use crate::address::Address;

verus! {

/// A raw account handle, exactly as the host runtime supplies it for one
/// instruction: an address, a declared owning authority, a raw byte buffer,
/// and the two capability flags. Nothing about a handle is trustworthy until
/// a loader has validated it.
#[derive(Clone, Debug, PartialEq, Eq)]
pub struct AccountHandle {
    pub address: Address,
    pub owner: Address,
    pub data: Vec<u8>,
    pub is_signer: bool,
    pub is_writable: bool,
}

/// The mathematical view of a handle: plain byte sequences and flags.
pub struct HandleView {
    pub address: Seq<u8>,
    pub owner: Seq<u8>,
    pub data: Seq<u8>,
    pub is_signer: bool,
    pub is_writable: bool,
}

impl View for AccountHandle {
    type V = HandleView;

    open spec fn view(&self) -> HandleView {
        HandleView {
            address: self.address@,
            owner: self.owner@,
            data: self.data@,
            is_signer: self.is_signer,
            is_writable: self.is_writable,
        }
    }
}

/// The fixed identities the validation rules compare against, passed
/// explicitly into every loader call: this program's own identity, the
/// external token program's identity, the runtime's default allocator
/// identity, and the single expected mint address.
#[derive(Clone, Debug, PartialEq, Eq)]
pub struct Config {
    pub program_id: Address,
    pub token_program_id: Address,
    pub system_program_id: Address,
    pub mint_address: Address,
}

/// The mathematical view of a configuration.
pub struct ConfigView {
    pub program_id: Seq<u8>,
    pub token_program_id: Seq<u8>,
    pub system_program_id: Seq<u8>,
    pub mint_address: Seq<u8>,
}

impl View for Config {
    type V = ConfigView;

    open spec fn view(&self) -> ConfigView {
        ConfigView {
            program_id: self.program_id@,
            token_program_id: self.token_program_id@,
            system_program_id: self.system_program_id@,
            mint_address: self.mint_address@,
        }
    }
}

impl Config {
    /// A well-formed configuration holds four 32-byte addresses.
    pub open spec fn wf(&self) -> bool {
        &&& self.program_id.wf()
        &&& self.token_program_id.wf()
        &&& self.system_program_id.wf()
        &&& self.mint_address.wf()
    }
}

} // verus!
