use vstd::prelude::*;

use solana_program::program_pack::Pack;

use crate::address::Address;

verus! {

/// The exact byte length of an external mint record.
pub const MINT_RECORD_LEN: usize = 82;

/// The exact byte length of an external token-account record.
pub const TOKEN_ACCOUNT_RECORD_LEN: usize = 165;

/// Whether four bytes are a valid optional-field tag of the external token
/// layout: a little-endian 0 (absent) or 1 (present).
pub open spec fn coption_tag_ok(s: Seq<u8>) -> bool
    recommends
        s.len() == 4,
{
    (s[0] == 0 || s[0] == 1) && s[1] == 0 && s[2] == 0 && s[3] == 0
}

/// Whether a buffer decodes as a well-formed external mint record: exactly 82
/// bytes, a valid optional-authority tag at offset 0, an initialization byte
/// of 0 or 1 at offset 45, and a valid optional-freeze-authority tag at
/// offset 46.
pub open spec fn mint_decodes(data: Seq<u8>) -> bool {
    &&& data.len() == MINT_RECORD_LEN
    &&& coption_tag_ok(data.subrange(0, 4))
    &&& (data[45] == 0 || data[45] == 1)
    &&& coption_tag_ok(data.subrange(46, 50))
}

/// Whether a buffer decodes as a well-formed external token-account record:
/// exactly 165 bytes, a valid optional-delegate tag at offset 72, a state
/// byte of 0, 1 or 2 at offset 108, a valid optional-native tag at offset
/// 109, and a valid optional-close-authority tag at offset 129. The mint
/// address occupies bytes 0..32 and the holder's address bytes 32..64.
pub open spec fn token_account_decodes(data: Seq<u8>) -> bool {
    &&& data.len() == TOKEN_ACCOUNT_RECORD_LEN
    &&& coption_tag_ok(data.subrange(72, 76))
    &&& (data[108] == 0 || data[108] == 1 || data[108] == 2)
    &&& coption_tag_ok(data.subrange(109, 113))
    &&& coption_tag_ok(data.subrange(129, 133))
}

/// The two fields of an external token-account record that this layer
/// inspects: the mint the account holds, and the holder it belongs to.
#[derive(Clone, Debug, PartialEq, Eq)]
pub struct TokenAccountRecord {
    pub mint: Address,
    pub owner: Address,
}

/// Relies on spl_token's Mint::unpack_unchecked: it succeeds exactly on an
/// 82-byte buffer whose two optional-field tags and initialization byte are
/// valid, it is a function of the bytes alone, and it never panics.
#[verifier::external_body]
pub(crate) fn spl_mint_decodes(data: &Vec<u8>) -> (r: bool)
    ensures
        r == mint_decodes(data@),
{
    spl_token::state::Mint::unpack_unchecked(data.as_slice()).is_ok()
}

/// Relies on spl_token's Account::unpack_unchecked: it succeeds exactly on a
/// 165-byte buffer whose three optional-field tags and state byte are valid,
/// its mint field is bytes 0..32 and its owner field bytes 32..64 of the
/// buffer, it is a function of the bytes alone, and it never panics.
#[verifier::external_body]
pub(crate) fn spl_token_account_decode(data: &Vec<u8>) -> (r: Option<TokenAccountRecord>)
    ensures
        r is Some <==> token_account_decodes(data@),
        r matches Some(t) ==> t.mint@ == data@.subrange(0, 32) && t.owner@ == data@.subrange(
            32,
            64,
        ) && t.mint.wf() && t.owner.wf(),
{
    match spl_token::state::Account::unpack_unchecked(data.as_slice()) {
        Ok(a) => Some(
            TokenAccountRecord {
                mint: Address { bytes: a.mint.to_bytes().to_vec() },
                owner: Address { bytes: a.owner.to_bytes().to_vec() },
            },
        ),
        Err(_) => None,
    }
}

} // verus!
