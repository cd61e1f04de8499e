use vstd::prelude::*;

use crate::address::Address;
use crate::error::LoadError;

verus! {

/// The address that the derivation function yields for a seed sequence and a
/// program identity, or `None` where the combination cannot produce a valid
/// address. The derivation is a one-way, collision-resistant function of its
/// two arguments alone, so it is left uninterpreted here.
pub uninterp spec fn derived_address(seeds: Seq<Seq<u8>>, program_id: Seq<u8>) -> Option<Seq<u8>>;

/// The views of a sequence of seed byte-strings.
pub open spec fn seeds_view(seeds: Seq<Vec<u8>>) -> Seq<Seq<u8>> {
    seeds.map_values(|s: Vec<u8>| s@)
}

/// Relies on solana_program's Pubkey::create_program_address: the result is a
/// deterministic function of the seed byte-strings and the program identity
/// alone (a hash of both, rejected when it lands on the curve), and the call
/// never panics.
#[verifier::external_body]
fn create_address(seeds: &Vec<Vec<u8>>, program_id: &Address) -> (r: Option<Address>)
    requires
        program_id.wf(),
    ensures
        match r {
            Some(a) => a.wf() && derived_address(seeds_view(seeds@), program_id@) == Some(a@),
            None => derived_address(seeds_view(seeds@), program_id@) is None,
        },
{
    let id = solana_program::pubkey::Pubkey::new_from_array(
        program_id.bytes.as_slice().try_into().unwrap(),
    );
    let refs: Vec<&[u8]> = seeds.iter().map(|s| s.as_slice()).collect();
    match solana_program::pubkey::Pubkey::create_program_address(&refs, &id) {
        Ok(key) => Some(Address { bytes: key.to_bytes().to_vec() }),
        Err(_) => None,
    }
}

/// Derives the address for a seed sequence under a program identity.
/// Fails with `InvalidSeeds` where the seed combination cannot produce a
/// valid address; this failure propagates, it is never retried with another
/// nonce, because callers are expected to have pre-computed a working nonce.
pub fn derive_address(seeds: &Vec<Vec<u8>>, program_id: &Address) -> (r: Result<Address, LoadError>)
    requires
        program_id.wf(),
    ensures
        match derived_address(seeds_view(seeds@), program_id@) {
            Some(a) => r matches Ok(x) && x@ == a && x.wf(),
            None => r == Err::<Address, LoadError>(LoadError::InvalidSeeds),
        },
{
    match create_address(seeds, program_id) {
        Some(a) => Ok(a),
        None => Err(LoadError::InvalidSeeds),
    }
}

/// Builds the one-byte seed that carries a nonce or a truncated identifier.
pub fn byte_seed(b: u8) -> (r: Vec<u8>)
    ensures
        r@ == seq![b],
{
    let mut v: Vec<u8> = Vec::new();
    v.push(b);
    proof {
        assert(v@ =~= seq![b]);
    }
    v
}

/// The fixed tag that starts every bus derivation: the bytes of "bus".
pub open spec fn bus_tag_spec() -> Seq<u8> {
    seq![98u8, 117u8, 115u8]
}

/// The fixed tag that starts the treasury derivation: the bytes of "treasury".
pub open spec fn treasury_tag_spec() -> Seq<u8> {
    seq![116u8, 114u8, 101u8, 97u8, 115u8, 117u8, 114u8, 121u8]
}

/// Builds the bus tag seed.
pub fn bus_tag() -> (r: Vec<u8>)
    ensures
        r@ == bus_tag_spec(),
{
    let mut v: Vec<u8> = Vec::new();
    v.push(98u8);
    v.push(117u8);
    v.push(115u8);
    proof {
        assert(v@ =~= bus_tag_spec());
    }
    v
}

/// Builds the treasury tag seed.
pub fn treasury_tag() -> (r: Vec<u8>)
    ensures
        r@ == treasury_tag_spec(),
{
    let mut v: Vec<u8> = Vec::new();
    v.push(116u8);
    v.push(114u8);
    v.push(101u8);
    v.push(97u8);
    v.push(115u8);
    v.push(117u8);
    v.push(114u8);
    v.push(121u8);
    proof {
        assert(v@ =~= treasury_tag_spec());
    }
    v
}

/// The seed sequence of a bus: the bus tag, the low byte of the bus's slot
/// id, and the low byte of its bump.
pub open spec fn bus_seeds(id: u64, bump: u64) -> Seq<Seq<u8>> {
    seq![bus_tag_spec(), seq![(id % 256) as u8], seq![(bump % 256) as u8]]
}

/// The seed sequence of the treasury: the treasury tag and the low byte of
/// its bump.
pub open spec fn treasury_seeds(bump: u64) -> Seq<Seq<u8>> {
    seq![treasury_tag_spec(), seq![(bump % 256) as u8]]
}

} // verus!
