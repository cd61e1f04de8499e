use vstd::prelude::*;

use crate::error::LoadError;

verus! {

/// The exact byte length of a bus record: two little-endian 64-bit fields.
pub const BUS_RECORD_LEN: usize = 16;

/// The exact byte length of a treasury record: one little-endian 64-bit field.
pub const TREASURY_RECORD_LEN: usize = 8;

/// The typed view over a bus account's bytes: its logical slot id and the
/// nonce ("bump") used in its own address derivation.
#[derive(Clone, Copy, Debug, PartialEq, Eq, Structural)]
pub struct Bus {
    pub id: u64,
    pub bump: u64,
}

/// The typed view over the treasury account's bytes: the nonce ("bump") used
/// in its address derivation.
#[derive(Clone, Copy, Debug, PartialEq, Eq, Structural)]
pub struct Treasury {
    pub bump: u64,
}

/// The unsigned 64-bit value that eight little-endian bytes hold.
pub open spec fn le_u64(s: Seq<u8>) -> u64
    recommends
        s.len() == 8,
{
    ((s[0] as int) + (s[1] as int) * 0x100 + (s[2] as int) * 0x10000 + (s[3] as int) * 0x1000000
        + (s[4] as int) * 0x100000000 + (s[5] as int) * 0x10000000000 + (s[6] as int)
        * 0x1000000000000 + (s[7] as int) * 0x100000000000000) as u64
}

/// The bus record that a 16-byte buffer holds.
pub open spec fn bus_of(data: Seq<u8>) -> Bus
    recommends
        data.len() == BUS_RECORD_LEN,
{
    Bus { id: le_u64(data.subrange(0, 8)), bump: le_u64(data.subrange(8, 16)) }
}

/// The treasury record that an 8-byte buffer holds.
pub open spec fn treasury_of(data: Seq<u8>) -> Treasury
    recommends
        data.len() == TREASURY_RECORD_LEN,
{
    Treasury { bump: le_u64(data.subrange(0, 8)) }
}

/// Reads the little-endian 64-bit field at the given offset.
fn read_u64_le(data: &Vec<u8>, off: usize) -> (r: u64)
    requires
        off + 8 <= data@.len(),
    ensures
        r == le_u64(data@.subrange(off as int, off as int + 8)),
{
    let n: usize = data.len();
    proof {
        assert(off + 8 <= n);
    }
    let r = (data[off] as u64) + (data[off + 1] as u64) * 0x100 + (data[off + 2] as u64) * 0x10000
        + (data[off + 3] as u64) * 0x1000000 + (data[off + 4] as u64) * 0x100000000 + (data[off
        + 5] as u64) * 0x10000000000 + (data[off + 6] as u64) * 0x1000000000000 + (data[off
        + 7] as u64) * 0x100000000000000;
    proof {
        let s = data@.subrange(off as int, off as int + 8);
        assert(forall|j: int| 0 <= j < 8 ==> s[j] == data@[off + j]);
    }
    r
}

/// Reinterprets a buffer as a bus record, with no copy of the buffer itself
/// and no validation beyond length: the buffer must hold exactly
/// `BUS_RECORD_LEN` bytes, anything else fails with `InvalidAccountData`.
pub fn decode_bus(data: &Vec<u8>) -> (r: Result<Bus, LoadError>)
    ensures
        data@.len() == BUS_RECORD_LEN ==> r == Ok::<Bus, LoadError>(bus_of(data@)),
        data@.len() != BUS_RECORD_LEN ==> r == Err::<Bus, LoadError>(LoadError::InvalidAccountData),
{
    if data.len() != BUS_RECORD_LEN {
        return Err(LoadError::InvalidAccountData);
    }
    let id = read_u64_le(data, 0);
    let bump = read_u64_le(data, 8);
    Ok(Bus { id, bump })
}

/// Reinterprets a buffer as a treasury record, with no copy and no validation
/// beyond length: the buffer must hold exactly `TREASURY_RECORD_LEN` bytes,
/// anything else fails with `InvalidAccountData`.
pub fn decode_treasury(data: &Vec<u8>) -> (r: Result<Treasury, LoadError>)
    ensures
        data@.len() == TREASURY_RECORD_LEN ==> r == Ok::<Treasury, LoadError>(treasury_of(data@)),
        data@.len() != TREASURY_RECORD_LEN ==> r == Err::<Treasury, LoadError>(
            LoadError::InvalidAccountData,
        ),
{
    if data.len() != TREASURY_RECORD_LEN {
        return Err(LoadError::InvalidAccountData);
    }
    let bump = read_u64_le(data, 0);
    Ok(Treasury { bump })
}

} // verus!
