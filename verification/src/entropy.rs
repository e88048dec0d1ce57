//! The entropy adapter: from the host's recent-history buffer to a seed.

use vstd::prelude::*;
use crate::error::CustomError;

verus! {

/// The number that the first eight bytes of `data` spell, least significant
/// byte first. Meaningful where `data` holds at least eight bytes.
pub open spec fn seed_of(data: Seq<u8>) -> nat
    recommends
        data.len() >= 8,
{
    data[0] as nat
        + (data[1] as nat) * 0x100
        + (data[2] as nat) * 0x1_0000
        + (data[3] as nat) * 0x100_0000
        + (data[4] as nat) * 0x1_0000_0000
        + (data[5] as nat) * 0x100_0000_0000
        + (data[6] as nat) * 0x1_0000_0000_0000
        + (data[7] as nat) * 0x100_0000_0000_0000
}

/// What `extract_seed` answers for a buffer.
pub open spec fn seed_verdict(data: Seq<u8>) -> Result<u64, CustomError> {
    if data.len() < 8 {
        Err(CustomError::EntropyUnavailable)
    } else {
        Ok(seed_of(data) as u64)
    }
}

/// Eight bytes never spell more than a `u64` holds.
pub proof fn seed_fits(data: Seq<u8>)
    ensures
        seed_of(data) <= u64::MAX,
{
}

/// The seed is a function of the first eight bytes alone: two buffers that
/// agree on them give the same seed, whatever follows.
pub proof fn seed_reads_first_eight_bytes(a: Seq<u8>, b: Seq<u8>)
    requires
        a.len() >= 8,
        b.len() >= 8,
        a.subrange(0, 8) == b.subrange(0, 8),
    ensures
        seed_of(a) == seed_of(b),
        seed_verdict(a) == seed_verdict(b),
{
    assert forall|i: int| 0 <= i < 8 implies a[i] == b[i] by {
        assert(a.subrange(0, 8)[i] == a[i]);
        assert(b.subrange(0, 8)[i] == b[i]);
    }
}

/// Reads the seed off the front of the host's buffer. A buffer that is absent
/// or cut short of eight bytes gives `EntropyUnavailable`.
pub fn extract_seed(data: &[u8]) -> (r: Result<u64, CustomError>)
    ensures
        r == seed_verdict(data@),
{
    if data.len() < 8 {
        return Err(CustomError::EntropyUnavailable);
    }
    let low = data[0] as u64
        + (data[1] as u64) * 0x100
        + (data[2] as u64) * 0x1_0000
        + (data[3] as u64) * 0x100_0000;
    let high = data[4] as u64
        + (data[5] as u64) * 0x100
        + (data[6] as u64) * 0x1_0000
        + (data[7] as u64) * 0x100_0000;
    Ok(low + high * 0x1_0000_0000)
}

} // verus!
