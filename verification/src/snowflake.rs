use vstd::prelude::*;

verus! {

/// Milliseconds between the platform epoch (2015-01-01T00:00:00Z) and the Unix epoch.
pub const EPOCH_OFFSET_MS: u64 = 1420070400000;

/// Creation time in milliseconds since the Unix epoch, as encoded in the
/// high 42 bits of a snowflake id.
pub open spec fn spec_creation_ms(id: u64) -> nat {
    id as nat / 0x400000 + 1420070400000
}

/// Decode the creation time (milliseconds) from a snowflake id.
pub fn creation_ms(id: u64) -> (ms: u64)
    ensures
        ms == spec_creation_ms(id),
{
    proof {
        assert(id >> 22 == id / 0x400000) by (bit_vector);
        assert(id >> 22 <= 0x3FF_FFFF_FFFFu64) by (bit_vector);
    }
    (id >> 22) + EPOCH_OFFSET_MS
}

/// Decode the creation time from a snowflake id at microsecond precision.
/// The decoding is total: it fits a 64-bit number for every id.
pub fn creation_micros(id: u64) -> (us: u64)
    ensures
        us == spec_creation_ms(id) * 1000,
{
    let ms = creation_ms(id);
    ms * 1000
}

} // verus!
