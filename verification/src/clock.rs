//! Seeds for stream identifiers, mixed from the system clock.
//!
//! SSRCs and paging sample counters must differ across consecutive
//! sessions; no cryptographic strength is required.

use vstd::prelude::*;

verus! {

/// Relies on std::time::SystemTime: nanoseconds since the Unix epoch,
/// truncated to 64 bits. Nothing is promised of the value.
#[verifier::external_body]
fn unix_nanos() -> u64 {
    std::time::SystemTime::now().duration_since(std::time::SystemTime::UNIX_EPOCH).unwrap_or_default().as_nanos()
        as u64
}

/// The multiplicative mix that spreads a clock seed over 64 bits.
pub open spec fn spec_mix(seed: u64) -> u64 {
    seed.wrapping_mul(0x517c_c1b7_2722_0a95)
}

/// Spreads a clock seed over 64 bits.
pub fn mix_seed(seed: u64) -> (r: u64)
    ensures
        r == spec_mix(seed),
{
    seed.wrapping_mul(0x517c_c1b7_2722_0a95)
}

/// The four serial bytes a mixed seed yields, most significant first.
pub open spec fn spec_serial_bytes(hash: u64) -> [u8; 4] {
    [
        ((hash / 0x1000000) % 256) as u8,
        ((hash / 0x10000) % 256) as u8,
        ((hash / 256) % 256) as u8,
        (hash % 256) as u8,
    ]
}

/// Derives four host-serial bytes from a mixed seed.
pub fn serial_bytes(hash: u64) -> (r: [u8; 4])
    ensures
        r == spec_serial_bytes(hash),
{
    [
        ((hash / 0x1000000) % 256) as u8,
        ((hash / 0x10000) % 256) as u8,
        ((hash / 256) % 256) as u8,
        (hash % 256) as u8,
    ]
}

/// A pseudo-random host serial, standing in for the tail of a MAC address.
/// Derived from the clock, so consecutive calls differ in practice.
pub fn generate_host_serial() -> (r: [u8; 4])
    ensures
        exists|seed: u64| r == spec_serial_bytes(spec_mix(seed)),
{
    let seed = unix_nanos();
    let hash = mix_seed(seed);
    serial_bytes(hash)
}

/// A pseudo-random 32-bit stream identifier seeded from the clock.
pub fn rand_ssrc() -> u32 {
    let seed: u64 = unix_nanos();
    let mixed = (seed as u32).wrapping_mul(1_103_515_245).wrapping_add(12345);
    mixed
}

/// A pseudo-random initial sample counter, the high half of a mixed clock
/// seed, as paging senders start their counters at a non-zero value.
pub fn initial_sample_count() -> (r: u32)
    ensures
        exists|seed: u64| r == (spec_mix(seed) / 0x1_0000_0000) as u32,
{
    let seed = unix_nanos();
    let hash = mix_seed(seed);
    (hash / 0x1_0000_0000) as u32
}

} // verus!
