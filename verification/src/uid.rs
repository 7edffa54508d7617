//! Identifiers made of a time, a machine number and a sequence number.

use crate::outside::{random_below, since_epoch, system_now, whole_millis};
use vstd::prelude::*;

verus! {

/// The millisecond from which the time of an identifier counts: the start
/// of 2024 in the zone one hour ahead of UTC.
pub const EPOCH_MILLIS: u128 = 1_704_037_200_000;

/// The bits of an identifier: the low 42 bits of the time above the low 10
/// bits of the machine number, above 12 bits in which the sequence number
/// stands.
pub open spec fn uid_bits(timestamp: u64, machine_id: u64, sequence: u64) -> u64 {
    ((timestamp & 0x3FF_FFFF_FFFF) << 22) | ((machine_id & 0x3FF) << 12) | sequence
}

/// The identifier with those bits.
pub fn compose_uid(timestamp: u64, machine_id: u64, sequence: u64) -> (uid: i64)
    ensures
        uid == uid_bits(timestamp, machine_id, sequence) as i64,
{
    let bits: u64 = ((timestamp & 0x3FF_FFFF_FFFF) << 22) | ((machine_id & 0x3FF) << 12) | sequence;
    #[verifier::truncate]
    (bits as i64)
}

/// The milliseconds from the epoch of identifiers to `now`, itself counted
/// from the start of 1970; zero where `now` is before the epoch.
pub fn millis_since_epoch(now: u128) -> (r: u64)
    ensures
        r == if now >= EPOCH_MILLIS {
            ((now - EPOCH_MILLIS) as u128 & 0x3FF_FFFF_FFFF) as u64
        } else {
            0
        },
        r <= 0x3FF_FFFF_FFFF,
{
    if now >= EPOCH_MILLIS {
        let elapsed: u128 = now - EPOCH_MILLIS;
        let low: u128 = elapsed & 0x3FF_FFFF_FFFF;
        assert(low <= 0x3FF_FFFF_FFFF) by (bit_vector)
            requires
                low == elapsed & 0x3FF_FFFF_FFFF,
        ;
        low as u64
    } else {
        0
    }
}

/// A new identifier: the time of the system clock, a machine number below
/// 1024 and a sequence number below 4096, the two drawn at random.
pub fn generate_uid() -> (uid: i64)
    ensures
        exists|timestamp: u64, machine_id: u64, sequence: u64|
            machine_id < 1024 && sequence < 4096 && uid == #[trigger] uid_bits(
                timestamp,
                machine_id,
                sequence,
            ) as i64,
{
    let clock = system_now();
    let now: u128 = match since_epoch(&clock) {
        Ok(elapsed) => whole_millis(&elapsed),
        Err(_) => 0,
    };
    let timestamp = millis_since_epoch(now);
    let machine_id = random_below(1024);
    let sequence = random_below(4096);
    compose_uid(timestamp, machine_id, sequence)
}

} // verus!
