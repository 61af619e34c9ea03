//! The fixed bit layout of an identifier, modelled with plain integer
//! arithmetic: multiplying a field by its factor places it at its bit
//! position, and division and remainder by the same factors read it
//! back out.

use vstd::prelude::*;
use vstd::arithmetic::div_mod::lemma_fundamental_div_mod_converse_div;
use vstd::arithmetic::div_mod::lemma_fundamental_div_mod_converse_mod;
use vstd::arithmetic::div_mod::lemma_hoist_over_denominator;
use vstd::arithmetic::div_mod::lemma_mod_multiples_vanish;

verus! {

/// Largest worker id: the field is 5 bits wide.
pub const MAX_WORKER_ID: i64 = 31;

/// Largest datacenter id: the field is 5 bits wide.
pub const MAX_DATACENTER_ID: i64 = 31;

/// Largest per-millisecond sequence value: the field is 12 bits wide.
pub const MAX_SEQUENCE: i64 = 4095;

/// Largest adjusted timestamp: the field holds the remaining 41 bits,
/// so this is 2^41 - 1.
pub const MAX_TIMESTAMP: i64 = 0x1FF_FFFF_FFFF;

/// Number of distinct worker ids, the modulus that isolates the field.
pub const WORKER_ID_SPAN: i64 = 32;

/// Number of distinct datacenter ids.
pub const DATACENTER_ID_SPAN: i64 = 32;

/// Number of distinct sequence values per millisecond: 2^12.
pub const SEQUENCE_SPAN: i64 = 4096;

/// The worker id sits 12 bits from the least significant bit: 2^12.
pub const WORKER_ID_FACTOR: i64 = 0x1000;

/// The datacenter id sits 17 bits from the least significant bit: 2^17.
pub const DATACENTER_ID_FACTOR: i64 = 0x2_0000;

/// The timestamp sits 22 bits from the least significant bit: 2^22.
pub const TIMESTAMP_FACTOR: i64 = 0x40_0000;

/// The value of the identifier that packs the four fields.  With every
/// field within its range the fields occupy disjoint bit ranges, so
/// this sum equals the bitwise OR of the shifted fields.
pub open spec fn encoded(timestamp: int, datacenter_id: int, worker_id: int, sequence: int) -> int {
    timestamp * TIMESTAMP_FACTOR + datacenter_id * DATACENTER_ID_FACTOR
        + worker_id * WORKER_ID_FACTOR + sequence
}

/// The bit pattern of a signed identifier read as an unsigned number;
/// decoding extracts fields from this image, so it is total over all
/// 64-bit inputs, the sign bit included.
pub open spec fn unsigned_view(id: i64) -> int {
    if id >= 0 {
        id as int
    } else {
        id + 0x1_0000_0000_0000_0000
    }
}

/// The worker id field of an identifier: bits 12 to 16.
pub open spec fn worker_of(id: i64) -> int {
    (unsigned_view(id) / (WORKER_ID_FACTOR as int)) % (WORKER_ID_SPAN as int)
}

/// The datacenter id field of an identifier: bits 17 to 21.
pub open spec fn datacenter_of(id: i64) -> int {
    (unsigned_view(id) / (DATACENTER_ID_FACTOR as int)) % (DATACENTER_ID_SPAN as int)
}

/// The sequence field of an identifier: bits 0 to 11.
pub open spec fn sequence_part_of(id: i64) -> int {
    unsigned_view(id) % (SEQUENCE_SPAN as int)
}

/// The timestamp field of an identifier: bits 22 and up.
pub open spec fn timestamp_part_of(id: i64) -> int {
    unsigned_view(id) / (TIMESTAMP_FACTOR as int)
}

/// Packs the four fields into one nonnegative 64-bit identifier.
pub fn encode(timestamp: i64, datacenter_id: i64, worker_id: i64, sequence: i64) -> (id: i64)
    requires
        0 <= timestamp <= MAX_TIMESTAMP,
        0 <= datacenter_id <= MAX_DATACENTER_ID,
        0 <= worker_id <= MAX_WORKER_ID,
        0 <= sequence <= MAX_SEQUENCE,
    ensures
        id == encoded(timestamp as int, datacenter_id as int, worker_id as int, sequence as int),
        0 <= id,
{
    timestamp * TIMESTAMP_FACTOR + datacenter_id * DATACENTER_ID_FACTOR
        + worker_id * WORKER_ID_FACTOR + sequence
}

/// Round trip: decoding an identifier encoded from in-range fields
/// yields exactly those fields, and the identifier is nonnegative.
pub proof fn lemma_decoded_of_encoded(t: int, dc: int, w: int, s: int)
    requires
        0 <= t <= MAX_TIMESTAMP,
        0 <= dc <= MAX_DATACENTER_ID,
        0 <= w <= MAX_WORKER_ID,
        0 <= s <= MAX_SEQUENCE,
    ensures
        0 <= encoded(t, dc, w, s) <= i64::MAX,
        worker_of(encoded(t, dc, w, s) as i64) == w,
        datacenter_of(encoded(t, dc, w, s) as i64) == dc,
        sequence_part_of(encoded(t, dc, w, s) as i64) == s,
        timestamp_part_of(encoded(t, dc, w, s) as i64) == t,
{
    let e: int = encoded(t, dc, w, s);
    assert(0 <= e <= i64::MAX);
    assert(unsigned_view(e as i64) == e);

    // Strip the low 12 bits, then isolate the worker id.
    lemma_fundamental_div_mod_converse_div(e, 0x1000, t * 0x400 + dc * 0x20 + w, s);
    lemma_fundamental_div_mod_converse_mod(t * 0x400 + dc * 0x20 + w, 32, t * 0x20 + dc, w);

    // Strip the low 17 bits, then isolate the datacenter id.
    lemma_fundamental_div_mod_converse_div(e, 0x2_0000, t * 0x20 + dc, w * 0x1000 + s);
    lemma_fundamental_div_mod_converse_mod(t * 0x20 + dc, 32, t, dc);

    // The sequence is the remainder below the worker id field.
    lemma_fundamental_div_mod_converse_mod(e, 0x1000, t * 0x400 + dc * 0x20 + w, s);

    // Everything above the low 22 bits is the timestamp.
    lemma_fundamental_div_mod_converse_div(e, 0x40_0000, t, dc * 0x2_0000 + w * 0x1000 + s);
}

/// Encoding is injective: two identifiers built from in-range fields
/// are equal only if all four fields agree.
pub proof fn lemma_encoded_injective(
    t1: int, dc1: int, w1: int, s1: int,
    t2: int, dc2: int, w2: int, s2: int,
)
    requires
        0 <= t1 <= MAX_TIMESTAMP,
        0 <= dc1 <= MAX_DATACENTER_ID,
        0 <= w1 <= MAX_WORKER_ID,
        0 <= s1 <= MAX_SEQUENCE,
        0 <= t2 <= MAX_TIMESTAMP,
        0 <= dc2 <= MAX_DATACENTER_ID,
        0 <= w2 <= MAX_WORKER_ID,
        0 <= s2 <= MAX_SEQUENCE,
        encoded(t1, dc1, w1, s1) == encoded(t2, dc2, w2, s2),
    ensures
        t1 == t2,
        dc1 == dc2,
        w1 == w2,
        s1 == s2,
{
    lemma_decoded_of_encoded(t1, dc1, w1, s1);
    lemma_decoded_of_encoded(t2, dc2, w2, s2);
}

/// For a negative identifier, shifting its value up by 2^63 instead of
/// the full 2^64 leaves the worker and datacenter fields unchanged,
/// because 2^63 is a multiple of 32 times either field's factor.  This
/// lets executable code decode the sign bit away without overflow.
pub proof fn lemma_decode_negative(id: i64)
    requires
        id < 0,
    ensures
        worker_of(id) == (((id + 0x8000_0000_0000_0000) / (WORKER_ID_FACTOR as int))
            % (WORKER_ID_SPAN as int)),
        datacenter_of(id) == (((id + 0x8000_0000_0000_0000) / (DATACENTER_ID_FACTOR as int))
            % (DATACENTER_ID_SPAN as int)),
{
    let v: int = id + 0x8000_0000_0000_0000;
    assert(unsigned_view(id) == v + 0x8000_0000_0000_0000);

    lemma_hoist_over_denominator(v, 0x8_0000_0000_0000, 0x1000);
    assert(unsigned_view(id) / 0x1000 == v / 0x1000 + 0x8_0000_0000_0000);
    lemma_mod_multiples_vanish(0x4000_0000_0000, v / 0x1000, 32);
    assert((32 * 0x4000_0000_0000 + v / 0x1000) % 32 == (v / 0x1000) % 32);

    lemma_hoist_over_denominator(v, 0x4000_0000_0000, 0x2_0000);
    assert(unsigned_view(id) / 0x2_0000 == v / 0x2_0000 + 0x4000_0000_0000);
    lemma_mod_multiples_vanish(0x200_0000_0000, v / 0x2_0000, 32);
    assert((32 * 0x200_0000_0000 + v / 0x2_0000) % 32 == (v / 0x2_0000) % 32);
}

} // verus!
