//! The Qubit Snowflake bit layout as a mathematical function, and the laws
//! that relate composing and decoding:
//!
//! ```text
//! [mode:1][precision:1][timestamp][host:9][sequence]
//! ```

use vstd::prelude::*;

use super::bit_reversal::{
    lemma_reverse_low_bits_bound, lemma_reverse_low_bits_involution, pow2, reverse_low_bits,
};
use crate::id_mode::IdMode;
use crate::timestamp_precision::TimestampPrecision;

verus! {

/// Bit position of the host field: the width of the sequence field.
pub open spec fn host_shift_of(precision: TimestampPrecision) -> u64 {
    match precision {
        TimestampPrecision::Millisecond => 12,
        TimestampPrecision::Second => 22,
    }
}

/// Bit position of the timestamp field.
pub open spec fn timestamp_shift_of(precision: TimestampPrecision) -> u64 {
    match precision {
        TimestampPrecision::Millisecond => 21,
        TimestampPrecision::Second => 31,
    }
}

/// Greatest timestamp of a precision: all timestamp bits set.
pub open spec fn max_timestamp_of(precision: TimestampPrecision) -> u64 {
    match precision {
        TimestampPrecision::Millisecond => 0x1ff_ffff_ffff,
        TimestampPrecision::Second => 0x7fff_ffff,
    }
}

/// Greatest sequence of a precision: all sequence bits set.
pub open spec fn max_sequence_of(precision: TimestampPrecision) -> u64 {
    match precision {
        TimestampPrecision::Millisecond => 0xfff,
        TimestampPrecision::Second => 0x3f_ffff,
    }
}

/// The timestamp as it is stored: unchanged in sequential mode, its low
/// `timestamp_bits` bits reversed in spread mode.
pub open spec fn stored_timestamp(mode: IdMode, timestamp_bits: u8, timestamp: u64) -> u64 {
    match mode {
        IdMode::Sequential => timestamp,
        IdMode::Spread => reverse_low_bits(timestamp as nat, timestamp_bits as nat) as u64,
    }
}

/// Mode, precision and host bits of a layout.
pub open spec fn header_bits(mode_bit: u64, precision: TimestampPrecision, host: u64) -> u64 {
    (mode_bit << 63u64) | (precision.bit() << 62u64) | (host << host_shift_of(precision))
}

/// A word holding `stored` in the timestamp field above the header, host and
/// sequence bits of a precision.
pub open spec fn word_of(
    mode_bit: u64,
    precision: TimestampPrecision,
    stored: u64,
    host: u64,
    sequence: u64,
) -> u64 {
    (stored << timestamp_shift_of(precision)) | header_bits(mode_bit, precision, host) | sequence
}

/// The ID the Qubit layout composes from its parts.
pub open spec fn qubit_id(
    mode: IdMode,
    precision: TimestampPrecision,
    host: u64,
    timestamp: u64,
    sequence: u64,
) -> u64 {
    word_of(
        mode.bit(),
        precision,
        stored_timestamp(mode, precision.spec_timestamp_bits(), timestamp),
        host,
        sequence,
    )
}

/// Whether the parts fit their fields.
pub open spec fn qubit_parts_fit(
    precision: TimestampPrecision,
    host: u64,
    timestamp: u64,
    sequence: u64,
) -> bool {
    &&& host <= 511
    &&& timestamp <= max_timestamp_of(precision)
    &&& sequence <= max_sequence_of(precision)
}

/// Mode read from the top bit of an ID.
pub open spec fn decoded_mode(id: u64) -> IdMode {
    IdMode::of_bit(id >> 63u64)
}

/// Precision read from the second-highest bit of an ID.
pub open spec fn decoded_precision(id: u64) -> TimestampPrecision {
    TimestampPrecision::of_bit((id >> 62u64) & 1)
}

/// Timestamp field of an ID as stored, under the ID's own precision.
pub open spec fn decoded_stored_timestamp(id: u64) -> u64 {
    (id >> timestamp_shift_of(decoded_precision(id))) & max_timestamp_of(decoded_precision(id))
}

/// Timestamp of an ID, undoing the transform of the ID's own mode.
pub open spec fn decoded_timestamp(id: u64) -> u64 {
    stored_timestamp(
        decoded_mode(id),
        decoded_precision(id).spec_timestamp_bits(),
        decoded_stored_timestamp(id),
    )
}

/// Host of an ID, under the ID's own precision.
pub open spec fn decoded_host(id: u64) -> u64 {
    (id >> host_shift_of(decoded_precision(id))) & 511
}

/// Sequence of an ID, under the ID's own precision.
pub open spec fn decoded_sequence(id: u64) -> u64 {
    id & max_sequence_of(decoded_precision(id))
}

/// The powers of two that bound the timestamp fields.
pub proof fn lemma_timestamp_powers()
    ensures
        pow2(41) == 0x200_0000_0000,
        pow2(31) == 0x8000_0000,
{
    reveal_with_fuel(pow2, 42);
}

/// A stored timestamp fits the timestamp field whenever the timestamp does,
/// and storing a stored value again restores the timestamp.
pub proof fn lemma_stored_timestamp(mode: IdMode, precision: TimestampPrecision, timestamp: u64)
    requires
        timestamp <= max_timestamp_of(precision),
    ensures
        stored_timestamp(mode, precision.spec_timestamp_bits(), timestamp) <= max_timestamp_of(
            precision,
        ),
        stored_timestamp(
            mode,
            precision.spec_timestamp_bits(),
            stored_timestamp(mode, precision.spec_timestamp_bits(), timestamp),
        ) == timestamp,
{
    lemma_timestamp_powers();
    let bits = precision.spec_timestamp_bits() as nat;
    assert(pow2(bits) == max_timestamp_of(precision) + 1);
    if mode == IdMode::Spread {
        lemma_reverse_low_bits_bound(timestamp as nat, bits);
        lemma_reverse_low_bits_involution(timestamp as nat, bits);
    }
}

/// Field extraction from a millisecond-precision word.
proof fn lemma_millisecond_fields(st: u64, mb: u64, h: u64, s: u64)
    requires
        st <= 0x1ff_ffff_ffff,
        mb <= 1,
        h <= 511,
        s <= 0xfff,
    ensures
        ({
            let w = (st << 21u64) | (((mb << 63u64) | (0u64 << 62u64)) | (h << 12u64)) | s;
            &&& w >> 63u64 == mb
            &&& (w >> 62u64) & 1 == 0
            &&& (w >> 21u64) & 0x1ff_ffff_ffff == st
            &&& (w >> 12u64) & 511 == h
            &&& w & 0xfff == s
        }),
{
    assert({
        let w = (st << 21u64) | (((mb << 63u64) | (0u64 << 62u64)) | (h << 12u64)) | s;
        &&& w >> 63u64 == mb
        &&& (w >> 62u64) & 1 == 0
        &&& (w >> 21u64) & 0x1ff_ffff_ffff == st
        &&& (w >> 12u64) & 511 == h
        &&& w & 0xfff == s
    }) by (bit_vector)
        requires
            st <= 0x1ff_ffff_ffff,
            mb <= 1,
            h <= 511,
            s <= 0xfff,
    ;
}

/// Field extraction from a second-precision word.
proof fn lemma_second_fields(st: u64, mb: u64, h: u64, s: u64)
    requires
        st <= 0x7fff_ffff,
        mb <= 1,
        h <= 511,
        s <= 0x3f_ffff,
    ensures
        ({
            let w = (st << 31u64) | (((mb << 63u64) | (1u64 << 62u64)) | (h << 22u64)) | s;
            &&& w >> 63u64 == mb
            &&& (w >> 62u64) & 1 == 1
            &&& (w >> 31u64) & 0x7fff_ffff == st
            &&& (w >> 22u64) & 511 == h
            &&& w & 0x3f_ffff == s
        }),
{
    assert({
        let w = (st << 31u64) | (((mb << 63u64) | (1u64 << 62u64)) | (h << 22u64)) | s;
        &&& w >> 63u64 == mb
        &&& (w >> 62u64) & 1 == 1
        &&& (w >> 31u64) & 0x7fff_ffff == st
        &&& (w >> 22u64) & 511 == h
        &&& w & 0x3f_ffff == s
    }) by (bit_vector)
        requires
            st <= 0x7fff_ffff,
            mb <= 1,
            h <= 511,
            s <= 0x3f_ffff,
    ;
}

/// Every word is the composition of its own millisecond-layout fields.
proof fn lemma_millisecond_recompose(w: u64)
    requires
        (w >> 62u64) & 1 == 0,
    ensures
        (((w >> 21u64) & 0x1ff_ffff_ffff) << 21u64) | ((((w >> 63u64) << 63u64) | (0u64
            << 62u64)) | (((w >> 12u64) & 511) << 12u64)) | (w & 0xfff) == w,
{
    assert((((w >> 21u64) & 0x1ff_ffff_ffff) << 21u64) | ((((w >> 63u64) << 63u64) | (0u64
        << 62u64)) | (((w >> 12u64) & 511) << 12u64)) | (w & 0xfff) == w) by (bit_vector)
        requires
            (w >> 62u64) & 1 == 0,
    ;
}

/// Every word is the composition of its own second-layout fields.
proof fn lemma_second_recompose(w: u64)
    requires
        (w >> 62u64) & 1 == 1,
    ensures
        (((w >> 31u64) & 0x7fff_ffff) << 31u64) | ((((w >> 63u64) << 63u64) | (1u64 << 62u64))
            | (((w >> 22u64) & 511) << 22u64)) | (w & 0x3f_ffff) == w,
{
    assert((((w >> 31u64) & 0x7fff_ffff) << 31u64) | ((((w >> 63u64) << 63u64) | (1u64
        << 62u64)) | (((w >> 22u64) & 511) << 22u64)) | (w & 0x3f_ffff) == w) by (bit_vector)
        requires
            (w >> 62u64) & 1 == 1,
    ;
}

/// Decoding a word composed from fitting fields returns those fields.
pub proof fn lemma_word_fields(
    mb: u64,
    precision: TimestampPrecision,
    stored: u64,
    host: u64,
    sequence: u64,
)
    requires
        mb <= 1,
        qubit_parts_fit(precision, host, stored, sequence),
    ensures
        ({
            let w = word_of(mb, precision, stored, host, sequence);
            &&& w >> 63u64 == mb
            &&& decoded_precision(w) == precision
            &&& decoded_stored_timestamp(w) == stored
            &&& decoded_host(w) == host
            &&& decoded_sequence(w) == sequence
        }),
{
    match precision {
        TimestampPrecision::Millisecond => lemma_millisecond_fields(stored, mb, host, sequence),
        TimestampPrecision::Second => lemma_second_fields(stored, mb, host, sequence),
    }
}

/// Decoding a composed Qubit ID returns the parts it was composed from.
pub proof fn lemma_qubit_decode_compose(
    mode: IdMode,
    precision: TimestampPrecision,
    host: u64,
    timestamp: u64,
    sequence: u64,
)
    requires
        qubit_parts_fit(precision, host, timestamp, sequence),
    ensures
        ({
            let id = qubit_id(mode, precision, host, timestamp, sequence);
            &&& decoded_mode(id) == mode
            &&& decoded_precision(id) == precision
            &&& decoded_timestamp(id) == timestamp
            &&& decoded_host(id) == host
            &&& decoded_sequence(id) == sequence
        }),
{
    lemma_stored_timestamp(mode, precision, timestamp);
    let stored = stored_timestamp(mode, precision.spec_timestamp_bits(), timestamp);
    lemma_word_fields(mode.bit(), precision, stored, host, sequence);
}

/// Composing the decoded parts of any 64-bit value gives the value back:
/// every `u64` is a structurally decodable Qubit ID.
pub proof fn lemma_qubit_compose_decode(id: u64)
    ensures
        qubit_parts_fit(decoded_precision(id), decoded_host(id), decoded_timestamp(id), decoded_sequence(id)),
        qubit_id(
            decoded_mode(id),
            decoded_precision(id),
            decoded_host(id),
            decoded_timestamp(id),
            decoded_sequence(id),
        ) == id,
{
    let precision = decoded_precision(id);
    let mode = decoded_mode(id);
    let mb = id >> 63u64;
    assert(id >> 63u64 <= 1) by (bit_vector);
    assert((id >> 62u64) & 1 <= 1) by (bit_vector);
    assert(mode.bit() == mb);
    assert(precision.bit() == (id >> 62u64) & 1);
    let stored = decoded_stored_timestamp(id);
    match precision {
        TimestampPrecision::Millisecond => {
            assert((id >> 12u64) & 511 <= 511) by (bit_vector);
            assert((id >> 21u64) & 0x1ff_ffff_ffff <= 0x1ff_ffff_ffff) by (bit_vector);
            assert(id & 0xfff <= 0xfff) by (bit_vector);
            lemma_millisecond_recompose(id);
        },
        TimestampPrecision::Second => {
            assert((id >> 22u64) & 511 <= 511) by (bit_vector);
            assert((id >> 31u64) & 0x7fff_ffff <= 0x7fff_ffff) by (bit_vector);
            assert(id & 0x3f_ffff <= 0x3f_ffff) by (bit_vector);
            lemma_second_recompose(id);
        },
    }
    lemma_stored_timestamp(mode, precision, stored);
    lemma_stored_timestamp(mode, precision, decoded_timestamp(id));
}

/// Distinct fitting parts compose distinct IDs under one mode, precision and
/// host.
pub proof fn lemma_qubit_id_injective(
    mode: IdMode,
    precision: TimestampPrecision,
    host: u64,
    timestamp1: u64,
    sequence1: u64,
    timestamp2: u64,
    sequence2: u64,
)
    requires
        qubit_parts_fit(precision, host, timestamp1, sequence1),
        qubit_parts_fit(precision, host, timestamp2, sequence2),
        qubit_id(mode, precision, host, timestamp1, sequence1) == qubit_id(
            mode,
            precision,
            host,
            timestamp2,
            sequence2,
        ),
    ensures
        timestamp1 == timestamp2,
        sequence1 == sequence2,
{
    lemma_qubit_decode_compose(mode, precision, host, timestamp1, sequence1);
    lemma_qubit_decode_compose(mode, precision, host, timestamp2, sequence2);
}

/// A composed Qubit ID exceeds `i64::MAX` exactly when its mode is spread:
/// spread IDs always set bit 63 and sequential IDs never do.
pub proof fn lemma_qubit_id_sign_bit(
    mode: IdMode,
    precision: TimestampPrecision,
    host: u64,
    timestamp: u64,
    sequence: u64,
)
    requires
        qubit_parts_fit(precision, host, timestamp, sequence),
    ensures
        (mode == IdMode::Spread) <==> qubit_id(mode, precision, host, timestamp, sequence)
            > 0x7fff_ffff_ffff_ffff,
{
    lemma_stored_timestamp(mode, precision, timestamp);
    let stored = stored_timestamp(mode, precision.spec_timestamp_bits(), timestamp);
    lemma_word_fields(mode.bit(), precision, stored, host, sequence);
    let w = qubit_id(mode, precision, host, timestamp, sequence);
    assert((w >> 63u64 == 1) <==> w > 0x7fff_ffff_ffff_ffff) by (bit_vector);
}

/// A sequential millisecond word as a sum of its weighted fields.
proof fn lemma_millisecond_sum(st: u64, h: u64, s: u64)
    requires
        st <= 0x1ff_ffff_ffff,
        h <= 511,
        s <= 0xfff,
    ensures
        (st << 21u64) | (((0u64 << 63u64) | (0u64 << 62u64)) | (h << 12u64)) | s == st
            * 0x20_0000 + h * 0x1000 + s,
{
    assert((st << 21u64) | (((0u64 << 63u64) | (0u64 << 62u64)) | (h << 12u64)) | s == st
        * 0x20_0000 + h * 0x1000 + s) by (bit_vector)
        requires
            st <= 0x1ff_ffff_ffff,
            h <= 511,
            s <= 0xfff,
    ;
}

/// A sequential second word as a sum of its weighted fields.
proof fn lemma_second_sum(st: u64, h: u64, s: u64)
    requires
        st <= 0x7fff_ffff,
        h <= 511,
        s <= 0x3f_ffff,
    ensures
        (st << 31u64) | (((0u64 << 63u64) | (1u64 << 62u64)) | (h << 22u64)) | s == st
            * 0x8000_0000 + 0x4000_0000_0000_0000 + h * 0x40_0000 + s,
{
    assert((st << 31u64) | (((0u64 << 63u64) | (1u64 << 62u64)) | (h << 22u64)) | s == st
        * 0x8000_0000 + 0x4000_0000_0000_0000 + h * 0x40_0000 + s) by (bit_vector)
        requires
            st <= 0x7fff_ffff,
            h <= 511,
            s <= 0x3f_ffff,
    ;
}

/// Sequential Qubit IDs of one precision and host increase with the
/// timestamp, and within a timestamp with the sequence.
pub proof fn lemma_sequential_qubit_id_increasing(
    precision: TimestampPrecision,
    host: u64,
    timestamp1: u64,
    sequence1: u64,
    timestamp2: u64,
    sequence2: u64,
)
    requires
        qubit_parts_fit(precision, host, timestamp1, sequence1),
        qubit_parts_fit(precision, host, timestamp2, sequence2),
        timestamp1 < timestamp2 || (timestamp1 == timestamp2 && sequence1 < sequence2),
    ensures
        qubit_id(IdMode::Sequential, precision, host, timestamp1, sequence1) < qubit_id(
            IdMode::Sequential,
            precision,
            host,
            timestamp2,
            sequence2,
        ),
{
    match precision {
        TimestampPrecision::Millisecond => {
            lemma_millisecond_sum(timestamp1, host, sequence1);
            lemma_millisecond_sum(timestamp2, host, sequence2);
            assert(timestamp1 * 0x20_0000 + host * 0x1000 + sequence1 < timestamp2 * 0x20_0000
                + host * 0x1000 + sequence2) by (nonlinear_arith)
                requires
                    host <= 511,
                    sequence1 <= 0xfff,
                    sequence2 <= 0xfff,
                    timestamp1 < timestamp2 || (timestamp1 == timestamp2 && sequence1
                        < sequence2),
            ;
        },
        TimestampPrecision::Second => {
            lemma_second_sum(timestamp1, host, sequence1);
            lemma_second_sum(timestamp2, host, sequence2);
            assert(timestamp1 * 0x8000_0000 + host * 0x40_0000 + sequence1 < timestamp2
                * 0x8000_0000 + host * 0x40_0000 + sequence2) by (nonlinear_arith)
                requires
                    host <= 511,
                    sequence1 <= 0x3f_ffff,
                    sequence2 <= 0x3f_ffff,
                    timestamp1 < timestamp2 || (timestamp1 == timestamp2 && sequence1
                        < sequence2),
            ;
        },
    }
}

} // verus!
