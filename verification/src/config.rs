//! Capacity configuration of the record fields.

use vstd::prelude::*;

verus! {

pub const MAX_FIRMWARE_VERSION_LEN: usize = 48;

pub const MAX_NICKNAME_LEN: usize = 48;

pub const MAX_MODEL_NAME_LEN: usize = 64;

pub const MAX_DEVICE_NAME_LEN: usize = 48;

pub const MAX_MANUFACTURER_LEN: usize = 32;

pub const MAX_REMOTE_NAME_LEN: usize = 32;

pub const MAX_SERIES_LEN: usize = 32;

pub const MAX_IMAGE_LEN: usize = 32;

pub const MAX_COUNTRY_LEN: usize = 8;

pub const MAX_ECHONET_LITE_NAME_LEN: usize = 64;

pub const MAX_ECHONET_LITE_VALUE_LEN: usize = 16;

pub const ID_LEN: usize = 36;

pub const TIMESTAMP_LEN: usize = 20;

pub const SERIAL_NUMBER_LEN: usize = 14;

/// Largest value in a slice, or 0 for an empty slice.
pub open spec fn seq_max(a: Seq<usize>) -> usize
    decreases a.len(),
{
    if a.len() == 0 {
        0
    } else if a.last() > seq_max(a.drop_last()) {
        a.last()
    } else {
        seq_max(a.drop_last())
    }
}

/// Largest element of a slice of sizes; 0 when the slice is empty.
pub fn max_usize_array(a: &[usize]) -> (max: usize)
    ensures
        max == seq_max(a@),
{
    let mut max: usize = 0;
    let mut index: usize = 0;
    while index < a.len()
        invariant
            index <= a.len(),
            max == seq_max(a@.take(index as int)),
        decreases a.len() - index,
    {
        if max < a[index] {
            max = a[index];
        }
        assert(a@.take(index + 1).drop_last() =~= a@.take(index as int));
        index += 1;
    }
    assert(a@.take(a.len() as int) =~= a@);
    max
}

/// Bound on the context stack of the decoders: how deep structural
/// containers may nest. Exceeding it is the fatal `NodeTooDeep`.
pub const MAX_NODE_DEPTH: usize = 10;

/// Byte capacity that the tokenizer's buffer needs to hold any single
/// scalar of a devices document, plus the quotes around a string.
pub const REQUIRED_DEVICES_PARSER_BUFFER_LEN: usize = MAX_MODEL_NAME_LEN + 2;

pub const REQUIRED_APPLIANCES_PARSER_BUFFER_LEN: usize = REQUIRED_DEVICES_PARSER_BUFFER_LEN;

/// The buffer bound is the largest scalar capacity of the devices
/// schema, plus the two quotes around a string.
pub proof fn lemma_buffer_len_covers_scalars()
    ensures
        REQUIRED_DEVICES_PARSER_BUFFER_LEN == seq_max(
            seq![
                MAX_FIRMWARE_VERSION_LEN,
                MAX_NICKNAME_LEN,
                MAX_MODEL_NAME_LEN,
                MAX_DEVICE_NAME_LEN,
                SERIAL_NUMBER_LEN,
                ID_LEN,
                TIMESTAMP_LEN,
            ],
        ) + 2,
{
    let s0 = Seq::<usize>::empty();
    let s1 = seq![MAX_FIRMWARE_VERSION_LEN];
    let s2 = seq![MAX_FIRMWARE_VERSION_LEN, MAX_NICKNAME_LEN];
    let s3 = seq![MAX_FIRMWARE_VERSION_LEN, MAX_NICKNAME_LEN, MAX_MODEL_NAME_LEN];
    let s4 = seq![
        MAX_FIRMWARE_VERSION_LEN,
        MAX_NICKNAME_LEN,
        MAX_MODEL_NAME_LEN,
        MAX_DEVICE_NAME_LEN,
    ];
    let s5 = seq![
        MAX_FIRMWARE_VERSION_LEN,
        MAX_NICKNAME_LEN,
        MAX_MODEL_NAME_LEN,
        MAX_DEVICE_NAME_LEN,
        SERIAL_NUMBER_LEN,
    ];
    let s6 = seq![
        MAX_FIRMWARE_VERSION_LEN,
        MAX_NICKNAME_LEN,
        MAX_MODEL_NAME_LEN,
        MAX_DEVICE_NAME_LEN,
        SERIAL_NUMBER_LEN,
        ID_LEN,
    ];
    let s7 = seq![
        MAX_FIRMWARE_VERSION_LEN,
        MAX_NICKNAME_LEN,
        MAX_MODEL_NAME_LEN,
        MAX_DEVICE_NAME_LEN,
        SERIAL_NUMBER_LEN,
        ID_LEN,
        TIMESTAMP_LEN,
    ];
    assert(s1.drop_last() =~= s0);
    assert(s2.drop_last() =~= s1);
    assert(s3.drop_last() =~= s2);
    assert(s4.drop_last() =~= s3);
    assert(s5.drop_last() =~= s4);
    assert(s6.drop_last() =~= s5);
    assert(s7.drop_last() =~= s6);
    assert(seq_max(s0) == 0);
    assert(seq_max(s1) == 48);
    assert(seq_max(s2) == 48);
    assert(seq_max(s3) == 64);
    assert(seq_max(s4) == 64);
    assert(seq_max(s5) == 64);
    assert(seq_max(s6) == 64);
    assert(seq_max(s7) == 64);
}

} // verus!
