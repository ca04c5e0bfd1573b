use vstd::prelude::*;

verus! {

/// Whether every bit of `flag` is set in `bits`.
pub open spec fn has_flag(bits: u8, flag: u8) -> bool {
    bits & flag == flag
}

/// `bits` with the bits of `flag` set (`value`) or cleared (`!value`).
pub open spec fn with_flag(bits: u8, flag: u8, value: bool) -> u8 {
    if value {
        bits | flag
    } else {
        bits & !flag
    }
}

/// A flag that was just written reads back as written.
pub proof fn lemma_flag_written(bits: u8, flag: u8, value: bool)
    requires
        flag != 0,
    ensures
        has_flag(with_flag(bits, flag, value), flag) == value,
{
    assert((bits | flag) & flag == flag) by (bit_vector);
    assert(flag != 0 ==> (bits & !flag) & flag != flag) by (bit_vector);
}

/// Writing one flag leaves every flag that shares no bit with it as it was.
pub proof fn lemma_flag_kept(bits: u8, flag: u8, value: bool, other: u8)
    requires
        flag & other == 0,
    ensures
        has_flag(with_flag(bits, flag, value), other) == has_flag(bits, other),
{
    assert(flag & other == 0 ==> ((bits | flag) & other == other) == (bits & other == other))
        by (bit_vector);
    assert(flag & other == 0 ==> ((bits & !flag) & other == other) == (bits & other == other))
        by (bit_vector);
}

} // verus!
