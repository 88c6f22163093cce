//! The status register's two result flags and the rule that updates them.

use vstd::prelude::*;

verus! {

/// Status bit 1: the last result was zero.
pub const ZERO_FLAG: u8 = 0b0000_0010;

/// Status bit 7: bit 7 of the last result was set.
pub const NEGATIVE_FLAG: u8 = 0b1000_0000;

/// The status register after an instruction produced `result`: the zero flag
/// says whether `result` is zero, the negative flag copies bit 7 of `result`,
/// and the six other bits are those of `status`.
pub open spec fn updated_status(status: u8, result: u8) -> u8 {
    (status & !(ZERO_FLAG | NEGATIVE_FLAG)) | (if result == 0 {
        ZERO_FLAG
    } else {
        0u8
    }) | (result & NEGATIVE_FLAG)
}

/// The three facts that pin `updated_status` down bit by bit: together the
/// masks `0x02`, `0x80` and `0x7D` cover the whole register.
pub proof fn lemma_updated_status_bits(status: u8, result: u8)
    ensures
        (updated_status(status, result) & ZERO_FLAG != 0) <==> result == 0,
        updated_status(status, result) & NEGATIVE_FLAG == result & NEGATIVE_FLAG,
        updated_status(status, result) & !(ZERO_FLAG | NEGATIVE_FLAG) == status & !(ZERO_FLAG
            | NEGATIVE_FLAG),
{
    assert((updated_status(status, result) & ZERO_FLAG != 0) <==> result == 0) by (bit_vector);
    assert(updated_status(status, result) & NEGATIVE_FLAG == result & NEGATIVE_FLAG)
        by (bit_vector);
    assert(updated_status(status, result) & !(ZERO_FLAG | NEGATIVE_FLAG) == status & !(ZERO_FLAG
        | NEGATIVE_FLAG)) by (bit_vector);
}

/// Applies the flag rule shared by every instruction that produces a result.
pub fn update_zero_and_negative_flags(status: u8, result: u8) -> (updated: u8)
    ensures
        updated == updated_status(status, result),
        (updated & ZERO_FLAG != 0) <==> result == 0,
        updated & NEGATIVE_FLAG == result & NEGATIVE_FLAG,
        updated & !(ZERO_FLAG | NEGATIVE_FLAG) == status & !(ZERO_FLAG | NEGATIVE_FLAG),
{
    let with_zero: u8 = if result == 0 {
        status | ZERO_FLAG
    } else {
        status & !ZERO_FLAG
    };
    let updated: u8 = if result & NEGATIVE_FLAG != 0 {
        with_zero | NEGATIVE_FLAG
    } else {
        with_zero & !NEGATIVE_FLAG
    };
    proof {
        lemma_updated_status_bits(status, result);
        assert(updated == updated_status(status, result)) by (bit_vector)
            requires
                with_zero == (if result == 0 {
                    status | ZERO_FLAG
                } else {
                    status & !ZERO_FLAG
                }),
                updated == (if result & NEGATIVE_FLAG != 0 {
                    with_zero | NEGATIVE_FLAG
                } else {
                    with_zero & !NEGATIVE_FLAG
                }),
        ;
    }
    updated
}

} // verus!
