//! Properties that hold of every poll, stated over the step functions that
//! the decoders' contracts are written in.
use vstd::prelude::*;

use crate::encoder::{encoder_step, EncoderView};
use crate::rotary::{
    decode, record, sample_bits, Direction, CCW_SIGNATURE, CW_SIGNATURE, IDLE_HISTORY,
};

verus! {

/// A poll reports a rotation exactly when the history, with the new sample
/// recorded, is one of the two detent signatures: `Cw` for the clockwise one,
/// `Ccw` for the counter-clockwise one, and no rotation for every other
/// history. A sample that differs from the last one recorded is shifted in.
pub proof fn lemma_only_signatures_rotate(history: u8, a_high: bool, b_high: bool)
    ensures
        ({
            let recorded = record(history, sample_bits(a_high, b_high));
            let d = decode(history, a_high, b_high).1;
            &&& d == Direction::Cw <==> recorded == CW_SIGNATURE
            &&& d == Direction::Ccw <==> recorded == CCW_SIGNATURE
            &&& d == Direction::Idle <==> (recorded != CW_SIGNATURE && recorded
                != CCW_SIGNATURE)
        }),
        sample_bits(a_high, b_high) != history % 4 ==> record(history, sample_bits(a_high, b_high))
            == (history % 64) * 4 + sample_bits(a_high, b_high),
{
}

/// Whenever a poll reports a rotation, the history is back to idle,
/// whatever it held before.
pub proof fn lemma_detent_resets_history(history: u8, a_high: bool, b_high: bool)
    ensures
        decode(history, a_high, b_high).1 != Direction::Idle ==> decode(history, a_high, b_high).0
            == IDLE_HISTORY,
{
}

/// A rotation before a button change is never reported in a poll where the
/// button did not change.
pub proof fn lemma_rotation_flag_needs_key_change(
    m: EncoderView,
    a_high: bool,
    b_high: bool,
    k_high: bool,
)
    ensures
        ({
            let s = encoder_step(m, a_high, b_high, k_high).1;
            !s.just_key_changed ==> !s.rotated_before_key_change
        }),
{
}

/// Feeding two samples that complete the clockwise signature reports no
/// rotation for the first and `Cw` for the second, which leaves the history
/// idle.
pub proof fn lemma_cw_detent_round_trip(
    history: u8,
    a1_high: bool,
    b1_high: bool,
    a2_high: bool,
    b2_high: bool,
)
    requires
        record(decode(history, a1_high, b1_high).0, sample_bits(a2_high, b2_high))
            == CW_SIGNATURE,
    ensures
        decode(history, a1_high, b1_high).1 == Direction::Idle,
        decode(decode(history, a1_high, b1_high).0, a2_high, b2_high) == (
        IDLE_HISTORY,
        Direction::Cw,
        ),
{
}

} // verus!
