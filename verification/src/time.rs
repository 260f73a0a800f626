//! The timer extension permits the supervisor to program the clock
//! for the next timer event.

use crate::bits::{encode_wide, wide_words};
use crate::{Call, ExtensionId, FunctionId, Ret, StandardError};
use vstd::prelude::*;

verus! {

/// Extension identifier of the timer extension.
pub const EID: ExtensionId = 0x54494d45;

/// Function identifier of the programming of the timer.
pub const FID_SET_TIMER: FunctionId = 0x0;

/// The argument words of the call that sets the timer to `stime_value` where
/// a register has `word_bits` bits: the value itself in a register that holds
/// it, and its low half followed by its high half in narrower ones.
pub open spec fn timer_args(stime_value: u64, word_bits: nat) -> Seq<usize> {
    let words = wide_words(stime_value, word_bits);
    if word_bits >= 64 {
        seq![words.0 as usize]
    } else {
        seq![words.0 as usize, words.1 as usize]
    }
}

/// The call that programs the clock for the next timer event and clears the
/// timer interrupt pending bit. The provided value is an absolute time.
pub fn set_timer_call(stime_value: u64) -> (call: Call)
    ensures
        call == Call::to(EID, FID_SET_TIMER, timer_args(stime_value, usize::BITS as nat)),
{
    let (first, second) = encode_wide(stime_value, usize::BITS);
    Call { eid: EID, fid: FID_SET_TIMER, args: [first as usize, second as usize, 0, 0, 0, 0] }
}

/// Reads the reply to `set_timer_call`: nothing where the timer was set, and
/// otherwise the error.
pub fn set_timer(ret: Ret) -> (res: Result<(), StandardError>)
    ensures
        res == match ret.decoded() {
            Ok(_) => Ok::<(), StandardError>(()),
            Err(error) => Err(error),
        },
{
    match Result::<usize, StandardError>::from(ret) {
        Ok(_) => Ok(()),
        Err(error) => Err(error),
    }
}

} // verus!
