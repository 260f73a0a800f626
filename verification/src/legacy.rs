//! The legacy extensions are deprecated in favor of the other extensions.
//! However, the legacy console extensions have no replacement, and so are
//! provided here.

use crate::{Call, ExtensionId, FunctionId, Ret};
use vstd::prelude::*;

verus! {

/// Extension identifier of the legacy extension that writes to the console.
pub const EID_CONSOLE_PUT: ExtensionId = 0x1;

/// Extension identifier of the legacy extension that reads from the console.
pub const EID_CONSOLE_GET: ExtensionId = 0x2;

/// Function identifier of a legacy extension, each of which has one function.
pub const FID_LEGACY: FunctionId = 0x0;

/// The call that writes a byte to the debug console, if present. Nothing of
/// its reply is read.
pub fn console_put(b: u8) -> (call: Call)
    ensures
        call == Call::to(EID_CONSOLE_PUT, FID_LEGACY, seq![b as usize]),
{
    Call { eid: EID_CONSOLE_PUT, fid: FID_LEGACY, args: [b as usize, 0, 0, 0, 0, 0] }
}

/// The call that reads a character from the debug console, if present.
pub fn console_get_call() -> (call: Call)
    ensures
        call == Call::to(EID_CONSOLE_GET, FID_LEGACY, seq![]),
{
    Call { eid: EID_CONSOLE_GET, fid: FID_LEGACY, args: [0, 0, 0, 0, 0, 0] }
}

/// Reads the character out of the reply to `console_get_call`: the value
/// where it is a byte, and nothing where it is more than a byte can hold,
/// which is how the firmware says that no character was waiting.
pub fn console_get(ret: Ret) -> (byte: Option<u8>)
    ensures
        ret.value <= u8::MAX ==> byte == Some(ret.value as u8),
        ret.value > u8::MAX ==> byte is None,
{
    match u8::try_from(ret.value) {
        Ok(b) => Some(b),
        Err(_) => None,
    }
}

} // verus!
