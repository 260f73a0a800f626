//! The system reset extension permits the supervisor to manage
//! system power state.

use crate::{Call, ExtensionId, FunctionId, Ret, StandardError};
use core::convert::Infallible;
use vstd::prelude::*;
use vstd::std_specs::convert::FromSpecImpl;

verus! {

/// Extension identifier of the system reset extension.
pub const EID: ExtensionId = 0x53525354;

/// Function identifier of the system reset.
pub const FID_SYSTEM_RESET: FunctionId = 0x0;

/// A type of system reset.
pub enum Type {
    /// Power the system down.
    Shutdown,
    /// Power the system down and up again.
    ColdReboot,
    /// Restart the system without taking its power away.
    WarmReboot,
}

impl Type {
    /// The argument word that stands for the type of reset.
    pub open spec fn code(self) -> usize {
        match self {
            Type::Shutdown => 0x00000000,
            Type::ColdReboot => 0x00000001,
            Type::WarmReboot => 0x00000002,
        }
    }
}

impl From<Type> for usize {
    fn from(t: Type) -> (word: Self)
        ensures
            word == t.code(),
    {
        match t {
            Type::Shutdown => 0x00000000,
            Type::ColdReboot => 0x00000001,
            Type::WarmReboot => 0x00000002,
        }
    }
}

impl FromSpecImpl<Type> for usize {
    open spec fn obeys_from_spec() -> bool {
        true
    }

    open spec fn from_spec(t: Type) -> Self {
        t.code()
    }
}

/// A reason for a system reset.
pub enum Reason {
    /// Nothing went wrong.
    NoReason,
    /// The system failed.
    SystemFailure,
}

impl Reason {
    /// The argument word that stands for the reason.
    pub open spec fn code(self) -> usize {
        match self {
            Reason::NoReason => 0x00000000,
            Reason::SystemFailure => 0x00000001,
        }
    }
}

impl From<Reason> for usize {
    fn from(r: Reason) -> (word: Self)
        ensures
            word == r.code(),
    {
        match r {
            Reason::NoReason => 0x00000000,
            Reason::SystemFailure => 0x00000001,
        }
    }
}

impl FromSpecImpl<Reason> for usize {
    open spec fn obeys_from_spec() -> bool {
        true
    }

    open spec fn from_spec(r: Reason) -> Self {
        r.code()
    }
}

/// What a reply to a system reset reports. A reset that succeeds does not
/// come back, so every reply reports a failure: the error that its code
/// stands for, and `Failed` where it claims success.
pub open spec fn reset_error(ret: Ret) -> StandardError {
    match ret.decoded() {
        Err(error) => error,
        Ok(_) => StandardError::Failed,
    }
}

/// The call that synchronously resets the system with a given type and
/// reason.
pub fn system_reset_call(t: Type, r: Reason) -> (call: Call)
    ensures
        call == Call::to(EID, FID_SYSTEM_RESET, seq![t.code(), r.code()]),
{
    Call { eid: EID, fid: FID_SYSTEM_RESET, args: [usize::from(t), usize::from(r), 0, 0, 0, 0] }
}

/// Reads the reply to `system_reset_call`. That there is one to read means
/// that the system was not reset, whatever the reply says, and so the result
/// is an error for every reply.
pub fn system_reset(ret: Ret) -> (res: Result<Infallible, StandardError>)
    ensures
        res == Err::<Infallible, StandardError>(reset_error(ret)),
{
    match Result::<usize, StandardError>::from(ret) {
        Err(error) => Err(error),
        Ok(_) => Err(StandardError::Failed),
    }
}

} // verus!
