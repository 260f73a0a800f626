//! The supervisor side of the RISC-V supervisor binary interface (SBI).
//!
//! A supervisor reaches the firmware beneath it through one trapping
//! instruction. Everything around that instruction is plain computation: which
//! extension and function to select, which words to place in the argument
//! registers, and what the two words that come back mean. This crate is that
//! computation. Each service has a function that builds its [`Call`] and, where
//! something comes back, a function that reads the [`Ret`]; executing the trap
//! between the two is left to the caller.

use vstd::prelude::*;
use vstd::std_specs::convert::{FromSpecImpl, TryFromSpecImpl};

pub mod base;
pub mod bits;
pub mod hsm;
pub mod ipi;
pub mod legacy;
pub mod rfence;
pub mod srst;
pub mod time;

verus! {

/// Identifies an extension: a group of services that the firmware offers.
/// The interface reads the 32 bits as a signed number and has so far assigned
/// positive ones only, which are the same number unsigned.
pub type ExtensionId = u32;

/// Identifies a function within one extension.
pub type FunctionId = u32;

/// The number of argument registers of a call.
pub const NUM_ARGS: usize = 6;

/// One call as it is laid out in registers before the trap: the extension in
/// `a7`, the function in `a6` and the argument words in `a0` to `a5`. Argument
/// registers that a function does not use hold zero.
#[derive(Copy, Clone, Eq, PartialEq, Hash, Debug)]
pub struct Call {
    /// The extension selected.
    pub eid: ExtensionId,
    /// The function selected within the extension.
    pub fid: FunctionId,
    /// The argument words.
    pub args: [usize; NUM_ARGS],
}

impl Call {
    /// The call to function `fid` of extension `eid` whose leading argument
    /// words are `args` and whose remaining argument words are zero.
    pub open spec fn to(eid: ExtensionId, fid: FunctionId, args: Seq<usize>) -> Call
        recommends
            args.len() <= NUM_ARGS,
    {
        Call {
            eid,
            fid,
            args: [
                Self::word(args, 0),
                Self::word(args, 1),
                Self::word(args, 2),
                Self::word(args, 3),
                Self::word(args, 4),
                Self::word(args, 5),
            ],
        }
    }

    /// The word in argument register `i` when `args` are passed.
    pub open spec fn word(args: Seq<usize>, i: int) -> usize {
        if 0 <= i < args.len() {
            args[i]
        } else {
            0
        }
    }
}

/// The identifiers of the extensions that this crate knows: those with
/// functions of their own first, then the two legacy extensions.
pub open spec fn extension_ids() -> Seq<ExtensionId> {
    seq![
        base::EID,
        hsm::EID,
        ipi::EID,
        rfence::EID,
        srst::EID,
        time::EID,
        legacy::EID_CONSOLE_PUT,
        legacy::EID_CONSOLE_GET,
    ]
}

/// No two extensions share an identifier, and every identifier is positive
/// when its 32 bits are read as a signed number.
pub proof fn lemma_extension_ids()
    ensures
        extension_ids().no_duplicates(),
        forall|i: int|
            0 <= i < extension_ids().len() ==> 0 < #[trigger] extension_ids()[i] <= i32::MAX,
{
}

/// A raw value returned from an SBI call.
#[derive(Copy, Clone, Eq, PartialEq, Ord, PartialOrd, Hash, Debug)]
pub struct Ret {
    /// The error returned.
    pub error: usize,
    /// The value returned.
    pub value: usize,
}

/// A standard error returned from an SBI call.
#[derive(Copy, Clone, Eq, PartialEq, Ord, PartialOrd, Hash, Debug)]
#[non_exhaustive]
pub enum StandardError {
    /// The call failed for a reason that no other code covers.
    Failed,
    /// The firmware does not offer the function.
    NotSupported,
    /// An argument was not valid.
    InvalidParam,
    /// The call was denied.
    Denied,
    /// An address was not valid.
    InvalidAddr,
    /// The resource is already available.
    AlreadyAvailable,
    /// The resource was already started.
    AlreadyStarted,
    /// The resource was already stopped.
    AlreadyStopped,
    /// The firmware gave an error code that this taxonomy does not name.
    Unknown,
}

/// The integer that a register word stands for when read in two's complement.
pub open spec fn signed(word: usize) -> int {
    if word <= isize::MAX {
        word as int
    } else {
        word - usize::MAX - 1
    }
}

impl StandardError {
    /// The error that an error code stands for; code zero reports success and
    /// stands for none. Every other code stands for exactly one error, and a
    /// code without a name of its own stands for `Unknown`.
    pub open spec fn of_code(code: int) -> Option<StandardError> {
        if code == 0 {
            None
        } else if code == -1 {
            Some(StandardError::Failed)
        } else if code == -2 {
            Some(StandardError::NotSupported)
        } else if code == -3 {
            Some(StandardError::InvalidParam)
        } else if code == -4 {
            Some(StandardError::Denied)
        } else if code == -5 {
            Some(StandardError::InvalidAddr)
        } else if code == -6 {
            Some(StandardError::AlreadyAvailable)
        } else if code == -7 {
            Some(StandardError::AlreadyStarted)
        } else if code == -8 {
            Some(StandardError::AlreadyStopped)
        } else {
            Some(StandardError::Unknown)
        }
    }
}

impl TryFrom<usize> for StandardError {
    type Error = ();

    /// Reads an error register: `Err(())` for the word that reports success,
    /// and otherwise the error that the word, read as a signed code, stands
    /// for.
    fn try_from(value: usize) -> (r: Result<Self, Self::Error>)
        ensures
            r == match StandardError::of_code(signed(value)) {
                Some(error) => Ok::<StandardError, ()>(error),
                None => Err(()),
            },
    {
        if value == 0 {
            Err(())
        } else if value == usize::MAX {
            Ok(StandardError::Failed)
        } else if value == usize::MAX - 1 {
            Ok(StandardError::NotSupported)
        } else if value == usize::MAX - 2 {
            Ok(StandardError::InvalidParam)
        } else if value == usize::MAX - 3 {
            Ok(StandardError::Denied)
        } else if value == usize::MAX - 4 {
            Ok(StandardError::InvalidAddr)
        } else if value == usize::MAX - 5 {
            Ok(StandardError::AlreadyAvailable)
        } else if value == usize::MAX - 6 {
            Ok(StandardError::AlreadyStarted)
        } else if value == usize::MAX - 7 {
            Ok(StandardError::AlreadyStopped)
        } else {
            Ok(StandardError::Unknown)
        }
    }
}

impl TryFromSpecImpl<usize> for StandardError {
    open spec fn obeys_try_from_spec() -> bool {
        true
    }

    open spec fn try_from_spec(value: usize) -> Result<Self, Self::Error> {
        match StandardError::of_code(signed(value)) {
            Some(error) => Ok(error),
            None => Err(()),
        }
    }
}

impl Ret {
    /// What a reply means: the value where the error register reports
    /// success, and otherwise the error that its code stands for.
    pub open spec fn decoded(self) -> Result<usize, StandardError> {
        match StandardError::of_code(signed(self.error)) {
            Some(error) => Err(error),
            None => Ok(self.value),
        }
    }
}

impl From<Ret> for Result<usize, StandardError> {
    /// Decodes a reply. No reply is rejected: an error code without a name
    /// decodes to `Err(StandardError::Unknown)`.
    fn from(ret: Ret) -> (r: Self)
        ensures
            r == ret.decoded(),
    {
        match StandardError::try_from(ret.error) {
            Ok(error) => Err(error),
            Err(_) => Ok(ret.value),
        }
    }
}

impl FromSpecImpl<Ret> for Result<usize, StandardError> {
    open spec fn obeys_from_spec() -> bool {
        true
    }

    open spec fn from_spec(ret: Ret) -> Self {
        ret.decoded()
    }
}

} // verus!
