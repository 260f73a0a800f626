//! The base extension contains all the required functions that any
//! conforming SBI implementation must implement. It permits the
//! supervisor to probe for information about the implementation.
//!
//! Every function of this extension must succeed. The readers of its replies
//! therefore take only replies that report success; a caller that is handed
//! any other reply is facing firmware that breaks the interface.

use crate::bits::{bit_range, get_bits_u32, lemma_bit_range_bound, lemma_bit_range_split};
use crate::{Call, ExtensionId, FunctionId, Ret};
use vstd::arithmetic::div_mod::lemma_small_mod;
use vstd::arithmetic::power2::lemma2_to64;
use vstd::prelude::*;

verus! {

/// Extension identifier of the base extension.
pub const EID: ExtensionId = 0x10;

/// Function identifier of the query for the specification version.
pub const FID_SPEC_VERSION: FunctionId = 0x0;

/// Function identifier of the query for the implementation identifier.
pub const FID_IMPL_ID: FunctionId = 0x1;

/// Function identifier of the query for the implementation version.
pub const FID_IMPL_VERSION: FunctionId = 0x2;

/// Function identifier of the probe for an extension.
pub const FID_PROBE_EXTENSION: FunctionId = 0x3;

/// Function identifier of the query for the machine vendor identifier.
pub const FID_MACHINE_VENDOR_ID: FunctionId = 0x4;

/// Function identifier of the query for the machine architecture identifier.
pub const FID_MACHINE_ARCH_ID: FunctionId = 0x5;

/// Function identifier of the query for the machine implementation identifier.
pub const FID_MACHINE_IMPL_ID: FunctionId = 0x6;

/// The low 32 bits of a register word.
pub open spec fn low_word(word: usize) -> u32 {
    (word as int % 0x1_0000_0000) as u32
}

/// Denotes the version of the SBI specification that an implementation
/// conforms to.
#[derive(Copy, Clone, Eq, PartialEq, Ord, PartialOrd, Hash, Debug)]
pub struct SpecVersion(pub u32);

impl SpecVersion {
    /// The major revision: bits 24 to 30 of the word.
    pub open spec fn spec_major(&self) -> u32 {
        bit_range(self.0 as nat, 24, 31) as u32
    }

    /// The minor revision: bits 0 to 23 of the word.
    pub open spec fn spec_minor(&self) -> u32 {
        bit_range(self.0 as nat, 0, 24) as u32
    }

    /// The major revision.
    #[verifier::when_used_as_spec(spec_major)]
    pub fn major(&self) -> (major: u32)
        ensures
            major == self.spec_major(),
            major == (self.0 / 0x100_0000) % 0x80,
    {
        proof {
            lemma2_to64();
        }
        get_bits_u32(self.0, 24, 31)
    }

    /// The minor revision.
    #[verifier::when_used_as_spec(spec_minor)]
    pub fn minor(&self) -> (minor: u32)
        ensures
            minor == self.spec_minor(),
            minor == self.0 % 0x100_0000,
    {
        proof {
            lemma2_to64();
        }
        get_bits_u32(self.0, 0, 24)
    }

    /// The two revisions share no bit of the word, and together they are its
    /// low 31 bits: the minor revision the low 24 of them, the major revision
    /// the 7 above.
    pub proof fn lemma_revisions_cover(self)
        ensures
            self.minor() < 0x100_0000,
            self.major() < 0x80,
            self.minor() + 0x100_0000 * self.major() == self.0 % 0x8000_0000,
    {
        let word = self.0 as nat;
        lemma2_to64();
        lemma_bit_range_bound(word, 0, 24);
        lemma_bit_range_bound(word, 24, 31);
        lemma_bit_range_split(word, 0, 24, 31);
    }
}

/// A unique identifier for an implementation.
#[derive(Copy, Clone, Eq, PartialEq, Ord, PartialOrd, Hash, Debug)]
pub struct ImplId(pub usize);

impl ImplId {
    /// Checks whether the implementation is the Berkley Boot Loader.
    pub fn is_bbl(&self) -> (is: bool)
        ensures
            is == (self.0 == 0x0),
    {
        self.0 == 0x0
    }

    /// Checks whether the implementation is OpenSBI.
    pub fn is_opensbi(&self) -> (is: bool)
        ensures
            is == (self.0 == 0x1),
    {
        self.0 == 0x1
    }

    /// Checks whether the implementation is Xvisor.
    pub fn is_xvisor(&self) -> (is: bool)
        ensures
            is == (self.0 == 0x2),
    {
        self.0 == 0x2
    }

    /// Checks whether the implementation is KVM.
    pub fn is_kvm(&self) -> (is: bool)
        ensures
            is == (self.0 == 0x3),
    {
        self.0 == 0x3
    }

    /// Checks whether the implementation is RustSBI.
    pub fn is_rustsbi(&self) -> (is: bool)
        ensures
            is == (self.0 == 0x4),
    {
        self.0 == 0x4
    }

    /// Checks whether the implementation is Diosix.
    pub fn is_diosix(&self) -> (is: bool)
        ensures
            is == (self.0 == 0x5),
    {
        self.0 == 0x5
    }
}

/// A unique identifier for an machine vendor (`mvendorid`).
#[derive(Copy, Clone, Eq, PartialEq, Ord, PartialOrd, Hash, Debug)]
pub struct MachineVendorId(pub u32);

impl MachineVendorId {
    /// The JEDEC bank: bits 7 to 31 of the word.
    pub open spec fn spec_bank(&self) -> u32 {
        bit_range(self.0 as nat, 7, 32) as u32
    }

    /// The JEDEC offset: bits 0 to 6 of the word.
    pub open spec fn spec_offset(&self) -> u32 {
        bit_range(self.0 as nat, 0, 7) as u32
    }

    /// The JEDEC bank.
    #[verifier::when_used_as_spec(spec_bank)]
    pub fn bank(&self) -> (bank: u32)
        ensures
            bank == self.spec_bank(),
            bank == self.0 / 0x80,
    {
        proof {
            lemma2_to64();
            lemma_small_mod(self.0 as nat / 0x80, 0x200_0000);
        }
        get_bits_u32(self.0, 7, 32)
    }

    /// The JEDEC offset.
    #[verifier::when_used_as_spec(spec_offset)]
    pub fn offset(&self) -> (offset: u32)
        ensures
            offset == self.spec_offset(),
            offset == self.0 % 0x80,
    {
        proof {
            lemma2_to64();
        }
        get_bits_u32(self.0, 0, 7)
    }

    /// Bank and offset share no bit of the word, and together they are the
    /// whole of it.
    pub proof fn lemma_bank_offset_cover(self)
        ensures
            self.offset() < 0x80,
            self.offset() + 0x80 * self.bank() == self.0,
    {
        let word = self.0 as nat;
        lemma2_to64();
        lemma_bit_range_bound(word, 0, 7);
        lemma_bit_range_split(word, 0, 7, 32);
        lemma_small_mod(word, 0x1_0000_0000);
        lemma_small_mod(word / 0x80, 0x200_0000);
    }
}

/// Denotes availability of an extension.
#[derive(Copy, Clone, Eq, PartialEq, Ord, PartialOrd, Hash, Debug)]
pub enum ExtensionAvailability {
    /// An available extension and optional extension-specific data, which is
    /// never zero.
    Available(usize),
    /// An unavailable extension.
    Unavailable,
}

impl ExtensionAvailability {
    /// Whether the data of an available extension is other than zero, as it
    /// is in every value that `probe_extension` gives.
    pub open spec fn wf(self) -> bool {
        self matches ExtensionAvailability::Available(data) ==> data != 0
    }

    /// What the value of a reply to a probe says: zero that the extension is
    /// not there, anything else that it is, with the value as its data.
    pub open spec fn of_value(value: usize) -> ExtensionAvailability {
        if value == 0 {
            ExtensionAvailability::Unavailable
        } else {
            ExtensionAvailability::Available(value)
        }
    }
}

/// The call that retrieves the version of the SBI specification the
/// implementation conforms to.
pub fn spec_version_call() -> (call: Call)
    ensures
        call == Call::to(EID, FID_SPEC_VERSION, seq![]),
{
    Call { eid: EID, fid: FID_SPEC_VERSION, args: [0, 0, 0, 0, 0, 0] }
}

/// Reads the version of the SBI specification out of the reply to
/// `spec_version_call`: the low 32 bits of its value.
pub fn spec_version(ret: Ret) -> (version: SpecVersion)
    requires
        ret.error == 0,
    ensures
        version.0 == low_word(ret.value),
{
    SpecVersion(low_bits(ret.value))
}

/// The call that retrieves an identifier unique to the implementation.
pub fn impl_id_call() -> (call: Call)
    ensures
        call == Call::to(EID, FID_IMPL_ID, seq![]),
{
    Call { eid: EID, fid: FID_IMPL_ID, args: [0, 0, 0, 0, 0, 0] }
}

/// Reads the identifier of the implementation out of the reply to
/// `impl_id_call`.
pub fn impl_id(ret: Ret) -> (id: ImplId)
    requires
        ret.error == 0,
    ensures
        id.0 == ret.value,
{
    ImplId(ret.value)
}

/// The call that retrieves the version of the implementation.
pub fn impl_version_call() -> (call: Call)
    ensures
        call == Call::to(EID, FID_IMPL_VERSION, seq![]),
{
    Call { eid: EID, fid: FID_IMPL_VERSION, args: [0, 0, 0, 0, 0, 0] }
}

/// Reads the version of the implementation out of the reply to
/// `impl_version_call`.
pub fn impl_version(ret: Ret) -> (version: usize)
    requires
        ret.error == 0,
    ensures
        version == ret.value,
{
    ret.value
}

/// The call that retrieves the availability of a given extension by its ID.
pub fn probe_extension_call(eid: ExtensionId) -> (call: Call)
    ensures
        call == Call::to(EID, FID_PROBE_EXTENSION, seq![eid as usize]),
{
    Call { eid: EID, fid: FID_PROBE_EXTENSION, args: [eid as usize, 0, 0, 0, 0, 0] }
}

/// Reads the availability of the probed extension out of the reply to
/// `probe_extension_call`.
pub fn probe_extension(ret: Ret) -> (availability: ExtensionAvailability)
    requires
        ret.error == 0,
    ensures
        availability == ExtensionAvailability::of_value(ret.value),
        availability.wf(),
{
    if ret.value != 0 {
        ExtensionAvailability::Available(ret.value)
    } else {
        ExtensionAvailability::Unavailable
    }
}

/// The call that retrieves an identifier unique to the machine vendor.
pub fn machine_vendor_id_call() -> (call: Call)
    ensures
        call == Call::to(EID, FID_MACHINE_VENDOR_ID, seq![]),
{
    Call { eid: EID, fid: FID_MACHINE_VENDOR_ID, args: [0, 0, 0, 0, 0, 0] }
}

/// Reads the identifier of the machine vendor out of the reply to
/// `machine_vendor_id_call`: the low 32 bits of its value.
pub fn machine_vendor_id(ret: Ret) -> (id: MachineVendorId)
    requires
        ret.error == 0,
    ensures
        id.0 == low_word(ret.value),
{
    MachineVendorId(low_bits(ret.value))
}

/// The call that retrieves an identifier unique to the machine architecture.
pub fn machine_arch_id_call() -> (call: Call)
    ensures
        call == Call::to(EID, FID_MACHINE_ARCH_ID, seq![]),
{
    Call { eid: EID, fid: FID_MACHINE_ARCH_ID, args: [0, 0, 0, 0, 0, 0] }
}

/// Reads the identifier of the machine architecture out of the reply to
/// `machine_arch_id_call`.
pub fn machine_arch_id(ret: Ret) -> (id: usize)
    requires
        ret.error == 0,
    ensures
        id == ret.value,
{
    ret.value
}

/// The call that retrieves an identifier unique to the machine
/// implementation.
pub fn machine_impl_id_call() -> (call: Call)
    ensures
        call == Call::to(EID, FID_MACHINE_IMPL_ID, seq![]),
{
    Call { eid: EID, fid: FID_MACHINE_IMPL_ID, args: [0, 0, 0, 0, 0, 0] }
}

/// Reads the identifier of the machine implementation out of the reply to
/// `machine_impl_id_call`.
pub fn machine_impl_id(ret: Ret) -> (id: usize)
    requires
        ret.error == 0,
    ensures
        id == ret.value,
{
    ret.value
}

/// Cuts a register word down to its low 32 bits.
fn low_bits(word: usize) -> (low: u32)
    ensures
        low == low_word(word),
{
    assert(word as u32 == (word as u64) % 0x1_0000_0000) by (bit_vector);
    #[verifier::truncate]
    (word as u32)
}

} // verus!
