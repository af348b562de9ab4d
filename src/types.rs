//! The foreign interface's word type, the check that a host length fits it,
//! and mechanism type identifiers.

use vstd::prelude::*;

verus! {

/// The unsigned word of the foreign module interface (`CK_ULONG`, which is
/// 64 bits wide on the LP64 targets this library is built for).
pub type Ulong = u64;

/// The largest value of [`Ulong`].
pub const ULONG_MAX: u64 = 0xffff_ffff_ffff_ffff;

/// Whether a host length can be represented as a [`Ulong`] without truncation.
pub open spec fn fits_ulong(n: nat) -> bool {
    n <= ULONG_MAX
}

/// Converts a host length into the foreign word type.
///
/// Returns `None` exactly when the length does not fit; never truncates.
pub fn ulong_from_len(n: usize) -> (r: Option<Ulong>)
    ensures
        r is Some <==> fits_ulong(n as nat),
        r matches Some(v) ==> v as nat == n as nat,
{
    if (n as u128) <= (ULONG_MAX as u128) {
        Some(n as u64)
    } else {
        None
    }
}

/// The first mechanism type value reserved for vendor-defined mechanisms
/// (`CKM_VENDOR_DEFINED`).
pub const CKM_VENDOR_DEFINED: Ulong = 0x8000_0000;

/// Whether a raw mechanism type value lies in the vendor-defined range.
pub open spec fn is_vendor_defined(v: Ulong) -> bool {
    v >= CKM_VENDOR_DEFINED
}

/// Identifier of a mechanism, as the foreign interface numbers it.
#[derive(Debug, Clone, Copy, PartialEq, Eq, Structural)]
pub struct MechanismType {
    val: Ulong,
}

impl View for MechanismType {
    type V = Ulong;

    /// The raw value handed to the foreign interface.
    closed spec fn view(&self) -> Ulong {
        self.val
    }
}

impl MechanismType {
    /// The vendor-defined mechanism type with the given vendor-specific bits:
    /// the reserved vendor bit is set on top of `adding`.
    pub fn new_vendor_defined(adding: Ulong) -> (r: MechanismType)
        ensures
            r@ == CKM_VENDOR_DEFINED | adding,
            is_vendor_defined(r@),
    {
        let val: Ulong = CKM_VENDOR_DEFINED | adding;
        assert((0x8000_0000u64 | adding) >= 0x8000_0000u64) by (bit_vector);
        MechanismType { val }
    }

    /// The raw value of this mechanism type.
    pub fn value(&self) -> (r: Ulong)
        ensures
            r == self@,
    {
        self.val
    }
}

} // verus!
