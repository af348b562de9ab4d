//! Vendor-defined mechanisms, whose parameter payloads are of types unknown
//! to this library.

use vstd::prelude::*;

use crate::types::MechanismType;

verus! {

/// A parameter payload for a vendor-defined mechanism.
///
/// Any printable type that is safe to share across threads can serve: the
/// payload may be read by a foreign call made from another thread than the
/// one that built it. Nothing binds a payload type to one mechanism type;
/// pairing the two correctly is the caller's obligation.
pub trait MechanismParams: std::fmt::Debug + Send + Sync {}

/// The empty payload, for vendor mechanisms that take no parameters.
impl MechanismParams for () {}

/// A generic vendor-defined mechanism: a mechanism type paired with a
/// borrowed payload, which is carried along and never cloned or inspected.
///
/// The payload type defaults to a boxed `dyn MechanismParams`, so payloads of
/// types chosen at run time go through one type; a concrete payload type may
/// be named as well.
#[derive(Debug)]
pub struct VendorDefinedMechanism<'a, P: MechanismParams + ?Sized = dyn MechanismParams> {
    mechanism_type: MechanismType,
    pub(crate) params: &'a Box<P>,
}

impl<'a, P: MechanismParams + ?Sized> Clone for VendorDefinedMechanism<'a, P> {
    fn clone(&self) -> (r: Self)
        ensures
            r == *self,
    {
        *self
    }
}

impl<'a, P: MechanismParams + ?Sized> Copy for VendorDefinedMechanism<'a, P> {}

impl<'a, P: MechanismParams + ?Sized> VendorDefinedMechanism<'a, P> {
    /// The mechanism type this mechanism was built with.
    pub closed spec fn spec_mechanism_type(self) -> MechanismType {
        self.mechanism_type
    }

    /// The mechanism built from a mechanism type and a payload.
    pub closed spec fn spec_new(mechanism_type: MechanismType, params: &'a Box<P>) -> Self {
        VendorDefinedMechanism { mechanism_type, params }
    }

    /// Creates a new vendor-defined mechanism.
    pub fn new(mechanism_type: MechanismType, params: &'a Box<P>) -> (r: Self)
        ensures
            r == Self::spec_new(mechanism_type, params),
            r.spec_mechanism_type() == mechanism_type,
    {
        VendorDefinedMechanism { mechanism_type, params }
    }

    /// The vendor mechanism type.
    pub fn mechanism_type(&self) -> (r: MechanismType)
        ensures
            r == self.spec_mechanism_type(),
    {
        self.mechanism_type
    }
}

/// A vendor mechanism reports exactly the mechanism type it was built with,
/// whatever that type is and whatever the concrete type of its payload.
pub proof fn lemma_vendor_mechanism_type_kept<'a, P: MechanismParams + ?Sized>(
    mechanism_type: MechanismType,
    params: &'a Box<P>,
)
    ensures
        VendorDefinedMechanism::spec_new(mechanism_type, params).spec_mechanism_type()
            == mechanism_type,
{
}

} // verus!
