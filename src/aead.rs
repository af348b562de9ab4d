//! Parameters of the AES-GCM authenticated-encryption mechanism.

use vstd::prelude::*;

use crate::types::Ulong;

verus! {

/// What a [`GcmParams`] carries: the bytes it borrows and the tag length.
pub ghost struct GcmParamsView {
    pub iv: Seq<u8>,
    pub aad: Seq<u8>,
    pub tag_bits: Ulong,
}

/// Parameters for AES-GCM.
///
/// Both buffers are borrowed, never copied, so a value of this type cannot
/// outlive the buffers it describes. The legacy IV-length-in-bits field of the
/// foreign structure is never computed here: it is written as zero wherever
/// the parameters are laid out for the foreign call.
#[derive(Debug, Clone, Copy)]
pub struct GcmParams<'a> {
    iv: &'a [u8],
    aad: &'a [u8],
    tag_bits: Ulong,
}

impl<'a> View for GcmParams<'a> {
    type V = GcmParamsView;

    closed spec fn view(&self) -> GcmParamsView {
        GcmParamsView { iv: self.iv@, aad: self.aad@, tag_bits: self.tag_bits }
    }
}

impl<'a> GcmParams<'a> {
    /// Constructs GCM parameters.
    ///
    /// `iv` should be non-empty; the foreign module accepts up to 256 bytes
    /// of it, and processes a 12-byte IV most efficiently. `aad` is
    /// authenticated but not encrypted and may hold up to 2^32-1 bytes.
    /// `tag_bits` is the length of the authentication tag in bits, from 0
    /// to 128. None of these ranges is enforced here: the foreign module is
    /// the authority on them.
    pub fn new(iv: &'a [u8], aad: &'a [u8], tag_bits: Ulong) -> (r: Self)
        ensures
            r@ == (GcmParamsView { iv: iv@, aad: aad@, tag_bits }),
    {
        GcmParams { iv, aad, tag_bits }
    }

    /// The initialization vector.
    pub fn iv(&self) -> (r: &'a [u8])
        ensures
            r@ == self@.iv,
    {
        self.iv
    }

    /// The additional authenticated data.
    pub fn aad(&self) -> (r: &'a [u8])
        ensures
            r@ == self@.aad,
    {
        self.aad
    }

    /// The length, in bits, of the authentication tag.
    pub fn tag_bits(&self) -> (r: Ulong)
        ensures
            r == self@.tag_bits,
    {
        self.tag_bits
    }
}

/// Reading back a [`GcmParams`] gives exactly what it was built from: the
/// same IV bytes, the same additional data and the same tag length, whatever
/// those are (an empty IV and a tag length of 0 included).
pub proof fn lemma_gcm_params_read_back(p: GcmParams, iv: Seq<u8>, aad: Seq<u8>, tag_bits: Ulong)
    requires
        p@ == (GcmParamsView { iv, aad, tag_bits }),
    ensures
        p@.iv == iv,
        p@.iv.len() == iv.len(),
        p@.aad == aad,
        p@.aad.len() == aad.len(),
        p@.tag_bits == tag_bits,
{
}

} // verus!
