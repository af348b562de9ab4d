//! Parameters of key derivation by data encryption (EKDF) with AES in CBC mode.

use vstd::prelude::*;

use crate::types::{fits_ulong, ulong_from_len};

verus! {

/// What an [`AesCbcDeriveParams`] carries: the IV and the borrowed data.
pub ghost struct AesCbcDeriveParamsView {
    pub iv: Seq<u8>,
    pub data: Seq<u8>,
}

/// AES-CBC derivation parameters.
///
/// The mechanism encrypts the data under the base key; the resulting cipher
/// text becomes the value of the derived key. The IV is one AES block, held
/// by value; the data is borrowed. This structure wraps a
/// `CK_AES_CBC_ENCRYPT_DATA_PARAMS` structure.
#[derive(Debug, Clone, Copy)]
pub struct AesCbcDeriveParams<'a> {
    iv: [u8; 16],
    data: &'a [u8],
}

impl<'a> View for AesCbcDeriveParams<'a> {
    type V = AesCbcDeriveParamsView;

    closed spec fn view(&self) -> AesCbcDeriveParamsView {
        AesCbcDeriveParamsView { iv: self.iv@, data: self.data@ }
    }
}

impl<'a> AesCbcDeriveParams<'a> {
    /// Well-formed: the IV is one block and the data length fits the foreign
    /// length type.
    pub open spec fn wf(self) -> bool {
        &&& self@.iv.len() == 16
        &&& fits_ulong(self@.data.len())
    }

    /// Constructs parameters for key derivation via encryption.
    ///
    /// `iv` is the initialization vector; `data` is encrypted with the base
    /// key to obtain the new key. The length of `data` must be representable
    /// in the foreign length type.
    pub fn new(iv: [u8; 16], data: &'a [u8]) -> (r: Self)
        requires
            fits_ulong(data@.len()),
        ensures
            r@ == (AesCbcDeriveParamsView { iv: iv@, data: data@ }),
            r.wf(),
    {
        AesCbcDeriveParams { iv, data }
    }

    /// Constructs parameters as [`Self::new`] does, or returns `None` when the
    /// length of `data` cannot be represented in the foreign length type.
    pub fn try_new(iv: [u8; 16], data: &'a [u8]) -> (r: Option<Self>)
        ensures
            r is Some <==> fits_ulong(data@.len()),
            r matches Some(p) ==> p@ == (AesCbcDeriveParamsView { iv: iv@, data: data@ }) && p.wf(),
    {
        match ulong_from_len(data.len()) {
            Some(_) => Some(Self::new(iv, data)),
            None => None,
        }
    }

    /// The initialization vector.
    pub fn iv(&self) -> (r: &[u8])
        ensures
            r@ == self@.iv,
            r@.len() == 16,
    {
        self.iv.as_slice()
    }

    /// The data.
    pub fn data(&self) -> (r: &'a [u8])
        ensures
            r@ == self@.data,
    {
        self.data
    }
}

/// Construction is refused, never truncated, for data whose length does not
/// fit the foreign length type: no well-formed parameters hold such data.
pub proof fn lemma_derive_params_reject_oversized(p: AesCbcDeriveParams, data: Seq<u8>)
    requires
        !fits_ulong(data.len()),
        p.wf(),
    ensures
        p@.data != data,
{
}

/// For data whose length fits, the parameters built from it read back the
/// same bytes, of the same length, and the IV they were given.
pub proof fn lemma_derive_params_read_back(p: AesCbcDeriveParams, iv: Seq<u8>, data: Seq<u8>)
    requires
        fits_ulong(data.len()),
        p@ == (AesCbcDeriveParamsView { iv, data }),
    ensures
        p@.data == data,
        p@.data.len() == data.len(),
        p@.iv == iv,
{
}

} // verus!
