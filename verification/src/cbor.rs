use vstd::prelude::*;

use crate::error::Error;

verus! {

// The structural record type of the outside canonical-binary codec. Its
// values are opaque here: this crate only carries them through and relates
// them to their canonical byte encoding.
#[verifier::external_type_specification]
#[verifier::external_body]
pub struct ExCbor(dcbor::CBOR);

/// `data` is the canonical dCBOR encoding of some structural value: exactly
/// the byte strings the outside structural decoder accepts.
pub uninterp spec fn dcbor_valid(data: Seq<u8>) -> bool;

/// The canonical dCBOR encoding of a structural value: the codec is
/// deterministic, so the bytes are a function of the value alone.
pub uninterp spec fn cbor_data_of(cbor: dcbor::CBOR) -> Seq<u8>;

/// Relies on dcbor::CBOR::to_cbor_data: renders the canonical dCBOR
/// encoding of a value, which the decoder always accepts back.
#[verifier::external_body]
pub fn cbor_to_data(cbor: &dcbor::CBOR) -> (r: Vec<u8>)
    ensures
        r@ == cbor_data_of(*cbor),
        dcbor_valid(r@),
{
    cbor.to_cbor_data()
}

/// Relies on dcbor::CBOR::try_from_data: succeeds exactly on canonical
/// dCBOR byte strings, and the accepted bytes are the decoded value's own
/// canonical encoding (the decoder rejects every non-canonical form).
#[verifier::external_body]
pub fn cbor_try_from_data(data: &[u8]) -> (r: Result<dcbor::CBOR, Error>)
    ensures
        r is Ok <==> dcbor_valid(data@),
        r matches Ok(c) ==> cbor_data_of(c) == data@,
        r matches Err(e) ==> e matches Error::Cbor(_),
{
    match dcbor::CBOR::try_from_data(data) {
        Ok(c) => Ok(c),
        Err(e) => Err(Error::Cbor(format!("{e}"))),
    }
}

} // verus!
