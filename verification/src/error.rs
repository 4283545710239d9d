use vstd::prelude::*;

verus! {

/// The errors this crate reports. Format errors (`InvalidScheme`,
/// `TypeUnspecified`, `InvalidType`) come from this crate's own validation;
/// delegated errors (`UR`, `Bytewords`, `Cbor`) carry the outside codec's
/// rendered error message unchanged.
#[derive(Debug)]
pub enum Error {
    /// An error reported by the outside scheme-string fragment codec.
    UR(String),
    /// An error reported by the outside bytewords codec.
    Bytewords(String),
    /// An error reported by the outside structural (dCBOR) codec.
    Cbor(String),
    /// The string does not begin with the `ur:` scheme prefix.
    InvalidScheme,
    /// No `/`-separated type segment is present.
    TypeUnspecified,
    /// The type segment holds a disallowed character, or is empty.
    InvalidType,
    /// A multi-part string was handed to a single-part decode.
    NotSinglePart,
    /// The expected UR type (first field) differs from the one found
    /// (second field).
    UnexpectedType(String, String),
}

} // verus!
