use vstd::prelude::*;

use crate::ascii::ascii_lower_seq;
use crate::error::Error;
use crate::resource::UR;
use crate::scheme::error_reflects_failure;
use crate::scheme::spec_parse_ur;
use crate::ur_encodable::URTagged;
use crate::utils::is_ur_type_seq;

verus! {

/// A type that can be decoded from a UR: it declares a tag name and
/// rebuilds itself from its untagged structural record.
pub trait URDecodable: URTagged + Sized {
    /// Rebuilds a value from its untagged structural record.
    fn from_untagged_cbor(cbor: dcbor::CBOR) -> Result<Self, Error>;

    /// Rebuilds a value from a UR: checks the UR's type against this
    /// type's declared tag name, then decodes the record with
    /// `from_untagged_cbor`. An invalid declared name is rejected with
    /// `InvalidType`; a UR of any other type is rejected with
    /// `UnexpectedType` — carrying the declared and the found name —
    /// before any record decoding is attempted.
    fn from_ur(ur: &UR) -> (r: Result<Self, Error>)
        ensures
            !is_ur_type_seq(Self::tag_name_spec()) ==> (r matches Err(e) && e matches
                Error::InvalidType),
            is_ur_type_seq(Self::tag_name_spec()) && ur.type_seq() != Self::tag_name_spec() ==> (
            r matches Err(e) && e matches Error::UnexpectedType(exp, act) && exp@
                == Self::tag_name_spec() && act@ == ur.type_seq()),
    {
        let name = Self::ur_tag_name();
        match ur.check_type(name.as_str()) {
            Ok(()) => Self::from_untagged_cbor(ur.cbor()),
            Err(e) => Err(e),
        }
    }

    /// Rebuilds a value from a scheme string: parses it into a UR, then
    /// decodes it as `from_ur` does. A parse failure propagates unchanged,
    /// and the type guard applies to the parsed UR's type.
    fn from_ur_string(ur_string: &str) -> (r: Result<Self, Error>)
        ensures
            spec_parse_ur(ascii_lower_seq(ur_string@)) matches Err(f) ==> (r matches Err(e)
                && error_reflects_failure(e, f)),
            ({
                &&& spec_parse_ur(ascii_lower_seq(ur_string@)) is Ok
                &&& !is_ur_type_seq(Self::tag_name_spec())
            }) ==> (r matches Err(e) && e matches Error::InvalidType),
            ({
                &&& spec_parse_ur(ascii_lower_seq(ur_string@)) is Ok
                &&& is_ur_type_seq(Self::tag_name_spec())
                &&& spec_parse_ur(ascii_lower_seq(ur_string@))->Ok_0.0 != Self::tag_name_spec()
            }) ==> (r matches Err(e) && e matches Error::UnexpectedType(exp, act) && exp@
                == Self::tag_name_spec() && act@ == spec_parse_ur(
                ascii_lower_seq(ur_string@),
            )->Ok_0.0),
    {
        match UR::from_ur_string(ur_string) {
            Ok(ur) => Self::from_ur(&ur),
            Err(e) => Err(e),
        }
    }
}

} // verus!
