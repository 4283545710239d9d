use vstd::prelude::*;

use crate::cbor::cbor_data_of;
use crate::error::Error;
use crate::resource::UR;
use crate::scheme::spec_ur_string;
use crate::utils::is_ur_type_seq;

verus! {

/// A type that binds itself to a UR type name through its structural tag.
/// Both capability traits look the name up through this one binding, so
/// encoding and decoding always use the identical name.
pub trait URTagged {
    /// The declared tag name, at the specification level. An
    /// implementation verified against this trait defines it as its own
    /// declared name; the default stands only for implementations outside
    /// verified code, whose contracts are not checked anyway.
    open spec fn tag_name_spec() -> Seq<char> {
        Seq::empty()
    }

    /// The type name this type declares for its UR representation.
    fn ur_tag_name() -> (r: String)
        ensures
            r@ == Self::tag_name_spec(),
    ;
}

/// A type that can be encoded to a UR: it declares a tag name and renders
/// its untagged structural record.
pub trait UREncodable: URTagged {
    /// The canonical encoding of the value's untagged structural record,
    /// at the specification level. As with `tag_name_spec`, the default
    /// stands only for implementations outside verified code.
    open spec fn untagged_cbor_data(&self) -> Seq<u8> {
        Seq::empty()
    }

    /// Returns the untagged structural record of the value.
    fn untagged_cbor(&self) -> (r: dcbor::CBOR)
        ensures
            cbor_data_of(r) == self.untagged_cbor_data(),
    ;

    /// Returns the UR representation of the value: its declared tag name
    /// over its untagged record. Succeeds exactly when the declared tag
    /// name is a valid type name; the failure is a setup fault of the
    /// conforming type, not a property of the value being encoded.
    fn ur(&self) -> (r: Result<UR, Error>)
        ensures
            r is Ok <==> is_ur_type_seq(Self::tag_name_spec()),
            r matches Ok(u) ==> u.type_seq() == Self::tag_name_spec() && u.data_seq()
                == self.untagged_cbor_data(),
            r matches Err(e) ==> e matches Error::InvalidType,
    {
        let name = Self::ur_tag_name();
        let cbor = self.untagged_cbor();
        UR::new(name.as_str(), cbor)
    }

    /// Returns the UR string representation of the value: the scheme
    /// string of `ur`'s result, under the same success condition.
    fn ur_string(&self) -> (r: Result<String, Error>)
        ensures
            r is Ok <==> is_ur_type_seq(Self::tag_name_spec()),
            r matches Ok(s) ==> s@ == spec_ur_string(
                Self::tag_name_spec(),
                self.untagged_cbor_data(),
            ) && crate::ascii::ascii_lower_seq(s@) == s@,
            r matches Err(e) ==> e matches Error::InvalidType,
    {
        match self.ur() {
            Ok(u) => Ok(u.string()),
            Err(e) => Err(e),
        }
    }
}

} // verus!
