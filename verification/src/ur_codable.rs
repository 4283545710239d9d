use vstd::prelude::*;

use crate::ur_decodable::URDecodable;
use crate::ur_encodable::UREncodable;

verus! {

/// A type that can be encoded to and decoded from a UR: the intersection
/// of the two capabilities, with no additional obligations.
pub trait URCodable: UREncodable + URDecodable {

}

impl<T> URCodable for T where T: UREncodable + URDecodable {

}

} // verus!
