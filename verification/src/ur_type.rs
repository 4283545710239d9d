use vstd::prelude::*;

use crate::error::Error;
use crate::utils::is_ur_type_seq;
use crate::utils::ur_type_chars_only;

verus! {

/// A validated UR type name: non-empty, made only of lowercase ASCII
/// letters, ASCII digits and hyphens. Immutable once constructed.
#[derive(Debug)]
pub struct URType {
    name: String,
}

impl Clone for URType {
    fn clone(&self) -> (r: Self)
        ensures
            r == *self,
    {
        proof {
            use_type_invariant(self);
        }
        URType { name: self.name.clone() }
    }
}

impl View for URType {
    type V = Seq<char>;

    closed spec fn view(&self) -> Seq<char> {
        self.name@
    }
}

impl URType {
    /// Every constructed URType holds a valid type name.
    #[verifier::type_invariant]
    pub open spec fn wf(self) -> bool {
        is_ur_type_seq(self@)
    }

    /// Creates a new URType from the provided type string. Succeeds exactly
    /// on valid type names and returns the name unchanged.
    pub fn new(ur_type: &str) -> (r: Result<URType, Error>)
        ensures
            match r {
                Ok(t) => is_ur_type_seq(ur_type@) && t@ == ur_type@,
                Err(e) => !is_ur_type_seq(ur_type@) && e matches Error::InvalidType,
            },
    {
        if ur_type.unicode_len() == 0 || !ur_type_chars_only(ur_type) {
            return Err(Error::InvalidType);
        }
        Ok(URType { name: String::from_str(ur_type) })
    }

    /// Returns the string representation of the URType. The name held is
    /// always a valid type name.
    pub fn string(&self) -> (r: &str)
        ensures
            r@ == self@,
            is_ur_type_seq(self@),
    {
        proof {
            use_type_invariant(self);
        }
        self.name.as_str()
    }
}

impl PartialEq for URType {
    fn eq(&self, other: &URType) -> (r: bool) {
        self.name == other.name
    }
}

impl Eq for URType {}

impl vstd::std_specs::cmp::PartialEqSpecImpl for URType {
    open spec fn obeys_eq_spec() -> bool {
        true
    }

    open spec fn eq_spec(&self, other: &URType) -> bool {
        self@ == other@
    }
}

} // verus!
