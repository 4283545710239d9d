use vstd::prelude::*;

use crate::ascii::ascii_lower_seq;
use crate::ascii::ascii_lowercase;
use crate::ascii::ascii_upper_seq;
use crate::ascii::ascii_uppercase;
use crate::cbor::cbor_data_of;
use crate::cbor::cbor_to_data;
use crate::cbor::cbor_try_from_data;
use crate::cbor::dcbor_valid;
use crate::error::Error;
use crate::scheme::SchemeFailure;
use crate::scheme::error_reflects_failure;
use crate::scheme::find_char_from;
use crate::scheme::lemma_find_char_none;
use crate::scheme::lemma_find_char_some;
use crate::scheme::lemma_single_part_shape;
use crate::scheme::lemma_ur_string_lower;
use crate::scheme::spec_parse_ur;
use crate::scheme::spec_ur_string;
use crate::scheme::ur_decode;
use crate::scheme::ur_try_encode;
use crate::ur_type::URType;
use crate::utils::is_ur_type_seq;

verus! {

/// The bytes of an ASCII character sequence, character by character.
pub open spec fn ascii_codes(s: Seq<char>) -> Seq<u8> {
    Seq::new(s.len(), |i: int| s[i] as u8)
}

/// A Uniform Resource: a validated type name paired with the canonical
/// byte encoding of a structural record.
#[derive(Debug)]
pub struct UR {
    pub(crate) ur_type: URType,
    pub(crate) cbor_data: Vec<u8>,
}

impl UR {
    /// The type name of this UR.
    pub closed spec fn type_seq(&self) -> Seq<char> {
        self.ur_type@
    }

    /// The canonical record bytes of this UR.
    pub closed spec fn data_seq(&self) -> Seq<u8> {
        self.cbor_data@
    }

    /// Every constructed UR holds a valid type name and the canonical
    /// encoding of a record the structural codec accepts.
    #[verifier::type_invariant]
    pub open spec fn wf(self) -> bool {
        is_ur_type_seq(self.type_seq()) && dcbor_valid(self.data_seq())
    }

    /// Builds a UR from an already-validated type and canonical record
    /// bytes.
    pub(crate) fn from_parts(ur_type: URType, cbor_data: Vec<u8>) -> (r: UR)
        requires
            dcbor_valid(cbor_data@),
        ensures
            r.type_seq() == ur_type@,
            r.data_seq() == cbor_data@,
    {
        proof {
            use_type_invariant(&ur_type);
        }
        UR { ur_type, cbor_data }
    }

    /// Returns the canonical record bytes.
    pub(crate) fn data(&self) -> (r: &Vec<u8>)
        ensures
            r@ == self.data_seq(),
    {
        &self.cbor_data
    }

    /// Creates a new UR from the provided type and record. Succeeds exactly
    /// when the type name is valid; the record is stored by its canonical
    /// byte encoding.
    pub fn new(ur_type: &str, cbor: dcbor::CBOR) -> (r: Result<UR, Error>)
        ensures
            match r {
                Ok(u) => is_ur_type_seq(ur_type@) && u.type_seq() == ur_type@ && u.data_seq()
                    == cbor_data_of(cbor) && dcbor_valid(u.data_seq()),
                Err(e) => !is_ur_type_seq(ur_type@) && e matches Error::InvalidType,
            },
    {
        let t = URType::new(ur_type)?;
        let data = cbor_to_data(&cbor);
        Ok(UR { ur_type: t, cbor_data: data })
    }

    /// Creates a new UR by parsing the provided scheme string. The input is
    /// ASCII-lowercased first; the parse then follows `spec_parse_ur`, and
    /// the reported error names the first step that failed. Parsing a
    /// well-formed single-part scheme string of a valid type and record
    /// always succeeds and returns that type and record: rendering and
    /// parsing round-trip.
    pub fn from_ur_string(ur_string: &str) -> (r: Result<UR, Error>)
        ensures
            r matches Ok(u) ==> spec_parse_ur(ascii_lower_seq(ur_string@)) == Ok::<
                _,
                SchemeFailure,
            >((u.type_seq(), u.data_seq())),
            r matches Err(e) ==> spec_parse_ur(ascii_lower_seq(ur_string@)) matches Err(f)
                && error_reflects_failure(e, f),
            forall|t: Seq<char>, d: Seq<u8>|
                is_ur_type_seq(t) && dcbor_valid(d) && ascii_lower_seq(ur_string@)
                    == #[trigger] spec_ur_string(t, d) ==> (r matches Ok(u) && u.type_seq() == t
                    && u.data_seq() == d),
    {
        let lowered = ascii_lowercase(ur_string);
        let ls: &str = lowered.as_str();
        let ghost low = ls@;
        let len = ls.unicode_len();
        if len < 3 || ls.get_char(0) != 'u' || ls.get_char(1) != 'r' || ls.get_char(2) != ':' {
            proof {
                assert forall|t: Seq<char>, d: Seq<u8>|
                    is_ur_type_seq(t) && low == #[trigger] spec_ur_string(t, d) implies false by {
                    lemma_single_part_shape(t, d);
                }
            }
            return Err(Error::InvalidScheme);
        }
        let mut k: usize = 3;
        while k < len && ls.get_char(k) != '/'
            invariant
                3 <= k <= len,
                len == low.len(),
                ls@ == low,
                forall|m: int| 3 <= m < k ==> low[m] != '/',
            decreases len - k,
        {
            k += 1;
        }
        if k == len {
            proof {
                lemma_find_char_none(low, '/', 3);
                assert forall|t: Seq<char>, d: Seq<u8>|
                    is_ur_type_seq(t) && low == #[trigger] spec_ur_string(t, d) implies false by {
                    lemma_single_part_shape(t, d);
                }
            }
            return Err(Error::TypeUnspecified);
        }
        proof {
            lemma_find_char_some(low, '/', 3, k as int);
        }
        let t_str = ls.substring_char(3, k);
        let ur_type = match URType::new(t_str) {
            Err(e) => {
                proof {
                    assert forall|t: Seq<char>, d: Seq<u8>|
                        is_ur_type_seq(t) && low == #[trigger] spec_ur_string(t, d) implies
                        false by {
                        lemma_single_part_shape(t, d);
                        assert(low.subrange(3, k as int) == t);
                    }
                }
                return Err(e);
            },
            Ok(t) => t,
        };
        let (is_single, data) = match ur_decode(ls) {
            Err(e) => {
                proof {
                    assert forall|t: Seq<char>, d: Seq<u8>|
                        is_ur_type_seq(t) && low == #[trigger] spec_ur_string(t, d) implies
                        false by {}
                }
                return Err(e);
            },
            Ok(p) => p,
        };
        if !is_single {
            proof {
                assert forall|t: Seq<char>, d: Seq<u8>|
                    is_ur_type_seq(t) && low == #[trigger] spec_ur_string(t, d) implies false by {}
            }
            return Err(Error::NotSinglePart);
        }
        proof {
            assert forall|t: Seq<char>, d: Seq<u8>|
                is_ur_type_seq(t) && low == #[trigger] spec_ur_string(t, d) implies ur_type@ == t
                && data@ == d by {
                lemma_single_part_shape(t, d);
                assert(low.subrange(3, k as int) == t);
            }
        }
        match cbor_try_from_data(data.as_slice()) {
            Err(e) => Err(e),
            Ok(_cbor) => Ok(UR { ur_type, cbor_data: data }),
        }
    }

    /// Returns the scheme-string representation of the UR:
    /// `ur:<type>/<payload>`, lowercase throughout.
    pub fn string(&self) -> (r: String)
        ensures
            r@ == spec_ur_string(self.type_seq(), self.data_seq()),
            ascii_lower_seq(r@) == r@,
            vstd::utf8::is_ascii_chars(r@),
            self.wf(),
    {
        proof {
            use_type_invariant(self);
        }
        let t = self.ur_type.string();
        match ur_try_encode(self.cbor_data.as_slice(), t) {
            Ok(s) => {
                proof {
                    lemma_ur_string_lower(self.type_seq(), self.data_seq());
                }
                s
            },
            Err(_) => {
                proof {
                    assert(false);
                }
                vstd::pervasive::unreached()
            },
        }
    }

    /// Returns the scheme string entirely upper-cased, the densest form for
    /// textual QR codes.
    pub fn qr_string(&self) -> (r: String)
        ensures
            r@ == ascii_upper_seq(spec_ur_string(self.type_seq(), self.data_seq())),
            vstd::utf8::is_ascii_chars(r@),
    {
        let s = self.string();
        let r = ascii_uppercase(s.as_str());
        proof {
            crate::ascii::lemma_upper_preserves_ascii(s@);
        }
        r
    }

    /// Returns the UTF-8 bytes of the upper-cased scheme string.
    pub fn qr_data(&self) -> (r: Vec<u8>)
        ensures
            r@ == ascii_codes(ascii_upper_seq(spec_ur_string(self.type_seq(), self.data_seq()))),
    {
        let q = self.qr_string();
        let qs = q.as_str();
        let r = qs.as_bytes_vec();
        proof {
            broadcast use vstd::string::is_ascii_spec_bytes;

            assert(vstd::string::is_ascii(qs));
            assert(r@ =~= ascii_codes(q@));
        }
        r
    }

    /// Checks the UR type against the provided type: succeeds exactly when
    /// `other_type` is this UR's type name. Never changes the UR.
    pub fn check_type(&self, other_type: &str) -> (r: Result<(), Error>)
        ensures
            match r {
                Ok(()) => is_ur_type_seq(other_type@) && other_type@ == self.type_seq(),
                Err(e) => {
                    ||| (e matches Error::InvalidType && !is_ur_type_seq(other_type@))
                    ||| (e matches Error::UnexpectedType(exp, act) && is_ur_type_seq(other_type@)
                        && other_type@ != self.type_seq() && exp@ == other_type@ && act@
                        == self.type_seq())
                },
            },
    {
        let other = URType::new(other_type)?;
        if !crate::utils::str_equal(self.ur_type.string(), other.string()) {
            return Err(
                Error::UnexpectedType(
                    String::from_str(other.string()),
                    String::from_str(self.ur_type.string()),
                ),
            );
        }
        Ok(())
    }

    /// Returns the UR's type.
    pub fn ur_type(&self) -> (r: &URType)
        ensures
            r@ == self.type_seq(),
    {
        &self.ur_type
    }

    /// Returns the UR's type as a string. The name is always a valid type
    /// name.
    pub fn ur_type_str(&self) -> (r: &str)
        ensures
            r@ == self.type_seq(),
            is_ur_type_seq(self.type_seq()),
    {
        self.ur_type.string()
    }

    /// Returns the record as a structural value, decoded from the stored
    /// canonical bytes; the stored bytes always decode, and the returned
    /// value's canonical encoding is exactly those bytes.
    pub fn cbor(&self) -> (r: dcbor::CBOR)
        ensures
            cbor_data_of(r) == self.data_seq(),
    {
        proof {
            use_type_invariant(self);
        }
        match cbor_try_from_data(self.cbor_data.as_slice()) {
            Ok(c) => c,
            Err(_) => {
                proof {
                    assert(false);
                }
                vstd::pervasive::unreached()
            },
        }
    }
}

impl Clone for UR {
    fn clone(&self) -> (r: Self)
        ensures
            r.type_seq() == self.type_seq(),
            r.data_seq() == self.data_seq(),
    {
        proof {
            use_type_invariant(self);
        }
        let data = self.cbor_data.clone();
        proof {
            assert(data@ =~= self.cbor_data@);
        }
        UR { ur_type: self.ur_type.clone(), cbor_data: data }
    }
}

impl PartialEq for UR {
    fn eq(&self, other: &UR) -> (r: bool) {
        let types_equal = self.ur_type == other.ur_type;
        let data_equal = self.cbor_data == other.cbor_data;
        proof {
            if data_equal {
                assert(self.cbor_data@ =~= other.cbor_data@);
            }
        }
        types_equal && data_equal
    }
}

impl Eq for UR {}

impl vstd::std_specs::cmp::PartialEqSpecImpl for UR {
    open spec fn obeys_eq_spec() -> bool {
        true
    }

    open spec fn eq_spec(&self, other: &UR) -> bool {
        self.type_seq() == other.type_seq() && self.data_seq() == other.data_seq()
    }
}

} // verus!
