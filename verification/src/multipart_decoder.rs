use vstd::prelude::*;

use crate::cbor::cbor_try_from_data;
use crate::cbor::dcbor_valid;
use crate::error::Error;
use crate::resource::UR;
use crate::scheme::SchemeFailure;
use crate::scheme::error_reflects_failure;
use crate::scheme::find_char_from;
use crate::scheme::lemma_find_char_none;
use crate::scheme::lemma_find_char_some;
use crate::ur_type::URType;
use crate::utils::is_ur_type_seq;

verus! {

// The reassembler of the outside fountain codec. Its values are opaque
// here: when it completes, and what message it reconstructs, is entirely
// its contract.
#[verifier::external_type_specification]
#[verifier::external_body]
pub struct ExUrDecoder(ur::Decoder);

/// Whether the outside reassembler holds a complete message: a function of
/// the reassembler's state.
pub uninterp spec fn reassembler_complete(dec: ur::Decoder) -> bool;

/// The message the outside reassembler yields once complete, or nothing
/// while it is incomplete or reports an inconsistent internal state: a
/// function of the reassembler's state.
pub uninterp spec fn reassembler_message(dec: ur::Decoder) -> Option<Seq<u8>>;

/// The reassembler's state after ingesting one fragment string, whatever
/// the outcome: a function of the prior state and the string alone, since
/// the reassembler's mixing is deterministic, seeded from the message's
/// own checksum.
pub uninterp spec fn reassembler_step(dec: ur::Decoder, value: Seq<char>) -> ur::Decoder;

/// Whether the outside reassembler rejects the fragment string when it is
/// in the given state.
pub uninterp spec fn reassembler_step_err(dec: ur::Decoder, value: Seq<char>) -> bool;

/// Relies on ur::Decoder::default: a fresh reassembler is not complete.
#[verifier::external_body]
fn reassembler_new() -> (r: ur::Decoder)
    ensures
        !reassembler_complete(r),
{
    ur::Decoder::default()
}

/// Relies on ur::Decoder::receive: ingests one fragment string with all of
/// the codec's own validation, returning its errors as values and never
/// panicking. The outcome and the new state are the deterministic step of
/// the old state on the string, and a decoder that was complete stays
/// complete: extra fragments never undo completion.
#[verifier::external_body]
fn reassembler_receive(dec: &mut ur::Decoder, value: &str) -> (r: Result<(), Error>)
    ensures
        r is Ok ==> (*final(dec) == reassembler_step(*old(dec), value@) && !reassembler_step_err(
            *old(dec),
            value@,
        )),
        r matches Err(e) ==> (e matches Error::UR(_) && *final(dec) == reassembler_step(
            *old(dec),
            value@,
        ) && reassembler_step_err(*old(dec), value@)),
        r is Ok ==> (reassembler_complete(*old(dec)) ==> reassembler_complete(*final(dec))),
        r is Err ==> (reassembler_complete(*old(dec)) ==> reassembler_complete(*final(dec))),
    no_unwind
{
    match dec.receive(value) {
        Ok(()) => Ok(()),
        Err(e) => Err(Error::UR(format!("{e}"))),
    }
}

/// Relies on ur::Decoder::complete: reports whether the message is
/// complete.
#[verifier::external_body]
fn reassembler_is_complete(dec: &ur::Decoder) -> (r: bool)
    ensures
        r == reassembler_complete(*dec),
{
    dec.complete()
}

/// Relies on ur::Decoder::message: before completion it returns nothing;
/// once complete it returns the reconstructed message, and it errs exactly
/// where the reassembler reports an inconsistent internal state.
#[verifier::external_body]
fn reassembler_message_bytes(dec: &ur::Decoder) -> (r: Result<Option<Vec<u8>>, Error>)
    ensures
        r matches Ok(opt) ==> (opt is None <==> !reassembler_complete(*dec)),
        r matches Ok(opt) ==> (opt matches Some(v) ==> reassembler_message(*dec) == Some(v@)),
        r is Err <==> (reassembler_complete(*dec) && reassembler_message(*dec) is None),
        r matches Err(e) ==> e matches Error::UR(_),
{
    match dec.message() {
        Ok(opt) => Ok(opt),
        Err(e) => Err(Error::UR(format!("{e}"))),
    }
}

/// The type segment a fragment string declares: the characters after the
/// `ur:` prefix up to the first `/`, or to the end where there is none,
/// validated as a type name. No case folding is performed here.
pub open spec fn spec_fragment_type(s: Seq<char>) -> Result<Seq<char>, SchemeFailure> {
    if !(s.len() >= 3 && s[0] == 'u' && s[1] == 'r' && s[2] == ':') {
        Err(SchemeFailure::BadScheme)
    } else {
        let t = s.subrange(3, find_char_from(s, '/', 3));
        if !is_ur_type_seq(t) {
            Err(SchemeFailure::BadType)
        } else {
            Ok(t)
        }
    }
}

/// Wraps the outside reassembler and adds the type-consistency rule the
/// reassembler does not itself provide: the first fragment's declared type
/// becomes the session's type, and a fragment of any other type is rejected
/// without touching the reassembler.
pub struct MultipartDecoder {
    ur_type: Option<URType>,
    reassembler: ur::Decoder,
}

impl MultipartDecoder {
    /// The session's type: set by the first accepted fragment.
    pub closed spec fn expected_type(&self) -> Option<Seq<char>> {
        match self.ur_type {
            Some(t) => Some(t@),
            None => None,
        }
    }

    /// The state of the wrapped reassembler.
    pub closed spec fn state(&self) -> ur::Decoder {
        self.reassembler
    }

    /// Until a first fragment has set the session's type, the reassembler
    /// has received nothing and is not complete.
    #[verifier::type_invariant]
    pub open spec fn wf(self) -> bool {
        self.expected_type() is None ==> !reassembler_complete(self.state())
    }

    /// Creates a new MultipartDecoder with no session type yet.
    pub fn new() -> (r: MultipartDecoder)
        ensures
            r.expected_type() is None,
            !reassembler_complete(r.state()),
    {
        MultipartDecoder { ur_type: None, reassembler: reassembler_new() }
    }

    /// Extracts and validates the type a fragment string declares.
    fn decode_type(ur_string: &str) -> (r: Result<URType, Error>)
        ensures
            match r {
                Ok(t) => spec_fragment_type(ur_string@) == Ok::<_, SchemeFailure>(t@),
                Err(e) => spec_fragment_type(ur_string@) matches Err(f) && error_reflects_failure(
                    e,
                    f,
                ),
            },
    {
        let ghost s = ur_string@;
        let len = ur_string.unicode_len();
        if len < 3 || ur_string.get_char(0) != 'u' || ur_string.get_char(1) != 'r'
            || ur_string.get_char(2) != ':' {
            return Err(Error::InvalidScheme);
        }
        let mut k: usize = 3;
        while k < len && ur_string.get_char(k) != '/'
            invariant
                3 <= k <= len,
                len == s.len(),
                ur_string@ == s,
                forall|m: int| 3 <= m < k ==> s[m] != '/',
            decreases len - k,
        {
            k += 1;
        }
        proof {
            if k == len {
                lemma_find_char_none(s, '/', 3);
            } else {
                lemma_find_char_some(s, '/', 3, k as int);
            }
        }
        let t_str = ur_string.substring_char(3, k);
        URType::new(t_str)
    }

    /// Receives one fragment string. A fragment whose type segment does not
    /// parse is rejected with the whole decoder unchanged. Once the session
    /// has a type, a fragment declaring any other type is rejected with
    /// `UnexpectedType` — carrying the expected and the found name — and
    /// the reassembler is left untouched, so completion and progress are
    /// unaffected. Otherwise the fragment's type becomes (or confirms) the
    /// session's type and the raw fragment is forwarded to the reassembler,
    /// whose own errors are surfaced unchanged.
    pub fn receive(&mut self, value: &str) -> (r: Result<(), Error>)
        ensures
            spec_fragment_type(value@) matches Err(f) ==> ({
                &&& r matches Err(e) && error_reflects_failure(e, f)
                &&& final(self).expected_type() == old(self).expected_type()
                &&& final(self).state() == old(self).state()
            }),
            ({
                &&& spec_fragment_type(value@) matches Ok(t)
                &&& old(self).expected_type() matches Some(t0)
                &&& t0 != t
            }) ==> ({
                &&& r matches Err(e) && e matches Error::UnexpectedType(exp, act) && exp@ == old(
                    self,
                ).expected_type()->Some_0 && act@ == spec_fragment_type(value@)->Ok_0
                &&& final(self).expected_type() == old(self).expected_type()
                &&& final(self).state() == old(self).state()
            }),
            ({
                &&& spec_fragment_type(value@) matches Ok(t)
                &&& (old(self).expected_type() is None || old(self).expected_type() == Some(t))
            }) ==> ({
                &&& final(self).expected_type() == Some(spec_fragment_type(value@)->Ok_0)
                &&& final(self).state() == reassembler_step(old(self).state(), value@)
                &&& (r is Err <==> reassembler_step_err(old(self).state(), value@))
                &&& (r matches Err(e) ==> e matches Error::UR(_))
            }),
            reassembler_complete(old(self).state()) ==> reassembler_complete(final(self).state()),
    {
        proof {
            use_type_invariant(&*self);
        }
        let decoded_type = match Self::decode_type(value) {
            Ok(t) => t,
            Err(e) => {
                return Err(e);
            },
        };
        match &self.ur_type {
            Some(expected) => {
                if !(*expected == decoded_type) {
                    return Err(
                        Error::UnexpectedType(
                            String::from_str(expected.string()),
                            String::from_str(decoded_type.string()),
                        ),
                    );
                }
            },
            None => {
                self.ur_type = Some(decoded_type);
            },
        }
        reassembler_receive(&mut self.reassembler, value)
    }

    /// Returns whether the reassembler reports a complete message.
    pub fn is_complete(&self) -> (r: bool)
        ensures
            r == reassembler_complete(self.state()),
    {
        reassembler_is_complete(&self.reassembler)
    }

    /// While the reassembler is incomplete, returns nothing. Once it is
    /// complete and yields bytes that are a valid record, decodes them and
    /// wraps them with the session's type into a UR; a reassembler
    /// inconsistency or bytes that are no valid record are reported as
    /// errors, each exactly when its condition holds.
    pub fn message(&self) -> (r: Result<Option<UR>, Error>)
        ensures
            !reassembler_complete(self.state()) ==> (r matches Ok(opt) && opt is None),
            r matches Ok(opt) ==> (opt matches Some(u) ==> ({
                &&& reassembler_complete(self.state())
                &&& self.expected_type() == Some(u.type_seq())
                &&& reassembler_message(self.state()) == Some(u.data_seq())
                &&& dcbor_valid(u.data_seq())
            })),
            ({
                &&& reassembler_complete(self.state())
                &&& reassembler_message(self.state()) is Some
                &&& dcbor_valid(reassembler_message(self.state())->Some_0)
            }) ==> (r matches Ok(opt) && opt matches Some(u) && u.data_seq() == reassembler_message(
                self.state(),
            )->Some_0 && self.expected_type() == Some(u.type_seq())),
            ({
                &&& reassembler_complete(self.state())
                &&& reassembler_message(self.state()) is Some
                &&& !dcbor_valid(reassembler_message(self.state())->Some_0)
            }) ==> (r matches Err(e) && e matches Error::Cbor(_)),
            ({
                &&& reassembler_complete(self.state())
                &&& reassembler_message(self.state()) is None
            }) ==> (r matches Err(e) && e matches Error::UR(_)),
            r matches Err(e) ==> (e matches Error::UR(_) || e matches Error::Cbor(_)),
    {
        proof {
            use_type_invariant(&*self);
        }
        match reassembler_message_bytes(&self.reassembler) {
            Err(e) => Err(e),
            Ok(None) => Ok(None),
            Ok(Some(data)) => {
                match &self.ur_type {
                    None => {
                        proof {
                            assert(false);
                        }
                        vstd::pervasive::unreached()
                    },
                    Some(t) => {
                        match cbor_try_from_data(data.as_slice()) {
                            Err(e) => Err(e),
                            Ok(_cbor) => {
                                let ur_type = t.clone();
                                Ok(Some(UR::from_parts(ur_type, data)))
                            },
                        }
                    },
                }
            },
        }
    }
}

impl Default for MultipartDecoder {
    fn default() -> (r: Self)
        ensures
            r.expected_type() is None,
            !reassembler_complete(r.state()),
    {
        MultipartDecoder::new()
    }
}

} // verus!
