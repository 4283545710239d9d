use vstd::prelude::*;

use crate::error::Error;
use crate::resource::UR;
use crate::scheme::ur_encodable_type;

verus! {

// The segmenter of the outside fountain codec. Its values are opaque here:
// which fragments it emits is entirely its contract.
#[verifier::external_type_specification]
#[verifier::external_body]
pub struct ExUrEncoder<'a>(ur::Encoder<'a>);

/// The segmenter's state after emitting one part, whatever the outcome: a
/// function of the prior state alone, since the mixing sequence is
/// deterministic, seeded from the message's own checksum.
pub uninterp spec fn segmenter_step(enc: ur::Encoder<'_>) -> ur::Encoder<'_>;

/// The fragment string the segmenter emits from the given state, or
/// nothing where rendering the part fails.
pub uninterp spec fn segmenter_next_result(enc: ur::Encoder<'_>) -> Option<Seq<char>>;

/// The number of segments a segmenter in the given state has split its
/// message into: fixed when the segmenter is constructed.
pub uninterp spec fn segmenter_count(enc: ur::Encoder<'_>) -> int;

/// The number of segments the outside segmenter splits a message into
/// under a maximum fragment length: a function of the two alone.
pub uninterp spec fn segmenter_fragment_count_of(message: Seq<u8>, max_fragment_length: int) -> int;

/// Relies on ur::Encoder::new: succeeds exactly when the type is one the
/// scheme encoder accepts, the message is non-empty, and the maximum
/// fragment length is positive; the segmenter it builds carries the
/// fragment count determined by the message and the fragment length.
#[verifier::external_body]
fn segmenter_new<'a>(message: &[u8], max_fragment_length: usize, ur_type: &'a str) -> (r: Result<
    ur::Encoder<'a>,
    Error,
>)
    ensures
        r is Ok <==> (ur_encodable_type(ur_type@) && message@.len() > 0 && max_fragment_length
            > 0),
        r matches Ok(enc) ==> segmenter_count(enc) == segmenter_fragment_count_of(
            message@,
            max_fragment_length as int,
        ),
        r matches Err(e) ==> e matches Error::UR(_),
{
    match ur::Encoder::new(message, max_fragment_length, ur_type) {
        Ok(enc) => Ok(enc),
        Err(e) => Err(Error::UR(format!("{e}"))),
    }
}

/// Relies on ur::Encoder::next_part: renders the next fountain part as a
/// fragment string. The emitted string and the new state are the
/// deterministic step of the old state, and the fragment count never
/// changes after construction.
#[verifier::external_body]
fn segmenter_next_part(enc: &mut ur::Encoder<'_>) -> (r: Result<String, Error>)
    ensures
        r matches Ok(s) ==> (*final(enc) == segmenter_step(*old(enc)) && segmenter_next_result(
            *old(enc),
        ) == Some(s@) && segmenter_count(*final(enc)) == segmenter_count(*old(enc))),
        r matches Err(e) ==> (e matches Error::UR(_) && *final(enc) == segmenter_step(*old(enc))
            && segmenter_next_result(*old(enc)) is None && segmenter_count(*final(enc))
            == segmenter_count(*old(enc))),
{
    match enc.next_part() {
        Ok(s) => Ok(s),
        Err(e) => Err(Error::UR(format!("{e}"))),
    }
}

/// Relies on ur::Encoder::fragment_count: the number of segments the
/// message was split into.
#[verifier::external_body]
fn segmenter_fragment_count(enc: &ur::Encoder<'_>) -> (r: usize)
    ensures
        r as int == segmenter_count(*enc),
{
    enc.fragment_count()
}

/// Wraps the outside segmenter over a single UR's record bytes and type
/// name, and exposes sequential fragment production. Which fragments come
/// out — including how many unique fragments exist before mixed fragments
/// begin — is entirely the segmenter's contract; this wrapper records the
/// construction inputs, delegates, and keeps a verified count of the parts
/// emitted.
pub struct MultipartEncoder<'a> {
    segmenter: ur::Encoder<'a>,
    index: usize,
    count: usize,
    inputs: Ghost<(Seq<u8>, int, Seq<char>)>,
}

impl<'a> MultipartEncoder<'a> {
    /// The number of parts emitted so far.
    pub closed spec fn index_spec(&self) -> int {
        self.index as int
    }

    /// The fragment count the segmenter reported at construction.
    pub closed spec fn count_spec(&self) -> int {
        self.count as int
    }

    /// The state of the wrapped segmenter.
    pub closed spec fn seg_state(&self) -> ur::Encoder<'a> {
        self.segmenter
    }

    /// The record bytes the segmenter was built over.
    pub closed spec fn message_spec(&self) -> Seq<u8> {
        self.inputs@.0
    }

    /// The maximum fragment length the segmenter was built with.
    pub closed spec fn max_fragment_spec(&self) -> int {
        self.inputs@.1
    }

    /// The type name each fragment is tagged with.
    pub closed spec fn type_spec(&self) -> Seq<char> {
        self.inputs@.2
    }

    /// Creates a new MultipartEncoder: builds the segmenter over exactly
    /// the UR's record bytes, the given maximum fragment length and the
    /// UR's type as the per-fragment tag. Succeeds exactly when the record
    /// bytes are non-empty and the maximum fragment length is positive,
    /// and then reports the segmenter's fragment count for those inputs.
    pub fn new(ur: &'a UR, max_fragment_len: usize) -> (r: Result<MultipartEncoder<'a>, Error>)
        ensures
            r is Ok <==> (ur.data_seq().len() > 0 && max_fragment_len > 0),
            r matches Ok(me) ==> ({
                &&& me.index_spec() == 0
                &&& me.message_spec() == ur.data_seq()
                &&& me.max_fragment_spec() == max_fragment_len as int
                &&& me.type_spec() == ur.type_seq()
                &&& me.count_spec() == segmenter_fragment_count_of(
                    ur.data_seq(),
                    max_fragment_len as int,
                )
            }),
            r matches Err(e) ==> e matches Error::UR(_),
    {
        let t = ur.ur_type_str();
        proof {
            assert forall|i: int| 0 <= i < t@.len() implies crate::utils::is_ur_type_char(
                #[trigger] t@[i],
            ) || ('A' <= t@[i] && t@[i] <= 'Z') by {}
            assert(ur_encodable_type(t@));
        }
        match segmenter_new(ur.data().as_slice(), max_fragment_len, t) {
            Err(e) => Err(e),
            Ok(seg) => {
                let count = segmenter_fragment_count(&seg);
                let ghost inputs = (ur.data_seq(), max_fragment_len as int, ur.type_seq());
                Ok(MultipartEncoder { segmenter: seg, index: 0, count, inputs: Ghost(inputs) })
            },
        }
    }

    /// Produces the next fragment string in the segmenter's sequence and
    /// counts it as emitted; the construction record and the fragment
    /// count are unchanged.
    pub fn next_part(&mut self) -> (r: Result<String, Error>)
        requires
            old(self).index_spec() < usize::MAX,
        ensures
            final(self).index_spec() == old(self).index_spec() + 1,
            final(self).count_spec() == old(self).count_spec(),
            final(self).message_spec() == old(self).message_spec(),
            final(self).max_fragment_spec() == old(self).max_fragment_spec(),
            final(self).type_spec() == old(self).type_spec(),
            final(self).seg_state() == segmenter_step(old(self).seg_state()),
            r matches Ok(s) ==> segmenter_next_result(old(self).seg_state()) == Some(s@),
            r matches Err(e) ==> (e matches Error::UR(_) && segmenter_next_result(
                old(self).seg_state(),
            ) is None),
    {
        let r = segmenter_next_part(&mut self.segmenter);
        self.index = self.index + 1;
        r
    }

    /// Returns the number of parts emitted so far.
    pub fn current_index(&self) -> (r: usize)
        ensures
            r == self.index_spec(),
    {
        self.index
    }

    /// Returns the number of segments the record was split into: the
    /// segmenter's fragment count, fixed at construction.
    pub fn parts_count(&self) -> (r: usize)
        ensures
            r == self.count_spec(),
    {
        self.count
    }
}

} // verus!
