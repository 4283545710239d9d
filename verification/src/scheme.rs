use vstd::prelude::*;

use crate::ascii::ascii_lower_seq;
use crate::ascii::ascii_upper_seq;
use crate::ascii::lemma_lower_of_upper;
use crate::bytewords::Style;
use crate::bytewords::bytewords_encoding;
use crate::bytewords::style_code;
use crate::cbor::dcbor_valid;
use crate::error::Error;
use crate::utils::is_ur_type_char;
use crate::utils::is_ur_type_seq;

verus! {

/// The scheme prefix every UR string begins with.
pub open spec fn ur_prefix() -> Seq<char> {
    seq!['u', 'r', ':']
}

/// The single-part scheme string for type name `t` and record bytes `d`:
/// `ur:<type>/<minimal bytewords encoding of d>`.
pub open spec fn spec_ur_string(t: Seq<char>, d: Seq<u8>) -> Seq<char> {
    ur_prefix() + t + seq!['/'] + bytewords_encoding(d, style_code(Style::Minimal))
}

/// The index of the first occurrence of `c` in `s` at or after `i`, or
/// `s.len()` if there is none.
pub open spec fn find_char_from(s: Seq<char>, c: char, i: int) -> int
    decreases s.len() - i,
{
    if i < 0 || i >= s.len() {
        s.len() as int
    } else if s[i] == c {
        i
    } else {
        find_char_from(s, c, i + 1)
    }
}

/// The ways parsing a scheme string can fail, in the order the parse tries
/// them: a missing `ur:` prefix, a missing `/`, a bad type segment, a
/// rejected fragment payload, a multi-part payload where a single-part one
/// was required, and payload bytes that are not a valid record.
pub enum SchemeFailure {
    BadScheme,
    NoType,
    BadType,
    BadFragment,
    MultiPart,
    BadRecord,
}

/// Whether this crate's error `e` reports the parse failure `f`.
pub open spec fn error_reflects_failure(e: Error, f: SchemeFailure) -> bool {
    match f {
        SchemeFailure::BadScheme => e matches Error::InvalidScheme,
        SchemeFailure::NoType => e matches Error::TypeUnspecified,
        SchemeFailure::BadType => e matches Error::InvalidType,
        SchemeFailure::BadFragment => e matches Error::UR(_),
        SchemeFailure::MultiPart => e matches Error::NotSinglePart,
        SchemeFailure::BadRecord => e matches Error::Cbor(_),
    }
}

/// What the outside scheme-string decoder returns for a string: `None`
/// where it rejects it, otherwise whether the payload is single-part
/// together with the decoded payload bytes. A function of the string alone.
pub uninterp spec fn ur_decoding(s: Seq<char>) -> Option<(bool, Seq<u8>)>;

/// Parsing an already-lowercased scheme string: require the `ur:` prefix,
/// split on the first `/`, validate the type segment, hand the whole string
/// to the outside fragment decoder, require a single-part payload, and
/// require the payload bytes to be a valid record. The successful result is
/// the type name with the record bytes.
pub open spec fn spec_parse_ur(low: Seq<char>) -> Result<(Seq<char>, Seq<u8>), SchemeFailure> {
    if !(low.len() >= 3 && low[0] == 'u' && low[1] == 'r' && low[2] == ':') {
        Err(SchemeFailure::BadScheme)
    } else {
        let k = find_char_from(low, '/', 3);
        if k == low.len() {
            Err(SchemeFailure::NoType)
        } else {
            let t = low.subrange(3, k);
            if !is_ur_type_seq(t) {
                Err(SchemeFailure::BadType)
            } else {
                match ur_decoding(low) {
                    Option::None => Err(SchemeFailure::BadFragment),
                    Option::Some((single, d)) => if !single {
                        Err(SchemeFailure::MultiPart)
                    } else if !dcbor_valid(d) {
                        Err(SchemeFailure::BadRecord)
                    } else {
                        Ok((t, d))
                    },
                }
            }
        }
    }
}

/// A type name accepted by the outside scheme-string encoder: non-empty
/// ASCII letters (either case), digits, or hyphens.
pub open spec fn ur_encodable_type(t: Seq<char>) -> bool {
    t.len() > 0 && forall|i: int|
        0 <= i < t.len() ==> is_ur_type_char(#[trigger] t[i]) || ('A' <= t[i] && t[i] <= 'Z')
}

/// Relies on ur::ur::try_encode: renders `ur:<type>/<minimal bytewords of
/// data>` and succeeds exactly when the type is non-empty ASCII
/// alphanumeric-or-hyphen.
#[verifier::external_body]
pub(crate) fn ur_try_encode(data: &[u8], ur_type: &str) -> (r: Result<String, Error>)
    ensures
        r is Ok <==> ur_encodable_type(ur_type@),
        r matches Ok(v) ==> v@ == spec_ur_string(ur_type@, data@),
        r matches Ok(v) ==> crate::ascii::lower_alpha_seq(
            bytewords_encoding(data@, style_code(Style::Minimal)),
        ),
        r matches Err(e) ==> e matches Error::UR(_),
{
    match ur::ur::try_encode(data, &ur::ur::Type::Custom(ur_type)) {
        Ok(s) => Ok(s),
        Err(e) => Err(Error::UR(format!("{e}"))),
    }
}

/// Relies on ur::ur::decode: ASCII-lowercases the string, validates the
/// scheme prefix and the type segment, bytewords-decodes the payload, and
/// reports whether it was single-part; on a well-formed single-part string
/// it returns exactly the bytes that were encoded.
#[verifier::external_body]
pub(crate) fn ur_decode(value: &str) -> (r: Result<(bool, Vec<u8>), Error>)
    ensures
        r matches Ok(p) ==> ur_decoding(value@) == Some((p.0, p.1@)),
        r matches Err(e) ==> ur_decoding(value@) is None && e matches Error::UR(_),
        r is Err ==> forall|t: Seq<char>, d: Seq<u8>|
            is_ur_type_seq(t) ==> value@ != #[trigger] spec_ur_string(t, d),
        r is Ok && !r->Ok_0.0 ==> forall|t: Seq<char>, d: Seq<u8>|
            is_ur_type_seq(t) ==> value@ != #[trigger] spec_ur_string(t, d),
        r is Ok && r->Ok_0.0 ==> forall|t: Seq<char>, d: Seq<u8>|
            is_ur_type_seq(t) && value@ == #[trigger] spec_ur_string(t, d) ==> r->Ok_0.1@ == d,
{
    match ur::ur::decode(value) {
        Ok((kind, data)) => Ok((matches!(kind, ur::ur::Kind::SinglePart), data)),
        Err(e) => Err(Error::UR(format!("{e}"))),
    }
}

/// Helper: `find_char_from` returns `s.len()` when no position at or after
/// `i` holds `c`.
pub(crate) proof fn lemma_find_char_none(s: Seq<char>, c: char, i: int)
    requires
        0 <= i <= s.len(),
        forall|m: int| i <= m < s.len() ==> s[m] != c,
    ensures
        find_char_from(s, c, i) == s.len(),
    decreases s.len() - i,
{
    if i < s.len() {
        lemma_find_char_none(s, c, i + 1);
    }
}

/// Helper: `find_char_from` returns `j` when `s[j] == c` and no earlier
/// position at or after `i` holds `c`.
pub(crate) proof fn lemma_find_char_some(s: Seq<char>, c: char, i: int, j: int)
    requires
        0 <= i <= j < s.len(),
        s[j] == c,
        forall|m: int| i <= m < j ==> s[m] != c,
    ensures
        find_char_from(s, c, i) == j,
    decreases j - i,
{
    if i < j {
        lemma_find_char_some(s, c, i + 1, j);
    }
}

/// A well-formed single-part scheme string whose payload encoding is
/// lowercase is ASCII throughout and survives ASCII-lowercasing unchanged.
pub proof fn lemma_ur_string_lower(t: Seq<char>, d: Seq<u8>)
    requires
        is_ur_type_seq(t),
        crate::ascii::lower_alpha_seq(bytewords_encoding(d, style_code(Style::Minimal))),
    ensures
        ascii_lower_seq(spec_ur_string(t, d)) == spec_ur_string(t, d),
        vstd::utf8::is_ascii_chars(spec_ur_string(t, d)),
{
    let s = spec_ur_string(t, d);
    let enc = bytewords_encoding(d, style_code(Style::Minimal));
    assert forall|i: int| 0 <= i < s.len() implies (!('A' <= #[trigger] s[i] && s[i] <= 'Z')
        && '\0' <= s[i] <= '\u{7f}') by {
        if i < 3 {
            assert(s[i] == ur_prefix()[i]);
        } else if i < 3 + t.len() {
            assert(s[i] == t[i - 3]);
            assert(is_ur_type_char(t[i - 3]));
        } else if i == 3 + t.len() {
            assert(s[i] == '/');
        } else {
            assert(s[i] == enc[i - (3 + t.len() + 1)]);
        }
    }
    crate::ascii::lemma_lower_fixpoint(s);
}

/// The shape of a well-formed single-part scheme string: it carries the
/// `ur:` prefix, its first `/` stands right after the type segment, and the
/// type segment is the type name itself.
pub proof fn lemma_single_part_shape(t: Seq<char>, d: Seq<u8>)
    requires
        is_ur_type_seq(t),
    ensures
        spec_ur_string(t, d).len() >= 3 + t.len() + 1,
        spec_ur_string(t, d)[0] == 'u',
        spec_ur_string(t, d)[1] == 'r',
        spec_ur_string(t, d)[2] == ':',
        find_char_from(spec_ur_string(t, d), '/', 3) == 3 + t.len(),
        spec_ur_string(t, d).subrange(3, 3 + t.len() as int) == t,
{
    let s = spec_ur_string(t, d);
    assert forall|m: int| 3 <= m < 3 + t.len() implies s[m] != '/' by {
        assert(s[m] == t[m - 3]);
        assert(is_ur_type_char(t[m - 3]));
    }
    assert(s[3 + t.len() as int] == '/');
    lemma_find_char_some(s, '/', 3, 3 + t.len() as int);
    assert(s.subrange(3, 3 + t.len() as int) =~= t);
}

/// Case invariance: parsing an input uppercased first gives the same
/// outcome as parsing the input itself, since parsing begins by
/// ASCII-lowercasing the string.
pub proof fn lemma_case_invariance(s: Seq<char>)
    ensures
        spec_parse_ur(ascii_lower_seq(ascii_upper_seq(s))) == spec_parse_ur(ascii_lower_seq(s)),
{
    lemma_lower_of_upper(s);
}

} // verus!
