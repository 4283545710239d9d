use vstd::prelude::*;

verus! {

/// The ASCII-lowercase of a character: `'A'..='Z'` mapped to `'a'..='z'`,
/// every other character unchanged.
pub open spec fn ascii_lower_char(c: char) -> char {
    if 'A' <= c && c <= 'Z' {
        ((c as u32) + 32) as char
    } else {
        c
    }
}

/// The ASCII-uppercase of a character: `'a'..='z'` mapped to `'A'..='Z'`,
/// every other character unchanged.
pub open spec fn ascii_upper_char(c: char) -> char {
    if 'a' <= c && c <= 'z' {
        ((c as u32) - 32) as char
    } else {
        c
    }
}

/// The ASCII-lowercase of a string, character by character.
pub open spec fn ascii_lower_seq(s: Seq<char>) -> Seq<char> {
    Seq::new(s.len(), |i: int| ascii_lower_char(s[i]))
}

/// The ASCII-uppercase of a string, character by character.
pub open spec fn ascii_upper_seq(s: Seq<char>) -> Seq<char> {
    Seq::new(s.len(), |i: int| ascii_upper_char(s[i]))
}

/// No character of `s` is an ASCII uppercase letter.
pub open spec fn no_ascii_upper(s: Seq<char>) -> bool {
    forall|i: int| 0 <= i < s.len() ==> !('A' <= #[trigger] s[i] && s[i] <= 'Z')
}

/// Every character of `s` is an ASCII lowercase letter.
pub open spec fn lower_alpha_seq(s: Seq<char>) -> bool {
    forall|i: int| 0 <= i < s.len() ==> ('a' <= #[trigger] s[i] && s[i] <= 'z')
}

/// Relies on str::to_ascii_lowercase: ASCII uppercase letters are mapped to
/// their lowercase counterpart, all other characters are left unchanged.
#[verifier::external_body]
pub fn ascii_lowercase(s: &str) -> (r: String)
    ensures
        r@ == ascii_lower_seq(s@),
{
    s.to_ascii_lowercase()
}

/// Relies on str::to_ascii_uppercase: ASCII lowercase letters are mapped to
/// their uppercase counterpart, all other characters are left unchanged.
#[verifier::external_body]
pub fn ascii_uppercase(s: &str) -> (r: String)
    ensures
        r@ == ascii_upper_seq(s@),
{
    s.to_ascii_uppercase()
}

/// Lowercasing after uppercasing gives the same result as lowercasing
/// directly: case information never survives the fold.
pub proof fn lemma_lower_of_upper(s: Seq<char>)
    ensures
        ascii_lower_seq(ascii_upper_seq(s)) == ascii_lower_seq(s),
{
    assert forall|i: int| 0 <= i < s.len() implies ascii_lower_char(ascii_upper_char(s[i]))
        == ascii_lower_char(s[i]) by {
        let c = s[i];
        if 'a' <= c && c <= 'z' {
            assert(ascii_upper_char(c) == (((c as u32) - 32) as char));
            assert('A' <= ascii_upper_char(c) && ascii_upper_char(c) <= 'Z');
            assert(ascii_lower_char(ascii_upper_char(c)) == c);
        }
    }
    assert(ascii_lower_seq(ascii_upper_seq(s)) =~= ascii_lower_seq(s));
}

/// Uppercasing an ASCII string yields an ASCII string.
pub proof fn lemma_upper_preserves_ascii(s: Seq<char>)
    requires
        vstd::utf8::is_ascii_chars(s),
    ensures
        vstd::utf8::is_ascii_chars(ascii_upper_seq(s)),
{
    assert forall|i: int| 0 <= i < s.len() implies '\0' <= #[trigger] ascii_upper_seq(s)[i]
        <= '\u{7f}' by {
        assert('\0' <= s[i] <= '\u{7f}');
    }
}

/// A string without ASCII uppercase letters is unchanged by lowercasing.
pub proof fn lemma_lower_fixpoint(s: Seq<char>)
    requires
        no_ascii_upper(s),
    ensures
        ascii_lower_seq(s) == s,
{
    assert(ascii_lower_seq(s) =~= s);
}

} // verus!
