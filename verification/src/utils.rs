use vstd::prelude::*;

verus! {

/// A character that may appear in a UR type name: a lowercase ASCII letter,
/// an ASCII digit, or a hyphen.
pub open spec fn is_ur_type_char(c: char) -> bool {
    ('a' <= c && c <= 'z') || ('0' <= c && c <= '9') || c == '-'
}

/// Every character of `s` is a valid UR type character.
pub open spec fn ur_type_chars(s: Seq<char>) -> bool {
    forall|i: int| 0 <= i < s.len() ==> is_ur_type_char(#[trigger] s[i])
}

/// A valid UR type name: non-empty, and made of UR type characters only.
pub open spec fn is_ur_type_seq(s: Seq<char>) -> bool {
    s.len() > 0 && ur_type_chars(s)
}

pub trait URTypeChar {
    spec fn char_value(&self) -> char;

    /// Returns true if the character is a valid UR type character.
    fn is_ur_type(&self) -> (r: bool)
        ensures
            r == is_ur_type_char(self.char_value()),
    ;
}

impl URTypeChar for char {
    open spec fn char_value(&self) -> char {
        *self
    }

    fn is_ur_type(&self) -> (r: bool) {
        ('a' <= *self && *self <= 'z') || ('0' <= *self && *self <= '9') || *self == '-'
    }
}

/// Returns true if every character of `s` is a valid UR type character.
pub fn ur_type_chars_only(s: &str) -> (r: bool)
    ensures
        r == ur_type_chars(s@),
{
    let len = s.unicode_len();
    let mut i: usize = 0;
    while i < len
        invariant
            len == s@.len(),
            0 <= i <= len,
            forall|j: int| 0 <= j < i ==> is_ur_type_char(#[trigger] s@[j]),
        decreases len - i,
    {
        let c = s.get_char(i);
        if !(('a' <= c && c <= 'z') || ('0' <= c && c <= '9') || c == '-') {
            return false;
        }
        i += 1;
    }
    true
}

/// Returns true if the two strings hold the same characters.
pub fn str_equal(a: &str, b: &str) -> (r: bool)
    ensures
        r == (a@ == b@),
{
    let la = a.unicode_len();
    let lb = b.unicode_len();
    if la != lb {
        proof {
            assert(a@.len() != b@.len());
        }
        return false;
    }
    let mut i: usize = 0;
    while i < la
        invariant
            la == a@.len(),
            lb == b@.len(),
            la == lb,
            0 <= i <= la,
            forall|j: int| 0 <= j < i ==> a@[j] == b@[j],
        decreases la - i,
    {
        if a.get_char(i) != b.get_char(i) {
            return false;
        }
        i += 1;
    }
    proof {
        assert(a@ =~= b@);
    }
    true
}

pub trait URTypeString {
    spec fn chars_value(&self) -> Seq<char>;

    /// Returns true if the string consists of UR type characters only.
    fn is_ur_type(&self) -> (r: bool)
        ensures
            r == ur_type_chars(self.chars_value()),
    ;
}

impl URTypeString for &str {
    open spec fn chars_value(&self) -> Seq<char> {
        (*self)@
    }

    fn is_ur_type(&self) -> (r: bool) {
        ur_type_chars_only(self)
    }
}

impl URTypeString for String {
    open spec fn chars_value(&self) -> Seq<char> {
        self@
    }

    fn is_ur_type(&self) -> (r: bool) {
        ur_type_chars_only(self.as_str())
    }
}

} // verus!
