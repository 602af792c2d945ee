use vstd::prelude::*;

verus! {

/// A key as the window system reports it: a key that produces text, with
/// that text, or any other key.
pub enum Key {
    Character(String),
    Other,
}

/// Whether `c` has the Unicode `Alphabetic` property, as `char::is_alphabetic` decides.
pub uninterp spec fn char_is_alphabetic(c: char) -> bool;

/// `char::is_alphabetic`: its result is a function of the character (named
/// `char_is_alphabetic`), true for the ASCII letters and false for the ASCII
/// digits, as the Unicode `Alphabetic` property that it reads has them; the
/// rest of the Unicode tables is not stated.
#[verifier::external_body]
fn is_alphabetic(c: char) -> (b: bool)
    ensures
        b == char_is_alphabetic(c),
        ('a' <= c <= 'z' || 'A' <= c <= 'Z') ==> b,
        '0' <= c <= '9' ==> !b,
{
    c.is_alphabetic()
}

pub open spec fn ascii_lowercase(c: char) -> char {
    if 'A' <= c <= 'Z' {
        ((c as u32) + 32) as char
    } else {
        c
    }
}

pub open spec fn ascii_uppercase(c: char) -> char {
    if 'a' <= c <= 'z' {
        ((c as u32) - 32) as char
    } else {
        c
    }
}

/// A key text matches `other` when it is a single one-byte character equal to
/// `other`, ignoring ASCII case when `other` is a letter.
pub open spec fn key_text_matches(text: Seq<char>, other: char) -> bool {
    &&& text.len() == 1
    &&& (text[0] as u32) < 128
    &&& if !char_is_alphabetic(other) {
        text[0] == other
    } else {
        ascii_lowercase(text[0]) == other || ascii_uppercase(text[0]) == other
    }
}

/// Comparing a key with a character.
pub trait KeyCmp {
    spec fn spec_eq_ignore_case(&self, other: char) -> bool;

    fn eq_ignore_case(&self, other: char) -> (b: bool)
        ensures
            b == self.spec_eq_ignore_case(other),
    ;
}

impl KeyCmp for Key {
    open spec fn spec_eq_ignore_case(&self, other: char) -> bool {
        match self {
            Key::Character(s) => key_text_matches(s@, other),
            Key::Other => false,
        }
    }

    /// A letter matches a key of that letter in either case; a digit matches
    /// a key of that digit alone.
    fn eq_ignore_case(&self, other: char) -> (b: bool)
        ensures
            ('a' <= other <= 'z' || 'A' <= other <= 'Z') ==> b == (self matches Key::Character(s)
                && s@.len() == 1 && (ascii_lowercase(s@[0]) == other || ascii_uppercase(s@[0])
                == other)),
            '0' <= other <= '9' ==> b == (self matches Key::Character(s) && s@ == seq![other]),
    {
        match self {
            Key::Character(content) => {
                let s = content.as_str();
                if s.unicode_len() != 1 {
                    return false;
                }
                let chr = s.get_char(0);
                if (chr as u32) >= 128 {
                    return false;
                }
                if !is_alphabetic(other) {
                    proof {
                        if chr == other {
                            assert(s@ =~= seq![other]);
                        }
                    }
                    return chr == other;
                }
                let lower = if 'A' <= chr && chr <= 'Z' {
                    ((chr as u8) + 32) as char
                } else {
                    chr
                };
                let upper = if 'a' <= chr && chr <= 'z' {
                    ((chr as u8) - 32) as char
                } else {
                    chr
                };
                lower == other || upper == other
            },
            Key::Other => false,
        }
    }
}

} // verus!
