//! Small operations on text that the rest of the library shares.

use vstd::prelude::*;
use vstd::string::StringExecFns;
use vstd::string::StringSliceAdditionalSpecFns;
use vstd::utf8::encode_utf8;
use vstd::utf8::encode_utf8_decode_utf8;

verus! {

/// The view of an optional string.
pub open spec fn optional_text(text: Option<String>) -> Option<Seq<char>> {
    match text {
        Some(t) => Some(t@),
        None => None,
    }
}

/// Copies an optional string.
pub fn copy_optional_text(text: &Option<String>) -> (copy: Option<String>)
    ensures
        optional_text(copy) == optional_text(*text),
{
    match text {
        Some(t) => Some(t.clone()),
        None => None,
    }
}

/// Two texts with the same UTF-8 encoding are the same text.
pub proof fn lemma_encoding_is_injective(a: Seq<char>, b: Seq<char>)
    requires
        encode_utf8(a) == encode_utf8(b),
    ensures
        a == b,
{
    encode_utf8_decode_utf8(a);
    encode_utf8_decode_utf8(b);
}

/// Whether two texts are equal, character for character.
pub fn text_eq(a: &str, b: &str) -> (same: bool)
    ensures
        same == (a@ == b@),
{
    let x = a.as_bytes();
    let y = b.as_bytes();
    if x.len() != y.len() {
        return false;
    }
    let mut i: usize = 0;
    while i < x.len()
        invariant
            x@ == a.spec_bytes(),
            y@ == b.spec_bytes(),
            x@.len() == y@.len(),
            i <= x@.len(),
            forall|k: int| 0 <= k < i ==> x@[k] == y@[k],
        decreases x@.len() - i,
    {
        if x[i] != y[i] {
            return false;
        }
        i += 1;
    }
    proof {
        assert(x@ =~= y@);
        lemma_encoding_is_injective(a@, b@);
    }
    true
}

/// The character that writes the digit `d`, for digits below sixteen.
pub open spec fn digit_char(d: nat) -> char {
    if d == 0 {
        '0'
    } else     if d == 1 {
        '1'
    } else     if d == 2 {
        '2'
    } else     if d == 3 {
        '3'
    } else     if d == 4 {
        '4'
    } else     if d == 5 {
        '5'
    } else     if d == 6 {
        '6'
    } else     if d == 7 {
        '7'
    } else     if d == 8 {
        '8'
    } else     if d == 9 {
        '9'
    } else     if d == 10 {
        'a'
    } else     if d == 11 {
        'b'
    } else     if d == 12 {
        'c'
    } else     if d == 13 {
        'd'
    } else     if d == 14 {
        'e'
    } else {
        'f'
    }
}

/// A number in decimal notation, without leading zeros.
pub open spec fn decimal_digits(n: nat) -> Seq<char>
    decreases n,
{
    if n < 10 {
        seq![digit_char(n)]
    } else {
        decimal_digits(n / 10).push(digit_char(n % 10))
    }
}

/// A number in hexadecimal notation with lower-case letters, without
/// leading zeros.
pub open spec fn lower_hex_digits(n: nat) -> Seq<char>
    decreases n,
{
    if n < 16 {
        seq![digit_char(n)]
    } else {
        lower_hex_digits(n / 16).push(digit_char(n % 16))
    }
}

/// The one-character text of a digit.
fn digit_text(d: u64) -> (text: &'static str)
    requires
        d < 16,
    ensures
        text@ == seq![digit_char(d as nat)],
{
    let text = match d {
        0 => {
            proof {
                reveal_strlit("0");
            }
            "0"
        },
        1 => {
            proof {
                reveal_strlit("1");
            }
            "1"
        },
        2 => {
            proof {
                reveal_strlit("2");
            }
            "2"
        },
        3 => {
            proof {
                reveal_strlit("3");
            }
            "3"
        },
        4 => {
            proof {
                reveal_strlit("4");
            }
            "4"
        },
        5 => {
            proof {
                reveal_strlit("5");
            }
            "5"
        },
        6 => {
            proof {
                reveal_strlit("6");
            }
            "6"
        },
        7 => {
            proof {
                reveal_strlit("7");
            }
            "7"
        },
        8 => {
            proof {
                reveal_strlit("8");
            }
            "8"
        },
        9 => {
            proof {
                reveal_strlit("9");
            }
            "9"
        },
        10 => {
            proof {
                reveal_strlit("a");
            }
            "a"
        },
        11 => {
            proof {
                reveal_strlit("b");
            }
            "b"
        },
        12 => {
            proof {
                reveal_strlit("c");
            }
            "c"
        },
        13 => {
            proof {
                reveal_strlit("d");
            }
            "d"
        },
        14 => {
            proof {
                reveal_strlit("e");
            }
            "e"
        },
        _ => {
            proof {
                reveal_strlit("f");
            }
            "f"
        },
    };
    assert(text@ =~= seq![digit_char(d as nat)]);
    text
}

/// Writes a number in decimal notation.
pub fn decimal(n: u128) -> (text: String)
    ensures
        text@ == decimal_digits(n as nat),
    decreases n,
{
    if n < 10 {
        String::from_str(digit_text(n as u64))
    } else {
        let mut text = decimal(n / 10);
        text.append(digit_text((n % 10) as u64));
        text
    }
}

/// Writes a number in hexadecimal notation with lower-case letters.
pub fn lower_hex(n: u64) -> (text: String)
    ensures
        text@ == lower_hex_digits(n as nat),
    decreases n,
{
    if n < 16 {
        String::from_str(digit_text(n))
    } else {
        let mut text = lower_hex(n / 16);
        text.append(digit_text(n % 16));
        text
    }
}

/// Whether `char::is_whitespace` holds of a character: whether it has the
/// Unicode property `White_Space`.
pub uninterp spec fn is_whitespace(c: char) -> bool;

/// A text without its leading whitespace.
pub open spec fn trimmed_start(text: Seq<char>) -> Seq<char>
    decreases text.len(),
{
    if text.len() > 0 && is_whitespace(text[0]) {
        trimmed_start(text.skip(1))
    } else {
        text
    }
}

/// A text without its trailing whitespace.
pub open spec fn trimmed_end(text: Seq<char>) -> Seq<char>
    decreases text.len(),
{
    if text.len() > 0 && is_whitespace(text.last()) {
        trimmed_end(text.drop_last())
    } else {
        text
    }
}

/// A text without its leading and trailing whitespace.
pub open spec fn trimmed(text: Seq<char>) -> Seq<char> {
    trimmed_end(trimmed_start(text))
}

/// `str::trim`. Trusted: the result is the text without its leading and
/// trailing whitespace, so that it neither begins nor ends with whitespace.
#[verifier::external_body]
pub(crate) fn trim(text: &str) -> (inner: &str)
    ensures
        inner@ == trimmed(text@),
        inner@.len() > 0 ==> !is_whitespace(inner@[0]) && !is_whitespace(inner@.last()),
{
    text.trim()
}

/// The text that repeats `unit` `count` times.
pub open spec fn repeated(unit: Seq<char>, count: nat) -> Seq<char>
    decreases count,
{
    if count == 0 {
        Seq::empty()
    } else {
        repeated(unit, (count - 1) as nat) + unit
    }
}

/// Appends `count` copies of `unit` to a text.
pub fn append_repeated(text: &mut String, unit: &str, count: usize)
    ensures
        final(text)@ == old(text)@ + repeated(unit@, count as nat),
{
    let mut i: usize = 0;
    assert(text@ =~= old(text)@ + repeated(unit@, 0));
    while i < count
        invariant
            i <= count,
            text@ == old(text)@ + repeated(unit@, i as nat),
        decreases count - i,
    {
        text.append(unit);
        i += 1;
        assert(text@ =~= old(text)@ + repeated(unit@, i as nat));
    }
}

/// The lower-case form that `str::to_lowercase` gives a text.
pub uninterp spec fn lowercase(text: Seq<char>) -> Seq<char>;

/// `str::to_lowercase`. Trusted: the result is a function of the text
/// alone.
#[verifier::external_body]
pub(crate) fn to_lowercase(text: &str) -> (lower: String)
    ensures
        lower@ == lowercase(text@),
{
    text.to_lowercase()
}

/// Whether `needle` occurs in `haystack` as a run of consecutive
/// characters. The empty text occurs in every text.
pub open spec fn contains_text(haystack: Seq<char>, needle: Seq<char>) -> bool {
    exists|i: int|
        0 <= i <= haystack.len() - needle.len() && #[trigger] haystack.subrange(
            i,
            i + needle.len(),
        ) == needle
}

/// `str::contains` with a string pattern. Trusted: the answer is whether
/// the pattern occurs in the text.
#[verifier::external_body]
pub(crate) fn contains(haystack: &str, needle: &str) -> (found: bool)
    ensures
        found == contains_text(haystack@, needle@),
{
    haystack.contains(needle)
}

} // verus!
