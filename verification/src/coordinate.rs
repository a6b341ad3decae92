//! Pointer coordinates, held as the decimal literals that go on the wire.
//!
//! A coordinate is reported by the platform as a fractional number. It is
//! only ever passed through, never computed with, so it is kept in the form
//! in which it leaves the process: a number literal of the wire grammar.

use vstd::prelude::*;
use vstd::string::*;

verus! {

broadcast use vstd::string::group_string_axioms;

/// The bytes of the ASCII characters that a number literal is made of.
const ZERO: u8 = 48;

const NINE: u8 = 57;

const MINUS: u8 = 45;

const PLUS: u8 = 43;

const POINT: u8 = 46;

const LOWER_E: u8 = 101;

const UPPER_E: u8 = 69;

/// Whether `c` is one of the decimal digits.
pub open spec fn is_digit(c: char) -> bool {
    '0' <= c <= '9'
}

/// The index just past the longest run of digits of `s` that starts at `from`.
pub open spec fn digits_end(s: Seq<char>, from: int) -> int
    decreases s.len() - from,
{
    if 0 <= from < s.len() && is_digit(s[from]) {
        digits_end(s, from + 1)
    } else {
        from
    }
}

/// Where the integer part of a literal starts: behind the sign, if there is one.
pub open spec fn integer_start(s: Seq<char>) -> int {
    if s.len() > 0 && s[0] == '-' {
        1
    } else {
        0
    }
}

/// Where the fraction ends, given where the integer part ends. Without a
/// decimal point there is no fraction and the result is `integer_end`.
pub open spec fn fraction_end(s: Seq<char>, integer_end: int) -> int {
    if 0 <= integer_end < s.len() && s[integer_end] == '.' {
        digits_end(s, integer_end + 1)
    } else {
        integer_end
    }
}

/// Where the digits of the exponent start, given where the fraction ends.
/// Without an exponent marker the result is `fraction_end`.
pub open spec fn exponent_start(s: Seq<char>, fraction_end: int) -> int {
    if 0 <= fraction_end < s.len() && (s[fraction_end] == 'e' || s[fraction_end] == 'E') {
        if fraction_end + 1 < s.len() && (s[fraction_end + 1] == '+' || s[fraction_end + 1]
            == '-') {
            fraction_end + 2
        } else {
            fraction_end + 1
        }
    } else {
        fraction_end
    }
}

/// Whether `s` is a number literal of the wire grammar: an optional minus
/// sign, an integer part without superfluous leading zeros, an optional
/// fraction of at least one digit, and an optional exponent of at least one
/// digit, with nothing before or after.
pub open spec fn is_number(s: Seq<char>) -> bool {
    let start = integer_start(s);
    let integer_end = digits_end(s, start);
    let fraction_end = fraction_end(s, integer_end);
    let exponent_start = exponent_start(s, fraction_end);
    let end = if exponent_start > fraction_end {
        digits_end(s, exponent_start)
    } else {
        fraction_end
    };
    &&& integer_end > start
    &&& (s[start] == '0' ==> integer_end == start + 1)
    &&& (fraction_end > integer_end ==> fraction_end > integer_end + 1)
    &&& (exponent_start > fraction_end ==> end > exponent_start)
    &&& end == s.len()
}

/// A run of digits stays inside the text and holds digits only.
pub proof fn lemma_digits_end(s: Seq<char>, from: int)
    requires
        0 <= from <= s.len(),
    ensures
        from <= digits_end(s, from) <= s.len(),
        forall|i: int| from <= i < digits_end(s, from) ==> is_digit(#[trigger] s[i]),
        digits_end(s, from) < s.len() ==> !is_digit(s[digits_end(s, from)]),
    decreases s.len() - from,
{
    if from < s.len() && is_digit(s[from]) {
        lemma_digits_end(s, from + 1);
    }
}

/// Whether `c` can stand in a number literal: a digit, a sign, the decimal
/// point or the exponent marker.
pub open spec fn is_number_char(c: char) -> bool {
    is_digit(c) || c == '-' || c == '+' || c == '.' || c == 'e' || c == 'E'
}

/// A number literal is not empty and holds nothing but digits, signs, the
/// decimal point and the exponent marker.
pub proof fn lemma_number_chars(s: Seq<char>)
    requires
        is_number(s),
    ensures
        s.len() > 0,
        forall|i: int| 0 <= i < s.len() ==> is_number_char(#[trigger] s[i]),
{
    let start = integer_start(s);
    lemma_digits_end(s, start);
    let integer_end = digits_end(s, start);
    if integer_end < s.len() && s[integer_end] == '.' {
        lemma_digits_end(s, integer_end + 1);
    }
    let fraction_end = fraction_end(s, integer_end);
    let exponent_start = exponent_start(s, fraction_end);
    if exponent_start > fraction_end {
        lemma_digits_end(s, exponent_start);
    }
    assert forall|i: int| 0 <= i < s.len() implies is_number_char(#[trigger] s[i]) by {
        if i < start {
        } else if i < integer_end {
            assert(is_digit(s[i]));
        } else if i < fraction_end {
            if i > integer_end {
                assert(is_digit(s[i]));
            }
        } else if i < exponent_start {
        } else {
            assert(is_digit(s[i]));
        }
    }
}

/// One coordinate of a pointer position.
#[derive(Debug)]
pub struct Coordinate {
    text: String,
}

impl View for Coordinate {
    type V = Seq<char>;

    /// The literal, character by character.
    closed spec fn view(&self) -> Seq<char> {
        self.text@
    }
}

impl Clone for Coordinate {
    fn clone(&self) -> (copy: Self)
        ensures
            copy@ == self@,
    {
        proof {
            use_type_invariant(self);
        }
        Coordinate { text: self.text.clone() }
    }
}

/// Whether the bytes `bytes` spell the ASCII text `s`.
spec fn spells(bytes: Seq<u8>, s: Seq<char>) -> bool {
    &&& bytes.len() == s.len()
    &&& forall|i: int|
        0 <= i < s.len() ==> '\0' <= s[i] <= '\u{7f}' && #[trigger] bytes[i] == s[i] as u8
}

/// Skips the run of digits that starts at `from`.
fn skip_digits(bytes: &[u8], from: usize, Ghost(s): Ghost<Seq<char>>) -> (end: usize)
    requires
        spells(bytes@, s),
        from <= bytes@.len(),
    ensures
        end == digits_end(s, from as int),
        from <= end <= bytes@.len(),
{
    let mut end: usize = from;
    while end < bytes.len() && ZERO <= bytes[end] && bytes[end] <= NINE
        invariant
            spells(bytes@, s),
            from <= end <= bytes@.len(),
            digits_end(s, from as int) == digits_end(s, end as int),
        decreases bytes@.len() - end,
    {
        assert(is_digit(s[end as int]));
        end = end + 1;
    }
    assert(end < s.len() ==> !is_digit(s[end as int]));
    end
}

impl Coordinate {
    /// The literal is a number literal.
    #[verifier::type_invariant]
    pub open spec fn well_formed(self) -> bool {
        is_number(self@)
    }

    /// Reads a coordinate from its literal. Any text that is not exactly one
    /// number literal is refused.
    pub fn parse(text: &str) -> (coordinate: Option<Coordinate>)
        ensures
            coordinate is Some <==> is_number(text@),
            coordinate matches Some(c) ==> c@ == text@,
    {
        if !text.is_ascii() {
            proof {
                if is_number(text@) {
                    lemma_number_chars(text@);
                    assert forall|i: int| 0 <= i < text@.len() implies '\0' <= #[trigger] text@[i]
                        <= '\u{7f}' by {
                        assert(is_number_char(text@[i]));
                    }
                }
            }
            return None;
        }
        let bytes = text.as_bytes();
        let ghost s = text@;
        proof {
            vstd::utf8::is_ascii_chars_encode_utf8(s);
            assert(spells(bytes@, s));
        }
        let len: usize = bytes.len();
        let start: usize = if len > 0 && bytes[0] == MINUS {
            1
        } else {
            0
        };
        let integer_end: usize = skip_digits(bytes, start, Ghost(s));
        if integer_end == start {
            return None;
        }
        if bytes[start] == ZERO && integer_end != start + 1 {
            return None;
        }
        let fraction_end: usize = if integer_end < len && bytes[integer_end] == POINT {
            skip_digits(bytes, integer_end + 1, Ghost(s))
        } else {
            integer_end
        };
        if fraction_end - integer_end == 1 {
            return None;
        }
        let exponent_start: usize = if fraction_end < len && (bytes[fraction_end] == LOWER_E
            || bytes[fraction_end] == UPPER_E) {
            if fraction_end + 1 < len && (bytes[fraction_end + 1] == PLUS || bytes[fraction_end
                + 1] == MINUS) {
                fraction_end + 2
            } else {
                fraction_end + 1
            }
        } else {
            fraction_end
        };
        let end: usize = if exponent_start > fraction_end {
            skip_digits(bytes, exponent_start, Ghost(s))
        } else {
            fraction_end
        };
        if exponent_start > fraction_end && end == exponent_start {
            return None;
        }
        if end != len {
            return None;
        }
        Some(Coordinate { text: text.to_owned() })
    }

    /// The literal of the coordinate.
    pub fn as_str(&self) -> (text: &str)
        ensures
            text@ == self@,
            is_number(text@),
    {
        proof {
            use_type_invariant(self);
        }
        self.text.as_str()
    }
}

} // verus!
