//! The literals that stand for floating-point numbers.

use crate::parser::xml_reader::ascii_lower;
use vstd::prelude::*;
use vstd::utf8::encode_utf8;

verus! {

pub open spec fn is_digit_byte(b: u8) -> bool {
    0x30 <= b <= 0x39
}

pub open spec fn is_sign_byte(b: u8) -> bool {
    b == 0x2B || b == 0x2D
}

/// How many digits stand at the head of the bytes.
pub open spec fn leading_digits(s: Seq<u8>) -> nat
    decreases s.len(),
{
    if s.len() > 0 && is_digit_byte(s[0]) {
        1 + leading_digits(s.skip(1))
    } else {
        0
    }
}

/// The bytes without a sign at their head.
pub open spec fn unsigned(s: Seq<u8>) -> Seq<u8> {
    if s.len() > 0 && is_sign_byte(s[0]) {
        s.skip(1)
    } else {
        s
    }
}

/// Whether the bytes are nothing, or an exponent: `e` or `E`, an optional
/// sign, and at least one digit.
pub open spec fn is_exponent(s: Seq<u8>) -> bool {
    s.len() == 0 || ((s[0] == 0x65 || s[0] == 0x45) && unsigned(s.skip(1)).len() > 0
        && leading_digits(unsigned(s.skip(1))) == unsigned(s.skip(1)).len())
}

/// Whether the bytes are a number: digits with an optional point among or
/// around them, at least one digit in all, and an optional exponent.
pub open spec fn is_number(s: Seq<u8>) -> bool {
    let whole = leading_digits(s);
    let rest = s.skip(whole as int);
    if rest.len() > 0 && rest[0] == 0x2E {
        let fraction = leading_digits(rest.skip(1));
        whole + fraction > 0 && is_exponent(rest.skip(1 + fraction as int))
    } else {
        whole > 0 && is_exponent(rest)
    }
}

/// Whether the bytes spell the given lowercase word, letter case aside.
pub open spec fn spells(s: Seq<u8>, word: Seq<u8>) -> bool {
    s.len() == word.len() && forall|i: int| 0 <= i < s.len() ==> ascii_lower(#[trigger] s[i]) == word[i]
}

/// Whether the bytes name a value that is no number: `inf`, `infinity` or
/// `nan`, in whatever case.
pub open spec fn is_special(s: Seq<u8>) -> bool {
    spells(s, encode_utf8("inf"@)) || spells(s, encode_utf8("infinity"@)) || spells(
        s,
        encode_utf8("nan"@),
    )
}

/// Whether the bytes are a literal of a floating-point number: an optional
/// sign, then a number or the name of a value that is no number.
pub open spec fn float_literal(s: Seq<u8>) -> bool {
    is_special(unsigned(s)) || is_number(unsigned(s))
}

/// Counts the digits that stand at `from`.
fn count_digits(s: &[u8], from: usize) -> (n: usize)
    requires
        from <= s.len(),
    ensures
        n == leading_digits(s@.skip(from as int)),
        from + n <= s.len(),
{
    let mut n: usize = 0;
    while from + n < s.len() && 0x30 <= s[from + n] && s[from + n] <= 0x39
        invariant
            from + n <= s.len(),
            leading_digits(s@.skip(from as int)) == n + leading_digits(s@.skip(from + n)),
        decreases s.len() - from - n,
    {
        assert(s@.skip(from + n)[0] == s@[from + n]);
        assert(s@.skip(from + n).skip(1) =~= s@.skip(from + n + 1));
        n = n + 1;
    }
    proof {
        if from + n < s.len() {
            assert(s@.skip(from + n)[0] == s@[from + n]);
        }
    }
    n
}

/// Whether the bytes from `from` on are nothing or an exponent.
fn exponent_at(s: &[u8], from: usize) -> (r: bool)
    requires
        from <= s.len(),
    ensures
        r == is_exponent(s@.skip(from as int)),
{
    if from == s.len() {
        return true;
    }
    let rest = Ghost(s@.skip(from as int));
    assert(rest@[0] == s@[from as int]);
    if s[from] != 0x65 && s[from] != 0x45 {
        return false;
    }
    let mut at = from + 1;
    assert(rest@.skip(1) =~= s@.skip(from + 1));
    if at < s.len() && (s[at] == 0x2B || s[at] == 0x2D) {
        assert(s@.skip(from + 1)[0] == s@[from + 1]);
        assert(s@.skip(from + 1).skip(1) =~= s@.skip(from + 2));
        at = at + 1;
    } else {
        proof {
            if at < s.len() {
                assert(s@.skip(from + 1)[0] == s@[from + 1]);
            }
        }
    }
    let digits = count_digits(s, at);
    digits > 0 && at + digits == s.len()
}

/// Whether the bytes from `from` on spell the given lowercase word.
fn spells_at(s: &[u8], from: usize, word: &[u8]) -> (r: bool)
    requires
        from <= s.len(),
    ensures
        r == spells(s@.skip(from as int), word@),
{
    if s.len() - from != word.len() {
        return false;
    }
    let mut i: usize = 0;
    while i < word.len()
        invariant
            i <= word.len(),
            from <= s.len(),
            s.len() - from == word.len(),
            forall|k: int| 0 <= k < i ==> ascii_lower(#[trigger] s@.skip(from as int)[k]) == word@[k],
        decreases word.len() - i,
    {
        let b = s[from + i];
        let lower = if 0x41 <= b && b <= 0x5A {
            b + 0x20
        } else {
            b
        };
        assert(s@.skip(from as int)[i as int] == b);
        if lower != word[i] {
            return false;
        }
        i = i + 1;
    }
    true
}

/// Whether a text is a literal of a floating-point number, such as `10`,
/// `-3.14`, `2.5E10`, `.5`, `5.` or `inf`.
pub fn is_float_literal(text: &str) -> (r: bool)
    ensures
        r == float_literal(encode_utf8(text@)),
{
    let s = text.as_bytes();
    let start: usize = if s.len() > 0 && (s[0] == 0x2B || s[0] == 0x2D) {
        1
    } else {
        0
    };
    assert(unsigned(s@) =~= s@.skip(start as int));
    if spells_at(s, start, "inf".as_bytes()) || spells_at(s, start, "infinity".as_bytes())
        || spells_at(s, start, "nan".as_bytes()) {
        return true;
    }
    let whole = count_digits(s, start);
    let after = start + whole;
    assert(s@.skip(start as int).skip(whole as int) =~= s@.skip(after as int));
    if after < s.len() && s[after] == 0x2E {
        assert(s@.skip(after as int)[0] == s@[after as int]);
        assert(s@.skip(after as int).skip(1) =~= s@.skip(after + 1));
        let fraction = count_digits(s, after + 1);
        assert(s@.skip(after as int).skip(1 + fraction) =~= s@.skip(after + 1 + fraction));
        if whole == 0 && fraction == 0 {
            return false;
        }
        exponent_at(s, after + 1 + fraction)
    } else {
        proof {
            if after < s.len() {
                assert(s@.skip(after as int)[0] == s@[after as int]);
            }
        }
        whole > 0 && exponent_at(s, after)
    }
}

} // verus!
