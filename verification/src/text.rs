//! Text helpers shared by the extractors: whitespace, case, search and
//! comparison, stated over sequences of characters.

use vstd::prelude::*;
use vstd::std_specs::iter::IteratorSpec;
use vstd::string::StringExecFns;
use vstd::utf8::decode_utf8;
use vstd::utf8::encode_utf8;
use vstd::utf8::valid_utf8;

verus! {

/// Characters with the Unicode `White_Space` property.
pub open spec fn is_space(c: char) -> bool {
    let n = c as u32;
    (0x09 <= n <= 0x0D) || n == 0x20 || n == 0x85 || n == 0xA0 || n == 0x1680 || (0x2000 <= n
        <= 0x200A) || n == 0x2028 || n == 0x2029 || n == 0x202F || n == 0x205F || n == 0x3000
}

/// The text without its leading whitespace.
pub open spec fn trim_start_spec(s: Seq<char>) -> Seq<char>
    decreases s.len(),
{
    if s.len() > 0 && is_space(s[0]) {
        trim_start_spec(s.skip(1))
    } else {
        s
    }
}

/// The text without its trailing whitespace.
pub open spec fn trim_end_spec(s: Seq<char>) -> Seq<char>
    decreases s.len(),
{
    if s.len() > 0 && is_space(s.last()) {
        trim_end_spec(s.drop_last())
    } else {
        s
    }
}

/// The text without leading and trailing whitespace.
pub open spec fn trimmed(s: Seq<char>) -> Seq<char> {
    trim_end_spec(trim_start_spec(s))
}

/// Whether `needle` occurs in `hay` as a contiguous run of characters.
pub open spec fn has_substring(hay: Seq<char>, needle: Seq<char>) -> bool {
    exists|i: int|
        0 <= i && i + needle.len() <= hay.len() && #[trigger] hay.subrange(
            i,
            i + needle.len(),
        ) == needle
}

/// The text with every occurrence of `from` replaced by `to`, scanning from
/// the left and not looking again inside a replacement.
pub open spec fn replace_all(s: Seq<char>, from: Seq<char>, to: Seq<char>) -> Seq<char>
    decreases s.len(),
{
    if from.len() == 0 || s.len() < from.len() {
        s
    } else if s.subrange(0, from.len() as int) == from {
        to + replace_all(s.skip(from.len() as int), from, to)
    } else {
        seq![s[0]] + replace_all(s.skip(1), from, to)
    }
}

/// Value of a run of decimal digits.
pub open spec fn digits_value(s: Seq<char>) -> int
    decreases s.len(),
{
    if s.len() == 0 {
        0
    } else {
        digits_value(s.drop_last()) * 10 + (s.last() as int - '0' as int)
    }
}

pub open spec fn is_digit(c: char) -> bool {
    '0' <= c <= '9'
}

pub open spec fn all_digits(s: Seq<char>) -> bool {
    forall|i: int| 0 <= i < s.len() ==> is_digit(#[trigger] s[i])
}

/// What a decimal integer literal denotes: an optional sign, then at least
/// one digit, with a value that fits in 64 bits.
pub open spec fn parse_i64_spec(s: Seq<char>) -> Option<i64> {
    let negative = s.len() > 0 && s[0] == '-';
    let digits = if s.len() > 0 && (s[0] == '-' || s[0] == '+') {
        s.skip(1)
    } else {
        s
    };
    let value = if negative {
        -digits_value(digits)
    } else {
        digits_value(digits)
    };
    if digits.len() > 0 && all_digits(digits) && i64::MIN <= value <= i64::MAX {
        Some(value as i64)
    } else {
        None
    }
}

/// What an unsigned decimal integer literal denotes: an optional plus sign,
/// then at least one digit, with a value that fits in `usize`.
pub open spec fn parse_usize_spec(s: Seq<char>) -> Option<usize> {
    let digits = if s.len() > 0 && s[0] == '+' {
        s.skip(1)
    } else {
        s
    };
    if digits.len() > 0 && all_digits(digits) && digits_value(digits) <= usize::MAX {
        Some(digits_value(digits) as usize)
    } else {
        None
    }
}

/// The lowercase form of a text under the Unicode case mapping.
pub uninterp spec fn lowercase(s: Seq<char>) -> Seq<char>;

/// The uppercase form of a text under the Unicode case mapping.
pub uninterp spec fn uppercase(s: Seq<char>) -> Seq<char>;

/// Whether a character is whitespace.
pub fn char_is_space(c: char) -> (r: bool)
    ensures
        r == is_space(c),
{
    ('\u{9}' <= c && c <= '\u{D}') || c == ' ' || c == '\u{85}' || c == '\u{A0}' || c == '\u{1680}'
        || ('\u{2000}' <= c && c <= '\u{200A}') || c == '\u{2028}' || c == '\u{2029}' || c
        == '\u{202F}' || c == '\u{205F}' || c == '\u{3000}'
}

/// `String::push`: appends one character.
#[verifier::external_body]
pub(crate) fn push_char(s: &mut String, c: char)
    ensures
        final(s)@ == old(s)@.push(c),
{
    s.push(c)
}

/// Whether a text holds nothing but whitespace.
pub open spec fn all_space(s: Seq<char>) -> bool {
    forall|i: int| 0 <= i < s.len() ==> is_space(#[trigger] s[i])
}

/// A text of whitespace alone has nothing left once its head is trimmed.
pub proof fn lemma_trim_start_of_space(s: Seq<char>)
    requires
        all_space(s),
    ensures
        trim_start_spec(s) == Seq::<char>::empty(),
    decreases s.len(),
{
    if s.len() > 0 {
        assert(is_space(s[0]));
        assert forall|i: int| 0 <= i < s.skip(1).len() implies is_space(#[trigger] s.skip(1)[i]) by {
            assert(s.skip(1)[i] == s[i + 1]);
        }
        lemma_trim_start_of_space(s.skip(1));
    } else {
        assert(s =~= Seq::<char>::empty());
    }
}

/// What one more character at the end does to a text whose head is
/// trimmed: it is added, unless the text so far is whitespace alone and the
/// character is whitespace too.
pub proof fn lemma_trim_start_push(s: Seq<char>, c: char)
    ensures
        trim_start_spec(s.push(c)) == if all_space(s) {
            if is_space(c) {
                Seq::<char>::empty()
            } else {
                seq![c]
            }
        } else {
            trim_start_spec(s).push(c)
        },
    decreases s.len(),
{
    if s.len() == 0 {
        assert(s.push(c) =~= seq![c]);
        assert(seq![c].skip(1) =~= Seq::<char>::empty());
        assert(trim_start_spec(Seq::<char>::empty()) =~= Seq::<char>::empty());
    } else if is_space(s[0]) {
        assert(s.push(c)[0] == s[0]);
        assert(s.push(c).skip(1) =~= s.skip(1).push(c));
        lemma_trim_start_push(s.skip(1), c);
        if all_space(s) {
            assert forall|i: int| 0 <= i < s.skip(1).len() implies is_space(
                #[trigger] s.skip(1)[i],
            ) by {
                assert(s.skip(1)[i] == s[i + 1]);
            }
        } else {
            let i = choose|i: int| 0 <= i < s.len() && !is_space(s[i]);
            assert(i > 0);
            assert(s.skip(1)[i - 1] == s[i]);
            assert(!all_space(s.skip(1)));
        }
    } else {
        assert(s.push(c)[0] == s[0]);
        assert(!all_space(s));
    }
}

/// Whitespace at the end of a text does not outlast the trimming of its
/// tail.
pub proof fn lemma_trim_end_drops_space(s: Seq<char>, space: Seq<char>)
    requires
        all_space(space),
    ensures
        trim_end_spec(s + space) == trim_end_spec(s),
    decreases space.len(),
{
    if space.len() == 0 {
        assert(s + space =~= s);
    } else {
        assert((s + space).last() == space.last());
        assert(is_space(space.last()));
        assert((s + space).drop_last() =~= s + space.drop_last());
        assert forall|i: int| 0 <= i < space.drop_last().len() implies is_space(
            #[trigger] space.drop_last()[i],
        ) by {
            assert(space.drop_last()[i] == space[i]);
        }
        lemma_trim_end_drops_space(s, space.drop_last());
    }
}

/// The text without leading and trailing whitespace.
pub fn trim(s: &str) -> (r: String)
    ensures
        r@ == trimmed(s@),
{
    broadcast use vstd::string::group_string_axioms;

    let mut out = String::new();
    let mut pending = String::new();
    let mut started = false;
    let mut it = s.chars();
    let ghost mut k: int = 0;
    assert(s@.take(0) =~= Seq::<char>::empty());
    assert(out@ + pending@ =~= Seq::<char>::empty());
    loop
        invariant
            0 <= k <= s@.len(),
            it.remaining() == s@.skip(k),
            it.obeys_prophetic_iter_laws(),
            started == !all_space(s@.take(k)),
            trim_start_spec(s@.take(k)) == out@ + pending@,
            all_space(pending@),
            out@.len() == 0 || !is_space(out@.last()),
            !started ==> out@.len() == 0 && pending@.len() == 0,
        ensures
            k == s@.len(),
            trim_start_spec(s@) == out@ + pending@,
            all_space(pending@),
            out@.len() == 0 || !is_space(out@.last()),
        decreases s@.len() - k,
    {
        let ghost before = s@.take(k);
        let ghost old_out = out@;
        let ghost old_pending = pending@;
        match it.next() {
            Some(c) => {
                proof {
                    assert(c == s@[k]);
                    assert(s@.take(k + 1) =~= before.push(c));
                    lemma_trim_start_push(before, c);
                    if all_space(before) {
                        lemma_trim_start_of_space(before);
                    }
                }
                if char_is_space(c) {
                    if started {
                        push_char(&mut pending, c);
                        assert(out@ + pending@ =~= (old_out + old_pending).push(c));
                    } else {
                        assert(all_space(before.push(c))) by {
                            assert forall|i: int| 0 <= i < before.push(c).len() implies is_space(
                                #[trigger] before.push(c)[i],
                            ) by {
                                if i < before.len() {
                                    assert(before.push(c)[i] == before[i]);
                                }
                            }
                        }
                        assert(out@ + pending@ =~= Seq::<char>::empty());
                    }
                    proof {
                        if started {
                            let i = choose|i: int| 0 <= i < before.len() && !is_space(before[i]);
                            assert(before.push(c)[i] == before[i]);
                        }
                    }
                } else {
                    out.append(pending.as_str());
                    pending = String::new();
                    push_char(&mut out, c);
                    started = true;
                    proof {
                        assert(out@ =~= (old_out + old_pending).push(c));
                        assert(out@ + pending@ =~= out@);
                        assert(out@.last() == c);
                        assert(before.push(c)[k] == c);
                        if all_space(before) {
                            assert(old_out + old_pending =~= Seq::<char>::empty());
                            assert(out@ =~= seq![c]);
                        }
                    }
                }
                proof {
                    k = k + 1;
                }
            },
            None => {
                assert(s@.take(k) =~= s@);
                break;
            },
        }
    }
    proof {
        lemma_trim_end_drops_space(out@, pending@);
    }
    out
}

/// Whether nothing is left of a text once it is trimmed.
pub fn is_blank(s: &str) -> (r: bool)
    ensures
        r == (trimmed(s@).len() == 0),
{
    trim(s).as_str().is_empty()
}

/// `str::to_lowercase`.
#[verifier::external_body]
pub(crate) fn str_to_lowercase(s: &str) -> (r: String)
    ensures
        r@ == lowercase(s@),
{
    s.to_lowercase()
}

/// `str::to_uppercase`.
#[verifier::external_body]
pub(crate) fn str_to_uppercase(s: &str) -> (r: String)
    ensures
        r@ == uppercase(s@),
{
    s.to_uppercase()
}

/// `str::contains` with a string pattern.
#[verifier::external_body]
pub(crate) fn str_contains(hay: &str, needle: &str) -> (r: bool)
    ensures
        r == has_substring(hay@, needle@),
{
    hay.contains(needle)
}

/// `str::replace` with a non-empty string pattern.
#[verifier::external_body]
pub(crate) fn str_replace(s: &str, from: &str, to: &str) -> (r: String)
    requires
        from@.len() > 0,
    ensures
        r@ == replace_all(s@, from@, to@),
{
    s.replace(from, to)
}

/// A longer run of digits is worth at least as much as the run it begins
/// with.
pub proof fn lemma_digits_value_grows(s: Seq<char>, k: int)
    requires
        all_digits(s),
        0 <= k <= s.len(),
    ensures
        0 <= digits_value(s.take(k)) <= digits_value(s),
    decreases s.len() - k,
{
    if k == s.len() {
        assert(s.take(k) =~= s);
        lemma_digits_value_is_not_negative(s);
    } else {
        lemma_digits_value_grows(s, k + 1);
        assert(s.take(k + 1).drop_last() =~= s.take(k));
        assert(is_digit(s[k]));
        lemma_digits_value_is_not_negative(s.take(k));
    }
}

/// A run of digits is worth no less than nothing.
pub proof fn lemma_digits_value_is_not_negative(s: Seq<char>)
    requires
        all_digits(s),
    ensures
        digits_value(s) >= 0,
    decreases s.len(),
{
    if s.len() > 0 {
        assert(is_digit(s.last()));
        assert forall|i: int| 0 <= i < s.drop_last().len() implies is_digit(
            #[trigger] s.drop_last()[i],
        ) by {
            assert(s.drop_last()[i] == s[i]);
        }
        lemma_digits_value_is_not_negative(s.drop_last());
    }
}

/// What a run of digits denotes, if it is one, is not empty, and is worth
/// no more than the limit.
pub open spec fn digits_up_to(s: Seq<char>, limit: int) -> Option<int> {
    if s.len() > 0 && all_digits(s) && digits_value(s) <= limit {
        Some(digits_value(s))
    } else {
        None
    }
}

/// The worth of a digit.
fn digit_of(c: char) -> (d: u128)
    requires
        is_digit(c),
    ensures
        d == c as int - '0' as int,
        d < 10,
{
    if c == '0' {
        0
    } else if c == '1' {
        1
    } else if c == '2' {
        2
    } else if c == '3' {
        3
    } else if c == '4' {
        4
    } else if c == '5' {
        5
    } else if c == '6' {
        6
    } else if c == '7' {
        7
    } else if c == '8' {
        8
    } else {
        9
    }
}

/// Reads the characters after the first `skip` as a run of digits that is
/// worth no more than `limit`.
fn read_digits(s: &str, skip: usize, limit: u128) -> (r: Option<u128>)
    requires
        skip <= 1,
        skip <= s@.len(),
        limit <= 0xFFFF_FFFF_FFFF_FFFF_FFFF,
    ensures
        match r {
            Some(v) => digits_up_to(s@.skip(skip as int), limit as int) == Some(v as int),
            None => digits_up_to(s@.skip(skip as int), limit as int) is None,
        },
{
    broadcast use vstd::string::group_string_axioms;

    let mut it = s.chars();
    if skip == 1 {
        let _ = it.next();
    }
    let ghost digits = s@.skip(skip as int);
    let ghost mut k: int = 0;
    let mut value: u128 = 0;
    let mut any = false;
    assert(digits.take(0) =~= Seq::<char>::empty());
    loop
        invariant
            digits == s@.skip(skip as int),
            0 <= k <= digits.len(),
            it.remaining() == digits.skip(k),
            it.obeys_prophetic_iter_laws(),
            any == (k > 0),
            all_digits(digits.take(k)),
            value as int == digits_value(digits.take(k)),
            value <= limit,
            limit <= 0xFFFF_FFFF_FFFF_FFFF_FFFF,
        ensures
            digits == s@.skip(skip as int),
            k == digits.len(),
            any == (k > 0),
            all_digits(digits),
            value as int == digits_value(digits),
            value <= limit,
        decreases digits.len() - k,
    {
        match it.next() {
            Some(c) => {
                assert(c == digits[k]);
                assert(digits.take(k + 1).drop_last() =~= digits.take(k));
                assert(digits.take(k + 1).last() == c);
                if !('0' <= c && c <= '9') {
                    assert(!is_digit(digits[k]));
                    return None;
                }
                assert(all_digits(digits.take(k + 1))) by {
                    assert forall|i: int| 0 <= i < k + 1 implies is_digit(
                        #[trigger] digits.take(k + 1)[i],
                    ) by {
                        if i < k {
                            assert(digits.take(k + 1)[i] == digits.take(k)[i]);
                        }
                    }
                }
                let next = value * 10 + digit_of(c);
                if next > limit {
                    proof {
                        if all_digits(digits) {
                            lemma_digits_value_grows(digits, k + 1);
                        }
                    }
                    return None;
                }
                value = next;
                any = true;
                proof {
                    k = k + 1;
                }
            },
            None => {
                assert(digits.take(k) =~= digits);
                break;
            },
        }
    }
    if any {
        Some(value)
    } else {
        None
    }
}

/// The first character of a text, if it has one.
fn first_char(s: &str) -> (c: Option<char>)
    ensures
        match c {
            Some(c) => s@.len() > 0 && c == s@[0],
            None => s@.len() == 0,
        },
{
    broadcast use vstd::string::group_string_axioms;

    let mut it = s.chars();
    it.next()
}

/// Reads a decimal integer: an optional sign, then digits, with a value
/// that fits in 64 bits.
pub fn str_parse_i64(s: &str) -> (r: Option<i64>)
    ensures
        r == parse_i64_spec(s@),
{
    match first_char(s) {
        Some(c) => {
            if c == '-' {
                match read_digits(s, 1, 0x8000_0000_0000_0000) {
                    Some(v) => {
                        if v == 0x8000_0000_0000_0000 {
                            Some(i64::MIN)
                        } else {
                            Some(-(v as i64))
                        }
                    },
                    None => None,
                }
            } else if c == '+' {
                match read_digits(s, 1, 0x7FFF_FFFF_FFFF_FFFF) {
                    Some(v) => Some(v as i64),
                    None => None,
                }
            } else {
                assert(s@.skip(0) =~= s@);
                match read_digits(s, 0, 0x7FFF_FFFF_FFFF_FFFF) {
                    Some(v) => Some(v as i64),
                    None => None,
                }
            }
        },
        None => None,
    }
}

/// Reads an unsigned decimal integer: an optional plus sign, then digits,
/// with a value that fits in `usize`.
pub fn str_parse_usize(s: &str) -> (r: Option<usize>)
    ensures
        r == parse_usize_spec(s@),
{
    match first_char(s) {
        Some(c) => {
            let skip: usize = if c == '+' {
                1
            } else {
                0
            };
            assert(s@.skip(0) =~= s@);
            match read_digits(s, skip, usize::MAX as u128) {
                Some(v) => Some(v as usize),
                None => None,
            }
        },
        None => None,
    }
}

/// `String::from_utf8`: the text that the bytes encode, if they are UTF-8.
#[verifier::external_body]
pub(crate) fn string_from_utf8(bytes: Vec<u8>) -> (r: Option<String>)
    ensures
        r is Some <==> valid_utf8(bytes@),
        r is Some ==> r->0@ == decode_utf8(bytes@),
{
    String::from_utf8(bytes).ok()
}

/// Two byte slices hold the same bytes.
pub fn bytes_eq(a: &[u8], b: &[u8]) -> (r: bool)
    ensures
        r == (a@ == b@),
{
    if a.len() != b.len() {
        return false;
    }
    let mut i: usize = 0;
    while i < a.len()
        invariant
            a.len() == b.len(),
            i <= a.len(),
            a@.subrange(0, i as int) == b@.subrange(0, i as int),
        decreases a.len() - i,
    {
        if a[i] != b[i] {
            return false;
        }
        assert(a@.subrange(0, i + 1) =~= a@.subrange(0, i as int).push(a@[i as int]));
        assert(b@.subrange(0, i + 1) =~= b@.subrange(0, i as int).push(b@[i as int]));
        i = i + 1;
    }
    assert(a@ =~= a@.subrange(0, i as int));
    assert(b@ =~= b@.subrange(0, i as int));
    true
}

/// Two texts with the same UTF-8 encoding are the same text.
pub proof fn lemma_encoding_is_injective(a: Seq<char>, b: Seq<char>)
    requires
        encode_utf8(a) == encode_utf8(b),
    ensures
        a == b,
{
    vstd::utf8::encode_utf8_decode_utf8(a);
    vstd::utf8::encode_utf8_decode_utf8(b);
}

/// Two string slices hold the same text.
pub fn str_eq(a: &str, b: &str) -> (r: bool)
    ensures
        r == (a@ == b@),
{
    let r = bytes_eq(a.as_bytes(), b.as_bytes());
    proof {
        if r {
            lemma_encoding_is_injective(a@, b@);
        }
    }
    r
}

/// An owned copy of a string slice.
pub fn owned(s: &str) -> (r: String)
    ensures
        r@ == s@,
{
    String::from_str(s)
}

/// `a` followed by `b`.
pub fn concat2(a: &str, b: &str) -> (r: String)
    ensures
        r@ == a@ + b@,
{
    let mut r = String::from_str(a);
    r.append(b);
    r
}

/// `a`, `b` and `c` in a row.
pub fn concat3(a: &str, b: &str, c: &str) -> (r: String)
    ensures
        r@ == a@ + b@ + c@,
{
    let mut r = String::from_str(a);
    r.append(b);
    r.append(c);
    r
}

/// The rest of a normalised text, given what came before: `emitted` says that
/// a word was already written, `in_word` that the last character belonged to
/// one.
pub open spec fn normalized_tail(s: Seq<char>, emitted: bool, in_word: bool) -> Seq<char>
    decreases s.len(),
{
    if s.len() == 0 {
        Seq::empty()
    } else if is_space(s[0]) {
        normalized_tail(s.skip(1), emitted, false)
    } else if in_word || !emitted {
        seq![s[0]] + normalized_tail(s.skip(1), true, true)
    } else {
        seq![' ', s[0]] + normalized_tail(s.skip(1), true, true)
    }
}

/// The words of a text joined by single spaces: whitespace at both ends is
/// dropped and every run of whitespace between two words becomes one space.
pub open spec fn normalized(s: Seq<char>) -> Seq<char> {
    normalized_tail(s, false, false)
}

/// Collapses whitespace: the words of `s` joined by single spaces.
pub fn normalize_string(s: &str) -> (r: String)
    ensures
        r@ == normalized(s@),
{
    broadcast use vstd::string::group_string_axioms;

    let mut out = String::new();
    let mut it = s.chars();
    let mut emitted = false;
    let mut in_word = false;
    let ghost mut i: int = 0;
    loop
        invariant
            0 <= i <= s@.len(),
            it.remaining() == s@.skip(i),
            it.obeys_prophetic_iter_laws(),
            normalized(s@) == out@ + normalized_tail(s@.skip(i), emitted, in_word),
        ensures
            out@ == normalized(s@),
        decreases s@.len() - i,
    {
        let ghost rest = s@.skip(i);
        let ghost before = out@;
        match it.next() {
            Some(c) => {
                assert(rest.skip(1) =~= s@.skip(i + 1));
                if char_is_space(c) {
                    in_word = false;
                } else {
                    if emitted && !in_word {
                        push_char(&mut out, ' ');
                        push_char(&mut out, c);
                        assert(out@ =~= before + seq![' ', c]);
                    } else {
                        push_char(&mut out, c);
                        assert(out@ =~= before + seq![c]);
                    }
                    emitted = true;
                    in_word = true;
                }
                proof {
                    i = i + 1;
                    assert(normalized(s@) =~= out@ + normalized_tail(
                        s@.skip(i),
                        emitted,
                        in_word,
                    ));
                }
            },
            None => {
                assert(rest.len() == 0);
                assert(out@ + Seq::<char>::empty() =~= out@);
                break;
            },
        }
    }
    out
}

} // verus!
