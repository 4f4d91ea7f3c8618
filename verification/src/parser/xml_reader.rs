//! Detecting the encoding of a registry file and decoding it to text.

use crate::error::Error;
use crate::text::owned;
use crate::text::replace_all;
use crate::text::str_replace;
use crate::text::string_from_utf8;
use encoding_rs::WINDOWS_1251;
use vstd::prelude::*;
use vstd::slice::slice_subrange;
use vstd::utf8::decode_utf8;
use vstd::utf8::encode_utf8;
use vstd::utf8::valid_utf8;

verus! {

/// The encoding of an XML file.
#[derive(Debug, Clone, Copy, PartialEq, Eq, Structural)]
pub enum XmlEncoding {
    Utf8,
    Windows1251,
    /// Nothing tells the encoding; such a file is read as `windows-1251`.
    Unknown,
}

/// An ASCII letter in lowercase; any other byte as it is.
pub open spec fn ascii_lower(b: u8) -> u8 {
    if 0x41 <= b <= 0x5A {
        (b + 0x20) as u8
    } else {
        b
    }
}

/// Whether `needle` stands at `at` in `hay`, letter case aside.
pub open spec fn stands_at(hay: Seq<u8>, needle: Seq<u8>, at: int) -> bool {
    0 <= at && at + needle.len() <= hay.len() && forall|j: int|
        0 <= j < needle.len() ==> ascii_lower(#[trigger] hay[at + j]) == needle[j]
}

/// Whether `needle`, given in lowercase, occurs in `hay`, letter case aside.
pub open spec fn mentions(hay: Seq<u8>, needle: Seq<u8>) -> bool {
    exists|at: int| stands_at(hay, needle, at)
}

/// Index of the first `>` in the data, or the data's length if it has none.
pub open spec fn first_close(data: Seq<u8>) -> int
    decreases data.len(),
{
    if data.len() == 0 || data[0] == 0x3E {
        0
    } else {
        1 + first_close(data.skip(1))
    }
}

/// The declaration at the head of the data: what stands before the first
/// `>`, but no more than 200 bytes; none if the data holds no `>`.
pub open spec fn declaration(data: Seq<u8>) -> Option<Seq<u8>> {
    let end = first_close(data);
    if end < data.len() {
        Some(
            data.take(
                if end < 200 {
                    end
                } else {
                    200
                },
            ),
        )
    } else {
        None
    }
}

/// How many bytes are in the range `0xC0..=0xFF`, where `windows-1251` has
/// its Cyrillic letters.
pub open spec fn count_high(data: Seq<u8>) -> nat
    decreases data.len(),
{
    if data.len() == 0 {
        0
    } else {
        count_high(data.drop_last()) + if data.last() >= 0xC0 {
            1nat
        } else {
            0nat
        }
    }
}

/// How many of the first `n` bytes are `0xD0` or `0xD1`, the bytes with
/// which UTF-8 begins a Cyrillic letter.
pub open spec fn count_leads(data: Seq<u8>, n: int) -> nat
    decreases n,
{
    if n <= 0 {
        0
    } else {
        count_leads(data, n - 1) + if data[n - 1] == 0xD0 || data[n - 1] == 0xD1 {
            1nat
        } else {
            0nat
        }
    }
}

/// How many pairs of neighbouring bytes begin with `0xD0` or `0xD1`.
pub open spec fn count_pairs(data: Seq<u8>) -> nat {
    count_leads(data, data.len() - 1)
}

/// The encoding that the data shows: UTF-8 after a byte order mark; else
/// what the declaration names; else `windows-1251` if the high bytes are
/// more than twice the UTF-8 lead bytes, UTF-8 if there is a lead byte at
/// all, and unknown otherwise.
pub open spec fn detected(data: Seq<u8>) -> XmlEncoding {
    if data.len() >= 3 && data[0] == 0xEF && data[1] == 0xBB && data[2] == 0xBF {
        XmlEncoding::Utf8
    } else if declaration(data) is Some && mentions(
        declaration(data)->0,
        encode_utf8("windows-1251"@),
    ) {
        XmlEncoding::Windows1251
    } else if declaration(data) is Some && mentions(declaration(data)->0, encode_utf8("utf-8"@)) {
        XmlEncoding::Utf8
    } else if count_high(data) > 2 * count_pairs(data) {
        XmlEncoding::Windows1251
    } else if count_pairs(data) > 0 {
        XmlEncoding::Utf8
    } else {
        XmlEncoding::Unknown
    }
}

/// The first `>` stands at `i` if none stands before `i` and either one
/// stands at `i` or the data ends there.
pub proof fn lemma_first_close(data: Seq<u8>, i: int)
    requires
        0 <= i <= data.len(),
        forall|j: int| 0 <= j < i ==> data[j] != 0x3E,
        i == data.len() || data[i] == 0x3E,
    ensures
        first_close(data) == i,
    decreases i,
{
    if i > 0 {
        let rest = data.skip(1);
        assert forall|j: int| 0 <= j < i - 1 implies rest[j] != 0x3E by {
            assert(rest[j] == data[j + 1]);
        }
        lemma_first_close(rest, i - 1);
    }
}

/// Finds the first `>`.
fn find_close(data: &[u8]) -> (r: usize)
    ensures
        r == first_close(data@),
        r <= data.len(),
{
    let mut i: usize = 0;
    while i < data.len()
        invariant
            i <= data.len(),
            forall|j: int| 0 <= j < i ==> data@[j] != 0x3E,
        decreases data.len() - i,
    {
        if data[i] == 0x3E {
            proof {
                lemma_first_close(data@, i as int);
            }
            return i;
        }
        i = i + 1;
    }
    proof {
        lemma_first_close(data@, i as int);
    }
    i
}

/// An ASCII letter in lowercase; any other byte as it is.
fn to_ascii_lower(b: u8) -> (r: u8)
    ensures
        r == ascii_lower(b),
{
    if 0x41 <= b && b <= 0x5A {
        b + 0x20
    } else {
        b
    }
}

/// Whether `needle` stands at `at` in `hay`, letter case aside.
fn matches_at(hay: &[u8], needle: &[u8], at: usize) -> (r: bool)
    requires
        at + needle.len() <= hay.len(),
    ensures
        r == stands_at(hay@, needle@, at as int),
{
    let mut j: usize = 0;
    while j < needle.len()
        invariant
            j <= needle.len(),
            at + needle.len() <= hay.len(),
            forall|k: int| 0 <= k < j ==> ascii_lower(#[trigger] hay@[at + k]) == needle@[k],
        decreases needle.len() - j,
    {
        if to_ascii_lower(hay[at + j]) != needle[j] {
            return false;
        }
        j = j + 1;
    }
    true
}

/// Whether `needle`, given in lowercase, occurs in `hay`, letter case aside.
pub fn contains_ignoring_case(hay: &[u8], needle: &[u8]) -> (r: bool)
    ensures
        r == mentions(hay@, needle@),
{
    if needle.len() > hay.len() {
        assert forall|at: int| !stands_at(hay@, needle@, at) by {}
        return false;
    }
    let last = hay.len() - needle.len();
    let mut at: usize = 0;
    while at <= last
        invariant
            at <= last + 1,
            last == hay.len() - needle.len(),
            needle.len() <= hay.len(),
            forall|k: int| 0 <= k < at ==> !stands_at(hay@, needle@, k),
        decreases last + 1 - at,
    {
        if matches_at(hay, needle, at) {
            return true;
        }
        at = at + 1;
    }
    assert forall|k: int| !stands_at(hay@, needle@, k) by {}
    false
}

/// Counts the bytes in the range `0xC0..=0xFF`.
fn count_high_bytes(data: &[u8]) -> (n: usize)
    ensures
        n == count_high(data@),
{
    let mut n: usize = 0;
    let mut i: usize = 0;
    while i < data.len()
        invariant
            i <= data.len(),
            n <= i,
            n == count_high(data@.take(i as int)),
        decreases data.len() - i,
    {
        assert(data@.take(i + 1).drop_last() =~= data@.take(i as int));
        if data[i] >= 0xC0 {
            n = n + 1;
        }
        i = i + 1;
    }
    assert(data@.take(i as int) =~= data@);
    n
}

/// Counts the pairs of neighbouring bytes that begin with `0xD0` or `0xD1`.
fn count_lead_pairs(data: &[u8]) -> (n: usize)
    ensures
        n == count_pairs(data@),
{
    let mut n: usize = 0;
    let mut i: usize = 0;
    if data.len() < 2 {
        assert(count_leads(data@, data@.len() - 1) == 0);
        return 0;
    }
    let end = data.len() - 1;
    while i < end
        invariant
            i <= end,
            end == data.len() - 1,
            n <= i,
            n == count_leads(data@, i as int),
        decreases end - i,
    {
        if data[i] == 0xD0 || data[i] == 0xD1 {
            n = n + 1;
        }
        i = i + 1;
    }
    n
}

/// What encoding_rs makes of `windows-1251` bytes: the text, and whether
/// anything in it had to be replaced. Every byte stands for one character,
/// unless the bytes begin with a byte order mark, in which case they are
/// read in the encoding that the mark names; what cannot be decoded becomes
/// the replacement character.
pub uninterp spec fn windows_1251_decoding(bytes: Seq<u8>) -> (Seq<char>, bool);

/// The text that `windows-1251` bytes stand for.
pub open spec fn windows_1251_text(bytes: Seq<u8>) -> Seq<char> {
    windows_1251_decoding(bytes).0
}

/// `Encoding::decode` on `WINDOWS_1251`: the text, and whether malformed
/// input was replaced. The size of its buffer is computed from the input's
/// length, which therefore has to stay well below the largest `usize`.
#[verifier::external_body]
fn decode_windows_1251(bytes: &[u8]) -> (decoded: (String, bool))
    requires
        bytes.len() <= usize::MAX / 8,
    ensures
        (decoded.0@, decoded.1) == windows_1251_decoding(bytes@),
{
    let (text, _, had_errors) = WINDOWS_1251.decode(bytes);
    (text.into_owned(), had_errors)
}

/// A decoded document whose declaration no longer names `windows-1251`:
/// every spelling of that name is replaced by `UTF-8`.
pub open spec fn declared_utf8(text: Seq<char>) -> Seq<char> {
    replace_all(
        replace_all(replace_all(text, "windows-1251"@, "UTF-8"@), "WINDOWS-1251"@, "UTF-8"@),
        "Windows-1251"@,
        "UTF-8"@,
    )
}

/// Rewrites the encoding that a decoded document declares, so that the
/// declaration agrees with the text it now stands in.
pub fn rewrite_declaration(text: &str) -> (r: String)
    ensures
        r@ == declared_utf8(text@),
{
    proof {
        reveal_strlit("windows-1251");
        reveal_strlit("WINDOWS-1251");
        reveal_strlit("Windows-1251");
    }
    let lower = str_replace(text, "windows-1251", "UTF-8");
    let upper = str_replace(lower.as_str(), "WINDOWS-1251", "UTF-8");
    str_replace(upper.as_str(), "Windows-1251", "UTF-8")
}

/// The text that the bytes of a file stand for, read in the encoding that
/// they show; none where they show UTF-8 and are not, or are too many to
/// decode.
pub open spec fn decoded(data: Seq<u8>) -> Option<Seq<char>> {
    if detected(data) == XmlEncoding::Utf8 {
        if valid_utf8(data) {
            Some(decode_utf8(data))
        } else {
            None
        }
    } else if data.len() <= usize::MAX / 8 {
        Some(declared_utf8(windows_1251_text(data)))
    } else {
        None
    }
}

/// A copy of a byte slice.
fn copy_bytes(data: &[u8]) -> (r: Vec<u8>)
    ensures
        r@ == data@,
{
    let mut r: Vec<u8> = Vec::new();
    let mut i: usize = 0;
    while i < data.len()
        invariant
            i <= data.len(),
            r@ == data@.take(i as int),
        decreases data.len() - i,
    {
        r.push(data[i]);
        assert(data@.take(i + 1) =~= data@.take(i as int).push(data@[i as int]));
        i = i + 1;
    }
    assert(data@.take(i as int) =~= data@);
    r
}

/// Files above this size, in bytes, are mapped into memory rather than
/// read through a buffer.
pub const MAPPING_THRESHOLD: u64 = 10485760;

/// Whether a file of the given size is mapped into memory: a file of more
/// than 10 MiB is.
pub fn should_map(file_size: u64) -> (r: bool)
    ensures
        r == (file_size > 10 * 1024 * 1024),
{
    file_size > MAPPING_THRESHOLD
}

/// The bytes of a registry file together with the encoding they show.
pub struct XmlReader {
    data: Vec<u8>,
    encoding: XmlEncoding,
}

impl XmlReader {
    /// The bytes as they were read.
    pub closed spec fn bytes(&self) -> Seq<u8> {
        self.data@
    }

    /// The encoding that was detected.
    pub closed spec fn shown(&self) -> XmlEncoding {
        self.encoding
    }

    /// The encoding always is the one that the bytes show.
    pub open spec fn wf(&self) -> bool {
        self.shown() == detected(self.bytes())
    }


    /// Takes the bytes of a file and detects their encoding.
    pub fn from_bytes(data: Vec<u8>) -> (r: Self)
        ensures
            r.wf(),
            r.bytes() == data@,
            r.text() == decoded(data@),
    {
        let encoding = Self::detect_encoding(data.as_slice());
        XmlReader { data, encoding }
    }

    /// Detects the encoding of a file from its bytes: a byte order mark,
    /// else the declaration, else the share of high bytes.
    pub fn detect_encoding(data: &[u8]) -> (r: XmlEncoding)
        ensures
            r == detected(data@),
    {
        if data.len() >= 3 && data[0] == 0xEF && data[1] == 0xBB && data[2] == 0xBF {
            return XmlEncoding::Utf8;
        }
        let close = find_close(data);
        if close < data.len() {
            let end = if close < 200 {
                close
            } else {
                200
            };
            let decl = slice_subrange(data, 0, end);
            assert(decl@ =~= data@.take(end as int));
            if contains_ignoring_case(decl, "windows-1251".as_bytes()) {
                return XmlEncoding::Windows1251;
            }
            if contains_ignoring_case(decl, "utf-8".as_bytes()) {
                return XmlEncoding::Utf8;
            }
        }
        let high = count_high_bytes(data);
        let pairs = count_lead_pairs(data);
        if high > pairs && high - pairs > pairs {
            XmlEncoding::Windows1251
        } else if pairs > 0 {
            XmlEncoding::Utf8
        } else {
            XmlEncoding::Unknown
        }
    }

    /// The text that the bytes stand for. Bytes that show UTF-8 must be
    /// UTF-8; any others are read as `windows-1251`, and the declaration is
    /// rewritten to name UTF-8.
    pub open spec fn text(&self) -> Option<Seq<char>> {
        if self.shown() == XmlEncoding::Utf8 {
            if valid_utf8(self.bytes()) {
                Some(decode_utf8(self.bytes()))
            } else {
                None
            }
        } else if self.bytes().len() <= usize::MAX / 8 {
            Some(declared_utf8(windows_1251_text(self.bytes())))
        } else {
            None
        }
    }

    /// Whether decoding has to replace anything: bytes that show UTF-8
    /// are never patched up, any others are where the decoder meets
    /// malformed input.
    pub open spec fn is_patched(&self) -> bool {
        self.shown() != XmlEncoding::Utf8 && windows_1251_decoding(self.bytes()).1
    }

    /// Decodes the file to text and says whether anything in it had to be
    /// replaced, which deserves a warning. Fails with an encoding error
    /// where the bytes show UTF-8 and are not, or are too many to decode.
    pub fn decode(&self) -> (r: Result<(String, bool), Error>)
        ensures
            match r {
                Ok(decoded) => self.text() == Some(decoded.0@) && decoded.1 == self.is_patched(),
                Err(e) => self.text() is None && e is Encoding,
            },
    {
        match self.encoding {
            XmlEncoding::Utf8 => {
                match string_from_utf8(copy_bytes(self.data.as_slice())) {
                    Some(s) => Ok((s, false)),
                    None => Err(Error::encoding(owned("Invalid UTF-8"))),
                }
            },
            _ => {
                if self.data.len() > usize::MAX / 8 {
                    return Err(Error::encoding(owned("input too large")));
                }
                let (text, patched) = decode_windows_1251(self.data.as_slice());
                Ok((rewrite_declaration(text.as_str()), patched))
            },
        }
    }

    /// Decodes the file to text. Fails with an encoding error where the
    /// bytes show UTF-8 and are not, or are too many to decode.
    pub fn read_to_string(&self) -> (r: Result<String, Error>)
        ensures
            match r {
                Ok(s) => self.text() == Some(s@),
                Err(e) => self.text() is None && e is Encoding,
            },
    {
        match self.decode() {
            Ok(decoded) => Ok(decoded.0),
            Err(e) => Err(e),
        }
    }

    /// The bytes as they were read.
    pub fn raw_data(&self) -> (r: &[u8])
        ensures
            r@ == self.bytes(),
    {
        self.data.as_slice()
    }

    /// The encoding that was detected.
    pub fn encoding(&self) -> (r: XmlEncoding)
        ensures
            r == self.shown(),
    {
        self.encoding
    }
}

} // verus!
