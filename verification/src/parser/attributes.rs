//! Typed access to the attributes of a start tag, and tag names without
//! their namespace prefix.

use crate::date::parse_date_spec;
use crate::date::Date;
use crate::error::Error;
use crate::parser::numbers::float_literal;
use crate::parser::numbers::is_float_literal;
use crate::text::bytes_eq;
use crate::text::lowercase;
use crate::text::owned;
use crate::text::parse_i64_spec;
use crate::text::replace_all;
use crate::text::str_eq;
use crate::text::str_parse_i64;
use crate::text::str_replace;
use crate::text::str_to_lowercase;
use crate::text::trim;
use crate::text::trimmed;
use crate::xml::AttrView;
use crate::xml::ElementView;
use crate::xml::XmlElement;
use vstd::prelude::*;
use vstd::slice::slice_subrange;
use vstd::utf8::encode_utf8;

pub use crate::date::parse_date;
pub use crate::text::normalize_string;

verus! {

/// Index of the first colon in a qualified name, or the name's length if it
/// has none.
pub open spec fn first_colon(qname: Seq<u8>) -> int
    decreases qname.len(),
{
    if qname.len() == 0 || qname[0] == 0x3A {
        0
    } else {
        1 + first_colon(qname.skip(1))
    }
}

/// A qualified name without its namespace prefix: what follows the first
/// colon, or the whole name if it has no colon.
pub open spec fn local_name(qname: Seq<u8>) -> Seq<u8> {
    if first_colon(qname) < qname.len() {
        qname.skip(first_colon(qname) + 1)
    } else {
        qname
    }
}

/// The first colon stands at `i` if no colon stands before `i` and either a
/// colon stands at `i` or the name ends there.
pub proof fn lemma_first_colon(qname: Seq<u8>, i: int)
    requires
        0 <= i <= qname.len(),
        forall|j: int| 0 <= j < i ==> qname[j] != 0x3A,
        i == qname.len() || qname[i] == 0x3A,
    ensures
        first_colon(qname) == i,
    decreases i,
{
    if i > 0 {
        let rest = qname.skip(1);
        assert forall|j: int| 0 <= j < i - 1 implies rest[j] != 0x3A by {
            assert(rest[j] == qname[j + 1]);
        }
        lemma_first_colon(rest, i - 1);
    }
}

/// Strips the namespace prefix from a qualified name.
pub fn tag_name(qname: &[u8]) -> (r: &[u8])
    ensures
        r@ == local_name(qname@),
{
    let mut i: usize = 0;
    while i < qname.len()
        invariant
            i <= qname.len(),
            forall|j: int| 0 <= j < i ==> qname@[j] != 0x3A,
        decreases qname.len() - i,
    {
        if qname[i] == 0x3A {
            proof {
                lemma_first_colon(qname@, i as int);
            }
            let r = slice_subrange(qname, i + 1, qname.len());
            assert(r@ =~= qname@.skip(i + 1));
            return r;
        }
        i = i + 1;
    }
    proof {
        lemma_first_colon(qname@, i as int);
    }
    qname
}

/// Whether a tag, namespace prefix aside, bears the expected name, byte for
/// byte.
pub fn tag_matches(tag: &[u8], expected: &[u8]) -> (r: bool)
    ensures
        r == (local_name(tag@) == expected@),
{
    let local = tag_name(tag);
    bytes_eq(local, expected)
}

/// The raw value of the first attribute with the given key.
pub open spec fn attr_raw(attrs: Seq<AttrView>, name: Seq<char>) -> Option<Seq<char>>
    decreases attrs.len(),
{
    if attrs.len() == 0 {
        None
    } else if attrs[0].key == name {
        Some(attrs[0].value)
    } else {
        attr_raw(attrs.skip(1), name)
    }
}

/// A text that is present only if it is not empty.
pub open spec fn non_empty(text: Seq<char>) -> Option<Seq<char>> {
    if text.len() > 0 {
        Some(text)
    } else {
        None
    }
}

/// The first of two values that is present.
pub open spec fn or_else<T>(first: Option<T>, second: Option<T>) -> Option<T> {
    if first is Some {
        first
    } else {
        second
    }
}

/// The value, or the empty text if there is none.
pub open spec fn or_empty(value: Option<Seq<char>>) -> Seq<char> {
    match value {
        Some(v) => v,
        None => Seq::empty(),
    }
}

/// A decimal number as the registries write it, with the decimal comma
/// turned into a point.
pub open spec fn with_decimal_point(text: Seq<char>) -> Seq<char> {
    replace_all(text, seq![','], seq!['.'])
}

/// A text read as a decimal number: the text with its decimal comma turned
/// into a point, if that is the literal of a floating-point number.
pub open spec fn decimal(text: Seq<char>) -> Option<Seq<char>> {
    if float_literal(encode_utf8(with_decimal_point(text))) {
        Some(with_decimal_point(text))
    } else {
        None
    }
}

/// Whether a lowercase text says yes.
pub open spec fn says_yes(lower: Seq<char>) -> bool {
    lower == "1"@ || lower == "true"@ || lower == "да"@ || lower == "yes"@
}

impl ElementView {
    /// Whether the tag, namespace prefix aside, bears the given name.
    pub open spec fn is_tag(self, name: Seq<char>) -> bool {
        local_name(encode_utf8(self.name)) == encode_utf8(name)
    }

    /// The trimmed value of an attribute; an attribute that is missing or
    /// blank has none.
    pub open spec fn attr(self, name: Seq<char>) -> Option<Seq<char>> {
        match attr_raw(self.attrs, name) {
            Some(v) => non_empty(trimmed(v)),
            None => None,
        }
    }

    /// The value of the first of two attributes that has one.
    pub open spec fn attr2(self, a: Seq<char>, b: Seq<char>) -> Option<Seq<char>> {
        or_else(self.attr(a), self.attr(b))
    }

    /// The value of the first of three attributes that has one.
    pub open spec fn attr3(self, a: Seq<char>, b: Seq<char>, c: Seq<char>) -> Option<Seq<char>> {
        or_else(self.attr(a), self.attr2(b, c))
    }

    /// The value of the first of four attributes that has one.
    pub open spec fn attr4(self, a: Seq<char>, b: Seq<char>, c: Seq<char>, d: Seq<char>) -> Option<
        Seq<char>,
    > {
        or_else(self.attr(a), self.attr3(b, c, d))
    }

    /// An attribute read as a date; one that is missing or in no known
    /// format has none.
    pub open spec fn date_attr(self, name: Seq<char>) -> Option<Date> {
        match self.attr(name) {
            Some(v) => parse_date_spec(v),
            None => None,
        }
    }

    /// The first of two attributes that reads as a date.
    pub open spec fn date_attr2(self, a: Seq<char>, b: Seq<char>) -> Option<Date> {
        or_else(self.date_attr(a), self.date_attr(b))
    }

    /// The first of three attributes that reads as a date.
    pub open spec fn date_attr3(self, a: Seq<char>, b: Seq<char>, c: Seq<char>) -> Option<Date> {
        or_else(self.date_attr(a), self.date_attr2(b, c))
    }

    /// An attribute read as an integer.
    pub open spec fn i64_attr(self, name: Seq<char>) -> Option<i64> {
        match self.attr(name) {
            Some(v) => parse_i64_spec(v),
            None => None,
        }
    }

    /// An attribute read as a decimal number: its text with the decimal
    /// comma turned into a point, if that is the literal of a
    /// floating-point number.
    pub open spec fn decimal_attr(self, name: Seq<char>) -> Option<Seq<char>> {
        match self.attr(name) {
            Some(v) => decimal(v),
            None => None,
        }
    }

    /// An attribute read as a flag.
    pub open spec fn bool_attr(self, name: Seq<char>) -> Option<bool> {
        match self.attr(name) {
            Some(v) => Some(says_yes(lowercase(v))),
            None => None,
        }
    }
}

/// Reads a decimal number as the registries write it: the text with its
/// decimal comma turned into a point, if that is the literal of a
/// floating-point number.
pub fn parse_decimal(text: &str) -> (r: Option<String>)
    ensures
        r.deep_view() == decimal(text@),
{
    proof {
        reveal_strlit(",");
        reveal_strlit(".");
        assert(","@ =~= seq![',']);
        assert("."@ =~= seq!['.']);
    }
    let pointed = str_replace(text, ",", ".");
    if is_float_literal(pointed.as_str()) {
        Some(pointed)
    } else {
        None
    }
}

/// Whether a text that is already in lowercase says yes: `1`, `true`, `да`
/// or `yes`.
pub fn is_yes(lower: &str) -> (r: bool)
    ensures
        r == says_yes(lower@),
{
    str_eq(lower, "1") || str_eq(lower, "true") || str_eq(lower, "да") || str_eq(lower, "yes")
}

impl XmlElement {
    /// Whether the tag, namespace prefix aside, bears the given name.
    pub fn is_tag(&self, name: &str) -> (r: bool)
        ensures
            r == self.deep_view().is_tag(name@),
    {
        tag_matches(self.name.as_str().as_bytes(), name.as_bytes())
    }

    /// The trimmed value of the attribute with the given key, if the tag has
    /// the attribute and its value is not blank.
    pub fn get_attr(&self, name: &str) -> (r: Option<String>)
        ensures
            r.deep_view() == self.deep_view().attr(name@),
    {
        let ghost all = self.deep_view().attrs;
        let mut i: usize = 0;
        assert(all.skip(0) =~= all);
        while i < self.attrs.len()
            invariant
                i <= self.attrs.len(),
                all == self.attrs.deep_view(),
                attr_raw(all, name@) == attr_raw(all.skip(i as int), name@),
            decreases self.attrs.len() - i,
        {
            let a = &self.attrs[i];
            proof {
                assert(all.skip(i as int)[0] == a.deep_view());
                assert(all.skip(i as int).skip(1) =~= all.skip(i + 1));
            }
            if str_eq(a.key.as_str(), name) {
                let t = trim(a.value.as_str());
                if t.as_str().is_empty() {
                    return None;
                }
                return Some(t);
            }
            i = i + 1;
        }
        assert(all.skip(i as int).len() == 0);
        None
    }

    /// The value of the first of two attributes that has one.
    pub fn get_attr2(&self, a: &str, b: &str) -> (r: Option<String>)
        ensures
            r.deep_view() == self.deep_view().attr2(a@, b@),
    {
        let first = self.get_attr(a);
        if first.is_some() {
            first
        } else {
            self.get_attr(b)
        }
    }

    /// The value of the first of three attributes that has one.
    pub fn get_attr3(&self, a: &str, b: &str, c: &str) -> (r: Option<String>)
        ensures
            r.deep_view() == self.deep_view().attr3(a@, b@, c@),
    {
        let first = self.get_attr(a);
        if first.is_some() {
            first
        } else {
            self.get_attr2(b, c)
        }
    }

    /// The value of the first of four attributes that has one.
    pub fn get_attr4(&self, a: &str, b: &str, c: &str, d: &str) -> (r: Option<String>)
        ensures
            r.deep_view() == self.deep_view().attr4(a@, b@, c@, d@),
    {
        let first = self.get_attr(a);
        if first.is_some() {
            first
        } else {
            self.get_attr3(b, c, d)
        }
    }

    /// The value of an attribute that must be there.
    pub fn require_attr(&self, name: &str) -> (r: Result<String, Error>)
        ensures
            match r {
                Ok(v) => self.deep_view().attr(name@) == Some(v@),
                Err(e) => self.deep_view().attr(name@) is None && e is MissingField
                    && e.detail() == name@,
            },
    {
        match self.get_attr(name) {
            Some(v) => Ok(v),
            None => Err(Error::missing_field(owned(name))),
        }
    }

    /// An attribute read as a date.
    pub fn get_date_attr(&self, name: &str) -> (r: Option<Date>)
        ensures
            r == self.deep_view().date_attr(name@),
    {
        match self.get_attr(name) {
            Some(v) => parse_date(v.as_str()),
            None => None,
        }
    }

    /// The first of two attributes that reads as a date.
    pub fn get_date_attr2(&self, a: &str, b: &str) -> (r: Option<Date>)
        ensures
            r == self.deep_view().date_attr2(a@, b@),
    {
        let first = self.get_date_attr(a);
        if first.is_some() {
            first
        } else {
            self.get_date_attr(b)
        }
    }

    /// The first of three attributes that reads as a date.
    pub fn get_date_attr3(&self, a: &str, b: &str, c: &str) -> (r: Option<Date>)
        ensures
            r == self.deep_view().date_attr3(a@, b@, c@),
    {
        let first = self.get_date_attr(a);
        if first.is_some() {
            first
        } else {
            self.get_date_attr2(b, c)
        }
    }

    /// An attribute read as an integer.
    pub fn get_i64_attr(&self, name: &str) -> (r: Option<i64>)
        ensures
            r == self.deep_view().i64_attr(name@),
    {
        match self.get_attr(name) {
            Some(v) => str_parse_i64(v.as_str()),
            None => None,
        }
    }

    /// An attribute read as a decimal number: the text with its decimal
    /// comma turned into a point. An attribute that is no number has no
    /// value.
    pub fn get_decimal_attr(&self, name: &str) -> (r: Option<String>)
        ensures
            r.deep_view() == self.deep_view().decimal_attr(name@),
    {
        match self.get_attr(name) {
            Some(v) => parse_decimal(v.as_str()),
            None => None,
        }
    }

    /// An attribute read as a flag: `1`, `true`, `да` and `yes`, in any
    /// case, say yes.
    pub fn get_bool_attr(&self, name: &str) -> (r: Option<bool>)
        ensures
            r == self.deep_view().bool_attr(name@),
    {
        match self.get_attr(name) {
            Some(v) => {
                let lower = str_to_lowercase(v.as_str());
                Some(is_yes(lower.as_str()))
            },
            None => None,
        }
    }
}

} // verus!
