//! The framing of JSON output: one object per line, or one array.

use crate::text::concat2;
use crate::text::owned;
use vstd::prelude::*;
use vstd::string::StringExecFns;

verus! {

/// A record's JSON form as a line of its own.
pub fn json_line(json: &str) -> (line: String)
    ensures
        line@ == json@ + seq!['\n'],
{
    proof {
        reveal_strlit("\n");
        assert("\n"@ =~= seq!['\n']);
    }
    concat2(json, "\n")
}

/// What is written between the brackets of an array for the given
/// records: each on a line of its own, with a comma after every record but
/// the last.
pub open spec fn array_body(records: Seq<Seq<char>>) -> Seq<char>
    decreases records.len(),
{
    if records.len() == 0 {
        Seq::empty()
    } else if records.len() == 1 {
        seq!['\n'] + records[0]
    } else {
        array_body(records.drop_last()) + seq![',', '\n'] + records.last()
    }
}

/// A whole array of the given records.
pub open spec fn array_document(records: Seq<Seq<char>>) -> Seq<char> {
    seq!['['] + array_body(records) + seq!['\n', ']', '\n']
}

/// Writes records as one JSON array, piece by piece.
pub struct JsonArrayFrame {
    first: bool,
}

impl JsonArrayFrame {
    /// Whether no record was written yet.
    pub closed spec fn is_first(&self) -> bool {
        self.first
    }

    /// Begins an array: the frame, and the text that opens the array.
    pub fn open() -> (r: (Self, String))
        ensures
            r.0.is_first(),
            r.1@ == seq!['['],
    {
        proof {
            reveal_strlit("[");
            assert("["@ =~= seq!['[']);
        }
        (JsonArrayFrame { first: true }, owned("["))
    }

    /// The text that adds a record to the array.
    pub fn record(&mut self, json: &str) -> (text: String)
        ensures
            !final(self).is_first(),
            text@ == if old(self).is_first() {
                seq!['\n'] + json@
            } else {
                seq![',', '\n'] + json@
            },
    {
        proof {
            reveal_strlit("\n");
            reveal_strlit(",\n");
            assert("\n"@ =~= seq!['\n']);
            assert(",\n"@ =~= seq![',', '\n']);
        }
        let text = if self.first {
            concat2("\n", json)
        } else {
            concat2(",\n", json)
        };
        self.first = false;
        text
    }

    /// The text that closes the array.
    pub fn finish(self) -> (text: String)
        ensures
            text@ == seq!['\n', ']', '\n'],
    {
        proof {
            reveal_strlit("\n]\n");
            assert("\n]\n"@ =~= seq!['\n', ']', '\n']);
        }
        owned("\n]\n")
    }
}

/// Writes the JSON forms of records as one array.
pub fn json_array(records: &Vec<String>) -> (document: String)
    ensures
        document@ == array_document(records.deep_view()),
{
    let (mut frame, mut document) = JsonArrayFrame::open();
    let ghost all = records.deep_view();
    let mut i: usize = 0;
    assert(all.take(0) =~= Seq::<Seq<char>>::empty());
    assert(document@ =~= seq!['['] + array_body(all.take(0)));
    while i < records.len()
        invariant
            i <= records.len(),
            all == records.deep_view(),
            frame.is_first() == (i == 0),
            document@ == seq!['['] + array_body(all.take(i as int)),
        decreases records.len() - i,
    {
        let piece = frame.record(records[i].as_str());
        proof {
            lemma_array_body_grows(all.take(i as int), records[i as int]@);
            assert(all.take(i as int).push(records[i as int]@) =~= all.take(i + 1));
            assert(seq!['['] + array_body(all.take(i as int)) + piece@ =~= seq!['['] + (array_body(
                all.take(i as int),
            ) + piece@));
        }
        document.append(piece.as_str());
        i = i + 1;
    }
    assert(all.take(i as int) =~= all);
    let closing = frame.finish();
    document.append(closing.as_str());
    document
}

/// The body of an array grows by a record as the frame writes it.
pub proof fn lemma_array_body_grows(records: Seq<Seq<char>>, json: Seq<char>)
    ensures
        array_body(records.push(json)) == array_body(records) + if records.len() == 0 {
            seq!['\n'] + json
        } else {
            seq![',', '\n'] + json
        },
{
    let grown = records.push(json);
    assert(grown.drop_last() =~= records);
    if records.len() == 0 {
        assert(array_body(records) + (seq!['\n'] + json) =~= seq!['\n'] + json);
    } else {
        assert(array_body(records) + seq![',', '\n'] + json =~= array_body(records) + (seq![
            ',',
            '\n',
        ] + json));
    }
}

} // verus!
