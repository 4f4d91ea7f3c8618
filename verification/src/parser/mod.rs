//! Reading registry XML: encoding, attributes and the two extractors.

pub mod attributes;
pub mod blocks;
pub mod egrip_parser;
pub mod egrul_parser;
pub mod laws;
pub mod numbers;
pub mod walker;
pub mod xml_reader;

pub use attributes::normalize_string;
pub use attributes::parse_date;
pub use attributes::tag_matches;
pub use attributes::tag_name;

use crate::error::Error;
use crate::models::EgripRecord;
use crate::models::EgrulRecord;
use crate::models::RegistryRecord;
use crate::models::RegistryRecordView;
use crate::models::RegistryType;
use crate::models::egrip::EgripRecordView;
use crate::models::egrul::EgrulRecordView;
use crate::parser::egrip_parser::sp_records;
use crate::parser::egrip_parser::EgripXmlParser;
use crate::parser::egrul_parser::le_records;
use crate::parser::egrul_parser::EgrulXmlParser;
use crate::parser::xml_reader::decoded;
use crate::parser::xml_reader::XmlReader;
use crate::text::owned;
use crate::xml::xml_events;
use vstd::prelude::*;

verus! {

/// How a run is set up.
#[derive(Debug, Clone, Copy, PartialEq, Eq, Structural)]
pub struct ParserConfig {
    /// Number of files that are read at the same time.
    pub num_threads: usize,
    /// Capacity of each channel between the workers and a writer.
    pub channel_buffer_size: usize,
    /// Number of records handed to a writer at once.
    pub batch_size: usize,
    pub show_progress: bool,
    /// Whether a file that fails is skipped rather than ending the run.
    pub continue_on_error: bool,
}

impl ParserConfig {
    /// The usual set-up for the given number of threads: channels of
    /// 10 000 records, batches of 5 000, progress shown, failing files
    /// skipped.
    pub open spec fn usual(num_threads: usize) -> ParserConfig {
        ParserConfig {
            num_threads,
            channel_buffer_size: 10000,
            batch_size: 5000,
            show_progress: true,
            continue_on_error: true,
        }
    }

    /// The usual set-up for the given number of threads.
    pub fn with_threads(num_threads: usize) -> (r: Self)
        ensures
            r == Self::usual(num_threads),
    {
        ParserConfig {
            num_threads,
            channel_buffer_size: 10000,
            batch_size: 5000,
            show_progress: true,
            continue_on_error: true,
        }
    }
}

/// The records of legal entities as records of either registry.
pub open spec fn as_le(records: Seq<EgrulRecordView>) -> Seq<RegistryRecordView> {
    records.map_values(|r: EgrulRecordView| RegistryRecordView::Egrul(r))
}

/// The records of sole proprietors as records of either registry.
pub open spec fn as_sp(records: Seq<EgripRecordView>) -> Seq<RegistryRecordView> {
    records.map_values(|r: EgripRecordView| RegistryRecordView::Egrip(r))
}

/// The records that a document yields once its registry is known.
pub open spec fn records_of(kind: RegistryType, content: Seq<char>) -> Seq<RegistryRecordView> {
    match kind {
        RegistryType::Egrul => as_le(le_records(xml_events(content))),
        RegistryType::Egrip => as_sp(sp_records(xml_events(content))),
    }
}

/// Wraps the records of legal entities.
pub fn wrap_le(records: Vec<EgrulRecord>) -> (r: Vec<RegistryRecord>)
    ensures
        r.deep_view() == as_le(records.deep_view()),
{
    let mut records = records;
    let ghost all = records.deep_view();
    let mut reversed: Vec<RegistryRecord> = Vec::new();
    while records.len() > 0
        invariant
            records.len() <= all.len(),
            records.deep_view() == all.take(records.len() as int),
            reversed.len() == all.len() - records.len(),
            forall|i: int|
                0 <= i < reversed.len() ==> (#[trigger] reversed[i]).deep_view()
                    == RegistryRecordView::Egrul(all[all.len() - 1 - i]),
        decreases records.len(),
    {
        let ghost before = records.deep_view();
        let n = records.len();
        match records.pop() {
            Some(r) => {
                assert(before[n - 1] == r.deep_view());
                assert(records.deep_view() =~= before.take(n - 1));
                reversed.push(RegistryRecord::Egrul(r));
            },
            None => {},
        }
    }
    let mut out: Vec<RegistryRecord> = Vec::new();
    while reversed.len() > 0
        invariant
            reversed.len() + out.len() == all.len(),
            forall|i: int|
                0 <= i < reversed.len() ==> (#[trigger] reversed[i]).deep_view()
                    == RegistryRecordView::Egrul(all[all.len() - 1 - i]),
            forall|i: int|
                0 <= i < out.len() ==> (#[trigger] out[i]).deep_view() == RegistryRecordView::Egrul(
                    all[i],
                ),
        decreases reversed.len(),
    {
        match reversed.pop() {
            Some(r) => {
                out.push(r);
            },
            None => {},
        }
    }
    assert(out.deep_view() =~= as_le(all)) by {
        assert forall|i: int| 0 <= i < out.len() implies out.deep_view()[i] == as_le(all)[i] by {
            assert(out.deep_view()[i] == out[i].deep_view());
        }
    }
    out
}

/// Wraps the records of sole proprietors.
pub fn wrap_sp(records: Vec<EgripRecord>) -> (r: Vec<RegistryRecord>)
    ensures
        r.deep_view() == as_sp(records.deep_view()),
{
    let mut records = records;
    let ghost all = records.deep_view();
    let mut reversed: Vec<RegistryRecord> = Vec::new();
    while records.len() > 0
        invariant
            records.len() <= all.len(),
            records.deep_view() == all.take(records.len() as int),
            reversed.len() == all.len() - records.len(),
            forall|i: int|
                0 <= i < reversed.len() ==> (#[trigger] reversed[i]).deep_view()
                    == RegistryRecordView::Egrip(all[all.len() - 1 - i]),
        decreases records.len(),
    {
        let ghost before = records.deep_view();
        let n = records.len();
        match records.pop() {
            Some(r) => {
                assert(before[n - 1] == r.deep_view());
                assert(records.deep_view() =~= before.take(n - 1));
                reversed.push(RegistryRecord::Egrip(r));
            },
            None => {},
        }
    }
    let mut out: Vec<RegistryRecord> = Vec::new();
    while reversed.len() > 0
        invariant
            reversed.len() + out.len() == all.len(),
            forall|i: int|
                0 <= i < reversed.len() ==> (#[trigger] reversed[i]).deep_view()
                    == RegistryRecordView::Egrip(all[all.len() - 1 - i]),
            forall|i: int|
                0 <= i < out.len() ==> (#[trigger] out[i]).deep_view() == RegistryRecordView::Egrip(
                    all[i],
                ),
        decreases reversed.len(),
    {
        match reversed.pop() {
            Some(r) => {
                out.push(r);
            },
            None => {},
        }
    }
    assert(out.deep_view() =~= as_sp(all)) by {
        assert forall|i: int| 0 <= i < out.len() implies out.deep_view()[i] == as_sp(all)[i] by {
            assert(out.deep_view()[i] == out[i].deep_view());
        }
    }
    out
}

/// Reads registry files that are already in memory.
pub struct Parser {
    config: ParserConfig,
}

impl Parser {
    /// How the parser is set up.
    pub closed spec fn config_of(&self) -> ParserConfig {
        self.config
    }

    /// A parser with the usual set-up for the given number of threads.
    pub fn new(num_threads: usize) -> (r: Self)
        ensures
            r.config_of() == ParserConfig::usual(num_threads),
    {
        Parser { config: ParserConfig::with_threads(num_threads) }
    }

    /// A parser with the given set-up.
    pub fn with_config(config: ParserConfig) -> (r: Self)
        ensures
            r.config_of() == config,
    {
        Parser { config }
    }

    /// How the parser is set up.
    pub fn config(&self) -> (r: ParserConfig)
        ensures
            r == self.config_of(),
    {
        self.config
    }

    /// Extracts the records of a decoded document. The registry is told
    /// by the content, or else by the file name; where neither tells it,
    /// the document is refused with the path it was read from.
    pub fn parse_content(&self, content: &str, file_name: &str, path: &str) -> (r: Result<
        Vec<RegistryRecord>,
        Error,
    >)
        ensures
            match r {
                Ok(records) => RegistryType::of_document(content@, file_name@) is Some
                    && records.deep_view() == records_of(
                    RegistryType::of_document(content@, file_name@)->0,
                    content@,
                ),
                Err(e) => RegistryType::of_document(content@, file_name@) is None && e
                    is UnknownRegistryType && e.detail() == path@,
            },
    {
        match RegistryType::detect(content, file_name) {
            Some(RegistryType::Egrul) => {
                let parser = EgrulXmlParser::new();
                match parser.parse(content) {
                    Ok(records) => Ok(wrap_le(records)),
                    Err(e) => Err(e),
                }
            },
            Some(RegistryType::Egrip) => {
                let parser = EgripXmlParser::new();
                match parser.parse(content) {
                    Ok(records) => Ok(wrap_sp(records)),
                    Err(e) => Err(e),
                }
            },
            None => Err(Error::UnknownRegistryType(owned(path))),
        }
    }

    /// Decodes the bytes of a file and extracts its records. Fails where
    /// the bytes cannot be decoded or the registry cannot be told.
    pub fn parse_bytes(&self, data: Vec<u8>, file_name: &str, path: &str) -> (r: Result<
        Vec<RegistryRecord>,
        Error,
    >)
        ensures
            ({
                let text = decoded(data@);
                match r {
                    Ok(records) => text is Some && RegistryType::of_document(text->0, file_name@)
                        is Some && records.deep_view() == records_of(
                        RegistryType::of_document(text->0, file_name@)->0,
                        text->0,
                    ),
                    Err(e) => if text is None {
                        e is Encoding
                    } else {
                        RegistryType::of_document(text->0, file_name@) is None && e
                            is UnknownRegistryType && e.detail() == path@
                    },
                }
            }),
    {
        let reader = XmlReader::from_bytes(data);
        match reader.read_to_string() {
            Ok(content) => self.parse_content(content.as_str(), file_name, path),
            Err(e) => Err(e),
        }
    }
}

} // verus!
