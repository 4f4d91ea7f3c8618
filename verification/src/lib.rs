//! Extraction of legal-entity and sole-proprietor records from registry XML
//! dumps, with the rules for laying the records out in rolled output files.

pub mod config;
pub mod date;
pub mod deduplication;
pub mod error;
pub mod models;
pub mod output;
pub mod parallel;
pub mod parser;
pub mod text;
pub mod xml;

pub use config::AppConfig;
pub use error::Error;
pub use error::Result;
pub use models::Activity;
pub use models::Address;
pub use models::Capital;
pub use models::Document;
pub use models::EgripRecord;
pub use models::EgrulRecord;
pub use models::EntityStatus;
pub use models::Founder;
pub use models::HistoryRecord;
pub use models::License;
pub use models::PensionFund;
pub use models::Person;
pub use models::RegistrationAuthority;
pub use models::RegistryRecord;
pub use models::RegistryType;
pub use models::Share;
pub use models::SocialInsurance;
pub use models::TaxAuthority;
pub use output::OutputFormat;
pub use parser::egrip_parser::EgripXmlParser;
pub use parser::egrul_parser::EgrulXmlParser;
pub use parser::xml_reader::XmlEncoding;
pub use parser::xml_reader::XmlReader;

use vstd::prelude::*;

verus! {

/// Version of the library.
pub const VERSION: &'static str = "0.1.0";

/// Name and version of the library, and what it is for.
pub open spec fn info_text() -> Seq<char> {
    "egrul-parser v"@ + VERSION@
        + "\nВысокопроизводительный парсер XML файлов ЕГРЮЛ/ЕГРИП"@
}

/// Name and version of the library, and what it is for.
pub fn info() -> (r: String)
    ensures
        r@ == info_text(),
{
    text::concat3(
        "egrul-parser v",
        VERSION,
        "\nВысокопроизводительный парсер XML файлов ЕГРЮЛ/ЕГРИП",
    )
}

} // verus!
