//! Output formats and the rolling of output files.

pub mod json;
pub mod rolling;
pub mod rows;
pub mod writer;

use crate::error::Error;
use crate::text::concat2;
use crate::text::lowercase;
use crate::text::str_eq;
use crate::text::str_to_lowercase;
use vstd::prelude::*;

verus! {

/// The format in which records are written.
#[derive(Debug, Clone, Copy, PartialEq, Eq, Structural)]
pub enum OutputFormat {
    /// Apache Parquet.
    Parquet,
    /// One JSON object per line.
    JsonLines,
    /// One JSON array.
    Json,
}

impl OutputFormat {
    /// The file extension of each format.
    pub open spec fn extension_of(self) -> Seq<char> {
        match self {
            OutputFormat::Parquet => "parquet"@,
            OutputFormat::JsonLines => "jsonl"@,
            OutputFormat::Json => "json"@,
        }
    }

    /// The format that a lowercase file extension stands for.
    pub open spec fn of_extension(lower: Seq<char>) -> Option<OutputFormat> {
        if lower == "parquet"@ || lower == "pq"@ {
            Some(OutputFormat::Parquet)
        } else if lower == "jsonl"@ || lower == "ndjson"@ {
            Some(OutputFormat::JsonLines)
        } else if lower == "json"@ {
            Some(OutputFormat::Json)
        } else {
            None
        }
    }

    /// The format that a lowercase name stands for: an extension, or
    /// `jsonlines`.
    pub open spec fn of_name(lower: Seq<char>) -> Option<OutputFormat> {
        if lower == "jsonlines"@ {
            Some(OutputFormat::JsonLines)
        } else {
            Self::of_extension(lower)
        }
    }

    /// The file extension of the format.
    pub fn extension(&self) -> (r: &'static str)
        ensures
            r@ == self.extension_of(),
    {
        match self {
            OutputFormat::Parquet => "parquet",
            OutputFormat::JsonLines => "jsonl",
            OutputFormat::Json => "json",
        }
    }

    /// Tells the format from a file extension that is already in lowercase.
    pub fn from_lowercase_extension(lower: &str) -> (r: Option<Self>)
        ensures
            r == Self::of_extension(lower@),
    {
        if str_eq(lower, "parquet") || str_eq(lower, "pq") {
            Some(OutputFormat::Parquet)
        } else if str_eq(lower, "jsonl") || str_eq(lower, "ndjson") {
            Some(OutputFormat::JsonLines)
        } else if str_eq(lower, "json") {
            Some(OutputFormat::Json)
        } else {
            None
        }
    }

    /// Tells the format from a file extension, whatever its case.
    pub fn from_extension(ext: &str) -> (r: Option<Self>)
        ensures
            r == Self::of_extension(lowercase(ext@)),
    {
        let lower = str_to_lowercase(ext);
        Self::from_lowercase_extension(lower.as_str())
    }

    /// Tells the format from a name that is already in lowercase.
    pub fn from_lowercase_name(lower: &str) -> (r: Option<Self>)
        ensures
            r == Self::of_name(lower@),
    {
        if str_eq(lower, "jsonlines") {
            Some(OutputFormat::JsonLines)
        } else {
            Self::from_lowercase_extension(lower)
        }
    }

    /// Reads the format from its name as a user writes it. An unknown name
    /// is a configuration error that quotes it.
    pub fn from_str(s: &str) -> (r: Result<Self, Error>)
        ensures
            match r {
                Ok(format) => Self::of_name(lowercase(s@)) == Some(format),
                Err(e) => Self::of_name(lowercase(s@)) is None && e is Config && e.detail()
                    == "Неизвестный формат вывода: "@ + s@,
            },
    {
        let lower = str_to_lowercase(s);
        match Self::from_lowercase_name(lower.as_str()) {
            Some(format) => Ok(format),
            None => Err(Error::config(concat2("Неизвестный формат вывода: ", s))),
        }
    }
}

} // verus!
