//! The library's error type.

use crate::text::concat2;
use vstd::prelude::*;

verus! {

/// What can go wrong while reading, extracting or writing registry data.
/// Each variant carries the detail as text.
#[derive(Debug, Clone)]
pub enum Error {
    /// A file could not be opened, read or written.
    Io(String),
    /// The XML was malformed.
    Xml(String),
    /// The bytes could not be decoded.
    Encoding(String),
    /// JSON serialisation failed.
    Json(String),
    /// Writing Parquet failed.
    Parquet(String),
    /// Building Arrow data failed.
    Arrow(String),
    /// Neither content nor file name tells which registry a file holds.
    UnknownRegistryType(String),
    /// A required attribute is missing or empty.
    MissingField(String),
    /// No date format matched.
    DateParse(String),
    /// The configuration is invalid.
    Config(String),
    /// Anything else.
    Other(String),
}

/// The library's result type.
pub type Result<T> = core::result::Result<T, Error>;

impl Error {
    pub fn encoding(msg: String) -> (e: Self)
        ensures
            e == Error::Encoding(msg),
    {
        Error::Encoding(msg)
    }

    pub fn missing_field(field: String) -> (e: Self)
        ensures
            e == Error::MissingField(field),
    {
        Error::MissingField(field)
    }

    pub fn date_parse(msg: String) -> (e: Self)
        ensures
            e == Error::DateParse(msg),
    {
        Error::DateParse(msg)
    }

    pub fn config(msg: String) -> (e: Self)
        ensures
            e == Error::Config(msg),
    {
        Error::Config(msg)
    }

    pub fn other(msg: String) -> (e: Self)
        ensures
            e == Error::Other(msg),
    {
        Error::Other(msg)
    }

    /// The detail that the error carries.
    pub open spec fn detail(self) -> Seq<char> {
        match self {
            Error::Io(m) => m@,
            Error::Xml(m) => m@,
            Error::Encoding(m) => m@,
            Error::Json(m) => m@,
            Error::Parquet(m) => m@,
            Error::Arrow(m) => m@,
            Error::UnknownRegistryType(m) => m@,
            Error::MissingField(m) => m@,
            Error::DateParse(m) => m@,
            Error::Config(m) => m@,
            Error::Other(m) => m@,
        }
    }

    /// The fixed text that introduces each kind of error.
    pub open spec fn prefix(self) -> Seq<char> {
        match self {
            Error::Io(_) => "Ошибка чтения файла: "@,
            Error::Xml(_) => "Ошибка парсинга XML: "@,
            Error::Encoding(_) => "Ошибка декодирования: "@,
            Error::Json(_) => "Ошибка JSON: "@,
            Error::Parquet(_) => "Ошибка Parquet: "@,
            Error::Arrow(_) => "Ошибка Arrow: "@,
            Error::UnknownRegistryType(_) => "Неизвестный тип реестра: "@,
            Error::MissingField(_) => "Отсутствует обязательное поле: "@,
            Error::DateParse(_) => "Ошибка парсинга даты: "@,
            Error::Config(_) => "Ошибка конфигурации: "@,
            Error::Other(_) => ""@,
        }
    }

    /// The message shown to the user: the kind's prefix, then the detail.
    pub fn to_string(&self) -> (s: String)
        ensures
            s@ == self.prefix() + self.detail(),
    {
        match self {
            Error::Io(m) => concat2("Ошибка чтения файла: ", m.as_str()),
            Error::Xml(m) => concat2("Ошибка парсинга XML: ", m.as_str()),
            Error::Encoding(m) => concat2("Ошибка декодирования: ", m.as_str()),
            Error::Json(m) => concat2("Ошибка JSON: ", m.as_str()),
            Error::Parquet(m) => concat2("Ошибка Parquet: ", m.as_str()),
            Error::Arrow(m) => concat2("Ошибка Arrow: ", m.as_str()),
            Error::UnknownRegistryType(m) => concat2("Неизвестный тип реестра: ", m.as_str()),
            Error::MissingField(m) => concat2("Отсутствует обязательное поле: ", m.as_str()),
            Error::DateParse(m) => concat2("Ошибка парсинга даты: ", m.as_str()),
            Error::Config(m) => concat2("Ошибка конфигурации: ", m.as_str()),
            Error::Other(m) => concat2("", m.as_str()),
        }
    }
}

} // verus!
