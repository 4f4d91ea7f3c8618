//! Settings of a run, their defaults, and the overrides that the
//! environment may bring.

use crate::text::concat2;
use crate::text::concat3;
use crate::text::lowercase;
use crate::text::owned;
use crate::text::parse_usize_spec;
use crate::text::str_eq;
use crate::text::str_parse_usize;
use crate::text::str_to_lowercase;
use vstd::prelude::*;

verus! {

/// Settings of the extraction.
#[derive(Debug, Clone)]
pub struct ParserSettings {
    /// Whether a file that fails is skipped rather than ending the run.
    pub continue_on_error: bool,
    /// Number of records handed to a writer at once.
    pub batch_size: usize,
    /// Capacity of each channel between the workers and a writer.
    pub channel_buffer_size: usize,
    pub show_progress: bool,
}

/// Settings of the output.
#[derive(Debug, Clone)]
pub struct OutputSettings {
    pub format: String,
    pub output_dir: String,
    /// Compression of Parquet files.
    pub compression: String,
    /// Ceiling of a file's size in mebibytes; 0 for none.
    pub max_file_size_mb: usize,
    /// Ceiling of a file's number of records; 0 for none.
    pub max_records_per_file: usize,
}

/// Settings of the log.
#[derive(Debug, Clone)]
pub struct LoggingSettings {
    pub level: String,
    /// File that the log goes to, if any.
    pub file: Option<String>,
    /// `text` or `json`.
    pub format: String,
}

/// Settings of the parallel run.
#[derive(Debug, Clone)]
pub struct ParallelSettings {
    /// Number of workers; 0 to take the number of processors.
    pub workers: usize,
    /// Capacity of the queue of files.
    pub queue_size: usize,
    /// Whether files are shared out among the workers by size.
    pub distribute_by_size: bool,
}

/// All settings of a run.
#[derive(Debug, Clone)]
pub struct AppConfig {
    pub parser: ParserSettings,
    pub output: OutputSettings,
    pub logging: LoggingSettings,
    pub parallel: ParallelSettings,
}

pub struct ParserSettingsView {
    pub continue_on_error: bool,
    pub batch_size: usize,
    pub channel_buffer_size: usize,
    pub show_progress: bool,
}

pub struct OutputSettingsView {
    pub format: Seq<char>,
    pub output_dir: Seq<char>,
    pub compression: Seq<char>,
    pub max_file_size_mb: usize,
    pub max_records_per_file: usize,
}

pub struct LoggingSettingsView {
    pub level: Seq<char>,
    pub file: Option<Seq<char>>,
    pub format: Seq<char>,
}

pub struct ParallelSettingsView {
    pub workers: usize,
    pub queue_size: usize,
    pub distribute_by_size: bool,
}

pub struct AppConfigView {
    pub parser: ParserSettingsView,
    pub output: OutputSettingsView,
    pub logging: LoggingSettingsView,
    pub parallel: ParallelSettingsView,
}

impl DeepView for ParserSettings {
    type V = ParserSettingsView;

    open spec fn deep_view(&self) -> ParserSettingsView {
        ParserSettingsView {
            continue_on_error: self.continue_on_error,
            batch_size: self.batch_size,
            channel_buffer_size: self.channel_buffer_size,
            show_progress: self.show_progress,
        }
    }
}

impl DeepView for OutputSettings {
    type V = OutputSettingsView;

    open spec fn deep_view(&self) -> OutputSettingsView {
        OutputSettingsView {
            format: self.format@,
            output_dir: self.output_dir@,
            compression: self.compression@,
            max_file_size_mb: self.max_file_size_mb,
            max_records_per_file: self.max_records_per_file,
        }
    }
}

impl DeepView for LoggingSettings {
    type V = LoggingSettingsView;

    open spec fn deep_view(&self) -> LoggingSettingsView {
        LoggingSettingsView {
            level: self.level@,
            file: self.file.deep_view(),
            format: self.format@,
        }
    }
}

impl DeepView for ParallelSettings {
    type V = ParallelSettingsView;

    open spec fn deep_view(&self) -> ParallelSettingsView {
        ParallelSettingsView {
            workers: self.workers,
            queue_size: self.queue_size,
            distribute_by_size: self.distribute_by_size,
        }
    }
}

impl DeepView for AppConfig {
    type V = AppConfigView;

    open spec fn deep_view(&self) -> AppConfigView {
        AppConfigView {
            parser: self.parser.deep_view(),
            output: self.output.deep_view(),
            logging: self.logging.deep_view(),
            parallel: self.parallel.deep_view(),
        }
    }
}

pub fn default_continue_on_error() -> (r: bool)
    ensures
        r,
{
    true
}

pub fn default_batch_size() -> (r: usize)
    ensures
        r == 5000,
{
    5000
}

pub fn default_channel_buffer_size() -> (r: usize)
    ensures
        r == 10000,
{
    10000
}

pub fn default_show_progress() -> (r: bool)
    ensures
        r,
{
    true
}

pub fn default_format() -> (r: String)
    ensures
        r@ == "parquet"@,
{
    owned("parquet")
}

pub fn default_output_dir() -> (r: String)
    ensures
        r@ == "./output"@,
{
    owned("./output")
}

pub fn default_compression() -> (r: String)
    ensures
        r@ == "snappy"@,
{
    owned("snappy")
}

pub fn default_log_level() -> (r: String)
    ensures
        r@ == "info"@,
{
    owned("info")
}

pub fn default_log_format() -> (r: String)
    ensures
        r@ == "text"@,
{
    owned("text")
}

pub fn default_queue_size() -> (r: usize)
    ensures
        r == 1000,
{
    1000
}

pub fn default_distribute_by_size() -> (r: bool)
    ensures
        r,
{
    true
}

impl ParserSettingsView {
    pub open spec fn default() -> ParserSettingsView {
        ParserSettingsView {
            continue_on_error: true,
            batch_size: 5000,
            channel_buffer_size: 10000,
            show_progress: true,
        }
    }
}

impl OutputSettingsView {
    pub open spec fn default() -> OutputSettingsView {
        OutputSettingsView {
            format: "parquet"@,
            output_dir: "./output"@,
            compression: "snappy"@,
            max_file_size_mb: 0,
            max_records_per_file: 0,
        }
    }
}

impl LoggingSettingsView {
    pub open spec fn default() -> LoggingSettingsView {
        LoggingSettingsView { level: "info"@, file: None, format: "text"@ }
    }
}

impl ParallelSettingsView {
    pub open spec fn default() -> ParallelSettingsView {
        ParallelSettingsView { workers: 0, queue_size: 1000, distribute_by_size: true }
    }
}

impl AppConfigView {
    pub open spec fn default() -> AppConfigView {
        AppConfigView {
            parser: ParserSettingsView::default(),
            output: OutputSettingsView::default(),
            logging: LoggingSettingsView::default(),
            parallel: ParallelSettingsView::default(),
        }
    }
}

impl Default for ParserSettings {
    fn default() -> (r: Self)
        ensures
            r.deep_view() == ParserSettingsView::default(),
    {
        ParserSettings {
            continue_on_error: default_continue_on_error(),
            batch_size: default_batch_size(),
            channel_buffer_size: default_channel_buffer_size(),
            show_progress: default_show_progress(),
        }
    }
}

impl Default for OutputSettings {
    fn default() -> (r: Self)
        ensures
            r.deep_view() == OutputSettingsView::default(),
    {
        OutputSettings {
            format: default_format(),
            output_dir: default_output_dir(),
            compression: default_compression(),
            max_file_size_mb: 0,
            max_records_per_file: 0,
        }
    }
}

impl Default for LoggingSettings {
    fn default() -> (r: Self)
        ensures
            r.deep_view() == LoggingSettingsView::default(),
    {
        LoggingSettings { level: default_log_level(), file: None, format: default_log_format() }
    }
}

impl Default for ParallelSettings {
    fn default() -> (r: Self)
        ensures
            r.deep_view() == ParallelSettingsView::default(),
    {
        ParallelSettings {
            workers: 0,
            queue_size: default_queue_size(),
            distribute_by_size: default_distribute_by_size(),
        }
    }
}

impl Default for AppConfig {
    fn default() -> (r: Self)
        ensures
            r.deep_view() == AppConfigView::default(),
    {
        AppConfig {
            parser: ParserSettings::default(),
            output: OutputSettings::default(),
            logging: LoggingSettings::default(),
            parallel: ParallelSettings::default(),
        }
    }
}

/// Whether the value of a variable switches a setting on: `true` in any
/// case, or `1`.
pub open spec fn switches_on(value: Seq<char>) -> bool {
    lowercase(value) == "true"@ || value == "1"@
}

/// A number, if the value of a variable is one; the setting as it was
/// otherwise.
pub open spec fn number_or(current: usize, value: Seq<char>) -> usize {
    match parse_usize_spec(value) {
        Some(n) => n,
        None => current,
    }
}

/// The settings after one environment variable was applied. A variable
/// that is not known changes nothing, nor does a number that does not parse.
pub open spec fn overridden(config: AppConfigView, name: Seq<char>, value: Seq<char>) -> AppConfigView {
    if name == "EGRUL_BATCH_SIZE"@ {
        AppConfigView {
            parser: ParserSettingsView {
                batch_size: number_or(config.parser.batch_size, value),
                ..config.parser
            },
            ..config
        }
    } else if name == "EGRUL_CONTINUE_ON_ERROR"@ {
        AppConfigView {
            parser: ParserSettingsView { continue_on_error: switches_on(value), ..config.parser },
            ..config
        }
    } else if name == "EGRUL_SHOW_PROGRESS"@ {
        AppConfigView {
            parser: ParserSettingsView { show_progress: switches_on(value), ..config.parser },
            ..config
        }
    } else if name == "EGRUL_CHANNEL_BUFFER_SIZE"@ {
        AppConfigView {
            parser: ParserSettingsView {
                channel_buffer_size: number_or(config.parser.channel_buffer_size, value),
                ..config.parser
            },
            ..config
        }
    } else if name == "EGRUL_OUTPUT_FORMAT"@ {
        AppConfigView { output: OutputSettingsView { format: value, ..config.output }, ..config }
    } else if name == "EGRUL_OUTPUT_DIR"@ {
        AppConfigView { output: OutputSettingsView { output_dir: value, ..config.output }, ..config }
    } else if name == "EGRUL_COMPRESSION"@ {
        AppConfigView { output: OutputSettingsView { compression: value, ..config.output }, ..config }
    } else if name == "EGRUL_MAX_FILE_SIZE_MB"@ {
        AppConfigView {
            output: OutputSettingsView {
                max_file_size_mb: number_or(config.output.max_file_size_mb, value),
                ..config.output
            },
            ..config
        }
    } else if name == "EGRUL_MAX_RECORDS_PER_FILE"@ {
        AppConfigView {
            output: OutputSettingsView {
                max_records_per_file: number_or(config.output.max_records_per_file, value),
                ..config.output
            },
            ..config
        }
    } else if name == "EGRUL_LOG_LEVEL"@ {
        AppConfigView { logging: LoggingSettingsView { level: value, ..config.logging }, ..config }
    } else if name == "EGRUL_LOG_FILE"@ {
        AppConfigView {
            logging: LoggingSettingsView { file: Some(value), ..config.logging },
            ..config
        }
    } else if name == "EGRUL_WORKERS"@ {
        AppConfigView {
            parallel: ParallelSettingsView {
                workers: number_or(config.parallel.workers, value),
                ..config.parallel
            },
            ..config
        }
    } else if name == "EGRUL_QUEUE_SIZE"@ {
        AppConfigView {
            parallel: ParallelSettingsView {
                queue_size: number_or(config.parallel.queue_size, value),
                ..config.parallel
            },
            ..config
        }
    } else {
        config
    }
}

/// Whether the value of a variable switches a setting on.
pub fn is_switched_on(value: &str) -> (r: bool)
    ensures
        r == switches_on(value@),
{
    let lower = str_to_lowercase(value);
    str_eq(lower.as_str(), "true") || str_eq(value, "1")
}

/// The number that the value of a variable gives, or the setting as it
/// was.
pub fn parse_number_or(current: usize, value: &str) -> (r: usize)
    ensures
        r == number_or(current, value@),
{
    match str_parse_usize(value) {
        Some(n) => n,
        None => current,
    }
}

impl AppConfig {
    /// The settings that hold where no file and no variable says otherwise.
    pub fn load() -> (r: Self)
        ensures
            r.deep_view() == AppConfigView::default(),
    {
        AppConfig::default()
    }

    /// Applies one environment variable, given by name and value.
    pub fn apply_env_override(&mut self, name: &str, value: &str)
        ensures
            final(self).deep_view() == overridden(old(self).deep_view(), name@, value@),
    {
        if str_eq(name, "EGRUL_BATCH_SIZE") {
            self.parser.batch_size = parse_number_or(self.parser.batch_size, value);
        } else if str_eq(name, "EGRUL_CONTINUE_ON_ERROR") {
            self.parser.continue_on_error = is_switched_on(value);
        } else if str_eq(name, "EGRUL_SHOW_PROGRESS") {
            self.parser.show_progress = is_switched_on(value);
        } else if str_eq(name, "EGRUL_CHANNEL_BUFFER_SIZE") {
            self.parser.channel_buffer_size = parse_number_or(
                self.parser.channel_buffer_size,
                value,
            );
        } else if str_eq(name, "EGRUL_OUTPUT_FORMAT") {
            self.output.format = owned(value);
        } else if str_eq(name, "EGRUL_OUTPUT_DIR") {
            self.output.output_dir = owned(value);
        } else if str_eq(name, "EGRUL_COMPRESSION") {
            self.output.compression = owned(value);
        } else if str_eq(name, "EGRUL_MAX_FILE_SIZE_MB") {
            self.output.max_file_size_mb = parse_number_or(self.output.max_file_size_mb, value);
        } else if str_eq(name, "EGRUL_MAX_RECORDS_PER_FILE") {
            self.output.max_records_per_file = parse_number_or(
                self.output.max_records_per_file,
                value,
            );
        } else if str_eq(name, "EGRUL_LOG_LEVEL") {
            self.logging.level = owned(value);
        } else if str_eq(name, "EGRUL_LOG_FILE") {
            self.logging.file = Some(owned(value));
        } else if str_eq(name, "EGRUL_WORKERS") {
            self.parallel.workers = parse_number_or(self.parallel.workers, value);
        } else if str_eq(name, "EGRUL_QUEUE_SIZE") {
            self.parallel.queue_size = parse_number_or(self.parallel.queue_size, value);
        }
    }

    /// The number of workers to run: the number that is set, or, where
    /// none is set, the number of processors that are available.
    pub fn num_workers(&self, available: usize) -> (r: usize)
        ensures
            r == if self.parallel.workers == 0 {
                available
            } else {
                self.parallel.workers
            },
    {
        if self.parallel.workers == 0 {
            available
        } else {
            self.parallel.workers
        }
    }

    /// The ceiling that a setting gives: none where the setting is 0.
    pub fn ceiling(setting: usize) -> (r: Option<usize>)
        ensures
            r == if setting == 0 {
                None
            } else {
                Some(setting)
            },
    {
        if setting == 0 {
            None
        } else {
            Some(setting)
        }
    }
}

/// What can go wrong with the settings.
#[derive(Debug, Clone)]
pub enum ConfigError {
    /// The file could not be read: its path and the reason.
    FileRead(String, String),
    /// The file could not be written: its path and the reason.
    FileWrite(String, String),
    /// The file is not valid TOML or does not fit the settings.
    Parse(String),
    /// The settings could not be written as TOML.
    Serialize(String),
}

impl ConfigError {
    /// The message shown to the user.
    pub open spec fn message(self) -> Seq<char> {
        match self {
            ConfigError::FileRead(path, reason) => "Ошибка чтения файла "@ + path@ + ": "@
                + reason@,
            ConfigError::FileWrite(path, reason) => "Ошибка записи файла "@ + path@ + ": "@
                + reason@,
            ConfigError::Parse(reason) => "Ошибка парсинга конфигурации: "@ + reason@,
            ConfigError::Serialize(reason) => "Ошибка сериализации конфигурации: "@ + reason@,
        }
    }

    /// The message shown to the user.
    pub fn to_string(&self) -> (r: String)
        ensures
            r@ == self.message(),
    {
        match self {
            ConfigError::FileRead(path, reason) => {
                let head = concat3("Ошибка чтения файла ", path.as_str(), ": ");
                concat2(head.as_str(), reason.as_str())
            },
            ConfigError::FileWrite(path, reason) => {
                let head = concat3("Ошибка записи файла ", path.as_str(), ": ");
                concat2(head.as_str(), reason.as_str())
            },
            ConfigError::Parse(reason) => concat2(
                "Ошибка парсинга конфигурации: ",
                reason.as_str(),
            ),
            ConfigError::Serialize(reason) => concat2(
                "Ошибка сериализации конфигурации: ",
                reason.as_str(),
            ),
        }
    }
}

} // verus!
