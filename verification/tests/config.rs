use egrul_parser::config::{is_switched_on, ConfigError};
use egrul_parser::AppConfig;

#[test]
fn test_default_config() {
    let config = AppConfig::default();
    assert_eq!(config.parser.batch_size, 5000);
    assert!(config.parser.continue_on_error);
    assert_eq!(config.output.format, "parquet");
}

#[test]
fn defaults_of_every_section() {
    let config = AppConfig::load();
    assert_eq!(config.parser.channel_buffer_size, 10000);
    assert!(config.parser.show_progress);
    assert_eq!(config.output.output_dir, "./output");
    assert_eq!(config.output.compression, "snappy");
    assert_eq!(config.output.max_file_size_mb, 0);
    assert_eq!(config.output.max_records_per_file, 0);
    assert_eq!(config.logging.level, "info");
    assert_eq!(config.logging.format, "text");
    assert!(config.logging.file.is_none());
    assert_eq!(config.parallel.workers, 0);
    assert_eq!(config.parallel.queue_size, 1000);
    assert!(config.parallel.distribute_by_size);
}

#[test]
fn environment_overrides() {
    let mut config = AppConfig::default();
    config.apply_env_override("EGRUL_BATCH_SIZE", "10000");
    assert_eq!(config.parser.batch_size, 10000);
    config.apply_env_override("EGRUL_BATCH_SIZE", "many");
    assert_eq!(config.parser.batch_size, 10000);
    config.apply_env_override("EGRUL_BATCH_SIZE", "-1");
    assert_eq!(config.parser.batch_size, 10000);
    config.apply_env_override("EGRUL_CONTINUE_ON_ERROR", "no");
    assert!(!config.parser.continue_on_error);
    config.apply_env_override("EGRUL_CONTINUE_ON_ERROR", "TRUE");
    assert!(config.parser.continue_on_error);
    config.apply_env_override("EGRUL_SHOW_PROGRESS", "0");
    assert!(!config.parser.show_progress);
    config.apply_env_override("EGRUL_CHANNEL_BUFFER_SIZE", "1");
    assert_eq!(config.parser.channel_buffer_size, 1);
    config.apply_env_override("EGRUL_OUTPUT_FORMAT", "jsonl");
    assert_eq!(config.output.format, "jsonl");
    config.apply_env_override("EGRUL_OUTPUT_DIR", "/tmp/out");
    assert_eq!(config.output.output_dir, "/tmp/out");
    config.apply_env_override("EGRUL_COMPRESSION", "none");
    assert_eq!(config.output.compression, "none");
    config.apply_env_override("EGRUL_MAX_FILE_SIZE_MB", "256");
    assert_eq!(config.output.max_file_size_mb, 256);
    config.apply_env_override("EGRUL_MAX_RECORDS_PER_FILE", "100000");
    assert_eq!(config.output.max_records_per_file, 100000);
    config.apply_env_override("EGRUL_LOG_LEVEL", "debug");
    assert_eq!(config.logging.level, "debug");
    config.apply_env_override("EGRUL_LOG_FILE", "run.log");
    assert_eq!(config.logging.file.as_deref(), Some("run.log"));
    config.apply_env_override("EGRUL_WORKERS", "8");
    assert_eq!(config.parallel.workers, 8);
    config.apply_env_override("EGRUL_QUEUE_SIZE", "+5");
    assert_eq!(config.parallel.queue_size, 5);
    config.apply_env_override("HOME", "/root");
    assert_eq!(config.parallel.queue_size, 5);
}

#[test]
fn number_of_workers() {
    let mut config = AppConfig::default();
    assert_eq!(config.num_workers(6), 6);
    config.parallel.workers = 3;
    assert_eq!(config.num_workers(6), 3);
    assert_eq!(AppConfig::ceiling(0), None);
    assert_eq!(AppConfig::ceiling(7), Some(7));
}

#[test]
fn switches() {
    assert!(is_switched_on("true"));
    assert!(is_switched_on("True"));
    assert!(is_switched_on("1"));
    assert!(!is_switched_on("yes"));
    assert!(!is_switched_on(""));
}

#[test]
fn config_error_messages() {
    let e = ConfigError::FileRead("a.toml".to_string(), "нет файла".to_string());
    assert_eq!(e.to_string(), "Ошибка чтения файла a.toml: нет файла");
    let e = ConfigError::FileWrite("a.toml".to_string(), "x".to_string());
    assert_eq!(e.to_string(), "Ошибка записи файла a.toml: x");
    assert_eq!(ConfigError::Parse("x".to_string()).to_string(), "Ошибка парсинга конфигурации: x");
    assert_eq!(
        ConfigError::Serialize("x".to_string()).to_string(),
        "Ошибка сериализации конфигурации: x"
    );
}
