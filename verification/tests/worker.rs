use egrul_parser::models::{EgripRecord, EgrulRecord, RegistryRecord};
use egrul_parser::parallel::worker::{add_capped, after_failure, count_by_registry, AfterFailure};
use egrul_parser::parallel::WorkerStats;
use std::path::PathBuf;

#[test]
fn test_worker_stats() {
    let mut stats = WorkerStats::new();

    stats.files_processed += 1;
    stats.egrul_records += 10;
    stats.egrip_records += 5;

    assert_eq!(stats.files_processed, 1);
    assert_eq!(stats.total_records(), 15);
}

#[test]
fn worker_counts_by_registry() {
    let records = vec![
        RegistryRecord::Egrul(EgrulRecord::new()),
        RegistryRecord::Egrip(EgripRecord::new()),
        RegistryRecord::Egrul(EgrulRecord::new()),
    ];
    assert_eq!(count_by_registry(&records), (2, 1));
    assert_eq!(count_by_registry(&[]), (0, 0));
    let mut stats = WorkerStats::default();
    stats.record_success(&records);
    stats.record_success(&records[..1]);
    stats.record_failure();
    assert_eq!(stats.files_processed, 2);
    assert_eq!(stats.files_failed, 1);
    assert_eq!(stats.egrul_records, 3);
    assert_eq!(stats.egrip_records, 1);
    assert_eq!(stats.total_records(), 4);
}

#[test]
fn worker_remembers_the_current_file() {
    let mut stats = WorkerStats::new();
    assert_eq!(stats.get_current_file(), &None);
    stats.set_current_file(Some(PathBuf::from("a.xml")));
    assert_eq!(stats.get_current_file(), &Some(PathBuf::from("a.xml")));
    stats.set_current_file(None);
    assert_eq!(stats.get_current_file(), &None);
}

#[test]
fn counts_do_not_overflow() {
    assert_eq!(add_capped(usize::MAX, 1), usize::MAX);
    assert_eq!(add_capped(usize::MAX - 1, 1), usize::MAX);
    assert_eq!(add_capped(2, 3), 5);
}

#[test]
fn failure_policy() {
    assert_eq!(after_failure(true), AfterFailure::Skip);
    assert_eq!(after_failure(false), AfterFailure::Abort);
}
