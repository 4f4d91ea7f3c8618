use egrul_parser::parallel::batch::Batcher;
use egrul_parser::parallel::{
    distribute_files, is_xml_extension, reversed, sort_by_size, FileInfo, ProcessingStats,
};
use std::path::PathBuf;

fn file(name: &str, size: u64) -> FileInfo {
    FileInfo { path: PathBuf::from(name), size }
}

fn names(bin: &[FileInfo]) -> Vec<String> {
    bin.iter().map(|f| f.path.to_string_lossy().into_owned()).collect()
}

#[test]
fn test_distribute_files() {
    let files = vec![
        FileInfo { path: PathBuf::from("a.xml"), size: 100 },
        FileInfo { path: PathBuf::from("b.xml"), size: 200 },
        FileInfo { path: PathBuf::from("c.xml"), size: 50 },
        FileInfo { path: PathBuf::from("d.xml"), size: 150 },
    ];

    let distributed = distribute_files(files, 2);
    assert_eq!(distributed.len(), 2);

    let total: usize = distributed.iter().map(|w| w.len()).sum();
    assert_eq!(total, 4);
}

#[test]
fn the_largest_file_goes_first_and_to_the_lightest_bin() {
    let files = vec![file("a", 100), file("b", 200), file("c", 50), file("d", 150)];
    let bins = distribute_files(files, 2);
    assert_eq!(names(&bins[0]), vec!["b", "c"]);
    assert_eq!(names(&bins[1]), vec!["d", "a"]);
    let files = vec![file("a", 5), file("b", 5), file("c", 5), file("d", 5)];
    let bins = distribute_files(files, 3);
    assert_eq!(names(&bins[0]), vec!["a", "d"]);
    assert_eq!(names(&bins[1]), vec!["b"]);
    assert_eq!(names(&bins[2]), vec!["c"]);
}

#[test]
fn bins_without_files_and_files_without_bins() {
    let bins = distribute_files(vec![], 4);
    assert_eq!(bins.len(), 4);
    assert!(bins.iter().all(|b| b.is_empty()));
    let bins = distribute_files(vec![file("a", 1)], 0);
    assert_eq!(bins.len(), 0);
    let bins = distribute_files(vec![file("a", u64::MAX), file("b", u64::MAX), file("c", 1)], 1);
    assert_eq!(names(&bins[0]), vec!["a", "b", "c"]);
}

#[test]
fn sorting_by_size_is_stable() {
    let sorted = sort_by_size(vec![file("a", 1), file("b", 3), file("c", 1), file("d", 3), file("e", 2)]);
    assert_eq!(names(&sorted), vec!["b", "d", "e", "a", "c"]);
    assert_eq!(reversed(vec![1, 2, 3]), vec![3, 2, 1]);
    assert_eq!(reversed(Vec::<u8>::new()), Vec::<u8>::new());
}

#[test]
fn only_xml_files_are_read() {
    assert!(is_xml_extension("xml"));
    assert!(is_xml_extension("XML"));
    assert!(is_xml_extension("Xml"));
    assert!(!is_xml_extension("xmls"));
    assert!(!is_xml_extension("xm"));
    assert!(!is_xml_extension(""));
    assert!(!is_xml_extension("хml"));
}

#[test]
fn batches_are_handed_out_when_full() {
    let mut batcher: Batcher<u32> = Batcher::new(3);
    assert_eq!(batcher.push(1), None);
    assert_eq!(batcher.push(2), None);
    assert_eq!(batcher.push(3), Some(vec![1, 2, 3]));
    assert_eq!(batcher.push(4), None);
    assert_eq!(batcher.finish(), Some(vec![4]));
    let batcher: Batcher<u32> = Batcher::new(3);
    assert_eq!(batcher.finish(), None);
    let mut batcher: Batcher<u32> = Batcher::new(0);
    assert_eq!(batcher.push(1), Some(vec![1]));
    assert_eq!(batcher.finish(), None);
}

#[test]
fn processing_stats_count() {
    let mut stats = ProcessingStats::new();
    stats.record_success(10, 5, 1000);
    stats.record_success(1, 0, u64::MAX);
    stats.record_failure();
    assert_eq!(stats.files_processed, 2);
    assert_eq!(stats.files_failed, 1);
    assert_eq!(stats.parse_errors, 1);
    assert_eq!(stats.egrul_records, 11);
    assert_eq!(stats.egrip_records, 5);
    assert_eq!(stats.bytes_processed, u64::MAX);
    assert_eq!(stats.total_records(), 16);
}
