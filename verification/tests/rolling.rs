use egrul_parser::output::rolling::{
    file_name, FileLimits, RollingStream, EGRIP_BYTES_PER_RECORD, EGRUL_BYTES_PER_RECORD,
};

#[test]
fn file_rolling() {
    let limits = FileLimits { max_file_size_mb: None, max_records_per_file: Some(100_000) };
    let mut stream: RollingStream<u32> = RollingStream::new(limits, EGRUL_BYTES_PER_RECORD);
    let mut files = Vec::new();
    let mut next_row = 0u32;
    for _ in 0..50 {
        let batch: Vec<u32> = (next_row..next_row + 5000).collect();
        next_row += 5000;
        if let Some(file) = stream.append(batch) {
            files.push(file);
        }
    }
    if let Some(file) = stream.finish() {
        files.push(file);
    }
    let names: Vec<String> = files.iter().map(|f| file_name("out", "le", f.index)).collect();
    assert_eq!(names, vec!["out_le.parquet", "out_le_part_002.parquet", "out_le_part_003.parquet"]);
    let rows: Vec<usize> = files.iter().map(|f| f.rows.len()).collect();
    assert_eq!(rows, vec![100_000, 100_000, 50_000]);
    let all: Vec<u32> = files.into_iter().flat_map(|f| f.rows).collect();
    assert_eq!(all, (0..250_000).collect::<Vec<u32>>());
}

#[test]
fn file_names() {
    assert_eq!(file_name("egrul", "le", 0), "egrul_le.parquet");
    assert_eq!(file_name("egrul", "sp", 1), "egrul_sp_part_002.parquet");
    assert_eq!(file_name("", "sp", 8), "_sp_part_009.parquet");
    assert_eq!(file_name("x", "le", 9), "x_le_part_010.parquet");
    assert_eq!(file_name("x", "le", 98), "x_le_part_099.parquet");
    assert_eq!(file_name("x", "le", 99), "x_le_part_100.parquet");
    assert_eq!(file_name("x", "le", 1233), "x_le_part_1234.parquet");
    assert_eq!(file_name("x", "le", usize::MAX), format!("x_le_part_{}.parquet", usize::MAX as u128 + 1));
}

#[test]
fn without_ceilings_everything_goes_to_one_file() {
    let limits = FileLimits { max_file_size_mb: None, max_records_per_file: None };
    let mut stream: RollingStream<u8> = RollingStream::new(limits, EGRIP_BYTES_PER_RECORD);
    assert!(stream.append(vec![1, 2, 3]).is_none());
    assert!(stream.append(vec![]).is_none());
    assert!(stream.append(vec![4]).is_none());
    assert_eq!(stream.buffered(), 4);
    assert!(!stream.should_flush());
    let file = stream.finish().unwrap();
    assert_eq!(file.index, 0);
    assert_eq!(file.rows, vec![1, 2, 3, 4]);
}

#[test]
fn no_rows_no_file() {
    let limits = FileLimits { max_file_size_mb: Some(1), max_records_per_file: Some(1) };
    let mut stream: RollingStream<u8> = RollingStream::new(limits, EGRUL_BYTES_PER_RECORD);
    assert!(stream.append(vec![]).is_none());
    assert!(stream.finish().is_none());
}

#[test]
fn the_size_ceiling_goes_by_the_estimate() {
    // 18 KiB a record: 57 records are 1 026 000 bytes, 56 records stay under a mebibyte
    let limits = FileLimits { max_file_size_mb: Some(1), max_records_per_file: None };
    let mut stream: RollingStream<u8> = RollingStream::new(limits, EGRUL_BYTES_PER_RECORD);
    assert!(stream.append(vec![0; 56]).is_none());
    assert_eq!(stream.estimate_size_mb(), 0);
    let file = stream.append(vec![0; 1]).unwrap();
    assert_eq!(file.rows.len(), 57);
    assert_eq!(file.index, 0);
    // 8 KiB a record: 128 records are exactly a mebibyte
    let mut stream: RollingStream<u8> = RollingStream::new(limits, EGRIP_BYTES_PER_RECORD);
    assert!(stream.append(vec![0; 127]).is_none());
    let file = stream.append(vec![0; 1]).unwrap();
    assert_eq!(file.rows.len(), 128);
    let file = stream.append(vec![0; 300]).unwrap();
    assert_eq!(file.rows.len(), 300);
    assert_eq!(file.index, 1);
}

#[test]
fn a_batch_is_never_split() {
    let limits = FileLimits { max_file_size_mb: None, max_records_per_file: Some(3) };
    let mut stream: RollingStream<u8> = RollingStream::new(limits, EGRUL_BYTES_PER_RECORD);
    assert!(stream.append(vec![1, 2]).is_none());
    let file = stream.append(vec![3, 4]).unwrap();
    assert_eq!(file.rows, vec![1, 2, 3, 4]);
    assert!(stream.append(vec![5]).is_none());
    let file = stream.finish().unwrap();
    assert_eq!(file.index, 1);
    assert_eq!(file.rows, vec![5]);
}

#[test]
fn a_shorter_last_batch_still_gives_the_rounded_up_count() {
    let limits = FileLimits { max_file_size_mb: None, max_records_per_file: Some(10) };
    let mut stream: RollingStream<u32> = RollingStream::new(limits, EGRUL_BYTES_PER_RECORD);
    let mut files = Vec::new();
    for batch in [vec![0, 1, 2, 3, 4], vec![5, 6, 7, 8, 9], vec![10, 11, 12, 13, 14], vec![15, 16]] {
        if let Some(file) = stream.append(batch) {
            files.push(file);
        }
    }
    if let Some(file) = stream.finish() {
        files.push(file);
    }
    let rows: Vec<usize> = files.iter().map(|f| f.rows.len()).collect();
    assert_eq!(rows, vec![10, 7]);
    let all: Vec<u32> = files.into_iter().flat_map(|f| f.rows).collect();
    assert_eq!(all, (0..17).collect::<Vec<u32>>());
}
