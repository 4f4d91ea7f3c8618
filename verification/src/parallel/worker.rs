//! What one worker does and counts.

use crate::models::RegistryRecord;
use crate::models::RegistryRecordView;
use std::path::PathBuf;
use vstd::prelude::*;

verus! {

/// What a worker is doing.
#[derive(Debug, Clone, Copy, PartialEq, Eq, Structural)]
pub enum WorkerStatus {
    Idle,
    Processing,
    Finished,
    Error,
}

/// A file for a worker to read.
#[derive(Debug)]
pub struct WorkerTask {
    pub file_path: PathBuf,
    pub file_size: u64,
}

/// What to do after a file has failed.
#[derive(Debug, Clone, Copy, PartialEq, Eq, Structural)]
pub enum AfterFailure {
    /// Go on with the next file.
    Skip,
    /// End the run with the file's error.
    Abort,
}

/// What the policy says to do after a file has failed.
pub fn after_failure(continue_on_error: bool) -> (r: AfterFailure)
    ensures
        r == if continue_on_error {
            AfterFailure::Skip
        } else {
            AfterFailure::Abort
        },
{
    if continue_on_error {
        AfterFailure::Skip
    } else {
        AfterFailure::Abort
    }
}

/// The sum of two counts, or the largest count where the sum would not fit.
pub open spec fn capped_sum(a: usize, b: usize) -> usize {
    if a + b <= usize::MAX {
        (a + b) as usize
    } else {
        usize::MAX
    }
}

/// Adds two counts without overflow.
pub fn add_capped(a: usize, b: usize) -> (r: usize)
    ensures
        r == capped_sum(a, b),
{
    if a <= usize::MAX - b {
        a + b
    } else {
        usize::MAX
    }
}

/// How many of the records belong to legal entities.
pub open spec fn count_le(records: Seq<RegistryRecordView>) -> nat
    decreases records.len(),
{
    if records.len() == 0 {
        0
    } else {
        count_le(records.drop_last()) + if records.last() is Egrul {
            1nat
        } else {
            0nat
        }
    }
}

/// Counts the records of each registry: legal entities first.
pub fn count_by_registry(records: &[RegistryRecord]) -> (r: (usize, usize))
    ensures
        r.0 == count_le(records.deep_view()),
        r.0 + r.1 == records.len(),
{
    let mut egrul: usize = 0;
    let mut egrip: usize = 0;
    let mut i: usize = 0;
    let ghost all = records.deep_view();
    while i < records.len()
        invariant
            i <= records.len(),
            all == records.deep_view(),
            egrul + egrip == i,
            egrul == count_le(all.take(i as int)),
        decreases records.len() - i,
    {
        proof {
            assert(all.take(i + 1).drop_last() =~= all.take(i as int));
            assert(all.take(i + 1).last() == records[i as int].deep_view());
        }
        match &records[i] {
            RegistryRecord::Egrul(_) => {
                egrul = egrul + 1;
            },
            RegistryRecord::Egrip(_) => {
                egrip = egrip + 1;
            },
        }
        i = i + 1;
    }
    assert(all.take(i as int) =~= all);
    (egrul, egrip)
}

/// The counts of one worker.
#[derive(Debug)]
pub struct WorkerStats {
    pub files_processed: usize,
    pub files_failed: usize,
    pub egrul_records: usize,
    pub egrip_records: usize,
    /// The file that is being read, if any.
    pub current_file: Option<PathBuf>,
}

impl WorkerStats {
    /// Counts that all stand at zero.
    pub fn new() -> (r: Self)
        ensures
            r.files_processed == 0,
            r.files_failed == 0,
            r.egrul_records == 0,
            r.egrip_records == 0,
            r.current_file is None,
    {
        WorkerStats {
            files_processed: 0,
            files_failed: 0,
            egrul_records: 0,
            egrip_records: 0,
            current_file: None,
        }
    }

    /// The records of both registries together.
    pub fn total_records(&self) -> (r: usize)
        ensures
            r == capped_sum(self.egrul_records, self.egrip_records),
    {
        add_capped(self.egrul_records, self.egrip_records)
    }

    /// Notes the file that is being read.
    pub fn set_current_file(&mut self, path: Option<PathBuf>)
        ensures
            final(self).current_file == path,
            final(self).files_processed == old(self).files_processed,
            final(self).files_failed == old(self).files_failed,
            final(self).egrul_records == old(self).egrul_records,
            final(self).egrip_records == old(self).egrip_records,
    {
        self.current_file = path;
    }

    /// The file that is being read.
    pub fn get_current_file(&self) -> (r: &Option<PathBuf>)
        ensures
            *r == self.current_file,
    {
        &self.current_file
    }

    /// Counts a file that was read, with the records it gave.
    pub fn record_success(&mut self, records: &[RegistryRecord])
        ensures
            final(self).files_processed == capped_sum(old(self).files_processed, 1),
            final(self).files_failed == old(self).files_failed,
            final(self).egrul_records == capped_sum(
                old(self).egrul_records,
                count_le(records.deep_view()) as usize,
            ),
            final(self).egrip_records == capped_sum(
                old(self).egrip_records,
                (records.len() - count_le(records.deep_view())) as usize,
            ),
            final(self).current_file == old(self).current_file,
    {
        let (egrul, egrip) = count_by_registry(records);
        self.egrul_records = add_capped(self.egrul_records, egrul);
        self.egrip_records = add_capped(self.egrip_records, egrip);
        self.files_processed = add_capped(self.files_processed, 1);
    }

    /// Counts a file that failed.
    pub fn record_failure(&mut self)
        ensures
            final(self).files_failed == capped_sum(old(self).files_failed, 1),
            final(self).files_processed == old(self).files_processed,
            final(self).egrul_records == old(self).egrul_records,
            final(self).egrip_records == old(self).egrip_records,
            final(self).current_file == old(self).current_file,
    {
        self.files_failed = add_capped(self.files_failed, 1);
    }
}

impl Default for WorkerStats {
    fn default() -> (r: Self)
        ensures
            r.files_processed == 0,
            r.files_failed == 0,
            r.egrul_records == 0,
            r.egrip_records == 0,
            r.current_file is None,
    {
        WorkerStats::new()
    }
}

} // verus!
