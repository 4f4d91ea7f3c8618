//! The writer of the two tables: it lays records out as rows, gathers the
//! rows of each registry in a stream of its own, and names the files that
//! the streams hand out.

use crate::models::egrip::EgripRecord;
use crate::models::egrip::EgripRecordView;
use crate::models::egrul::EgrulRecord;
use crate::models::egrul::EgrulRecordView;
use crate::output::rolling::file_name;
use crate::output::rolling::file_name_of;
use crate::output::rolling::next_index;
use crate::output::rolling::reached;
use crate::output::rolling::FileLimits;
use crate::output::rolling::RolledFile;
use crate::output::rolling::RollingStream;
use crate::output::rolling::EGRIP_BYTES_PER_RECORD;
use crate::output::rolling::EGRUL_BYTES_PER_RECORD;
use crate::output::rows::egrip_row;
use crate::output::rows::egrip_row_of;
use crate::output::rows::egrul_row;
use crate::output::rows::egrul_row_of;
use crate::output::rows::EgripRow;
use crate::output::rows::EgripRowView;
use crate::output::rows::EgrulRow;
use crate::output::rows::EgrulRowView;
use crate::output::rows::LeJson;
use crate::output::rows::LeJsonView;
use crate::output::rows::SpJson;
use crate::output::rows::SpJsonView;
use crate::parallel::reversed;
use crate::text::owned;
use vstd::prelude::*;

verus! {

/// The rows of one output file, with the file's name.
pub struct NamedFile<T> {
    pub name: String,
    /// Index of the file in its stream, counted from 0.
    pub index: usize,
    pub rows: Vec<T>,
}

impl LeJsonView {
    /// No list has a JSON form.
    pub open spec fn none() -> LeJsonView {
        LeJsonView { additional_activities: None, founders: None, history: None }
    }
}

impl SpJsonView {
    /// No list has a JSON form.
    pub open spec fn none() -> SpJsonView {
        SpJsonView { additional_activities: None, history: None }
    }
}

/// The rows that records of legal entities fill, each with the JSON forms
/// that stand at its place; a record for which none stand there has none.
pub open spec fn le_rows_of(records: Seq<EgrulRecordView>, jsons: Seq<LeJsonView>) -> Seq<
    EgrulRowView,
> {
    Seq::new(
        records.len(),
        |i: int|
            egrul_row_of(
                records[i],
                if i < jsons.len() {
                    jsons[i]
                } else {
                    LeJsonView::none()
                },
            ),
    )
}

/// The rows that records of sole proprietors fill, each with the JSON forms
/// that stand at its place; a record for which none stand there has none.
pub open spec fn sp_rows_of(records: Seq<EgripRecordView>, jsons: Seq<SpJsonView>) -> Seq<
    EgripRowView,
> {
    Seq::new(
        records.len(),
        |i: int|
            egrip_row_of(
                records[i],
                if i < jsons.len() {
                    jsons[i]
                } else {
                    SpJsonView::none()
                },
            ),
    )
}

/// Lays records of legal entities out as rows.
pub fn egrul_rows(records: &[EgrulRecord], jsons: Vec<LeJson>) -> (rows: Vec<EgrulRow>)
    ensures
        rows.deep_view() == le_rows_of(records.deep_view(), jsons.deep_view()),
{
    let ghost given = jsons.deep_view();
    let ghost goal = le_rows_of(records.deep_view(), given);
    let count = jsons.len();
    let mut pending = reversed(jsons);
    let mut rows: Vec<EgrulRow> = Vec::new();
    let mut i: usize = 0;
    while i < records.len()
        invariant
            i <= records.len(),
            count == given.len(),
            goal == le_rows_of(records.deep_view(), given),
            pending.len() == if i < count {
                count - i
            } else {
                0
            },
            forall|k: int|
                0 <= k < pending.len() ==> (#[trigger] pending[k]).deep_view() == given[count - 1
                    - k],
            rows.deep_view() == goal.take(i as int),
        decreases records.len() - i,
    {
        let json = match pending.pop() {
            Some(json) => json,
            None => LeJson { additional_activities: None, founders: None, history: None },
        };
        let row = egrul_row(&records[i], json);
        let ghost before = rows.deep_view();
        rows.push(row);
        proof {
            assert(records.deep_view()[i as int] == records[i as int].deep_view());
            assert(rows.deep_view() =~= before.push(row.deep_view()));
            assert(goal.take(i + 1) =~= goal.take(i as int).push(goal[i as int]));
        }
        i = i + 1;
    }
    assert(goal.take(i as int) =~= goal);
    rows
}

/// Lays records of sole proprietors out as rows.
pub fn egrip_rows(records: &[EgripRecord], jsons: Vec<SpJson>) -> (rows: Vec<EgripRow>)
    ensures
        rows.deep_view() == sp_rows_of(records.deep_view(), jsons.deep_view()),
{
    let ghost given = jsons.deep_view();
    let ghost goal = sp_rows_of(records.deep_view(), given);
    let count = jsons.len();
    let mut pending = reversed(jsons);
    let mut rows: Vec<EgripRow> = Vec::new();
    let mut i: usize = 0;
    while i < records.len()
        invariant
            i <= records.len(),
            count == given.len(),
            goal == sp_rows_of(records.deep_view(), given),
            pending.len() == if i < count {
                count - i
            } else {
                0
            },
            forall|k: int|
                0 <= k < pending.len() ==> (#[trigger] pending[k]).deep_view() == given[count - 1
                    - k],
            rows.deep_view() == goal.take(i as int),
        decreases records.len() - i,
    {
        let json = match pending.pop() {
            Some(json) => json,
            None => SpJson { additional_activities: None, history: None },
        };
        let row = egrip_row(&records[i], json);
        let ghost before = rows.deep_view();
        rows.push(row);
        proof {
            assert(records.deep_view()[i as int] == records[i as int].deep_view());
            assert(rows.deep_view() =~= before.push(row.deep_view()));
            assert(goal.take(i + 1) =~= goal.take(i as int).push(goal[i as int]));
        }
        i = i + 1;
    }
    assert(goal.take(i as int) =~= goal);
    rows
}

/// Gathers the rows of both registries and hands them out as named
/// files. Each registry has a stream of its own, with its own rows and its
/// own count of files.
pub struct ParquetOutputWriter {
    stem: String,
    egrul: RollingStream<EgrulRow>,
    egrip: RollingStream<EgripRow>,
}

/// What rows of either kind hold.
pub open spec fn views_of<T: DeepView>(rows: Seq<T>) -> Seq<T::V> {
    rows.map_values(|r: T| r.deep_view())
}

impl ParquetOutputWriter {
    /// The stem of the files' names.
    pub closed spec fn stem(&self) -> Seq<char> {
        self.stem@
    }

    /// The ceilings of a file of legal entities.
    pub closed spec fn le_limits(&self) -> FileLimits {
        self.egrul.limits()
    }

    /// The ceilings of a file of sole proprietors.
    pub closed spec fn sp_limits(&self) -> FileLimits {
        self.egrip.limits()
    }

    /// The size that a record of a legal entity is expected to take.
    pub closed spec fn le_record_size(&self) -> usize {
        self.egrul.record_size()
    }

    /// The size that a record of a sole proprietor is expected to take.
    pub closed spec fn sp_record_size(&self) -> usize {
        self.egrip.record_size()
    }

    /// What stays as it is while the writer takes in records: the stem,
    /// the ceilings and the sizes.
    pub open spec fn same_setup(&self, other: &Self) -> bool {
        &&& self.stem() == other.stem()
        &&& self.le_limits() == other.le_limits()
        &&& self.sp_limits() == other.sp_limits()
        &&& self.le_record_size() == other.le_record_size()
        &&& self.sp_record_size() == other.sp_record_size()
    }

    /// A writer that has taken in nothing, with the given stem and
    /// ceilings and the sizes of the two registries' records.
    pub open spec fn is_fresh(&self, stem: Seq<char>, limits: FileLimits) -> bool {
        &&& self.stem() == stem
        &&& self.le_limits() == limits
        &&& self.sp_limits() == limits
        &&& self.le_record_size() == EGRUL_BYTES_PER_RECORD
        &&& self.sp_record_size() == EGRIP_BYTES_PER_RECORD
        &&& self.le_rows().len() == 0
        &&& self.sp_rows().len() == 0
        &&& self.le_index() == 0
        &&& self.sp_index() == 0
    }

    /// The rows gathered for the next file of legal entities.
    pub closed spec fn le_rows(&self) -> Seq<EgrulRowView> {
        views_of(self.egrul.rows())
    }

    /// The index of the next file of legal entities.
    pub closed spec fn le_index(&self) -> usize {
        self.egrul.index()
    }

    /// The rows gathered for the next file of sole proprietors.
    pub closed spec fn sp_rows(&self) -> Seq<EgripRowView> {
        views_of(self.egrip.rows())
    }

    /// The index of the next file of sole proprietors.
    pub closed spec fn sp_index(&self) -> usize {
        self.egrip.index()
    }

    /// A writer without ceilings: every registry gets one file.
    pub fn new(stem: &str) -> (r: Self)
        ensures
            r.is_fresh(stem@, (FileLimits { max_file_size_mb: None, max_records_per_file: None })),
    {
        Self::with_limits(stem, None, None)
    }

    /// A writer with the given ceilings.
    pub fn with_limits(
        stem: &str,
        max_file_size_mb: Option<usize>,
        max_records_per_file: Option<usize>,
    ) -> (r: Self)
        ensures
            r.is_fresh(stem@, (FileLimits { max_file_size_mb, max_records_per_file })),
    {
        let limits = FileLimits { max_file_size_mb, max_records_per_file };
        ParquetOutputWriter {
            stem: owned(stem),
            egrul: RollingStream::new(limits, EGRUL_BYTES_PER_RECORD),
            egrip: RollingStream::new(limits, EGRIP_BYTES_PER_RECORD),
        }
    }

    /// Takes in a batch of legal entities. Where the batch is not empty and
    /// brings the file to a ceiling, all gathered rows are handed out as
    /// the stream's next file.
    pub fn write_egrul_batch(&mut self, records: &[EgrulRecord], jsons: Vec<LeJson>) -> (file:
        Option<NamedFile<EgrulRow>>)
        ensures
            final(self).same_setup(old(self)),
            final(self).sp_rows() == old(self).sp_rows(),
            final(self).sp_index() == old(self).sp_index(),
            ({
                let all = old(self).le_rows() + le_rows_of(records.deep_view(), jsons.deep_view());
                if records.len() > 0 && reached(
                    old(self).le_limits(),
                    all.len(),
                    old(self).le_record_size() as nat,
                ) {
                    &&& file is Some
                    &&& file->0.name@ == file_name_of(
                        old(self).stem(),
                        "le"@,
                        old(self).le_index() as nat,
                    )
                    &&& file->0.index == old(self).le_index()
                    &&& file->0.rows.deep_view() == all
                    &&& final(self).le_rows().len() == 0
                    &&& final(self).le_index() == next_index(old(self).le_index())
                } else {
                    &&& file is None
                    &&& final(self).le_rows() == all
                    &&& final(self).le_index() == old(self).le_index()
                }
            }),
    {
        let rows = egrul_rows(records, jsons);
        let ghost added = rows@;
        let ghost before = self.egrul.rows();
        assert(views_of(before + added) =~= views_of(before) + rows.deep_view());
        match self.egrul.append(rows) {
            Some(rolled) => {
                assert(rolled.rows.deep_view() =~= views_of(rolled.rows@));
                Some(Self::named(self.stem.as_str(), "le", rolled))
            },
            None => None,
        }
    }

    /// Takes in a batch of sole proprietors. Where the batch is not empty
    /// and brings the file to a ceiling, all gathered rows are handed out
    /// as the stream's next file.
    pub fn write_egrip_batch(&mut self, records: &[EgripRecord], jsons: Vec<SpJson>) -> (file:
        Option<NamedFile<EgripRow>>)
        ensures
            final(self).same_setup(old(self)),
            final(self).le_rows() == old(self).le_rows(),
            final(self).le_index() == old(self).le_index(),
            ({
                let all = old(self).sp_rows() + sp_rows_of(records.deep_view(), jsons.deep_view());
                if records.len() > 0 && reached(
                    old(self).sp_limits(),
                    all.len(),
                    old(self).sp_record_size() as nat,
                ) {
                    &&& file is Some
                    &&& file->0.name@ == file_name_of(
                        old(self).stem(),
                        "sp"@,
                        old(self).sp_index() as nat,
                    )
                    &&& file->0.index == old(self).sp_index()
                    &&& file->0.rows.deep_view() == all
                    &&& final(self).sp_rows().len() == 0
                    &&& final(self).sp_index() == next_index(old(self).sp_index())
                } else {
                    &&& file is None
                    &&& final(self).sp_rows() == all
                    &&& final(self).sp_index() == old(self).sp_index()
                }
            }),
    {
        let rows = egrip_rows(records, jsons);
        let ghost added = rows@;
        let ghost before = self.egrip.rows();
        assert(views_of(before + added) =~= views_of(before) + rows.deep_view());
        match self.egrip.append(rows) {
            Some(rolled) => {
                assert(rolled.rows.deep_view() =~= views_of(rolled.rows@));
                Some(Self::named(self.stem.as_str(), "sp", rolled))
            },
            None => None,
        }
    }

    /// Gives a file its name.
    fn named<T>(stem: &str, label: &str, rolled: RolledFile<T>) -> (file: NamedFile<T>)
        ensures
            file.name@ == file_name_of(stem@, label@, rolled.index as nat),
            file.index == rolled.index,
            file.rows == rolled.rows,
    {
        NamedFile { name: file_name(stem, label, rolled.index), index: rolled.index, rows: rolled.rows }
    }

    /// Ends both streams: the rows that are still gathered are handed out
    /// as the last file of each registry, legal entities first.
    pub fn finish(self) -> (files: (Option<NamedFile<EgrulRow>>, Option<NamedFile<EgripRow>>))
        ensures
            self.le_rows().len() > 0 ==> files.0 is Some && files.0->0.name@ == file_name_of(
                self.stem(),
                "le"@,
                self.le_index() as nat,
            ) && files.0->0.rows.deep_view() == self.le_rows(),
            self.le_rows().len() == 0 ==> files.0 is None,
            self.sp_rows().len() > 0 ==> files.1 is Some && files.1->0.name@ == file_name_of(
                self.stem(),
                "sp"@,
                self.sp_index() as nat,
            ) && files.1->0.rows.deep_view() == self.sp_rows(),
            self.sp_rows().len() == 0 ==> files.1 is None,
    {
        let ParquetOutputWriter { stem, egrul, egrip } = self;
        let le = match egrul.finish() {
            Some(rolled) => {
                assert(rolled.rows.deep_view() =~= views_of(rolled.rows@));
                Some(Self::named(stem.as_str(), "le", rolled))
            },
            None => None,
        };
        let sp = match egrip.finish() {
            Some(rolled) => {
                assert(rolled.rows.deep_view() =~= views_of(rolled.rows@));
                Some(Self::named(stem.as_str(), "sp", rolled))
            },
            None => None,
        };
        (le, sp)
    }
}

} // verus!
