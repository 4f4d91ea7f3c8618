//! Sharing the work out: which files are read, by which worker, and in what
//! batches their records reach a writer.

pub mod batch;
pub mod worker;

pub use worker::WorkerStats;
pub use worker::WorkerStatus;
pub use worker::WorkerTask;

use crate::parser::xml_reader::ascii_lower;
use std::path::PathBuf;
use vstd::multiset::Multiset;
use vstd::prelude::*;
use vstd::seq_lib::lemma_flatten_concat;
use vstd::seq_lib::lemma_multiset_commutative;
use vstd::seq_lib::to_multiset_build;
use vstd::utf8::encode_utf8;

verus! {

/// A path of the file system. It is carried along and never looked into.
#[verifier::external_type_specification]
#[verifier::external_body]
pub struct ExPathBuf(PathBuf);

/// `PathBuf::clone`: the copy is the same path.
pub assume_specification[ <PathBuf as Clone>::clone ](path: &PathBuf) -> (copy: PathBuf)
    ensures
        copy == *path,
;

/// A file to read, with its size in bytes.
#[derive(Debug, Clone)]
pub struct FileInfo {
    pub path: PathBuf,
    pub size: u64,
}

/// Whether a file extension is `xml`, in whatever case.
pub open spec fn is_xml(extension: Seq<u8>) -> bool {
    extension.len() == 3 && ascii_lower(extension[0]) == 0x78 && ascii_lower(extension[1]) == 0x6D
        && ascii_lower(extension[2]) == 0x6C
}

/// Whether a file with the given extension is read: the extension must be
/// `xml`, in whatever case.
pub fn is_xml_extension(extension: &str) -> (r: bool)
    ensures
        r == is_xml(encode_utf8(extension@)),
{
    let bytes = extension.as_bytes();
    bytes.len() == 3 && (bytes[0] == 0x78 || bytes[0] == 0x58) && (bytes[1] == 0x6D || bytes[1]
        == 0x4D) && (bytes[2] == 0x6C || bytes[2] == 0x4C)
}

/// The elements of a vector in reverse order.
pub fn reversed<T>(v: Vec<T>) -> (r: Vec<T>)
    ensures
        r@ == v@.reverse(),
{
    let mut v = v;
    let ghost all = v@;
    let mut r: Vec<T> = Vec::new();
    while v.len() > 0
        invariant
            v.len() + r.len() == all.len(),
            v@ == all.take(v.len() as int),
            forall|i: int| 0 <= i < r.len() ==> #[trigger] r[i] == all[all.len() - 1 - i],
        decreases v.len(),
    {
        let ghost before = v@;
        match v.pop() {
            Some(x) => {
                assert(v@ =~= before.drop_last());
                r.push(x);
            },
            None => {},
        }
    }
    assert(r@ =~= all.reverse());
    r
}

/// The files with one more, in descending order of size: the new file
/// stands behind every file that is at least as large.
pub open spec fn inserted(sorted: Seq<FileInfo>, file: FileInfo) -> Seq<FileInfo>
    decreases sorted.len(),
{
    if sorted.len() == 0 {
        seq![file]
    } else if sorted[0].size >= file.size {
        seq![sorted[0]] + inserted(sorted.skip(1), file)
    } else {
        seq![file] + sorted
    }
}

/// The files in descending order of size; files of one size keep their
/// order.
pub open spec fn by_size(files: Seq<FileInfo>) -> Seq<FileInfo>
    decreases files.len(),
{
    if files.len() == 0 {
        Seq::empty()
    } else {
        inserted(by_size(files.drop_last()), files.last())
    }
}

/// The sum of the sizes of the files in a bin.
pub open spec fn load(bin: Seq<FileInfo>) -> int
    decreases bin.len(),
{
    if bin.len() == 0 {
        0
    } else {
        load(bin.drop_last()) + bin.last().size
    }
}

/// The index of the lightest of the first `n` bins; among bins of one
/// load, the first.
pub open spec fn lightest(bins: Seq<Seq<FileInfo>>, n: int) -> int
    decreases n,
{
    if n <= 1 {
        0
    } else {
        let best = lightest(bins, n - 1);
        if load(bins[n - 1]) < load(bins[best]) {
            n - 1
        } else {
            best
        }
    }
}

/// The bins after the files were placed one after another, each into the
/// bin that was the lightest at the time.
pub open spec fn placed(bins: Seq<Seq<FileInfo>>, files: Seq<FileInfo>) -> Seq<Seq<FileInfo>>
    decreases files.len(),
{
    if files.len() == 0 || bins.len() == 0 {
        bins
    } else {
        let i = lightest(bins, bins.len() as int);
        placed(bins.update(i, bins[i].push(files[0])), files.skip(1))
    }
}

/// The files shared out among `workers` bins: the largest file first, each
/// file into the bin that is the lightest at the time.
pub open spec fn distributed(files: Seq<FileInfo>, workers: nat) -> Seq<Seq<FileInfo>> {
    placed(Seq::new(workers, |i: int| Seq::<FileInfo>::empty()), by_size(files))
}

/// What the bins hold.
pub open spec fn bins_of(bins: Seq<Vec<FileInfo>>) -> Seq<Seq<FileInfo>> {
    bins.map_values(|b: Vec<FileInfo>| b@)
}

/// A file is inserted at the first place where a smaller file stands.
proof fn lemma_inserted_at(sorted: Seq<FileInfo>, file: FileInfo, at: int)
    requires
        0 <= at <= sorted.len(),
        forall|i: int| 0 <= i < at ==> (#[trigger] sorted[i]).size >= file.size,
        at == sorted.len() || sorted[at].size < file.size,
    ensures
        inserted(sorted, file) == sorted.insert(at, file),
    decreases at,
{
    if at == 0 {
        if sorted.len() == 0 {
            assert(sorted.insert(0, file) =~= seq![file]);
        } else {
            assert(sorted.insert(0, file) =~= seq![file] + sorted);
        }
    } else {
        let rest = sorted.skip(1);
        assert forall|i: int| 0 <= i < at - 1 implies (#[trigger] rest[i]).size >= file.size by {
            assert(rest[i] == sorted[i + 1]);
        }
        lemma_inserted_at(rest, file, at - 1);
        assert(sorted[0].size >= file.size);
        assert(seq![sorted[0]] + rest.insert(at - 1, file) =~= sorted.insert(at, file));
    }
}

/// Sorts the files by size, the largest first; files of one size keep
/// their order.
pub fn sort_by_size(files: Vec<FileInfo>) -> (sorted: Vec<FileInfo>)
    ensures
        sorted@ == by_size(files@),
{
    let ghost all = files@;
    let mut pending = reversed(files);
    let mut sorted: Vec<FileInfo> = Vec::new();
    let ghost mut taken: int = 0;
    assert(all.take(0) =~= Seq::<FileInfo>::empty());
    while pending.len() > 0
        invariant
            0 <= taken <= all.len(),
            pending.len() == all.len() - taken,
            forall|i: int| 0 <= i < pending.len() ==> #[trigger] pending[i] == all[all.len() - 1 - i],
            sorted@ == by_size(all.take(taken)),
        decreases pending.len(),
    {
        match pending.pop() {
            Some(file) => {
                assert(file == all[taken]);
                let mut at: usize = 0;
                while at < sorted.len() && sorted[at].size >= file.size
                    invariant
                        at <= sorted.len(),
                        forall|i: int| 0 <= i < at ==> (#[trigger] sorted[i]).size >= file.size,
                    decreases sorted.len() - at,
                {
                    at = at + 1;
                }
                proof {
                    lemma_inserted_at(sorted@, file, at as int);
                    assert(all.take(taken + 1).drop_last() =~= all.take(taken));
                    assert(all.take(taken + 1).last() == file);
                    taken = taken + 1;
                }
                sorted.insert(at, file);
            },
            None => {},
        }
    }
    assert(all.take(taken) =~= all);
    sorted
}

/// The index of the lightest bin, going by the loads.
fn find_lightest(loads: &Vec<u128>, Ghost(bins): Ghost<Seq<Seq<FileInfo>>>) -> (best: usize)
    requires
        loads.len() > 0,
        loads.len() == bins.len(),
        forall|i: int| 0 <= i < loads.len() ==> #[trigger] loads[i] as int == load(bins[i]),
    ensures
        best < loads.len(),
        best == lightest(bins, bins.len() as int),
{
    let mut best: usize = 0;
    let mut n: usize = 1;
    while n < loads.len()
        invariant
            1 <= n <= loads.len(),
            loads.len() == bins.len(),
            best < n,
            best == lightest(bins, n as int),
            forall|i: int| 0 <= i < loads.len() ==> #[trigger] loads[i] as int == load(bins[i]),
        decreases loads.len() - n,
    {
        if loads[n] < loads[best] {
            best = n;
        }
        n = n + 1;
    }
    best
}

/// Shares the files out among the workers by size: the files are taken
/// from the largest to the smallest, and each goes to the worker that has
/// the least to read so far. Without workers there is no bin, and nothing
/// is placed.
pub fn distribute_files(files: Vec<FileInfo>, num_workers: usize) -> (bins: Vec<Vec<FileInfo>>)
    ensures
        bins.len() == num_workers,
        bins_of(bins@) == distributed(files@, num_workers as nat),
{
    let sorted = sort_by_size(files);
    let ghost order = sorted@;
    assert(order.len() == sorted.len());
    let mut bins: Vec<Vec<FileInfo>> = Vec::new();
    let mut loads: Vec<u128> = Vec::new();
    while bins.len() < num_workers
        invariant
            bins.len() <= num_workers,
            loads.len() == bins.len(),
            forall|i: int| 0 <= i < bins.len() ==> (#[trigger] bins[i])@ == Seq::<FileInfo>::empty(),
            forall|i: int| 0 <= i < loads.len() ==> #[trigger] loads[i] == 0,
        decreases num_workers - bins.len(),
    {
        bins.push(Vec::new());
        loads.push(0);
    }
    assert(bins_of(bins@) =~= Seq::new(num_workers as nat, |i: int| Seq::<FileInfo>::empty()));
    if num_workers == 0 {
        return bins;
    }
    let mut pending = reversed(sorted);
    let ghost mut taken: int = 0;
    assert(order.skip(0) =~= order);
    while pending.len() > 0
        invariant
            num_workers > 0,
            bins.len() == num_workers,
            loads.len() == num_workers,
            0 <= taken <= order.len(),
            order.len() <= usize::MAX,
            pending.len() == order.len() - taken,
            forall|i: int|
                0 <= i < pending.len() ==> #[trigger] pending[i] == order[order.len() - 1 - i],
            forall|i: int|
                0 <= i < loads.len() ==> #[trigger] loads[i] as int == load(bins_of(bins@)[i]),
            forall|i: int| 0 <= i < loads.len() ==> #[trigger] loads[i] <= taken * 0xFFFF_FFFF_FFFF_FFFF,
            distributed(files@, num_workers as nat) == placed(bins_of(bins@), order.skip(taken)),
        decreases pending.len(),
    {
        let ghost before = bins_of(bins@);
        let ghost rest = order.skip(taken);
        match pending.pop() {
            Some(file) => {
                assert(file == rest[0]);
                let best = find_lightest(&loads, Ghost(before));
                assert(taken < 0xFFFF_FFFF_FFFF_FFFF);
                assert(loads[best as int] + file.size <= (taken + 1) * 0xFFFF_FFFF_FFFF_FFFF)
                    by (nonlinear_arith)
                    requires
                        loads[best as int] <= taken * 0xFFFF_FFFF_FFFF_FFFF,
                        file.size <= 0xFFFF_FFFF_FFFF_FFFF,
                ;
                assert((taken + 1) * 0xFFFF_FFFF_FFFF_FFFF <= u128::MAX) by (nonlinear_arith)
                    requires
                        0 <= taken < 0xFFFF_FFFF_FFFF_FFFF,
                ;
                let heavier = loads[best] + file.size as u128;
                loads.set(best, heavier);
                let mut bin = bins.remove(best);
                let ghost lighter = bin@;
                bin.push(file);
                bins.insert(best, bin);
                proof {
                    assert(bins_of(bins@) =~= before.update(best as int, lighter.push(file)));
                    assert(lighter.push(file).drop_last() =~= lighter);
                    assert(rest.skip(1) =~= order.skip(taken + 1));
                    assert forall|i: int| 0 <= i < loads.len() implies #[trigger] loads[i]
                        <= (taken + 1) * 0xFFFF_FFFF_FFFF_FFFF by {
                        assert(taken * 0xFFFF_FFFF_FFFF_FFFF <= (taken + 1)
                            * 0xFFFF_FFFF_FFFF_FFFF) by (nonlinear_arith);
                    }
                    taken = taken + 1;
                }
            },
            None => {},
        }
    }
    assert(order.skip(taken).len() == 0);
    bins
}

/// The lightest of the first `n` bins is one of them.
pub proof fn lemma_lightest_is_a_bin(bins: Seq<Seq<FileInfo>>, n: int)
    requires
        n >= 1,
    ensures
        0 <= lightest(bins, n) < n,
    decreases n,
{
    if n > 1 {
        lemma_lightest_is_a_bin(bins, n - 1);
    }
}

/// Sharing out keeps the number of bins.
pub proof fn lemma_placed_keeps_bins(bins: Seq<Seq<FileInfo>>, files: Seq<FileInfo>)
    ensures
        placed(bins, files).len() == bins.len(),
    decreases files.len(),
{
    if files.len() > 0 && bins.len() > 0 {
        let i = lightest(bins, bins.len() as int);
        lemma_lightest_is_a_bin(bins, bins.len() as int);
        lemma_placed_keeps_bins(bins.update(i, bins[i].push(files[0])), files.skip(1));
    }
}

/// Inserting a file adds just that file.
proof fn lemma_inserted_adds_one(sorted: Seq<FileInfo>, file: FileInfo)
    ensures
        inserted(sorted, file).to_multiset() == sorted.to_multiset().insert(file),
    decreases sorted.len(),
{
    to_multiset_build(Seq::<FileInfo>::empty(), file);
    assert(Seq::<FileInfo>::empty().push(file) =~= seq![file]);
    assert(Seq::<FileInfo>::empty().to_multiset() =~= Multiset::<FileInfo>::empty()) by {
        Seq::<FileInfo>::empty().to_multiset_ensures();
    }
    if sorted.len() == 0 {
        assert(sorted =~= Seq::<FileInfo>::empty());
    } else if sorted[0].size >= file.size {
        let rest = sorted.skip(1);
        lemma_inserted_adds_one(rest, file);
        to_multiset_build(Seq::<FileInfo>::empty(), sorted[0]);
        assert(Seq::<FileInfo>::empty().push(sorted[0]) =~= seq![sorted[0]]);
        lemma_multiset_commutative(seq![sorted[0]], inserted(rest, file));
        lemma_multiset_commutative(seq![sorted[0]], rest);
        assert(seq![sorted[0]] + rest =~= sorted);
        assert(seq![sorted[0]].to_multiset().add(rest.to_multiset().insert(file)) =~= seq![
            sorted[0],
        ].to_multiset().add(rest.to_multiset()).insert(file));
    } else {
        lemma_multiset_commutative(seq![file], sorted);
        assert(seq![file].to_multiset().add(sorted.to_multiset()) =~= sorted.to_multiset().insert(
            file,
        ));
    }
}

/// Sorting neither loses nor adds a file.
pub proof fn lemma_by_size_keeps_files(files: Seq<FileInfo>)
    ensures
        by_size(files).to_multiset() == files.to_multiset(),
    decreases files.len(),
{
    if files.len() == 0 {
        assert(files =~= Seq::<FileInfo>::empty());
    } else {
        lemma_by_size_keeps_files(files.drop_last());
        lemma_inserted_adds_one(by_size(files.drop_last()), files.last());
        to_multiset_build(files.drop_last(), files.last());
        assert(files.drop_last().push(files.last()) =~= files);
    }
}

/// A file that is put into a bin is added to what the bins hold together.
proof fn lemma_put_adds_one(bins: Seq<Seq<FileInfo>>, i: int, file: FileInfo)
    requires
        0 <= i < bins.len(),
    ensures
        bins.update(i, bins[i].push(file)).flatten().to_multiset() == bins.flatten().to_multiset().insert(
            file,
        ),
{
    let before = bins.take(i);
    let after = bins.skip(i + 1);
    let grown = bins.update(i, bins[i].push(file));
    assert(bins =~= before + seq![bins[i]] + after);
    assert(grown =~= before + seq![bins[i].push(file)] + after);
    lemma_flatten_concat(before + seq![bins[i]], after);
    lemma_flatten_concat(before, seq![bins[i]]);
    lemma_flatten_concat(before + seq![bins[i].push(file)], after);
    lemma_flatten_concat(before, seq![bins[i].push(file)]);
    seq![bins[i]].lemma_flatten_one_element();
    seq![bins[i].push(file)].lemma_flatten_one_element();
    let a = before.flatten();
    let b = bins[i];
    let c = after.flatten();
    assert(bins.flatten() =~= a + b + c);
    assert(grown.flatten() =~= a + b.push(file) + c);
    lemma_multiset_commutative(a + b, c);
    lemma_multiset_commutative(a, b);
    lemma_multiset_commutative(a + b.push(file), c);
    lemma_multiset_commutative(a, b.push(file));
    to_multiset_build(b, file);
    assert(a.to_multiset().add(b.to_multiset().insert(file)).add(c.to_multiset())
        =~= a.to_multiset().add(b.to_multiset()).add(c.to_multiset()).insert(file));
}

/// Placing files adds just these files to what the bins hold together.
proof fn lemma_placed_adds_files(bins: Seq<Seq<FileInfo>>, files: Seq<FileInfo>)
    requires
        bins.len() > 0,
    ensures
        placed(bins, files).flatten().to_multiset() == bins.flatten().to_multiset().add(
            files.to_multiset(),
        ),
    decreases files.len(),
{
    if files.len() == 0 {
        assert(files =~= Seq::<FileInfo>::empty());
        Seq::<FileInfo>::empty().to_multiset_ensures();
        assert(Seq::<FileInfo>::empty().to_multiset() =~= Multiset::<FileInfo>::empty());
        assert(bins.flatten().to_multiset().add(Multiset::<FileInfo>::empty())
            =~= bins.flatten().to_multiset());
    } else {
        let i = lightest(bins, bins.len() as int);
        lemma_lightest_is_a_bin(bins, bins.len() as int);
        let grown = bins.update(i, bins[i].push(files[0]));
        lemma_put_adds_one(bins, i, files[0]);
        lemma_placed_adds_files(grown, files.skip(1));
        to_multiset_build(Seq::<FileInfo>::empty(), files[0]);
        assert(Seq::<FileInfo>::empty().push(files[0]) =~= seq![files[0]]);
        Seq::<FileInfo>::empty().to_multiset_ensures();
        assert(Seq::<FileInfo>::empty().to_multiset() =~= Multiset::<FileInfo>::empty());
        lemma_multiset_commutative(seq![files[0]], files.skip(1));
        assert(seq![files[0]] + files.skip(1) =~= files);
        assert(bins.flatten().to_multiset().insert(files[0]).add(files.skip(1).to_multiset())
            =~= bins.flatten().to_multiset().add(
            seq![files[0]].to_multiset().add(files.skip(1).to_multiset()),
        ));
    }
}

/// Bins that are all empty hold nothing together.
proof fn lemma_empty_bins_hold_nothing(n: nat)
    ensures
        Seq::new(n, |i: int| Seq::<FileInfo>::empty()).flatten() == Seq::<FileInfo>::empty(),
    decreases n,
{
    let bins = Seq::new(n, |i: int| Seq::<FileInfo>::empty());
    if n > 0 {
        lemma_empty_bins_hold_nothing((n - 1) as nat);
        assert(bins.drop_first() =~= Seq::new((n - 1) as nat, |i: int| Seq::<FileInfo>::empty()));
        assert(bins.flatten() =~= Seq::<FileInfo>::empty());
    }
}

/// Where there is at least one worker, every file is given to exactly one
/// worker: the bins together hold the files that were shared out, each as
/// often as it was given.
pub proof fn lemma_every_file_has_one_worker(files: Seq<FileInfo>, workers: nat)
    requires
        workers > 0,
    ensures
        distributed(files, workers).len() == workers,
        distributed(files, workers).flatten().to_multiset() == files.to_multiset(),
{
    let bins = Seq::new(workers, |i: int| Seq::<FileInfo>::empty());
    lemma_placed_keeps_bins(bins, by_size(files));
    lemma_placed_adds_files(bins, by_size(files));
    lemma_by_size_keeps_files(files);
    lemma_empty_bins_hold_nothing(workers);
    Seq::<FileInfo>::empty().to_multiset_ensures();
    assert(Seq::<FileInfo>::empty().to_multiset() =~= Multiset::<FileInfo>::empty());
    assert(Multiset::<FileInfo>::empty().add(files.to_multiset()) =~= files.to_multiset());
}

/// The counts of a run.
#[derive(Debug, Clone, Copy, PartialEq, Eq, Structural)]
pub struct ProcessingStats {
    pub files_processed: usize,
    pub files_failed: usize,
    pub egrul_records: usize,
    pub egrip_records: usize,
    pub bytes_processed: u64,
    pub parse_errors: usize,
}

impl ProcessingStats {
    /// Counts that all stand at zero.
    pub fn new() -> (r: Self)
        ensures
            r == (ProcessingStats {
                files_processed: 0,
                files_failed: 0,
                egrul_records: 0,
                egrip_records: 0,
                bytes_processed: 0,
                parse_errors: 0,
            }),
    {
        ProcessingStats {
            files_processed: 0,
            files_failed: 0,
            egrul_records: 0,
            egrip_records: 0,
            bytes_processed: 0,
            parse_errors: 0,
        }
    }

    /// The records of both registries together.
    pub fn total_records(&self) -> (r: usize)
        ensures
            r == worker::capped_sum(self.egrul_records, self.egrip_records),
    {
        worker::add_capped(self.egrul_records, self.egrip_records)
    }

    /// Counts a file of the given size that was read, with the number of
    /// records of each registry that it gave.
    pub fn record_success(&mut self, egrul: usize, egrip: usize, size: u64)
        ensures
            *final(self) == (ProcessingStats {
                files_processed: worker::capped_sum(old(self).files_processed, 1),
                egrul_records: worker::capped_sum(old(self).egrul_records, egrul),
                egrip_records: worker::capped_sum(old(self).egrip_records, egrip),
                bytes_processed: if old(self).bytes_processed + size <= u64::MAX {
                    (old(self).bytes_processed + size) as u64
                } else {
                    u64::MAX
                },
                ..*old(self)
            }),
    {
        self.files_processed = worker::add_capped(self.files_processed, 1);
        self.egrul_records = worker::add_capped(self.egrul_records, egrul);
        self.egrip_records = worker::add_capped(self.egrip_records, egrip);
        self.bytes_processed = if self.bytes_processed <= u64::MAX - size {
            self.bytes_processed + size
        } else {
            u64::MAX
        };
    }

    /// Counts a file that failed.
    pub fn record_failure(&mut self)
        ensures
            *final(self) == (ProcessingStats {
                files_failed: worker::capped_sum(old(self).files_failed, 1),
                parse_errors: worker::capped_sum(old(self).parse_errors, 1),
                ..*old(self)
            }),
    {
        self.files_failed = worker::add_capped(self.files_failed, 1);
        self.parse_errors = worker::add_capped(self.parse_errors, 1);
    }
}

} // verus!
