//! Rolling of output files: rows are gathered per stream and handed out as
//! one file whenever a ceiling is reached.

use crate::text::push_char;
use vstd::arithmetic::div_mod::lemma_basic_div;
use vstd::arithmetic::div_mod::lemma_div_plus_one;
use vstd::prelude::*;
use vstd::string::StringExecFns;

verus! {

/// Bytes that one record of a legal entity is expected to take in a file.
pub const EGRUL_BYTES_PER_RECORD: usize = 18432;

/// Bytes that one record of a sole proprietor is expected to take in a file.
pub const EGRIP_BYTES_PER_RECORD: usize = 8192;

/// The ceilings of one output file. A ceiling that is absent does not apply.
#[derive(Debug, Clone, Copy, PartialEq, Eq, Structural)]
pub struct FileLimits {
    /// Estimated size in mebibytes at which a file is closed.
    pub max_file_size_mb: Option<usize>,
    /// Number of records at which a file is closed.
    pub max_records_per_file: Option<usize>,
}

/// The size in whole mebibytes that `count` records are expected to take.
pub open spec fn estimated_mb(count: nat, bytes_per_record: nat) -> nat {
    (count * bytes_per_record) / (1024 * 1024)
}

/// Whether a file that holds `count` records has reached a ceiling.
pub open spec fn reached(limits: FileLimits, count: nat, bytes_per_record: nat) -> bool {
    (limits.max_records_per_file is Some && count >= limits.max_records_per_file->0) || (
    limits.max_file_size_mb is Some && estimated_mb(count, bytes_per_record)
        >= limits.max_file_size_mb->0)
}

/// The character of a decimal digit.
pub open spec fn digit_char(d: nat) -> char {
    if d == 0 {
        '0'
    } else if d == 1 {
        '1'
    } else if d == 2 {
        '2'
    } else if d == 3 {
        '3'
    } else if d == 4 {
        '4'
    } else if d == 5 {
        '5'
    } else if d == 6 {
        '6'
    } else if d == 7 {
        '7'
    } else if d == 8 {
        '8'
    } else {
        '9'
    }
}

/// The decimal digits of a number.
pub open spec fn decimal(n: nat) -> Seq<char>
    decreases n,
{
    if n < 10 {
        seq![digit_char(n)]
    } else {
        decimal(n / 10).push(digit_char(n % 10))
    }
}

/// The decimal digits of a number, with zeros in front up to three places.
pub open spec fn three_places(n: nat) -> Seq<char> {
    if n < 10 {
        seq!['0', '0'] + decimal(n)
    } else if n < 100 {
        seq!['0'] + decimal(n)
    } else {
        decimal(n)
    }
}

/// The name of the file with the given index in a stream: the first file
/// bears the stem and the stream's label, every later one also its number,
/// counted from 2 and written in three places.
pub open spec fn file_name_of(stem: Seq<char>, label: Seq<char>, index: nat) -> Seq<char> {
    if index == 0 {
        stem + seq!['_'] + label + ".parquet"@
    } else {
        stem + seq!['_'] + label + "_part_"@ + three_places(index + 1) + ".parquet"@
    }
}

/// The character of a decimal digit.
fn digit_to_char(d: u128) -> (c: char)
    requires
        d < 10,
    ensures
        c == digit_char(d as nat),
{
    if d == 0 {
        '0'
    } else if d == 1 {
        '1'
    } else if d == 2 {
        '2'
    } else if d == 3 {
        '3'
    } else if d == 4 {
        '4'
    } else if d == 5 {
        '5'
    } else if d == 6 {
        '6'
    } else if d == 7 {
        '7'
    } else if d == 8 {
        '8'
    } else {
        '9'
    }
}

/// Appends the decimal digits of a number to a text.
pub fn push_decimal(text: &mut String, n: u128)
    ensures
        final(text)@ == old(text)@ + decimal(n as nat),
    decreases n,
{
    if n >= 10 {
        push_decimal(text, n / 10);
    }
    let ghost before = text@;
    push_char(text, digit_to_char(n % 10));
    proof {
        if n >= 10 {
            assert(text@ =~= old(text)@ + decimal((n / 10) as nat).push(digit_char((n % 10) as nat)));
        } else {
            assert(text@ =~= old(text)@ + seq![digit_char(n as nat)]);
        }
    }
}

/// The name of the file with the given index in a stream.
pub fn file_name(stem: &str, label: &str, index: usize) -> (name: String)
    ensures
        name@ == file_name_of(stem@, label@, index as nat),
{
    let mut name = String::from_str(stem);
    push_char(&mut name, '_');
    name.append(label);
    if index == 0 {
        name.append(".parquet");
        assert(name@ =~= stem@ + seq!['_'] + label@ + ".parquet"@);
        return name;
    }
    name.append("_part_");
    let number: u128 = index as u128 + 1;
    if number < 10 {
        push_char(&mut name, '0');
        push_char(&mut name, '0');
    } else if number < 100 {
        push_char(&mut name, '0');
    }
    let ghost padded = name@;
    push_decimal(&mut name, number);
    assert(name@ =~= stem@ + seq!['_'] + label@ + "_part_"@ + three_places(number as nat));
    name.append(".parquet");
    name
}

/// The rows of one output file, with the file's index in its stream.
pub struct RolledFile<T> {
    /// Index of the file in its stream, counted from 0.
    pub index: usize,
    pub rows: Vec<T>,
}

/// One output stream: the rows gathered for the file that is being
/// filled, the index of that file, and the ceilings.
pub struct RollingStream<T> {
    buffer: Vec<T>,
    file_index: usize,
    limits: FileLimits,
    bytes_per_record: usize,
}

/// The index of the file after the one with the given index.
pub open spec fn next_index(index: usize) -> usize {
    if index < usize::MAX {
        (index + 1) as usize
    } else {
        index
    }
}

impl<T> RollingStream<T> {
    /// The rows gathered for the file that is being filled.
    pub closed spec fn rows(&self) -> Seq<T> {
        self.buffer@
    }

    /// The index of the file that is being filled.
    pub closed spec fn index(&self) -> usize {
        self.file_index
    }

    /// The ceilings of a file.
    pub closed spec fn limits(&self) -> FileLimits {
        self.limits
    }

    /// The size that a record is expected to take.
    pub closed spec fn record_size(&self) -> usize {
        self.bytes_per_record
    }

    /// Whether a file that holds `count` rows is closed.
    pub open spec fn closes_at(&self, count: nat) -> bool {
        reached(self.limits(), count, self.record_size() as nat)
    }

    /// A stream that has nothing gathered and no file written.
    pub fn new(limits: FileLimits, bytes_per_record: usize) -> (r: Self)
        ensures
            r.rows() == Seq::<T>::empty(),
            r.index() == 0,
            r.limits() == limits,
            r.record_size() == bytes_per_record,
    {
        RollingStream { buffer: Vec::new(), file_index: 0, limits, bytes_per_record }
    }

    /// How many rows are gathered for the file that is being filled.
    pub fn buffered(&self) -> (n: usize)
        ensures
            n == self.rows().len(),
    {
        self.buffer.len()
    }

    /// The size in whole mebibytes that the gathered rows are expected to
    /// take.
    pub fn estimate_size_mb(&self) -> (mb: u128)
        ensures
            mb == estimated_mb(self.rows().len(), self.record_size() as nat),
    {
        let count = self.buffer.len() as u128;
        let size = self.bytes_per_record as u128;
        assert(count * size <= 0xFFFF_FFFF_FFFF_FFFF * 0xFFFF_FFFF_FFFF_FFFF) by (nonlinear_arith)
            requires
                count <= 0xFFFF_FFFF_FFFF_FFFF,
                size <= 0xFFFF_FFFF_FFFF_FFFF,
        ;
        (count * size) / (1024 * 1024)
    }

    /// Whether the file that is being filled has reached a ceiling.
    pub fn should_flush(&self) -> (r: bool)
        ensures
            r == self.closes_at(self.rows().len()),
    {
        if let Some(max_records) = self.limits.max_records_per_file {
            if self.buffer.len() >= max_records {
                return true;
            }
        }
        if let Some(max_size_mb) = self.limits.max_file_size_mb {
            if self.estimate_size_mb() >= max_size_mb as u128 {
                return true;
            }
        }
        false
    }

    /// Hands out the gathered rows as the next file.
    fn flush(&mut self) -> (file: RolledFile<T>)
        ensures
            file.index == old(self).index(),
            file.rows@ == old(self).rows(),
            final(self).rows() == Seq::<T>::empty(),
            final(self).index() == next_index(old(self).index()),
            final(self).limits() == old(self).limits(),
            final(self).record_size() == old(self).record_size(),
    {
        let mut rows: Vec<T> = Vec::new();
        core::mem::swap(&mut rows, &mut self.buffer);
        let index = self.file_index;
        if self.file_index < usize::MAX {
            self.file_index = self.file_index + 1;
        }
        RolledFile { index, rows }
    }

    /// Takes in a batch of rows. If the batch is not empty and the file has
    /// reached a ceiling with it, all gathered rows are handed out as the
    /// next file and the stream starts a new one.
    pub fn append(&mut self, batch: Vec<T>) -> (file: Option<RolledFile<T>>)
        ensures
            final(self).limits() == old(self).limits(),
            final(self).record_size() == old(self).record_size(),
            ({
                let all = old(self).rows() + batch@;
                if batch@.len() > 0 && old(self).closes_at(all.len()) {
                    &&& file is Some
                    &&& file->0.index == old(self).index()
                    &&& file->0.rows@ == all
                    &&& final(self).rows() == Seq::<T>::empty()
                    &&& final(self).index() == next_index(old(self).index())
                } else {
                    &&& file is None
                    &&& final(self).rows() == all
                    &&& final(self).index() == old(self).index()
                }
            }),
    {
        let mut batch = batch;
        if batch.len() == 0 {
            assert(old(self).rows() + batch@ =~= old(self).rows());
            return None;
        }
        self.buffer.append(&mut batch);
        if self.should_flush() {
            Some(self.flush())
        } else {
            None
        }
    }

    /// Ends the stream: rows that are still gathered are handed out as the
    /// last file.
    pub fn finish(self) -> (file: Option<RolledFile<T>>)
        ensures
            self.rows().len() > 0 ==> file is Some && file->0.index == self.index()
                && file->0.rows@ == self.rows(),
            self.rows().len() == 0 ==> file is None,
    {
        let mut stream = self;
        if stream.buffer.len() > 0 {
            Some(stream.flush())
        } else {
            None
        }
    }
}

/// The files that a stream hands out when it takes in the batches one
/// after another and is then ended, each file as its rows.
pub open spec fn rolled<T>(
    limits: FileLimits,
    bytes_per_record: nat,
    buffer: Seq<T>,
    batches: Seq<Seq<T>>,
) -> Seq<Seq<T>>
    decreases batches.len(),
{
    if batches.len() == 0 {
        if buffer.len() > 0 {
            seq![buffer]
        } else {
            Seq::empty()
        }
    } else {
        let all = buffer + batches[0];
        if batches[0].len() > 0 && reached(limits, all.len(), bytes_per_record) {
            seq![all] + rolled(limits, bytes_per_record, Seq::empty(), batches.skip(1))
        } else {
            rolled(limits, bytes_per_record, all, batches.skip(1))
        }
    }
}

/// The rows of the batches, batch after batch.
pub open spec fn rows_in<T>(batches: Seq<Vec<T>>) -> Seq<Seq<T>> {
    batches.map_values(|b: Vec<T>| b@)
}

/// The rows of the files, file after file.
pub open spec fn rows_of<T>(files: Seq<RolledFile<T>>) -> Seq<Seq<T>> {
    files.map_values(|f: RolledFile<T>| f.rows@)
}

impl<T> RollingStream<T> {
    /// Takes in all batches and ends the stream: the files that come of
    /// it, in order. Their indices count on from the stream's.
    pub fn roll_all(self, batches: Vec<Vec<T>>) -> (files: Vec<RolledFile<T>>)
        ensures
            rows_of(files@) == rolled(
                self.limits(),
                self.record_size() as nat,
                self.rows(),
                rows_in(batches@),
            ),
            forall|i: int|
                0 <= i < files.len() && self.index() + i <= usize::MAX ==> (#[trigger] files[i]).index
                    == self.index() + i,
    {
        let mut stream = self;
        let mut files: Vec<RolledFile<T>> = Vec::new();
        let mut reversed = batches;
        let ghost all = rows_in(batches@);
        let ghost limits = self.limits();
        let ghost size = self.record_size() as nat;
        let ghost goal = rolled(limits, size, self.rows(), all);
        // the batches are taken from the end, so they are turned round first
        let mut pending: Vec<Vec<T>> = Vec::new();
        while reversed.len() > 0
            invariant
                reversed.len() + pending.len() == all.len(),
                rows_in(reversed@) == all.take(reversed.len() as int),
                forall|i: int|
                    0 <= i < pending.len() ==> (#[trigger] pending[i])@ == all[all.len() - 1 - i],
            decreases reversed.len(),
        {
            let ghost before = rows_in(reversed@);
            let n = reversed.len();
            match reversed.pop() {
                Some(batch) => {
                    assert(before[n - 1] == batch@);
                    assert(rows_in(reversed@) =~= before.take(n - 1));
                    pending.push(batch);
                },
                None => {},
            }
        }
        assert(rows_of(files@) =~= Seq::<Seq<T>>::empty());
        assert(all.skip(0) =~= all);
        while pending.len() > 0
            invariant
                pending.len() <= all.len(),
                forall|i: int|
                    0 <= i < pending.len() ==> (#[trigger] pending[i])@ == all[all.len() - 1 - i],
                stream.limits() == limits,
                stream.record_size() == size,
                goal == rows_of(files@) + rolled(
                    limits,
                    size,
                    stream.rows(),
                    all.skip(all.len() - pending.len()),
                ),
                stream.index() == if self.index() + files.len() <= usize::MAX {
                    (self.index() + files.len()) as usize
                } else {
                    usize::MAX
                },
                forall|i: int|
                    0 <= i < files.len() && self.index() + i <= usize::MAX ==> (#[trigger] files[i]).index
                        == self.index() + i,
            decreases pending.len(),
        {
            let ghost rest = all.skip(all.len() - pending.len());
            let ghost done = rows_of(files@);
            let ghost k = pending.len();
            match pending.pop() {
                Some(batch) => {
                    assert(batch@ == rest[0]);
                    assert(rest.skip(1) =~= all.skip(all.len() - pending.len()));
                    match stream.append(batch) {
                        Some(file) => {
                            files.push(file);
                            assert(rows_of(files@) =~= done.push(file.rows@));
                            assert(done.push(file.rows@) + rolled(
                                limits,
                                size,
                                Seq::empty(),
                                rest.skip(1),
                            ) =~= done + (seq![file.rows@] + rolled(
                                limits,
                                size,
                                Seq::empty(),
                                rest.skip(1),
                            )));
                        },
                        None => {},
                    }
                },
                None => {},
            }
        }
        assert(all.skip(all.len() as int) =~= Seq::<Seq<T>>::empty());
        let ghost done = rows_of(files@);
        let ghost left = stream.rows();
        match stream.finish() {
            Some(file) => {
                files.push(file);
                assert(rows_of(files@) =~= done + seq![left]);
            },
            None => {
                assert(done + Seq::<Seq<T>>::empty() =~= done);
            },
        }
        files
    }
}

/// Rolling neither loses nor reorders rows: the rows of the files, one
/// file after another, are the rows that were gathered before, followed by
/// the rows of the batches.
pub proof fn lemma_rolled_keeps_rows<T>(
    limits: FileLimits,
    bytes_per_record: nat,
    buffer: Seq<T>,
    batches: Seq<Seq<T>>,
)
    ensures
        rolled(limits, bytes_per_record, buffer, batches).flatten() == buffer + batches.flatten(),
    decreases batches.len(),
{
    if batches.len() == 0 {
        if buffer.len() > 0 {
            seq![buffer].lemma_flatten_one_element();
        }
        assert(buffer + Seq::<T>::empty() =~= buffer);
    } else {
        let all = buffer + batches[0];
        let rest = batches.skip(1);
        assert(batches.drop_first() =~= rest);
        if batches[0].len() > 0 && reached(limits, all.len(), bytes_per_record) {
            lemma_rolled_keeps_rows(limits, bytes_per_record, Seq::<T>::empty(), rest);
            let tail = rolled(limits, bytes_per_record, Seq::<T>::empty(), rest);
            let files = seq![all] + tail;
            assert(files.first() == all);
            assert(files.drop_first() =~= tail);
            assert(Seq::<T>::empty() + rest.flatten() =~= rest.flatten());
            assert(all + rest.flatten() =~= buffer + (batches[0] + rest.flatten()));
        } else {
            lemma_rolled_keeps_rows(limits, bytes_per_record, all, rest);
            assert(all + rest.flatten() =~= buffer + (batches[0] + rest.flatten()));
        }
    }
}

/// Without rows there is no file: a stream that has gathered nothing and
/// takes in only empty batches hands out nothing.
pub proof fn lemma_no_rows_no_files<T>(
    limits: FileLimits,
    bytes_per_record: nat,
    batches: Seq<Seq<T>>,
)
    requires
        forall|i: int| 0 <= i < batches.len() ==> (#[trigger] batches[i]).len() == 0,
    ensures
        rolled(limits, bytes_per_record, Seq::<T>::empty(), batches).len() == 0,
    decreases batches.len(),
{
    if batches.len() > 0 {
        assert(Seq::<T>::empty() + batches[0] =~= Seq::<T>::empty());
        assert forall|i: int| 0 <= i < batches.skip(1).len() implies (#[trigger] batches.skip(
            1,
        )[i]).len() == 0 by {
            assert(batches.skip(1)[i] == batches[i + 1]);
        }
        lemma_no_rows_no_files(limits, bytes_per_record, batches.skip(1));
    }
}

/// No ceiling applies.
pub open spec fn no_ceilings() -> FileLimits {
    FileLimits { max_file_size_mb: None, max_records_per_file: None }
}

/// Without ceilings all rows go to one file: the rows that were gathered
/// before, followed by the rows of the batches. Without rows there is no
/// file.
pub proof fn lemma_one_file_without_ceilings<T>(
    bytes_per_record: nat,
    buffer: Seq<T>,
    batches: Seq<Seq<T>>,
)
    ensures
        rolled(no_ceilings(), bytes_per_record, buffer, batches) == if (buffer
            + batches.flatten()).len() > 0 {
            seq![buffer + batches.flatten()]
        } else {
            Seq::<Seq<T>>::empty()
        },
    decreases batches.len(),
{
    if batches.len() == 0 {
        assert(buffer + batches.flatten() =~= buffer);
    } else {
        let rest = batches.skip(1);
        assert(batches.drop_first() =~= rest);
        lemma_one_file_without_ceilings(bytes_per_record, buffer + batches[0], rest);
        assert(buffer + batches[0] + rest.flatten() =~= buffer + batches.flatten());
    }
}

/// The files of a stream with ceilings hold, one after another, the rows
/// of the one file that the stream would write without ceilings.
pub proof fn lemma_rolled_files_add_up_to_the_single_file<T>(
    limits: FileLimits,
    bytes_per_record: nat,
    batches: Seq<Seq<T>>,
)
    requires
        batches.flatten().len() > 0,
    ensures
        rolled(no_ceilings(), bytes_per_record, Seq::<T>::empty(), batches).len() == 1,
        rolled(limits, bytes_per_record, Seq::<T>::empty(), batches).flatten() == rolled(
            no_ceilings(),
            bytes_per_record,
            Seq::<T>::empty(),
            batches,
        )[0],
{
    lemma_one_file_without_ceilings(bytes_per_record, Seq::<T>::empty(), batches);
    lemma_rolled_keeps_rows(limits, bytes_per_record, Seq::<T>::empty(), batches);
    assert(Seq::<T>::empty() + batches.flatten() =~= batches.flatten());
}

/// No file that a stream hands out is empty.
pub proof fn lemma_rolled_files_hold_rows<T>(
    limits: FileLimits,
    bytes_per_record: nat,
    buffer: Seq<T>,
    batches: Seq<Seq<T>>,
)
    ensures
        forall|i: int|
            0 <= i < rolled(limits, bytes_per_record, buffer, batches).len() ==> (#[trigger] rolled(
                limits,
                bytes_per_record,
                buffer,
                batches,
            )[i]).len() > 0,
    decreases batches.len(),
{
    let files = rolled(limits, bytes_per_record, buffer, batches);
    if batches.len() > 0 {
        let all = buffer + batches[0];
        let rest = batches.skip(1);
        if batches[0].len() > 0 && reached(limits, all.len(), bytes_per_record) {
            lemma_rolled_files_hold_rows(limits, bytes_per_record, Seq::<T>::empty(), rest);
            let tail = rolled(limits, bytes_per_record, Seq::<T>::empty(), rest);
            assert(files == seq![all] + tail);
            assert forall|i: int| 0 <= i < files.len() implies (#[trigger] files[i]).len() > 0 by {
                if i > 0 {
                    assert(files[i] == tail[i - 1]);
                } else {
                    assert(files[0] == all);
                }
            }
        } else {
            lemma_rolled_files_hold_rows(limits, bytes_per_record, all, rest);
            assert(files == rolled(limits, bytes_per_record, all, rest));
        }
    } else if buffer.len() > 0 {
        assert(files == seq![buffer]);
    } else {
        assert(files.len() == 0);
    }
}

/// Whether the only ceiling is one of `k` records.
pub open spec fn only_records_ceiling(limits: FileLimits, k: nat) -> bool {
    limits.max_file_size_mb is None && limits.max_records_per_file == Some(k as usize) && 0 < k
        <= usize::MAX
}

/// Whether every batch has `b` rows, but for the last, which has at least
/// one row and no more than `b`.
pub open spec fn batches_of<T>(batches: Seq<Seq<T>>, b: nat) -> bool {
    &&& forall|i: int| 0 <= i < batches.len() - 1 ==> (#[trigger] batches[i]).len() == b
    &&& batches.len() > 0 ==> 1 <= batches.last().len() <= b
}

proof fn lemma_rolled_in_step<T>(
    limits: FileLimits,
    bytes_per_record: nat,
    buffer: Seq<T>,
    batches: Seq<Seq<T>>,
    b: nat,
    m: nat,
    j: nat,
)
    requires
        only_records_ceiling(limits, m * b),
        b > 0,
        batches_of(batches, b),
        buffer.len() == j * b,
        j < m,
    ensures
        ({
            let files = rolled(limits, bytes_per_record, buffer, batches);
            let total = buffer.len() + batches.flatten().len();
            &&& files.len() == (total + m * b - 1) / ((m * b) as int)
            &&& forall|i: int| 0 <= i < files.len() - 1 ==> (#[trigger] files[i]).len() == m * b
            &&& files.len() > 0 ==> 0 < files.last().len() <= m * b
        }),
    decreases batches.len(),
{
    let k = m * b;
    let files = rolled(limits, bytes_per_record, buffer, batches);
    let total = buffer.len() + batches.flatten().len();
    assert(j * b + b <= m * b) by (nonlinear_arith)
        requires
            j < m,
            b > 0,
    ;
    assert(j * b >= 0) by (nonlinear_arith)
        requires
            j >= 0,
            b > 0,
    ;
    if batches.len() == 0 {
        assert(batches.flatten().len() == 0);
        if buffer.len() == 0 {
            lemma_basic_div(k - 1, k as int);
        } else {
            lemma_basic_div(total - 1, k as int);
            lemma_div_plus_one(total - 1, k as int);
            assert(k + (total - 1) == total + k - 1);
        }
    } else {
        let first = batches[0];
        let rest = batches.skip(1);
        let all = buffer + first;
        assert(batches.drop_first() =~= rest);
        assert(batches.flatten() =~= first + rest.flatten());
        if batches.len() == 1 {
            assert(first == batches.last());
            assert(rest.len() == 0);
            assert(rest.flatten().len() == 0);
            assert(rolled(limits, bytes_per_record, Seq::<T>::empty(), rest) =~= Seq::<
                Seq<T>,
            >::empty());
            assert(rolled(limits, bytes_per_record, all, rest) =~= seq![all]);
            assert(files =~= seq![all]);
            lemma_basic_div(total - 1, k as int);
            lemma_div_plus_one(total - 1, k as int);
            assert(k + (total - 1) == total + k - 1);
        } else {
            assert(first.len() == b);
            assert(batches_of(rest, b)) by {
                assert forall|i: int| 0 <= i < rest.len() - 1 implies (#[trigger] rest[i]).len()
                    == b by {
                    assert(rest[i] == batches[i + 1]);
                }
                assert(rest.last() == batches.last());
            }
            assert(all.len() == (j + 1) * b) by (nonlinear_arith)
                requires
                    all.len() == j * b + b,
            ;
            assert(((j + 1) * b >= m * b) <==> (j + 1 >= m)) by (nonlinear_arith)
                requires
                    b > 0,
            ;
            if j + 1 >= m {
                assert(all.len() == m * b);
                assert(0 * b == 0) by (nonlinear_arith);
                lemma_rolled_in_step(limits, bytes_per_record, Seq::<T>::empty(), rest, b, m, 0);
                let tail = rolled(limits, bytes_per_record, Seq::<T>::empty(), rest);
                assert(files == seq![all] + tail);
                let left = rest.flatten().len();
                lemma_div_plus_one(left + k - 1, k as int);
                assert(k + (left + k - 1) == total + k - 1);
                assert forall|i: int| 0 <= i < files.len() - 1 implies (#[trigger] files[i]).len()
                    == m * b by {
                    if i > 0 {
                        assert(files[i] == tail[i - 1]);
                    }
                }
                if tail.len() > 0 {
                    assert(files.last() == tail.last());
                } else {
                    assert(files.last() == all);
                }
            } else {
                lemma_rolled_in_step(limits, bytes_per_record, all, rest, b, m, j + 1);
            }
        }
    }
}

/// A stream whose only ceiling is `k` records, fed batches of `b` rows each
/// and at last one that may be shorter, where `b` divides `k`, hands out
/// ⌈n / k⌉ files for the n rows it was fed; every file but the last holds
/// `k` rows, and the last holds the rest.
pub proof fn lemma_rolled_file_count<T>(
    limits: FileLimits,
    bytes_per_record: nat,
    batches: Seq<Seq<T>>,
    k: nat,
    b: nat,
)
    requires
        only_records_ceiling(limits, k),
        b > 0,
        k % b == 0,
        batches_of(batches, b),
    ensures
        ({
            let files = rolled(limits, bytes_per_record, Seq::<T>::empty(), batches);
            let total = batches.flatten().len();
            &&& files.len() == (total + k - 1) / (k as int)
            &&& forall|i: int| 0 <= i < files.len() - 1 ==> (#[trigger] files[i]).len() == k
            &&& files.len() > 0 ==> files.last().len() == total - (files.len() - 1) * k
            &&& files.flatten() == batches.flatten()
        }),
{
    let m = k / b;
    let files = rolled(limits, bytes_per_record, Seq::<T>::empty(), batches);
    vstd::arithmetic::div_mod::lemma_fundamental_div_mod(k as int, b as int);
    assert(k == m * b) by (nonlinear_arith)
        requires
            k == b * (k / b) + k % b,
            k % b == 0,
            m == k / b,
    ;
    assert(m > 0) by (nonlinear_arith)
        requires
            k == m * b,
            k > 0,
            b > 0,
    ;
    assert(0 * b == 0) by (nonlinear_arith);
    lemma_rolled_in_step(limits, bytes_per_record, Seq::<T>::empty(), batches, b, m, 0);
    lemma_rolled_keeps_rows(limits, bytes_per_record, Seq::<T>::empty(), batches);
    assert(Seq::<T>::empty() + batches.flatten() =~= batches.flatten());
    if files.len() > 0 {
        lemma_sizes_add_up(files, k);
    }
}

/// The rows of files of which every one but the last holds `k` rows.
proof fn lemma_sizes_add_up<T>(files: Seq<Seq<T>>, k: nat)
    requires
        files.len() > 0,
        forall|i: int| 0 <= i < files.len() - 1 ==> (#[trigger] files[i]).len() == k,
    ensures
        files.flatten().len() == (files.len() - 1) * k + files.last().len(),
    decreases files.len(),
{
    if files.len() == 1 {
        files.lemma_flatten_one_element();
        assert((files.len() - 1) * k == 0) by (nonlinear_arith)
            requires
                files.len() == 1,
        ;
    } else {
        let rest = files.drop_first();
        assert forall|i: int| 0 <= i < rest.len() - 1 implies (#[trigger] rest[i]).len() == k by {
            assert(rest[i] == files[i + 1]);
        }
        lemma_sizes_add_up(rest, k);
        assert(rest.last() == files.last());
        assert(files[0].len() == k);
        assert((files.len() - 1) * k == k + (rest.len() - 1) * k) by (nonlinear_arith)
            requires
                rest.len() == files.len() - 1,
        ;
    }
}

} // verus!
