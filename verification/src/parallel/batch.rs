//! Gathering records into the batches in which a writer takes them.

use vstd::prelude::*;

verus! {

/// Gathers records until a batch is full.
pub struct Batcher<T> {
    batch: Vec<T>,
    batch_size: usize,
}

impl<T> Batcher<T> {
    /// The records gathered for the batch that is being filled.
    pub closed spec fn gathered(&self) -> Seq<T> {
        self.batch@
    }

    /// The number of records at which a batch is full.
    pub closed spec fn size(&self) -> usize {
        self.batch_size
    }

    /// A batcher that has gathered nothing.
    pub fn new(batch_size: usize) -> (r: Self)
        ensures
            r.gathered() == Seq::<T>::empty(),
            r.size() == batch_size,
    {
        Batcher { batch: Vec::new(), batch_size }
    }

    /// Takes in a record. Once the batch holds as many records as a batch
    /// should, it is handed out and a new one is begun.
    pub fn push(&mut self, record: T) -> (full: Option<Vec<T>>)
        ensures
            final(self).size() == old(self).size(),
            ({
                let all = old(self).gathered().push(record);
                if all.len() >= old(self).size() {
                    full is Some && full->0@ == all && final(self).gathered() == Seq::<T>::empty()
                } else {
                    full is None && final(self).gathered() == all
                }
            }),
    {
        self.batch.push(record);
        if self.batch.len() >= self.batch_size {
            let mut full: Vec<T> = Vec::new();
            core::mem::swap(&mut full, &mut self.batch);
            Some(full)
        } else {
            None
        }
    }

    /// Ends the gathering: the records that are left, if any, are the last
    /// batch.
    pub fn finish(self) -> (rest: Option<Vec<T>>)
        ensures
            self.gathered().len() > 0 ==> rest is Some && rest->0@ == self.gathered(),
            self.gathered().len() == 0 ==> rest is None,
    {
        if self.batch.len() > 0 {
            Some(self.batch)
        } else {
            None
        }
    }
}

} // verus!
