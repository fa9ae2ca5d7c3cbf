//! The database service's write buffer: readings are collected and handed
//! over for insertion in batches.

use vstd::prelude::*;
use crate::models::FlowmeterReading;

verus! {

/// Batch size used when the database output sets none.
pub const DEFAULT_BATCH_SIZE: usize = 500;

/// Smallest number of readings written per database transaction.
pub const MIN_INSERT_CHUNK: usize = 500;

/// Readings waiting to be written. The buffer never holds a full batch:
/// once it reaches `batch_size` it is handed over whole.
pub struct FlowmeterBatch {
    readings: Vec<FlowmeterReading>,
    batch_size: usize,
}

/// The readings of an optional hand-over (none when nothing was handed over).
pub open spec fn handed_over(batch: Option<Vec<FlowmeterReading>>) -> Seq<FlowmeterReading> {
    match batch {
        Some(v) => v@,
        None => Seq::empty(),
    }
}

/// The batch size to use: the configured one, or 500.
pub fn batch_size_for(configured: Option<usize>) -> (r: usize)
    ensures
        r == match configured {
            Some(n) => n,
            None => DEFAULT_BATCH_SIZE,
        },
{
    match configured {
        Some(n) => n,
        None => DEFAULT_BATCH_SIZE,
    }
}

/// Readings written per database transaction for a configured batch size:
/// never fewer than 500.
pub fn insert_chunk_size(configured: usize) -> (r: usize)
    ensures
        r == if configured >= MIN_INSERT_CHUNK {
            configured
        } else {
            MIN_INSERT_CHUNK
        },
{
    if configured >= MIN_INSERT_CHUNK {
        configured
    } else {
        MIN_INSERT_CHUNK
    }
}

impl FlowmeterBatch {
    /// The buffer holds less than a batch (or nothing).
    #[verifier::type_invariant]
    spec fn wf(self) -> bool {
        self.readings@.len() < self.batch_size || self.readings@.len() == 0
    }

    /// The readings waiting, oldest first.
    pub closed spec fn pending(self) -> Seq<FlowmeterReading> {
        self.readings@
    }

    /// The batch size.
    pub closed spec fn spec_batch_size(self) -> usize {
        self.batch_size
    }

    /// An empty buffer handing over batches of `batch_size`.
    pub fn new(batch_size: usize) -> (r: FlowmeterBatch)
        ensures
            r.pending() == Seq::<FlowmeterReading>::empty(),
            r.spec_batch_size() == batch_size,
    {
        FlowmeterBatch { readings: Vec::new(), batch_size }
    }

    /// Number of readings waiting.
    pub fn len(&self) -> (r: usize)
        ensures
            r == self.pending().len(),
    {
        self.readings.len()
    }

    /// Adds readings. When the buffer reaches the batch size, everything it
    /// holds is handed over, oldest first, and the buffer is emptied.
    pub fn add_flowmeter_to_batch(&mut self, readings: Vec<FlowmeterReading>) -> (r: Option<
        Vec<FlowmeterReading>,
    >)
        ensures
            final(self).spec_batch_size() == old(self).spec_batch_size(),
            old(self).pending() + readings@ == final(self).pending() + handed_over(r),
            r is Some <==> (readings@.len() > 0 && old(self).pending().len() + readings@.len()
                >= old(self).spec_batch_size()),
            r is Some ==> final(self).pending() == Seq::<FlowmeterReading>::empty(),
    {
        proof {
            use_type_invariant(&*self);
        }
        if readings.len() == 0 {
            assert(old(self).pending() + readings@ =~= old(self).pending());
            return None;
        }
        let mut readings = readings;
        let mut buffer: Vec<FlowmeterReading> = Vec::new();
        std::mem::swap(&mut buffer, &mut self.readings);
        buffer.append(&mut readings);
        if buffer.len() >= self.batch_size {
            assert(self.readings@ + buffer@ =~= buffer@);
            Some(buffer)
        } else {
            self.readings = buffer;
            assert(self.readings@ + Seq::<FlowmeterReading>::empty() =~= self.readings@);
            None
        }
    }

    /// Hands over everything waiting, if anything is.
    pub fn flush_buffer(&mut self) -> (r: Option<Vec<FlowmeterReading>>)
        ensures
            final(self).spec_batch_size() == old(self).spec_batch_size(),
            final(self).pending() == Seq::<FlowmeterReading>::empty(),
            handed_over(r) == old(self).pending(),
            r is Some <==> old(self).pending().len() > 0,
    {
        proof {
            use_type_invariant(&*self);
        }
        if self.readings.len() == 0 {
            return None;
        }
        let mut out: Vec<FlowmeterReading> = Vec::new();
        std::mem::swap(&mut out, &mut self.readings);
        Some(out)
    }
}

} // verus!
