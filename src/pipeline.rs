use vstd::prelude::*;

verus! {

/// Number of consecutive silent chunks after which capture pauses:
/// `timeout * (samplerate / chunk_size)`, with the timeout in milliseconds.
pub fn silence_limit(timeout_ms: u32, samplerate: u32, chunk_size: u32) -> (r: u64)
    requires
        chunk_size >= 1,
    ensures
        r as int == (timeout_ms as int * (samplerate as int / chunk_size as int)) / 1000,
{
    let per_second: u64 = (samplerate / chunk_size) as u64;
    assert(timeout_ms as int * per_second <= 4294967295 * 4294967295) by (nonlinear_arith)
        requires timeout_ms <= 4294967295u32, per_second <= 4294967295u64;
    (timeout_ms as u64 * per_second) / 1000
}

/// The capture side's silence gate. Each chunk is either above the silence
/// threshold or not; after more than `limit` silent chunks in a row, chunks
/// are no longer sent on, until one above the threshold arrives. A limit of
/// 0 disables silence detection.
pub struct SilenceGate {
    pub limit: u64,
    pub silent_chunks: u64,
}

/// The count of silent chunks after one more chunk.
pub open spec fn next_silent(limit: int, count: int, above_threshold: bool) -> int {
    if above_threshold {
        0
    } else if limit > 0 && count <= limit {
        count + 1
    } else {
        count
    }
}

impl SilenceGate {
    pub open spec fn wf(&self) -> bool {
        &&& self.limit < u64::MAX
        &&& self.silent_chunks <= self.limit + 1
        &&& self.limit == 0 ==> self.silent_chunks == 0
    }

    /// Whether chunks are being held back.
    pub open spec fn paused(&self) -> bool {
        self.silent_chunks > self.limit
    }

    pub fn new(limit: u64) -> (r: Self)
        requires
            limit < u64::MAX,
        ensures
            r.wf(),
            r.limit == limit,
            r.silent_chunks == 0,
    {
        SilenceGate { limit, silent_chunks: 0 }
    }

    /// Takes one chunk and says whether it is sent on.
    pub fn process(&mut self, above_threshold: bool) -> (send: bool)
        requires
            old(self).wf(),
        ensures
            final(self).wf(),
            final(self).limit == old(self).limit,
            final(self).silent_chunks as int == next_silent(old(self).limit as int, old(self).silent_chunks as int, above_threshold),
            send == !final(self).paused(),
    {
        if above_threshold {
            self.silent_chunks = 0;
        } else if self.limit > 0 && self.silent_chunks <= self.limit {
            self.silent_chunks = self.silent_chunks + 1;
        }
        self.silent_chunks <= self.limit
    }

    /// Whether chunks are being held back.
    pub fn is_paused(&self) -> (r: bool)
        ensures
            r == self.paused(),
    {
        self.silent_chunks > self.limit
    }
}

/// A chunk above the threshold always passes, and with silence detection
/// disabled every chunk passes.
pub proof fn lemma_gate_passes(limit: int, count: int, above_threshold: bool)
    requires
        0 <= limit,
        0 <= count <= limit + 1,
        limit == 0 ==> count == 0,
        above_threshold || limit == 0,
    ensures
        next_silent(limit, count, above_threshold) <= limit,
{
}

/// Averages the playback device's delay, in frames, over an adjust interval.
pub struct DelayAverager {
    pub sum: u64,
    pub count: u64,
}

impl DelayAverager {
    pub open spec fn wf(&self) -> bool {
        self.sum <= self.count * 4294967295 && self.count <= 4294967295
    }

    pub fn new() -> (r: Self)
        ensures
            r.wf(),
            r.sum == 0,
            r.count == 0,
    {
        DelayAverager { sum: 0, count: 0 }
    }

    /// Adds one measured delay. Past 2^32 - 1 measurements the oldest sums
    /// are kept and new ones ignored.
    pub fn add(&mut self, delay: u32)
        requires
            old(self).wf(),
        ensures
            final(self).wf(),
            old(self).count < 4294967295 ==> final(self).sum == old(self).sum + delay
                && final(self).count == old(self).count + 1,
            old(self).count >= 4294967295 ==> *final(self) == *old(self),
    {
        if self.count < 4294967295 {
            assert(self.sum + delay <= (self.count + 1) * 4294967295) by (nonlinear_arith)
                requires self.sum <= self.count * 4294967295, delay <= 4294967295u32;
            self.sum = self.sum + delay as u64;
            self.count = self.count + 1;
        }
    }

    /// The mean of the delays added since the last call, rounded down, and a
    /// fresh start; `None` when none was added.
    pub fn take_average(&mut self) -> (r: Option<u32>)
        requires
            old(self).wf(),
        ensures
            final(self).wf(),
            final(self).sum == 0,
            final(self).count == 0,
            old(self).count == 0 ==> r is None,
            old(self).count > 0 ==> r == Some((old(self).sum / old(self).count) as u32),
            old(self).count > 0 ==> old(self).sum / old(self).count <= 4294967295,
    {
        let r = if self.count == 0 {
            None
        } else {
            assert(self.sum / self.count <= 4294967295) by (nonlinear_arith)
                requires self.sum <= self.count * 4294967295, self.count > 0;
            Some((self.sum / self.count) as u32)
        };
        self.sum = 0;
        self.count = 0;
        r
    }
}

} // verus!
