use vstd::prelude::*;
use std::collections::VecDeque;

verus! {

broadcast use vstd::std_specs::vecdeque::group_vec_dequeue_axioms;

/// Per-channel signal values observed at a time (a monotonic tick count).
/// Values are non-negative levels on a fixed-point scale chosen by the producer:
/// peak magnitudes, or mean squares for an rms ring.
pub struct SignalRecord {
    pub time: u64,
    pub values: Vec<u64>,
}

/// A fixed-capacity ring of timestamped per-channel values, oldest first,
/// with the per-channel maximum of everything ever appended.
pub struct SignalRing {
    pub capacity: usize,
    pub channels: usize,
    pub records: VecDeque<SignalRecord>,
    pub global_max: Vec<u64>,
}

/// Largest value of channel `c` among the first `k` records with a time at or after `t`
/// (0 where there is none).
pub open spec fn max_upto(recs: Seq<SignalRecord>, t: int, c: int, k: int) -> int
    decreases k,
{
    if k <= 0 {
        0
    } else {
        let m = max_upto(recs, t, c, k - 1);
        let r = recs[k - 1];
        if r.time >= t && r.values@[c] > m {
            r.values@[c] as int
        } else {
            m
        }
    }
}

/// Sum of channel `c` over the first `k` records with a time at or after `t`.
pub open spec fn sum_upto(recs: Seq<SignalRecord>, t: int, c: int, k: int) -> int
    decreases k,
{
    if k <= 0 {
        0
    } else {
        sum_upto(recs, t, c, k - 1) + if recs[k - 1].time >= t {
            recs[k - 1].values@[c] as int
        } else {
            0
        }
    }
}

/// Number of the first `k` records with a time at or after `t`.
pub open spec fn count_upto(recs: Seq<SignalRecord>, t: int, k: int) -> int
    decreases k,
{
    if k <= 0 {
        0
    } else {
        count_upto(recs, t, k - 1) + if recs[k - 1].time >= t {
            1int
        } else {
            0
        }
    }
}

/// Time of the newest of the first `k` records with a time at or after `t`
/// (0 where there is none).
pub open spec fn last_time_upto(recs: Seq<SignalRecord>, t: int, k: int) -> int
    decreases k,
{
    if k <= 0 {
        0
    } else if recs[k - 1].time >= t {
        recs[k - 1].time as int
    } else {
        last_time_upto(recs, t, k - 1)
    }
}

/// Floor of the square root.
pub open spec fn is_floor_sqrt(r: int, x: int) -> bool {
    r >= 0 && r * r <= x < (r + 1) * (r + 1)
}

impl SignalRing {
    pub open spec fn wf(&self) -> bool {
        &&& 1 <= self.capacity
        &&& self.channels >= 1
        &&& self.records@.len() <= self.capacity
        &&& self.global_max@.len() == self.channels
        &&& forall|i: int| 0 <= i < self.records@.len() ==> (#[trigger] self.records@[i]).values@.len() == self.channels
    }

    /// An empty ring for `channels` channels holding up to `capacity` records.
    pub fn new(capacity: usize, channels: usize) -> (r: Self)
        requires
            capacity >= 1,
            channels >= 1,
        ensures
            r.wf(),
            r.capacity == capacity,
            r.channels == channels,
            r.records@.len() == 0,
            forall|c: int| 0 <= c < channels ==> r.global_max@[c] == 0,
    {
        SignalRing { capacity, channels, records: VecDeque::new(), global_max: vec![0u64; channels] }
    }

    /// Appends a record, dropping the oldest one when the ring is full, and
    /// raises the per-channel maxima since the start.
    pub fn append(&mut self, time: u64, values: Vec<u64>)
        requires
            old(self).wf(),
            values@.len() == old(self).channels,
        ensures
            final(self).wf(),
            final(self).capacity == old(self).capacity,
            final(self).channels == old(self).channels,
            old(self).records@.len() < old(self).capacity ==> final(self).records@
                == old(self).records@.push(SignalRecord { time, values }),
            old(self).records@.len() == old(self).capacity ==> final(self).records@
                == old(self).records@.drop_first().push(SignalRecord { time, values }),
            forall|c: int| 0 <= c < old(self).channels ==> #[trigger] final(self).global_max@[c]
                == if values@[c] > old(self).global_max@[c] { values@[c] } else { old(self).global_max@[c] },
    {
        let mut c: usize = 0;
        while c < self.channels
            invariant
                c <= self.channels,
                self.channels == old(self).channels,
                self.global_max@.len() == self.channels,
                values@.len() == self.channels,
                forall|j: int| 0 <= j < c ==> #[trigger] self.global_max@[j]
                    == if values@[j] > old(self).global_max@[j] { values@[j] } else { old(self).global_max@[j] },
                forall|j: int| c <= j < self.channels ==> #[trigger] self.global_max@[j] == old(self).global_max@[j],
                self.records == old(self).records,
                self.capacity == old(self).capacity,
            decreases self.channels - c,
        {
            if values[c] > self.global_max[c] {
                self.global_max.set(c, values[c]);
            }
            c += 1;
        }
        if self.records.len() >= self.capacity {
            self.records.pop_front();
        }
        self.records.push_back(SignalRecord { time, values });
        proof {
            let recs = self.records@;
            assert forall|i: int| 0 <= i < recs.len() implies (#[trigger] recs[i]).values@.len() == self.channels by {
                if i < recs.len() - 1 {
                    if old(self).records@.len() == old(self).capacity {
                        assert(recs[i] == old(self).records@[i + 1]);
                    } else {
                        assert(recs[i] == old(self).records@[i]);
                    }
                }
            }
            if old(self).records@.len() == old(self).capacity {
                assert(old(self).records@.subrange(1, old(self).records@.len() as int) =~= old(self).records@.drop_first());
            }
        }
    }

    /// The newest record, if any.
    pub fn last(&self) -> (r: Option<(u64, Vec<u64>)>)
        requires
            self.wf(),
        ensures
            self.records@.len() == 0 ==> r is None,
            self.records@.len() > 0 ==> (r matches Some((t, v)) && t == self.records@.last().time
                && v@ == self.records@.last().values@),
    {
        let n = self.records.len();
        if n == 0 {
            None
        } else {
            let rec = &self.records[n - 1];
            Some((rec.time, rec.values.clone()))
        }
    }

    /// The per-channel maxima of everything appended since the start or the
    /// last reset.
    pub fn global_max(&self) -> (r: Vec<u64>)
        ensures
            r@ == self.global_max@,
    {
        self.global_max.clone()
    }

    /// Sets the per-channel maxima since the start back to zero.
    pub fn reset_global_max(&mut self)
        requires
            old(self).wf(),
        ensures
            final(self).wf(),
            final(self).records@ == old(self).records@,
            final(self).capacity == old(self).capacity,
            final(self).channels == old(self).channels,
            final(self).global_max@.len() == old(self).channels,
            forall|c: int| 0 <= c < old(self).channels ==> #[trigger] final(self).global_max@[c] == 0,
    {
        self.global_max = vec![0u64; self.channels];
    }
}


proof fn lemma_count_bounds(recs: Seq<SignalRecord>, t: int, k: int)
    ensures
        0 <= count_upto(recs, t, k),
        k >= 0 ==> count_upto(recs, t, k) <= k,
    decreases k,
{
    if k > 0 {
        lemma_count_bounds(recs, t, k - 1);
    }
}

proof fn lemma_sum_bounds(recs: Seq<SignalRecord>, t: int, c: int, k: int)
    requires
        0 <= k <= recs.len(),
        forall|i: int| 0 <= i < recs.len() ==> (#[trigger] recs[i]).values@.len() > c,
        c >= 0,
    ensures
        0 <= sum_upto(recs, t, c, k) <= count_upto(recs, t, k) * 18446744073709551615,
    decreases k,
{
    if k > 0 {
        lemma_sum_bounds(recs, t, c, k - 1);
        let v = recs[k - 1].values@[c];
        assert(v <= 18446744073709551615u64);
    }
}

/// Floor of the square root of `x`.
pub fn isqrt(x: u128) -> (r: u64)
    requires
        x < 1208925819614629174706176,
    ensures
        is_floor_sqrt(r as int, x as int),
{
    let mut lo: u128 = 0;
    let mut hi: u128 = 1099511627776;
    assert(hi * hi == 1208925819614629174706176) by (nonlinear_arith)
        requires hi == 1099511627776u128;
    while hi - lo > 1
        invariant
            lo < hi <= 1099511627776,
            lo * lo <= x < hi * hi,
        decreases hi - lo,
    {
        let mid: u128 = lo + (hi - lo) / 2;
        assert(mid * mid <= 1099511627776 * 1099511627776) by (nonlinear_arith)
            requires 0 <= mid <= 1099511627776;
        if mid * mid <= x {
            lo = mid;
        } else {
            hi = mid;
        }
    }
    assert(hi == lo + 1);
    lo as u64
}

impl SignalRing {
    /// The per-channel maximum over the records with a time at or after `t`,
    /// with the time of the newest of them; `None` when there is none.
    pub fn max_since(&self, t: u64) -> (r: Option<SignalRecord>)
        requires
            self.wf(),
        ensures
            r is None <==> count_upto(self.records@, t as int, self.records@.len() as int) == 0,
            r matches Some(rec) ==> {
                &&& rec.time as int == last_time_upto(self.records@, t as int, self.records@.len() as int)
                &&& rec.values@.len() == self.channels
                &&& forall|c: int| 0 <= c < self.channels ==> #[trigger] rec.values@[c] as int
                    == max_upto(self.records@, t as int, c, self.records@.len() as int)
            },
    {
        let ghost recs = self.records@;
        let n = self.records.len();
        let mut acc: Vec<u64> = vec![0u64; self.channels];
        let mut found = false;
        let mut last_t: u64 = 0;
        let mut i: usize = 0;
        while i < n
            invariant
                self.wf(),
                recs == self.records@,
                n == recs.len(),
                i <= n,
                acc@.len() == self.channels,
                found == (count_upto(recs, t as int, i as int) > 0),
                last_t as int == last_time_upto(recs, t as int, i as int),
                forall|c: int| 0 <= c < self.channels ==> #[trigger] acc@[c] as int == max_upto(recs, t as int, c, i as int),
            decreases n - i,
        {
            proof {
                lemma_count_bounds(recs, t as int, i as int);
            }
            let rec = &self.records[i];
            assert(rec.values@.len() == self.channels);
            if rec.time >= t {
                found = true;
                last_t = rec.time;
                let mut c: usize = 0;
                while c < self.channels
                    invariant
                        self.wf(),
                        recs == self.records@,
                        i < n,
                        n == recs.len(),
                        *rec == recs[i as int],
                        rec.time >= t,
                        rec.values@.len() == self.channels,
                        c <= self.channels,
                        acc@.len() == self.channels,
                        forall|j: int| 0 <= j < c ==> #[trigger] acc@[j] as int == max_upto(recs, t as int, j, i + 1),
                        forall|j: int| c <= j < self.channels ==> #[trigger] acc@[j] as int == max_upto(recs, t as int, j, i as int),
                    decreases self.channels - c,
                {
                    if rec.values[c] > acc[c] {
                        acc.set(c, rec.values[c]);
                    }
                    c += 1;
                }
            } else {
                assert forall|c: int| 0 <= c < self.channels implies #[trigger] acc@[c] as int == max_upto(recs, t as int, c, i + 1) by {
                    assert(max_upto(recs, t as int, c, i + 1) == max_upto(recs, t as int, c, i as int));
                }
            }
            i += 1;
        }
        proof {
            lemma_count_bounds(recs, t as int, n as int);
        }
        if found {
            Some(SignalRecord { time: last_t, values: acc })
        } else {
            None
        }
    }

    /// The per-channel square root of the mean over the records with a time at
    /// or after `t`, with the time of the newest of them; `None` when there
    /// is none. For an rms ring, whose records hold mean squares, this is the
    /// rms level over that window.
    pub fn average_sqrt_since(&self, t: u64) -> (r: Option<SignalRecord>)
        requires
            self.wf(),
        ensures
            r is None <==> count_upto(self.records@, t as int, self.records@.len() as int) == 0,
            r matches Some(rec) ==> {
                &&& rec.time as int == last_time_upto(self.records@, t as int, self.records@.len() as int)
                &&& rec.values@.len() == self.channels
                &&& forall|c: int| 0 <= c < self.channels ==> is_floor_sqrt(#[trigger] rec.values@[c] as int,
                    sum_upto(self.records@, t as int, c, self.records@.len() as int)
                        / count_upto(self.records@, t as int, self.records@.len() as int))
            },
    {
        let ghost recs = self.records@;
        let n = self.records.len();
        let mut sums: Vec<u128> = vec![0u128; self.channels];
        let mut count: usize = 0;
        let mut last_t: u64 = 0;
        let mut i: usize = 0;
        while i < n
            invariant
                self.wf(),
                recs == self.records@,
                n == recs.len(),
                i <= n,
                sums@.len() == self.channels,
                count as int == count_upto(recs, t as int, i as int),
                last_t as int == last_time_upto(recs, t as int, i as int),
                forall|c: int| 0 <= c < self.channels ==> #[trigger] sums@[c] as int == sum_upto(recs, t as int, c, i as int),
            decreases n - i,
        {
            proof {
                lemma_count_bounds(recs, t as int, i as int);
            }
            let rec = &self.records[i];
            assert(rec.values@.len() == self.channels);
            if rec.time >= t {
                count += 1;
                last_t = rec.time;
                let mut c: usize = 0;
                while c < self.channels
                    invariant
                        self.wf(),
                        recs == self.records@,
                        i < n,
                        n == recs.len(),
                        *rec == recs[i as int],
                        rec.time >= t,
                        rec.values@.len() == self.channels,
                        c <= self.channels,
                        sums@.len() == self.channels,
                        count_upto(recs, t as int, i as int) <= i,
                        forall|j: int| 0 <= j < c ==> #[trigger] sums@[j] as int == sum_upto(recs, t as int, j, i + 1),
                        forall|j: int| c <= j < self.channels ==> #[trigger] sums@[j] as int == sum_upto(recs, t as int, j, i as int),
                    decreases self.channels - c,
                {
                    proof {
                        lemma_sum_bounds(recs, t as int, c as int, i as int);
                        assert(n as int <= 18446744073709551615);
                        assert(count_upto(recs, t as int, i as int) * 18446744073709551615
                            <= 18446744073709551614 * 18446744073709551615)
                            by (nonlinear_arith)
                            requires count_upto(recs, t as int, i as int) <= i, i < n, n <= 18446744073709551615;
                    }
                    let s = sums[c] + rec.values[c] as u128;
                    sums.set(c, s);
                    c += 1;
                }
            } else {
                assert forall|c: int| 0 <= c < self.channels implies #[trigger] sums@[c] as int == sum_upto(recs, t as int, c, i + 1) by {
                    assert(sum_upto(recs, t as int, c, i + 1) == sum_upto(recs, t as int, c, i as int));
                }
            }
            i += 1;
        }
        proof {
            lemma_count_bounds(recs, t as int, n as int);
        }
        if count == 0 {
            return None;
        }
        let mut out: Vec<u64> = Vec::new();
        let mut c: usize = 0;
        while c < self.channels
            invariant
                self.wf(),
                recs == self.records@,
                n == recs.len(),
                sums@.len() == self.channels,
                count as int == count_upto(recs, t as int, n as int),
                count >= 1,
                count <= n,
                c <= self.channels,
                out@.len() == c,
                forall|j: int| 0 <= j < self.channels ==> #[trigger] sums@[j] as int == sum_upto(recs, t as int, j, n as int),
                forall|j: int| 0 <= j < c ==> is_floor_sqrt(#[trigger] out@[j] as int,
                    sum_upto(recs, t as int, j, n as int) / count_upto(recs, t as int, n as int)),
            decreases self.channels - c,
        {
            proof {
                lemma_sum_bounds(recs, t as int, c as int, n as int);
                assert((sums@[c as int] as int) / (count as int) <= 18446744073709551615) by (nonlinear_arith)
                    requires sums@[c as int] <= count * 18446744073709551615, count >= 1, sums@[c as int] >= 0;
            }
            let mean: u128 = sums[c] / count as u128;
            out.push(isqrt(mean));
            c += 1;
        }
        Some(SignalRecord { time: last_t, values: out })
    }
}


/// The maximum since `t` is the componentwise maximum over the records with a
/// time at or after `t`: it is at least each of them, and equals one of them
/// whenever there is one.
pub proof fn lemma_max_since_is_max(recs: Seq<SignalRecord>, t: int, c: int, k: int)
    requires
        0 <= k <= recs.len(),
        0 <= c,
        forall|i: int| 0 <= i < recs.len() ==> (#[trigger] recs[i]).values@.len() > c,
    ensures
        forall|i: int| 0 <= i < k && recs[i].time >= t ==> #[trigger] recs[i].values@[c] <= max_upto(recs, t, c, k),
        count_upto(recs, t, k) > 0 ==> exists|i: int| 0 <= i < k && recs[i].time >= t
            && #[trigger] recs[i].values@[c] == max_upto(recs, t, c, k),
    decreases k,
{
    if k > 0 {
        lemma_max_since_is_max(recs, t, c, k - 1);
        lemma_count_bounds(recs, t, k - 1);
        if count_upto(recs, t, k) > 0 {
            if !(recs[k - 1].time >= t && recs[k - 1].values@[c] > max_upto(recs, t, c, k - 1)) {
                if recs[k - 1].time >= t && count_upto(recs, t, k - 1) == 0 {
                    assert(max_upto(recs, t, c, k - 1) == 0) by {
                        lemma_max_zero_when_empty(recs, t, c, k - 1);
                    }
                    assert(recs[k - 1].values@[c] == max_upto(recs, t, c, k));
                }
            }
        }
    }
}

proof fn lemma_max_zero_when_empty(recs: Seq<SignalRecord>, t: int, c: int, k: int)
    requires
        count_upto(recs, t, k) == 0,
        k <= recs.len(),
    ensures
        max_upto(recs, t, c, k) == 0,
    decreases k,
{
    if k > 0 {
        lemma_count_bounds(recs, t, k - 1);
        lemma_max_zero_when_empty(recs, t, c, k - 1);
    }
}

} // verus!
