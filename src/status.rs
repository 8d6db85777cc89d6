use vstd::prelude::*;
use crate::signal::{isqrt, SignalRing, count_upto, max_upto, sum_upto, last_time_upto, is_floor_sqrt};

verus! {

/// Processing state of the pipeline as seen from the capture side.
#[derive(Debug, Clone, Copy, PartialEq, Eq, Structural)]
pub enum ProcessingState {
    Running,
    Paused,
    Inactive,
    Starting,
    Stalled,
}

/// Telemetry of the capture side. The rate adjustment is in parts per million.
pub struct CaptureStatus {
    pub measured_samplerate: usize,
    pub update_interval: usize,
    pub rate_adjust: i64,
    pub state: ProcessingState,
    pub signal_rms: SignalRing,
    pub signal_peak: SignalRing,
}

/// Telemetry of the playback side. The buffer level is in frames.
pub struct PlaybackStatus {
    pub buffer_level: usize,
    pub clipped_samples: usize,
    pub update_interval: usize,
    pub signal_rms: SignalRing,
    pub signal_peak: SignalRing,
}

impl CaptureStatus {
    pub open spec fn wf(&self) -> bool {
        self.signal_rms.wf() && self.signal_peak.wf()
    }
}

impl PlaybackStatus {
    pub open spec fn wf(&self) -> bool {
        self.signal_rms.wf() && self.signal_peak.wf()
    }

    /// Adds the samples clipped in one chunk to the counter, which stops at
    /// the largest `usize`.
    pub fn add_clipped_samples(&mut self, n: usize)
        ensures
            final(self).clipped_samples as int == if old(self).clipped_samples + n > usize::MAX {
                usize::MAX as int
            } else {
                old(self).clipped_samples + n
            },
            final(self).buffer_level == old(self).buffer_level,
            final(self).update_interval == old(self).update_interval,
            final(self).signal_rms == old(self).signal_rms,
            final(self).signal_peak == old(self).signal_peak,
    {
        self.clipped_samples = self.clipped_samples.saturating_add(n);
    }

    /// Starts counting clipped samples again from zero.
    pub fn reset_clipped_samples(&mut self)
        ensures
            final(self).clipped_samples == 0,
            final(self).buffer_level == old(self).buffer_level,
            final(self).update_interval == old(self).update_interval,
            final(self).signal_rms == old(self).signal_rms,
            final(self).signal_peak == old(self).signal_peak,
    {
        self.clipped_samples = 0;
    }
}

/// Where the control surface listens.
pub struct ServerParameters<'a> {
    pub address: &'a str,
    pub port: usize,
}

/// What one control-surface connection remembers: the time of the newest
/// record it has been sent from each ring.
#[derive(Debug, Clone, Copy, PartialEq, Eq, Structural)]
pub struct LocalData {
    pub last_cap_rms_time: u64,
    pub last_cap_peak_time: u64,
    pub last_pb_rms_time: u64,
    pub last_pb_peak_time: u64,
}

impl LocalData {
    /// A connection opened at time `now`: it has been sent nothing before it.
    pub fn new(now: u64) -> (r: Self)
        ensures
            r.last_cap_rms_time == now,
            r.last_cap_peak_time == now,
            r.last_pb_rms_time == now,
            r.last_pb_peak_time == now,
    {
        LocalData { last_cap_rms_time: now, last_cap_peak_time: now, last_pb_rms_time: now, last_pb_peak_time: now }
    }
}

/// The per-channel maxima since `t` of a peak ring, empty where there is no record.
pub open spec fn peak_values_ok(ring: SignalRing, t: int, v: Seq<u64>) -> bool {
    let recs = ring.records@;
    let n = recs.len() as int;
    if count_upto(recs, t, n) == 0 {
        v.len() == 0
    } else {
        &&& v.len() == ring.channels
        &&& forall|c: int| 0 <= c < ring.channels ==> #[trigger] v[c] as int == max_upto(recs, t, c, n)
    }
}

/// The per-channel rms since `t` of an rms ring, empty where there is no record.
pub open spec fn rms_values_ok(ring: SignalRing, t: int, v: Seq<u64>) -> bool {
    let recs = ring.records@;
    let n = recs.len() as int;
    if count_upto(recs, t, n) == 0 {
        v.len() == 0
    } else {
        &&& v.len() == ring.channels
        &&& forall|c: int| 0 <= c < ring.channels ==> is_floor_sqrt(#[trigger] v[c] as int,
            sum_upto(recs, t, c, n) / count_upto(recs, t, n))
    }
}

/// The time a connection remembers after a query since `t`: the newest record
/// sent, or `t` itself when nothing was sent.
pub open spec fn next_mark(ring: SignalRing, t: int) -> int {
    let recs = ring.records@;
    let n = recs.len() as int;
    if count_upto(recs, t, n) == 0 {
        t
    } else {
        last_time_upto(recs, t, n)
    }
}

fn peak_since(ring: &SignalRing, t: u64) -> (r: (Vec<u64>, u64))
    requires
        ring.wf(),
    ensures
        peak_values_ok(*ring, t as int, r.0@),
        r.1 as int == next_mark(*ring, t as int),
{
    match ring.max_since(t) {
        Some(rec) => (rec.values, rec.time),
        None => (Vec::new(), t),
    }
}

fn rms_since(ring: &SignalRing, t: u64) -> (r: (Vec<u64>, u64))
    requires
        ring.wf(),
    ensures
        rms_values_ok(*ring, t as int, r.0@),
        r.1 as int == next_mark(*ring, t as int),
{
    match ring.average_sqrt_since(t) {
        Some(rec) => (rec.values, rec.time),
        None => (Vec::new(), t),
    }
}

fn newest(ring: &SignalRing) -> (r: Vec<u64>)
    requires
        ring.wf(),
    ensures
        ring.records@.len() == 0 ==> r@.len() == 0,
        ring.records@.len() > 0 ==> r@ == ring.records@.last().values@,
{
    match ring.last() {
        Some((_, v)) => v,
        None => Vec::new(),
    }
}

/// Playback peak levels per channel over the records since time `t`.
pub fn playback_signal_peak_since(status: &PlaybackStatus, t: u64) -> (r: Vec<u64>)
    requires
        status.wf(),
    ensures
        peak_values_ok(status.signal_peak, t as int, r@),
{
    peak_since(&status.signal_peak, t).0
}

/// Playback rms levels per channel over the records since time `t`.
pub fn playback_signal_rms_since(status: &PlaybackStatus, t: u64) -> (r: Vec<u64>)
    requires
        status.wf(),
    ensures
        rms_values_ok(status.signal_rms, t as int, r@),
{
    rms_since(&status.signal_rms, t).0
}

/// Capture peak levels per channel over the records since time `t`.
pub fn capture_signal_peak_since(status: &CaptureStatus, t: u64) -> (r: Vec<u64>)
    requires
        status.wf(),
    ensures
        peak_values_ok(status.signal_peak, t as int, r@),
{
    peak_since(&status.signal_peak, t).0
}

/// Capture rms levels per channel over the records since time `t`.
pub fn capture_signal_rms_since(status: &CaptureStatus, t: u64) -> (r: Vec<u64>)
    requires
        status.wf(),
    ensures
        rms_values_ok(status.signal_rms, t as int, r@),
{
    rms_since(&status.signal_rms, t).0
}

/// Playback peak levels since the newest record this connection was sent;
/// remembers the newest record sent now.
pub fn playback_signal_peak_since_last(status: &PlaybackStatus, local_data: &mut LocalData) -> (r: Vec<u64>)
    requires
        status.wf(),
    ensures
        peak_values_ok(status.signal_peak, old(local_data).last_pb_peak_time as int, r@),
        final(local_data).last_pb_peak_time as int == next_mark(status.signal_peak, old(local_data).last_pb_peak_time as int),
        *final(local_data) == (LocalData { last_pb_peak_time: final(local_data).last_pb_peak_time, ..*old(local_data) }),
{
    let (v, t) = peak_since(&status.signal_peak, local_data.last_pb_peak_time);
    local_data.last_pb_peak_time = t;
    v
}

/// Playback rms levels since the newest record this connection was sent;
/// remembers the newest record sent now.
pub fn playback_signal_rms_since_last(status: &PlaybackStatus, local_data: &mut LocalData) -> (r: Vec<u64>)
    requires
        status.wf(),
    ensures
        rms_values_ok(status.signal_rms, old(local_data).last_pb_rms_time as int, r@),
        final(local_data).last_pb_rms_time as int == next_mark(status.signal_rms, old(local_data).last_pb_rms_time as int),
        *final(local_data) == (LocalData { last_pb_rms_time: final(local_data).last_pb_rms_time, ..*old(local_data) }),
{
    let (v, t) = rms_since(&status.signal_rms, local_data.last_pb_rms_time);
    local_data.last_pb_rms_time = t;
    v
}

/// Capture peak levels since the newest record this connection was sent;
/// remembers the newest record sent now.
pub fn capture_signal_peak_since_last(status: &CaptureStatus, local_data: &mut LocalData) -> (r: Vec<u64>)
    requires
        status.wf(),
    ensures
        peak_values_ok(status.signal_peak, old(local_data).last_cap_peak_time as int, r@),
        final(local_data).last_cap_peak_time as int == next_mark(status.signal_peak, old(local_data).last_cap_peak_time as int),
        *final(local_data) == (LocalData { last_cap_peak_time: final(local_data).last_cap_peak_time, ..*old(local_data) }),
{
    let (v, t) = peak_since(&status.signal_peak, local_data.last_cap_peak_time);
    local_data.last_cap_peak_time = t;
    v
}

/// Capture rms levels since the newest record this connection was sent;
/// remembers the newest record sent now.
pub fn capture_signal_rms_since_last(status: &CaptureStatus, local_data: &mut LocalData) -> (r: Vec<u64>)
    requires
        status.wf(),
    ensures
        rms_values_ok(status.signal_rms, old(local_data).last_cap_rms_time as int, r@),
        final(local_data).last_cap_rms_time as int == next_mark(status.signal_rms, old(local_data).last_cap_rms_time as int),
        *final(local_data) == (LocalData { last_cap_rms_time: final(local_data).last_cap_rms_time, ..*old(local_data) }),
{
    let (v, t) = rms_since(&status.signal_rms, local_data.last_cap_rms_time);
    local_data.last_cap_rms_time = t;
    v
}

/// The newest playback peak levels, empty before the first record.
pub fn playback_signal_peak(status: &PlaybackStatus) -> (r: Vec<u64>)
    requires
        status.wf(),
    ensures
        status.signal_peak.records@.len() == 0 ==> r@.len() == 0,
        status.signal_peak.records@.len() > 0 ==> r@ == status.signal_peak.records@.last().values@,
{
    newest(&status.signal_peak)
}

/// The newest playback rms levels (square roots of the newest record's mean
/// squares), empty before the first record.
pub fn playback_signal_rms(status: &PlaybackStatus) -> (r: Vec<u64>)
    requires
        status.wf(),
    ensures
        newest_sqrt_ok(status.signal_rms, r@),
{
    newest_sqrt(&status.signal_rms)
}

/// The newest capture peak levels, empty before the first record.
pub fn capture_signal_peak(status: &CaptureStatus) -> (r: Vec<u64>)
    requires
        status.wf(),
    ensures
        status.signal_peak.records@.len() == 0 ==> r@.len() == 0,
        status.signal_peak.records@.len() > 0 ==> r@ == status.signal_peak.records@.last().values@,
{
    newest(&status.signal_peak)
}

/// The newest capture rms levels, empty before the first record.
pub fn capture_signal_rms(status: &CaptureStatus) -> (r: Vec<u64>)
    requires
        status.wf(),
    ensures
        newest_sqrt_ok(status.signal_rms, r@),
{
    newest_sqrt(&status.signal_rms)
}

/// The per-channel square roots of the newest record, empty when there is none.
pub open spec fn newest_sqrt_ok(ring: SignalRing, v: Seq<u64>) -> bool {
    if ring.records@.len() == 0 {
        v.len() == 0
    } else {
        &&& v.len() == ring.channels
        &&& forall|c: int| 0 <= c < ring.channels ==> is_floor_sqrt(#[trigger] v[c] as int,
            ring.records@.last().values@[c] as int)
    }
}

fn newest_sqrt(ring: &SignalRing) -> (r: Vec<u64>)
    requires
        ring.wf(),
    ensures
        newest_sqrt_ok(*ring, r@),
{
    let n = ring.records.len();
    let mut out: Vec<u64> = Vec::new();
    if n == 0 {
        return out;
    }
    let rec = &ring.records[n - 1];
    assert(rec.values@.len() == ring.channels);
    let mut c: usize = 0;
    while c < ring.channels
        invariant
            n == ring.records@.len(),
            n >= 1,
            *rec == ring.records@.last(),
            rec.values@.len() == ring.channels,
            c <= ring.channels,
            out@.len() == c,
            forall|j: int| 0 <= j < c ==> is_floor_sqrt(#[trigger] out@[j] as int, rec.values@[j] as int),
        decreases ring.channels - c,
    {
        out.push(isqrt(rec.values[c] as u128));
        c += 1;
    }
    out
}

/// The playback peak levels since the start or the last reset.
pub fn playback_signal_global_peak(status: &PlaybackStatus) -> (r: Vec<u64>)
    ensures
        r@ == status.signal_peak.global_max@,
{
    status.signal_peak.global_max()
}

/// The capture peak levels since the start or the last reset.
pub fn capture_signal_global_peak(status: &CaptureStatus) -> (r: Vec<u64>)
    ensures
        r@ == status.signal_peak.global_max@,
{
    status.signal_peak.global_max()
}

/// Restarts the playback peak levels since the start at zero.
pub fn reset_playback_signal_global_peak(status: &mut PlaybackStatus)
    requires
        old(status).wf(),
    ensures
        final(status).wf(),
        final(status).signal_peak.records@ == old(status).signal_peak.records@,
        final(status).signal_peak.channels == old(status).signal_peak.channels,
        final(status).signal_peak.global_max@ == Seq::new(old(status).signal_peak.channels as nat, |c: int| 0u64),
        final(status).signal_rms == old(status).signal_rms,
        final(status).buffer_level == old(status).buffer_level,
        final(status).clipped_samples == old(status).clipped_samples,
        final(status).update_interval == old(status).update_interval,
{
    status.signal_peak.reset_global_max();
    proof {
        assert(status.signal_peak.global_max@ =~= Seq::new(old(status).signal_peak.channels as nat, |c: int| 0u64));
    }
}

/// Restarts the capture peak levels since the start at zero.
pub fn reset_capture_signal_global_peak(status: &mut CaptureStatus)
    requires
        old(status).wf(),
    ensures
        final(status).wf(),
        final(status).signal_peak.records@ == old(status).signal_peak.records@,
        final(status).signal_peak.channels == old(status).signal_peak.channels,
        final(status).signal_peak.global_max@ == Seq::new(old(status).signal_peak.channels as nat, |c: int| 0u64),
        final(status).signal_rms == old(status).signal_rms,
        final(status).measured_samplerate == old(status).measured_samplerate,
        final(status).update_interval == old(status).update_interval,
        final(status).rate_adjust == old(status).rate_adjust,
        final(status).state == old(status).state,
{
    status.signal_peak.reset_global_max();
    proof {
        assert(status.signal_peak.global_max@ =~= Seq::new(old(status).signal_peak.channels as nat, |c: int| 0u64));
    }
}

} // verus!
