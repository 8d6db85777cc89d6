use vstd::prelude::*;

verus! {

/// Unity speed, in parts per million.
pub const UNITY_PPM: i64 = 1000000;

/// Largest correction the controller applies, in parts per million (0.5 %).
pub const MAX_ADJUST_PPM: i64 = 5000;

/// Bound on the integrator, in the controller's internal error units; it is
/// far beyond the point where the output clamp takes over.
pub const ACCUMULATOR_LIMIT: i128 = 1152921504606846976;

pub open spec fn pow4(x: int) -> int {
    x * x * x * x
}

/// Denominator of the set-point and error values: `ramp_steps^4`, or 1
/// when the controller does not ramp.
pub open spec fn ramp_scale(n: int) -> int {
    if n == 0 {
        1
    } else {
        pow4(n)
    }
}

/// The set-point at ramp step `s` of a ramp from `start` to `target` over `n`
/// steps, times `n^4`: `start + (target - start) * (1 - ((n - s) / n)^4)`.
pub open spec fn ramp_target_num(start: int, target: int, n: int, s: int) -> int {
    start * pow4(n) + (target - start) * (pow4(n) - pow4(n - s))
}

pub open spec fn abs_int(x: int) -> int {
    if x < 0 {
        -x
    } else {
        x
    }
}

pub open spec fn clamp_int(x: int, lo: int, hi: int) -> int {
    if x < lo {
        lo
    } else if x > hi {
        hi
    } else {
        x
    }
}

/// Integer division rounding toward zero.
pub open spec fn div_toward_zero(a: int, d: int) -> int {
    if a >= 0 {
        a / d
    } else {
        -((-a) / d)
    }
}

/// A PI controller that holds the playback buffer at a target fill level by
/// returning a speed factor for the capture side, in parts per million.
///
/// Gains and the ramp trigger are fractions in parts per million; levels are
/// in frames; the update interval is in milliseconds.
pub struct PIRateController {
    pub target_level: u32,
    pub interval_ms: u32,
    pub samplerate: u32,
    pub k_p: u32,
    pub k_i: u32,
    pub ramp_steps: u8,
    pub ramp_trigger_limit: u32,
    pub ramp_start: u32,
    pub ramp_step: u8,
    /// Sum of the errors so far, each times `ramp_scale(ramp_steps)`.
    pub accumulated: i128,
}

impl PIRateController {
    pub open spec fn wf(&self) -> bool {
        &&& self.interval_ms >= 1
        &&& self.samplerate >= 1
        &&& self.ramp_step <= self.ramp_steps
        &&& -ACCUMULATOR_LIMIT <= self.accumulated <= ACCUMULATOR_LIMIT
    }

    /// A deviation large enough to start a new ramp once the last one is done:
    /// `|target - level| / target > ramp_trigger_limit`.
    pub open spec fn needs_rearm(&self, level: int) -> bool {
        &&& self.ramp_step >= self.ramp_steps
        &&& abs_int(self.target_level - level) * 1000000 > self.ramp_trigger_limit * self.target_level
    }

    /// Ramp step and ramp start after the re-arm and start-of-ramp rules.
    pub open spec fn armed(&self, level: int) -> (int, int) {
        let (step, start) = if self.needs_rearm(level) {
            (0int, level)
        } else {
            (self.ramp_step as int, self.ramp_start as int)
        };
        if step == 0 {
            (step, level)
        } else {
            (step, start)
        }
    }

    /// The new ramp step and the set-point (times the ramp scale) for an update.
    /// The set-point is taken at the ramp step before it advances, so the
    /// first update of a ramp aims at the level the ramp starts from.
    pub open spec fn set_point(&self, level: int) -> (int, int) {
        let (step, start) = self.armed(level);
        let n = self.ramp_steps as int;
        if step < n {
            (step + 1, ramp_target_num(start, self.target_level as int, n, step))
        } else {
            (step, self.target_level * ramp_scale(n))
        }
    }

    /// The error of a measured level against the current set-point, times the ramp scale.
    pub open spec fn error_num(&self, level: int) -> int {
        level * ramp_scale(self.ramp_steps as int) - self.set_point(level).1
    }

    pub open spec fn next_accumulated(&self, level: int) -> int {
        clamp_int(self.accumulated + self.error_num(level), -ACCUMULATOR_LIMIT as int, ACCUMULATOR_LIMIT as int)
    }

    /// `k_p * rel_err + k_i * accumulated`, in parts per million, before clamping.
    pub open spec fn raw_output(&self, level: int) -> int {
        let num = self.k_p * self.error_num(level) * 1000 + self.k_i * self.next_accumulated(level) * self.interval_ms;
        let den = ramp_scale(self.ramp_steps as int) * self.interval_ms * self.samplerate;
        div_toward_zero(num, den)
    }

    /// The speed factor returned for a measured level, in parts per million.
    pub open spec fn speed(&self, level: int) -> int {
        UNITY_PPM - clamp_int(self.raw_output(level), -MAX_ADJUST_PPM as int, MAX_ADJUST_PPM as int)
    }

    /// The controller after an update with a measured level.
    pub open spec fn after(&self, level: int) -> PIRateController {
        PIRateController {
            ramp_start: self.armed(level).1 as u32,
            ramp_step: self.set_point(level).0 as u8,
            accumulated: self.next_accumulated(level) as i128,
            ..*self
        }
    }
}


proof fn lemma_pow4_bounds(x: int, n: int)
    requires
        0 <= x <= n <= 255,
    ensures
        0 <= pow4(x) <= pow4(n) <= 4228250625,
{
    assert(0 <= x * x <= n * n) by (nonlinear_arith)
        requires 0 <= x <= n;
    assert(0 <= x * x * x <= n * n * n) by (nonlinear_arith)
        requires 0 <= x <= n, 0 <= x * x <= n * n;
    assert(0 <= x * x * x * x <= n * n * n * n) by (nonlinear_arith)
        requires 0 <= x <= n, 0 <= x * x * x <= n * n * n;
    assert(n * n * n * n <= 255 * 255 * 255 * 255) by (nonlinear_arith)
        requires 0 <= n <= 255;
}

proof fn lemma_mul_bound(a: int, b: int, ba: int, bb: int)
    requires
        -ba <= a <= ba,
        -bb <= b <= bb,
    ensures
        -(ba * bb) <= a * b <= ba * bb,
{
    assert(-(ba * bb) <= a * b <= ba * bb) by (nonlinear_arith)
        requires -ba <= a <= ba, -bb <= b <= bb;
}

impl PIRateController {
    /// A controller with the given gains and ramp settings. The ramp starts at
    /// the target level with an empty integrator.
    pub fn new(
        samplerate: u32,
        interval_ms: u32,
        target_level: u32,
        k_p: u32,
        k_i: u32,
        ramp_steps: u8,
        ramp_trigger_limit: u32,
    ) -> (r: Self)
        requires
            samplerate >= 1,
            interval_ms >= 1,
        ensures
            r.wf(),
            r.samplerate == samplerate,
            r.interval_ms == interval_ms,
            r.target_level == target_level,
            r.k_p == k_p,
            r.k_i == k_i,
            r.ramp_steps == ramp_steps,
            r.ramp_trigger_limit == ramp_trigger_limit,
            r.ramp_start == target_level,
            r.ramp_step == 0,
            r.accumulated == 0,
    {
        PIRateController {
            target_level,
            interval_ms,
            samplerate,
            k_p,
            k_i,
            ramp_steps,
            ramp_trigger_limit,
            ramp_start: target_level,
            ramp_step: 0,
            accumulated: 0,
        }
    }

    /// A controller with `k_p = 0.2`, `k_i = 0.004`, 20 ramp steps and a ramp
    /// trigger at 33 % deviation.
    pub fn new_with_default_gains(samplerate: u32, interval_ms: u32, target_level: u32) -> (r: Self)
        requires
            samplerate >= 1,
            interval_ms >= 1,
        ensures
            r.wf(),
            r == Self::new_spec(samplerate, interval_ms, target_level, 200000, 4000, 20, 330000),
    {
        Self::new(samplerate, interval_ms, target_level, 200000, 4000, 20, 330000)
    }

    pub open spec fn new_spec(
        samplerate: u32,
        interval_ms: u32,
        target_level: u32,
        k_p: u32,
        k_i: u32,
        ramp_steps: u8,
        ramp_trigger_limit: u32,
    ) -> PIRateController {
        PIRateController {
            target_level,
            interval_ms,
            samplerate,
            k_p,
            k_i,
            ramp_steps,
            ramp_trigger_limit,
            ramp_start: target_level,
            ramp_step: 0,
            accumulated: 0,
        }
    }

    /// Updates the controller with a measured buffer level in frames and
    /// returns the speed factor for the capture side, in parts per million.
    pub fn next(&mut self, level: u32) -> (r: i64)
        requires
            old(self).wf(),
        ensures
            final(self).wf(),
            *final(self) == old(self).after(level as int),
            r as int == old(self).speed(level as int),
            UNITY_PPM - MAX_ADJUST_PPM <= r <= UNITY_PPM + MAX_ADJUST_PPM,
    {
        let ghost c = *self;
        let t: i128 = self.target_level as i128;
        let lv: i128 = level as i128;
        let n: i128 = self.ramp_steps as i128;
        let diff: i128 = if t >= lv { t - lv } else { lv - t };
        assert(diff == abs_int(c.target_level - level));
        proof {
            lemma_mul_bound(self.ramp_trigger_limit as int, t as int, 4294967295, 4294967295);
        }
        if self.ramp_step >= self.ramp_steps && diff * 1000000 > (self.ramp_trigger_limit as i128) * t {
            self.ramp_start = level;
            self.ramp_step = 0;
        }
        if self.ramp_step == 0 {
            self.ramp_start = level;
        }
        assert(self.ramp_step as int == c.armed(level as int).0);
        assert(self.ramp_start as int == c.armed(level as int).1);
        proof {
            lemma_pow4_bounds(n as int, n as int);
            assert(0 <= n * n <= 65025 && 0 <= n * n * n <= 16581375) by (nonlinear_arith)
                requires 0 <= n <= 255;
            if n > 0 {
                assert(n * n * n * n >= 1) by (nonlinear_arith)
                    requires n >= 1;
            }
        }
        let q: i128 = if n == 0 { 1 } else { n * n * n * n };
        assert(q == ramp_scale(n as int));
        let target_num: i128 = if self.ramp_step < self.ramp_steps {
            let rem: i128 = n - self.ramp_step as i128;
            self.ramp_step = self.ramp_step + 1;
            let rs: i128 = self.ramp_start as i128;
            proof {
                lemma_pow4_bounds(rem as int, n as int);
                assert(0 <= rem * rem <= 65025 && 0 <= rem * rem * rem <= 16581375) by (nonlinear_arith)
                    requires 0 <= rem <= 255;
                lemma_mul_bound(rs as int, q as int, 4294967295, 4228250625);
                lemma_mul_bound((t - rs) as int, (q - pow4(rem as int)) as int, 4294967295, 4228250625);
            }
            let rem4: i128 = rem * rem * rem * rem;
            rs * q + (t - rs) * (q - rem4)
        } else {
            proof {
                lemma_mul_bound(t as int, q as int, 4294967295, 4228250625);
            }
            t * q
        };
        assert(self.ramp_step as int == c.set_point(level as int).0);
        assert(target_num as int == c.set_point(level as int).1);
        proof {
            lemma_mul_bound(lv as int, q as int, 4294967295, 4228250625);
        }
        let err: i128 = lv * q - target_num;
        assert(err as int == c.error_num(level as int));
        let sum: i128 = self.accumulated + err;
        let acc: i128 = if sum < -ACCUMULATOR_LIMIT {
            -ACCUMULATOR_LIMIT
        } else if sum > ACCUMULATOR_LIMIT {
            ACCUMULATOR_LIMIT
        } else {
            sum
        };
        self.accumulated = acc;
        let kp: i128 = self.k_p as i128;
        let ki: i128 = self.k_i as i128;
        let iv: i128 = self.interval_ms as i128;
        let fs: i128 = self.samplerate as i128;
        let ghost bound_e: int = 2 * 4294967295int * 4228250625int;
        proof {
            lemma_mul_bound(kp as int, err as int, 4294967295, bound_e);
            lemma_mul_bound((kp * err) as int, 1000, 4294967295int * bound_e, 1000);
            lemma_mul_bound(ki as int, acc as int, 4294967295, ACCUMULATOR_LIMIT as int);
            lemma_mul_bound((ki * acc) as int, iv as int, 4294967295int * ACCUMULATOR_LIMIT as int, 4294967295);
            lemma_mul_bound(q as int, iv as int, 4228250625, 4294967295);
            lemma_mul_bound((q * iv) as int, fs as int, 4228250625int * 4294967295int, 4294967295);
            assert(q * iv >= 1) by (nonlinear_arith)
                requires q >= 1, iv >= 1;
            assert(q * iv * fs >= 1) by (nonlinear_arith)
                requires q * iv >= 1, fs >= 1;
        }
        let num: i128 = kp * err * 1000 + ki * acc * iv;
        let den: i128 = q * iv * fs;
        let raw: i128 = if num >= 0 { num / den } else { -((-num) / den) };
        assert(raw as int == c.raw_output(level as int));
        let out: i128 = if raw < -(MAX_ADJUST_PPM as i128) {
            -(MAX_ADJUST_PPM as i128)
        } else if raw > MAX_ADJUST_PPM as i128 {
            MAX_ADJUST_PPM as i128
        } else {
            raw
        };
        (UNITY_PPM as i128 - out) as i64
    }
}


/// The speed factors returned for a sequence of measured levels, one update each.
pub open spec fn speeds(c: PIRateController, levels: Seq<int>) -> Seq<int>
    decreases levels.len(),
{
    if levels.len() == 0 {
        seq![]
    } else {
        seq![c.speed(levels[0])] + speeds(c.after(levels[0]), levels.drop_first())
    }
}

/// Whatever the state and the measured level, the speed factor lies in
/// [0.995, 1.005].
pub proof fn lemma_speed_bounds(c: PIRateController, level: int)
    ensures
        UNITY_PPM - MAX_ADJUST_PPM <= c.speed(level) <= UNITY_PPM + MAX_ADJUST_PPM,
{
}

/// A controller at rest at its target (empty integrator, ramp not started or
/// started at the target) that measures exactly the target level returns
/// unity speed and stays at rest.
pub proof fn lemma_rest_at_target(c: PIRateController)
    requires
        c.wf(),
        c.accumulated == 0,
        c.ramp_step == 0 || c.ramp_start == c.target_level,
    ensures
        c.speed(c.target_level as int) == UNITY_PPM,
        c.after(c.target_level as int).wf(),
        c.after(c.target_level as int).accumulated == 0,
        c.after(c.target_level as int).ramp_start == c.target_level,
{
    let t = c.target_level as int;
    assert(c.ramp_trigger_limit * c.target_level >= 0) by (nonlinear_arith);
    assert(!c.needs_rearm(t));
    assert(c.armed(t).1 == t);
    let n = c.ramp_steps as int;
    let (step, start) = c.armed(t);
    assert(start == t);
    if step < n {
        assert(ramp_scale(n) == pow4(n));
        assert(ramp_target_num(start, t, n, step) == t * pow4(n)) by (nonlinear_arith)
            requires start == t;
    }
    assert(c.set_point(t).1 == t * ramp_scale(n));
    assert(c.error_num(t) == 0);
    assert(c.next_accumulated(t) == 0);
    let num = c.k_p * c.error_num(t) * 1000 + c.k_i * c.next_accumulated(t) * c.interval_ms;
    assert(num == 0) by (nonlinear_arith)
        requires c.error_num(t) == 0, c.next_accumulated(t) == 0, num == c.k_p * c.error_num(t) * 1000 + c.k_i * c.next_accumulated(t) * c.interval_ms;
    let den = ramp_scale(n) * c.interval_ms * c.samplerate;
    if n > 0 {
        assert(pow4(n) >= 1) by (nonlinear_arith)
            requires n >= 1;
    }
    assert(den >= 1) by (nonlinear_arith)
        requires den == ramp_scale(n) * c.interval_ms * c.samplerate, ramp_scale(n) >= 1, c.interval_ms >= 1, c.samplerate >= 1;
    assert(0int / den == 0) by (nonlinear_arith)
        requires den >= 1;
    assert(c.raw_output(t) == 0);
}

/// Fed the target level on every update, a freshly built controller returns
/// exactly unity speed each time.
pub proof fn lemma_fixed_point(c: PIRateController, levels: Seq<int>)
    requires
        c.wf(),
        c.accumulated == 0,
        c.ramp_step == 0 || c.ramp_start == c.target_level,
        forall|i: int| 0 <= i < levels.len() ==> levels[i] == c.target_level,
    ensures
        speeds(c, levels).len() == levels.len(),
        forall|i: int| 0 <= i < levels.len() ==> speeds(c, levels)[i] == UNITY_PPM,
    decreases levels.len(),
{
    if levels.len() > 0 {
        lemma_rest_at_target(c);
        let rest = levels.drop_first();
        lemma_fixed_point(c.after(levels[0]), rest);
        assert forall|i: int| 0 <= i < levels.len() implies speeds(c, levels)[i] == UNITY_PPM by {
            if i > 0 {
                assert(speeds(c, levels)[i] == speeds(c.after(levels[0]), rest)[i - 1]);
            }
        }
    }
}

proof fn lemma_pow4_strict(x: int, y: int)
    requires
        0 <= y < x,
    ensures
        pow4(y) < pow4(x),
{
    assert(y * y < x * x) by (nonlinear_arith)
        requires 0 <= y < x;
    assert(y * y * y < x * x * x) by (nonlinear_arith)
        requires 0 <= y < x, 0 <= y * y < x * x;
    assert(y * y * y * y < x * x * x * x) by (nonlinear_arith)
        requires 0 <= y < x, 0 <= y * y * y < x * x * x;
}

/// During a ramp from `start` to `target` over `n` steps, the set-points at
/// steps 0 to n - 1 start at `start` and move strictly toward the target at
/// every step, staying short of it until the ramp is over.
pub proof fn lemma_ramp_monotone(start: int, target: int, n: int, s1: int, s2: int)
    requires
        0 <= s1 < s2 < n,
    ensures
        ramp_target_num(start, target, n, 0) == start * pow4(n),
        start < target ==> start * pow4(n) <= ramp_target_num(start, target, n, s1)
            < ramp_target_num(start, target, n, s2) < target * pow4(n),
        start > target ==> start * pow4(n) >= ramp_target_num(start, target, n, s1)
            > ramp_target_num(start, target, n, s2) > target * pow4(n),
{
    lemma_pow4_strict(n - s1, n - s2);
    lemma_pow4_strict(n - s2, 0);
    let a = pow4(n - s1);
    let b = pow4(n - s2);
    let p = pow4(n);
    if s1 > 0 {
        lemma_pow4_strict(n, n - s1);
    }
    assert(a <= p);
    assert(pow4(0) == 0);
    assert(ramp_target_num(start, target, n, 0) == start * p) by (nonlinear_arith)
        requires p == pow4(n), pow4(n - 0) == p;
    assert(ramp_target_num(start, target, n, s2) - ramp_target_num(start, target, n, s1)
        == (target - start) * (a - b)) by (nonlinear_arith)
        requires a == pow4(n - s1), b == pow4(n - s2), p == pow4(n);
    assert(target * p - ramp_target_num(start, target, n, s2) == (target - start) * b) by (nonlinear_arith)
        requires b == pow4(n - s2), p == pow4(n);
    assert(ramp_target_num(start, target, n, s1) - start * p == (target - start) * (p - a)) by (nonlinear_arith)
        requires a == pow4(n - s1), p == pow4(n);
    if start < target {
        assert((target - start) * (a - b) > 0) by (nonlinear_arith)
            requires target - start > 0, a - b > 0;
        assert((target - start) * b > 0) by (nonlinear_arith)
            requires target - start > 0, b > 0;
        assert((target - start) * (p - a) >= 0) by (nonlinear_arith)
            requires target - start > 0, p - a >= 0;
    }
    if start > target {
        assert((target - start) * (a - b) < 0) by (nonlinear_arith)
            requires target - start < 0, a - b > 0;
        assert((target - start) * b < 0) by (nonlinear_arith)
            requires target - start < 0, b > 0;
        assert((target - start) * (p - a) <= 0) by (nonlinear_arith)
            requires target - start < 0, p - a >= 0;
    }
}

} // verus!
