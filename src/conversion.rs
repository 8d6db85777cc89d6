use vstd::prelude::*;

verus! {

/// Sample formats on the wire, all little-endian and interleaved. 24-bit
/// samples travel in 32-bit containers.
#[derive(Debug, Clone, Copy, PartialEq, Eq, Structural)]
pub enum SampleFormat {
    S16LE,
    S24LE,
    S32LE,
    FLOAT32LE,
    FLOAT64LE,
}

pub open spec fn format_bits(f: SampleFormat) -> int {
    match f {
        SampleFormat::S16LE => 16,
        SampleFormat::S24LE => 24,
        SampleFormat::S32LE => 32,
        SampleFormat::FLOAT32LE => 32,
        SampleFormat::FLOAT64LE => 64,
    }
}

/// `2^(bits - 1)` for the integer formats: the integer value of a full-scale
/// sample of magnitude 1.0.
pub open spec fn int_scale(f: SampleFormat) -> int {
    match f {
        SampleFormat::S16LE => 32768,
        SampleFormat::S24LE => 8388608,
        _ => 2147483648,
    }
}

pub open spec fn is_int_format(f: SampleFormat) -> bool {
    !(f is FLOAT32LE) && !(f is FLOAT64LE)
}

impl SampleFormat {
    /// Bits per sample.
    pub fn bits(&self) -> (r: u32)
        ensures
            r as int == format_bits(*self),
    {
        match self {
            SampleFormat::S16LE => 16,
            SampleFormat::S24LE => 24,
            SampleFormat::S32LE => 32,
            SampleFormat::FLOAT32LE => 32,
            SampleFormat::FLOAT64LE => 64,
        }
    }

    /// Whether samples are integers.
    pub fn is_integer(&self) -> (r: bool)
        ensures
            r == is_int_format(*self),
    {
        match self {
            SampleFormat::FLOAT32LE | SampleFormat::FLOAT64LE => false,
            _ => true,
        }
    }

    /// The integer value of a full-scale sample, `2^(bits - 1)`, for the integer formats.
    pub fn scale(&self) -> (r: Option<i64>)
        ensures
            is_int_format(*self) ==> r == Some(int_scale(*self) as i64),
            !is_int_format(*self) ==> r is None,
    {
        match self {
            SampleFormat::S16LE => Some(32768),
            SampleFormat::S24LE => Some(8388608),
            SampleFormat::S32LE => Some(2147483648),
            _ => None,
        }
    }
}

/// A sample at or beyond full scale: its float value had magnitude 1.0 or more.
pub open spec fn is_clipped(v: int, scale: int) -> bool {
    v >= scale || v <= -scale
}

/// The sample saturated to the format's range `[-scale, scale - 1]`.
pub open spec fn saturate(v: int, scale: int) -> int {
    if v >= scale {
        scale - 1
    } else if v < -scale {
        -scale
    } else {
        v
    }
}

/// Number of clipped samples among the first `k`.
pub open spec fn count_clipped(s: Seq<i64>, scale: int, k: int) -> int
    decreases k,
{
    if k <= 0 {
        0
    } else {
        count_clipped(s, scale, k - 1) + if is_clipped(s[k - 1] as int, scale) {
            1int
        } else {
            0
        }
    }
}

proof fn lemma_count_clipped_bounds(s: Seq<i64>, scale: int, k: int)
    requires
        k >= 0,
    ensures
        0 <= count_clipped(s, scale, k) <= k,
    decreases k,
{
    if k > 0 {
        lemma_count_clipped_bounds(s, scale, k - 1);
    }
}

/// Converts samples already multiplied by the format's scale (and truncated
/// toward zero) to the integer format, saturating those beyond full scale.
/// Returns the samples and how many of them reached full scale in magnitude.
pub fn clip_samples(samples: &[i64], format: SampleFormat) -> (r: (Vec<i32>, usize))
    requires
        is_int_format(format),
    ensures
        r.0@.len() == samples@.len(),
        forall|i: int| 0 <= i < samples@.len() ==> #[trigger] r.0@[i] as int == saturate(samples@[i] as int, int_scale(format)),
        r.1 as int == count_clipped(samples@, int_scale(format), samples@.len() as int),
{
    let scale: i64 = match format {
        SampleFormat::S16LE => 32768,
        SampleFormat::S24LE => 8388608,
        _ => 2147483648,
    };
    let mut out: Vec<i32> = Vec::with_capacity(samples.len());
    let mut clipped: usize = 0;
    let mut i: usize = 0;
    while i < samples.len()
        invariant
            i <= samples@.len(),
            scale as int == int_scale(format),
            out@.len() == i,
            clipped as int == count_clipped(samples@, scale as int, i as int),
            forall|j: int| 0 <= j < i ==> #[trigger] out@[j] as int == saturate(samples@[j] as int, scale as int),
        decreases samples@.len() - i,
    {
        proof {
            lemma_count_clipped_bounds(samples@, scale as int, i as int);
        }
        let v = samples[i];
        let c: i32 = if v >= scale {
            (scale - 1) as i32
        } else if v < -scale {
            (-scale) as i32
        } else {
            v as i32
        };
        if v >= scale || v <= -scale {
            clipped += 1;
        }
        out.push(c);
        i += 1;
    }
    (out, clipped)
}

/// The capture device's rate-shift control value for a speed factor in parts
/// per million: `round(100000 * speed)`, where 100000 is unity.
pub fn rate_shift_value(speed_ppm: i64) -> (r: i32)
    requires
        0 <= speed_ppm <= 10000000,
    ensures
        r as int == (speed_ppm as int + 5) / 10,
{
    ((speed_ppm + 5) / 10) as i32
}

} // verus!
