use vstd::prelude::*;
use crate::volume::{ProcessingParameters, NUM_FADERS};

verus! {

/// Largest loudness boost, in millidecibels (40 dB).
pub const MAX_LOUDNESS_GAIN: i32 = 40000;

/// Change of the shared volume, in millidecibels, below which the stage keeps
/// its filters as they are (0.01 dB).
pub const VOLUME_CHANGE_THRESHOLD: i32 = 10;

/// Boost, in millidecibels, above which the stage filters the signal (0.001 dB).
pub const ACTIVE_THRESHOLD: i32 = 1;

/// Boost above which a freshly built stage filters the signal (0.01 dB).
pub const INITIAL_ACTIVE_THRESHOLD: i32 = 10;

/// Fractions of the loudness boost given to each shaping filter, in units of
/// 1/100000.
pub const HIGH_SHELF_FACTOR: i64 = 14560;
pub const LOW_SHELF_FACTOR: i64 = 52000;
pub const PEAKING_1_FACTOR: i64 = -3120;
pub const PEAKING_2_FACTOR: i64 = -1404;
pub const PEAKING_3_FACTOR: i64 = 3640;
pub const MID_ATTENUATION_FACTOR: i64 = -52000;

/// Lowest accepted reference level, in millidecibels (-100 dB).
pub const MIN_REFERENCE_LEVEL: i32 = -100000;

/// The relative boost: `clamp(reference - level, 0, 40 dB)`.
pub open spec fn loudness_gain(level: int, reference: int) -> int {
    let d = reference - level;
    if d < 0 {
        0
    } else if d > MAX_LOUDNESS_GAIN as int {
        MAX_LOUDNESS_GAIN as int
    } else {
        d
    }
}

/// Relative boost, in millidecibels, for a volume and a reference level.
pub fn calc_loudness_gain(level: i32, reference: i32) -> (r: i32)
    ensures
        r as int == loudness_gain(level as int, reference as int),
        0 <= r <= MAX_LOUDNESS_GAIN,
{
    let d: i64 = reference as i64 - level as i64;
    if d < 0 {
        0
    } else if d > MAX_LOUDNESS_GAIN as i64 {
        MAX_LOUDNESS_GAIN
    } else {
        d as i32
    }
}

/// Configuration of a loudness stage.
#[derive(Debug, Clone, Copy, PartialEq, Eq, Structural)]
pub struct LoudnessParameters {
    /// Volume, in millidecibels, at which the stage does nothing.
    pub reference_level: i32,
    /// The fader whose volume the stage follows.
    pub fader: usize,
    /// Whether a mid-band attenuation compensates for the boosts.
    pub attenuate_mid: bool,
}

/// Why a loudness configuration is refused.
#[derive(Debug, Clone, Copy, PartialEq, Eq, Structural)]
pub enum LoudnessConfigError {
    /// The reference level is above 0 dB.
    ReferenceTooHigh,
    /// The reference level is below -100 dB.
    ReferenceTooLow,
}

impl LoudnessConfigError {
    /// The text reported for the error.
    pub fn message(&self) -> (r: &'static str)
        ensures
            *self == LoudnessConfigError::ReferenceTooHigh ==> r@ == "Reference level must be less than 0"@,
            *self == LoudnessConfigError::ReferenceTooLow ==> r@ == "Reference level must be higher than -100"@,
    {
        match self {
            LoudnessConfigError::ReferenceTooHigh => "Reference level must be less than 0",
            LoudnessConfigError::ReferenceTooLow => "Reference level must be higher than -100",
        }
    }
}

/// Checks a loudness configuration: the reference level must lie in
/// [-100 dB, 0 dB].
pub fn validate_config(conf: &LoudnessParameters) -> (r: Result<(), LoudnessConfigError>)
    ensures
        r is Ok <==> MIN_REFERENCE_LEVEL <= conf.reference_level <= 0,
        r == Err::<(), _>(LoudnessConfigError::ReferenceTooHigh) <==> conf.reference_level > 0,
        r == Err::<(), _>(LoudnessConfigError::ReferenceTooLow) <==> conf.reference_level < MIN_REFERENCE_LEVEL,
{
    if conf.reference_level > 0 {
        Err(LoudnessConfigError::ReferenceTooHigh)
    } else if conf.reference_level < MIN_REFERENCE_LEVEL {
        Err(LoudnessConfigError::ReferenceTooLow)
    } else {
        Ok(())
    }
}

/// `gain * factor / 100000`, rounded toward zero.
pub open spec fn scale_gain(gain: int, factor: int) -> int {
    let p = gain * factor;
    if p >= 0 {
        p / 100000
    } else {
        -((-p) / 100000)
    }
}

fn scaled_gain(gain: i32, factor: i64) -> (r: i32)
    requires
        0 <= gain <= MAX_LOUDNESS_GAIN,
        -100000 <= factor <= 100000,
    ensures
        r as int == scale_gain(gain as int, factor as int),
{
    assert(-4000000000 <= gain * factor <= 4000000000) by (nonlinear_arith)
        requires 0 <= gain <= 40000, -100000 <= factor <= 100000;
    let p: i64 = gain as i64 * factor;
    if p >= 0 {
        (p / 100000) as i32
    } else {
        (-((-p) / 100000)) as i32
    }
}

/// The gains, in millidecibels, of the stage's shaping filters.
#[derive(Debug, Clone, Copy, PartialEq, Eq, Structural)]
pub struct ShapingGains {
    /// High shelf near 10.6 kHz.
    pub high_shelf: i32,
    /// Low shelf near 120 Hz.
    pub low_shelf: i32,
    /// Peaking filters near 2, 4 and 8 kHz.
    pub peaking_1: i32,
    pub peaking_2: i32,
    pub peaking_3: i32,
    /// The mid attenuation, when the stage has one.
    pub mid: Option<i32>,
}

pub open spec fn shaping_gains_for(gain: int, attenuate_mid: bool) -> ShapingGains {
    ShapingGains {
        high_shelf: scale_gain(gain, HIGH_SHELF_FACTOR as int) as i32,
        low_shelf: scale_gain(gain, LOW_SHELF_FACTOR as int) as i32,
        peaking_1: scale_gain(gain, PEAKING_1_FACTOR as int) as i32,
        peaking_2: scale_gain(gain, PEAKING_2_FACTOR as int) as i32,
        peaking_3: scale_gain(gain, PEAKING_3_FACTOR as int) as i32,
        mid: if attenuate_mid {
            Some(scale_gain(gain, MID_ATTENUATION_FACTOR as int) as i32)
        } else {
            None
        },
    }
}

/// The decisions of a volume-dependent equalisation stage: which boost it
/// applies for the volume of its fader, and whether it filters at all.
pub struct Loudness {
    pub name: String,
    pub current_volume: i32,
    pub reference_level: i32,
    pub fader: usize,
    pub active: bool,
    pub attenuate_mid: bool,
    pub loudness_gain: i32,
}

impl Loudness {
    pub open spec fn wf(&self) -> bool {
        &&& self.fader < NUM_FADERS
        &&& 0 <= self.loudness_gain <= MAX_LOUDNESS_GAIN
    }

    /// A stage built from its configuration, following the target volume of
    /// its fader.
    pub fn from_config(name: &str, conf: LoudnessParameters, params: &ProcessingParameters) -> (r: Self)
        requires
            params.wf(),
            conf.fader < NUM_FADERS,
        ensures
            r.wf(),
            r.name@ == name@,
            r.fader == conf.fader,
            r.reference_level == conf.reference_level,
            r.attenuate_mid == conf.attenuate_mid,
            r.current_volume as int == params@.target[conf.fader as int],
            r.loudness_gain as int == loudness_gain(r.current_volume as int, conf.reference_level as int),
            r.active == (r.loudness_gain > INITIAL_ACTIVE_THRESHOLD),
    {
        let current_volume = params.target_volume(conf.fader);
        let gain = calc_loudness_gain(current_volume, conf.reference_level);
        Loudness {
            name: name.to_string(),
            current_volume,
            reference_level: conf.reference_level,
            fader: conf.fader,
            active: gain > INITIAL_ACTIVE_THRESHOLD,
            attenuate_mid: conf.attenuate_mid,
            loudness_gain: gain,
        }
    }

    pub fn name(&self) -> (r: &str)
        ensures
            r@ == self.name@,
    {
        self.name.as_str()
    }

    /// The gains of the shaping filters for the current boost.
    pub fn shaping_gains(&self) -> (r: ShapingGains)
        requires
            self.wf(),
        ensures
            r == shaping_gains_for(self.loudness_gain as int, self.attenuate_mid),
    {
        let g = self.loudness_gain;
        ShapingGains {
            high_shelf: scaled_gain(g, HIGH_SHELF_FACTOR),
            low_shelf: scaled_gain(g, LOW_SHELF_FACTOR),
            peaking_1: scaled_gain(g, PEAKING_1_FACTOR),
            peaking_2: scaled_gain(g, PEAKING_2_FACTOR),
            peaking_3: scaled_gain(g, PEAKING_3_FACTOR),
            mid: if self.attenuate_mid {
                Some(scaled_gain(g, MID_ATTENUATION_FACTOR))
            } else {
                None
            },
        }
    }

    /// Follows the shared volume of the stage's fader before a waveform is
    /// processed. When it moved by more than 0.01 dB, or when the stage is
    /// active while the shared volume calls for no boost at all, the boost is
    /// recomputed and `true` is returned: the shaping filters then take
    /// `shaping_gains()`. The waveform is filtered only while `active`, so at
    /// the reference level the stage passes the signal through unchanged.
    pub fn follow_volume(&mut self, shared_volume: i32) -> (changed: bool)
        requires
            old(self).wf(),
        ensures
            final(self).wf(),
            changed == ((shared_volume - old(self).current_volume > VOLUME_CHANGE_THRESHOLD)
                || (old(self).current_volume - shared_volume > VOLUME_CHANGE_THRESHOLD)
                || (old(self).active && loudness_gain(shared_volume as int, old(self).reference_level as int) == 0)),
            loudness_gain(shared_volume as int, old(self).reference_level as int) == 0 ==> !final(self).active,
            shared_volume == old(self).reference_level ==> !final(self).active,
            changed ==> final(self).current_volume == shared_volume,
            changed ==> final(self).loudness_gain as int == loudness_gain(shared_volume as int, old(self).reference_level as int),
            changed ==> final(self).active == (final(self).loudness_gain > ACTIVE_THRESHOLD),
            !changed ==> *final(self) == *old(self),
            final(self).name == old(self).name,
            final(self).reference_level == old(self).reference_level,
            final(self).fader == old(self).fader,
            final(self).attenuate_mid == old(self).attenuate_mid,
    {
        let d: i64 = shared_volume as i64 - self.current_volume as i64;
        let gain = calc_loudness_gain(shared_volume, self.reference_level);
        if d > VOLUME_CHANGE_THRESHOLD as i64 || d < -(VOLUME_CHANGE_THRESHOLD as i64) || (self.active && gain == 0) {
            self.current_volume = shared_volume;
            self.loudness_gain = gain;
            self.active = gain > ACTIVE_THRESHOLD;
            true
        } else {
            assert(gain == 0 ==> !self.active);
            false
        }
    }

    /// Takes a new configuration, keeping the stage's identity. The boost is
    /// recomputed from the current volume of the (possibly new) fader.
    pub fn update_parameters(&mut self, conf: LoudnessParameters, params: &ProcessingParameters)
        requires
            old(self).wf(),
            params.wf(),
            conf.fader < NUM_FADERS,
        ensures
            final(self).wf(),
            final(self).name == old(self).name,
            final(self).current_volume == old(self).current_volume,
            final(self).fader == conf.fader,
            final(self).reference_level == conf.reference_level,
            final(self).attenuate_mid == conf.attenuate_mid,
            final(self).loudness_gain as int == loudness_gain(params@.current[conf.fader as int], conf.reference_level as int),
            final(self).active == (final(self).loudness_gain > ACTIVE_THRESHOLD),
    {
        self.fader = conf.fader;
        let current_volume = params.current_volume(conf.fader);
        let gain = calc_loudness_gain(current_volume, conf.reference_level);
        self.loudness_gain = gain;
        self.active = gain > ACTIVE_THRESHOLD;
        self.attenuate_mid = conf.attenuate_mid;
        self.reference_level = conf.reference_level;
    }
}

/// At the reference level the boost is zero, so a stage that computes its
/// boost there (when built, reconfigured or following the volume) does not
/// filter, and its shaping gains are all zero. That `follow_volume` at the
/// reference level always leaves the stage inactive is in its own contract.
pub proof fn lemma_quiescent_at_reference(level: int, reference: int, attenuate_mid: bool)
    requires
        level == reference,
    ensures
        loudness_gain(level, reference) == 0,
        !(loudness_gain(level, reference) > ACTIVE_THRESHOLD),
        !(loudness_gain(level, reference) > INITIAL_ACTIVE_THRESHOLD),
        shaping_gains_for(loudness_gain(level, reference), attenuate_mid) == (ShapingGains {
            high_shelf: 0,
            low_shelf: 0,
            peaking_1: 0,
            peaking_2: 0,
            peaking_3: 0,
            mid: if attenuate_mid { Some(0i32) } else { None },
        }),
{
}

} // verus!
