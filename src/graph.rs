use vstd::prelude::*;

verus! {

/// The kinds of processing stage.
#[derive(Debug, Clone, Copy, PartialEq, Eq, Structural)]
pub enum StageKind {
    Biquad,
    BiquadCombo,
    Conv,
    Delay,
    Gain,
    Volume,
    Dither,
    Loudness,
    Compressor,
    Limiter,
}

/// The identity of a stage: its name and kind.
pub struct StageId {
    pub name: String,
    pub kind: StageKind,
}

/// One step of the processing graph: a mixer from `channels_in` to
/// `channels_out` channels, or a list of stages applied in order to one channel.
pub enum PipelineStep {
    Mixer { name: String, channels_in: usize, channels_out: usize },
    Filter { channel: usize, stages: Vec<StageId> },
}

/// Number of channels after the first `k` steps, starting from `start`.
pub open spec fn channels_after(steps: Seq<PipelineStep>, start: int, k: int) -> int
    decreases k,
{
    if k <= 0 {
        start
    } else {
        match steps[k - 1] {
            PipelineStep::Mixer { channels_out, .. } => channels_out as int,
            PipelineStep::Filter { .. } => channels_after(steps, start, k - 1),
        }
    }
}

/// Whether step `k` fits the channels that reach it.
pub open spec fn step_fits(steps: Seq<PipelineStep>, start: int, k: int) -> bool {
    let n = channels_after(steps, start, k);
    match steps[k] {
        PipelineStep::Mixer { channels_in, .. } => channels_in as int == n,
        PipelineStep::Filter { channel, .. } => (channel as int) < n,
    }
}

/// Why a processing graph is refused; `step` is the index of the first step that does not fit.
#[derive(Debug, Clone, Copy, PartialEq, Eq, Structural)]
pub enum PipelineError {
    MixerInputMismatch { step: usize },
    ChannelOutOfRange { step: usize },
    OutputMismatch { channels: usize },
}

/// Checks that every mixer takes the channels that reach it, that every filter
/// step names an existing channel, and that the graph ends with the playback
/// device's channel count.
pub fn validate_pipeline(steps: &Vec<PipelineStep>, capture_channels: usize, playback_channels: usize)
    -> (r: Result<(), PipelineError>)
    ensures
        r is Ok <==> (forall|k: int| 0 <= k < steps@.len() ==> step_fits(steps@, capture_channels as int, k))
            && channels_after(steps@, capture_channels as int, steps@.len() as int) == playback_channels,
        r matches Err(PipelineError::MixerInputMismatch { step }) ==> step < steps@.len()
            && steps@[step as int] is Mixer && !step_fits(steps@, capture_channels as int, step as int)
            && forall|k: int| 0 <= k < step ==> step_fits(steps@, capture_channels as int, k),
        r matches Err(PipelineError::ChannelOutOfRange { step }) ==> step < steps@.len()
            && steps@[step as int] is Filter && !step_fits(steps@, capture_channels as int, step as int)
            && forall|k: int| 0 <= k < step ==> step_fits(steps@, capture_channels as int, k),
        r matches Err(PipelineError::OutputMismatch { channels }) ==> channels as int
            == channels_after(steps@, capture_channels as int, steps@.len() as int)
            && forall|k: int| 0 <= k < steps@.len() ==> step_fits(steps@, capture_channels as int, k),
{
    let ghost start = capture_channels as int;
    let mut n: usize = capture_channels;
    let mut i: usize = 0;
    while i < steps.len()
        invariant
            i <= steps@.len(),
            n as int == channels_after(steps@, start, i as int),
            start == capture_channels as int,
            forall|k: int| 0 <= k < i ==> step_fits(steps@, start, k),
        decreases steps@.len() - i,
    {
        match &steps[i] {
            PipelineStep::Mixer { channels_in, channels_out, .. } => {
                if *channels_in != n {
                    assert(!step_fits(steps@, start, i as int));
                    return Err(PipelineError::MixerInputMismatch { step: i });
                }
                assert(step_fits(steps@, start, i as int));
                n = *channels_out;
                assert(n as int == channels_after(steps@, start, i + 1));
            },
            PipelineStep::Filter { channel, .. } => {
                if *channel >= n {
                    assert(!step_fits(steps@, start, i as int));
                    return Err(PipelineError::ChannelOutOfRange { step: i });
                }
                assert(step_fits(steps@, start, i as int));
                assert(n as int == channels_after(steps@, start, i + 1));
            },
        }
        i += 1;
    }
    if n != playback_channels {
        return Err(PipelineError::OutputMismatch { channels: n });
    }
    Ok(())
}

pub open spec fn stage_matches(a: StageId, b: StageId) -> bool {
    a.name@ == b.name@ && a.kind == b.kind
}

pub open spec fn stages_match(a: Seq<StageId>, b: Seq<StageId>) -> bool {
    a.len() == b.len() && forall|i: int| 0 <= i < a.len() ==> stage_matches(#[trigger] a[i], b[i])
}

pub open spec fn step_matches(a: PipelineStep, b: PipelineStep) -> bool {
    match (a, b) {
        (
            PipelineStep::Mixer { name: n1, channels_in: i1, channels_out: o1 },
            PipelineStep::Mixer { name: n2, channels_in: i2, channels_out: o2 },
        ) => n1@ == n2@ && i1 == i2 && o1 == o2,
        (PipelineStep::Filter { channel: c1, stages: s1 }, PipelineStep::Filter { channel: c2, stages: s2 }) => c1
            == c2 && stages_match(s1@, s2@),
        _ => false,
    }
}

/// Two graphs with the same steps in the same order, and the same stages
/// (name and kind) in each filter step: only parameters may differ.
pub open spec fn same_structure(a: Seq<PipelineStep>, b: Seq<PipelineStep>) -> bool {
    a.len() == b.len() && forall|i: int| 0 <= i < a.len() ==> step_matches(#[trigger] a[i], b[i])
}

fn same_stages(a: &Vec<StageId>, b: &Vec<StageId>) -> (r: bool)
    ensures
        r == stages_match(a@, b@),
{
    if a.len() != b.len() {
        return false;
    }
    let mut i: usize = 0;
    while i < a.len()
        invariant
            a@.len() == b@.len(),
            i <= a@.len(),
            forall|k: int| 0 <= k < i ==> stage_matches(#[trigger] a@[k], b@[k]),
        decreases a@.len() - i,
    {
        if a[i].name != b[i].name || a[i].kind != b[i].kind {
            return false;
        }
        i += 1;
    }
    true
}

fn same_step(a: &PipelineStep, b: &PipelineStep) -> (r: bool)
    ensures
        r == step_matches(*a, *b),
{
    match (a, b) {
        (
            PipelineStep::Mixer { name: n1, channels_in: i1, channels_out: o1 },
            PipelineStep::Mixer { name: n2, channels_in: i2, channels_out: o2 },
        ) => *n1 == *n2 && *i1 == *i2 && *o1 == *o2,
        (PipelineStep::Filter { channel: c1, stages: s1 }, PipelineStep::Filter { channel: c2, stages: s2 }) => {
            *c1 == *c2 && same_stages(s1, s2)
        },
        _ => false,
    }
}

/// How the processing side takes a new graph.
#[derive(Debug, Clone, Copy, PartialEq, Eq, Structural)]
pub enum ReloadPlan {
    /// Same structure: each stage takes its new parameters in place and keeps
    /// its filter state.
    UpdateParameters,
    /// The structure changed: the stages are built anew.
    Rebuild,
}

/// Decides how to go from the active graph to a new one.
pub fn reload_plan(active: &Vec<PipelineStep>, new: &Vec<PipelineStep>) -> (r: ReloadPlan)
    ensures
        r == ReloadPlan::UpdateParameters <==> same_structure(active@, new@),
        r == ReloadPlan::Rebuild <==> !same_structure(active@, new@),
{
    if active.len() != new.len() {
        return ReloadPlan::Rebuild;
    }
    let mut i: usize = 0;
    while i < active.len()
        invariant
            active@.len() == new@.len(),
            i <= active@.len(),
            forall|k: int| 0 <= k < i ==> step_matches(#[trigger] active@[k], new@[k]),
        decreases active@.len() - i,
    {
        if !same_step(&active[i], &new[i]) {
            return ReloadPlan::Rebuild;
        }
        i += 1;
    }
    ReloadPlan::UpdateParameters
}

} // verus!
