use vstd::prelude::*;

verus! {

/// Number of independent faders; fader 0 is the main volume.
pub const NUM_FADERS: usize = 5;

/// Lowest volume a fader can be set to, in millidecibels (-150 dB).
pub const MIN_VOLUME: i32 = -150000;

/// Highest volume a fader can be set to, in millidecibels (+50 dB).
pub const MAX_VOLUME: i32 = 50000;

/// A volume request limited to the accepted range.
pub open spec fn clamp_volume(v: int) -> int {
    if v < MIN_VOLUME as int {
        MIN_VOLUME as int
    } else if v > MAX_VOLUME as int {
        MAX_VOLUME as int
    } else {
        v
    }
}

/// Limits a volume in millidecibels to [-150 dB, +50 dB].
pub fn clamped_volume(vol: i32) -> (r: i32)
    ensures
        r as int == clamp_volume(vol as int),
        MIN_VOLUME <= r <= MAX_VOLUME,
{
    if vol < MIN_VOLUME {
        MIN_VOLUME
    } else if vol > MAX_VOLUME {
        MAX_VOLUME
    } else {
        vol
    }
}

} // verus!

verus! {

/// The volume and mute set-points of all faders, as mathematical values.
pub struct FaderView {
    pub target: Seq<int>,
    pub current: Seq<int>,
    pub mute: Seq<bool>,
}

/// Process-wide volume and mute state, shared between the control surface
/// and the processing stages. Volumes are in millidecibels.
pub struct ProcessingParameters {
    pub target_volume: Vec<i32>,
    pub current_volume: Vec<i32>,
    pub mute: Vec<bool>,
}

impl View for ProcessingParameters {
    type V = FaderView;

    open spec fn view(&self) -> FaderView {
        FaderView {
            target: self.target_volume@.map_values(|v: i32| v as int),
            current: self.current_volume@.map_values(|v: i32| v as int),
            mute: self.mute@,
        }
    }
}

/// One slot per fader, and every target volume within the accepted range.
pub open spec fn faders_wf(v: FaderView) -> bool {
    &&& v.target.len() == NUM_FADERS
    &&& v.current.len() == NUM_FADERS
    &&& v.mute.len() == NUM_FADERS
    &&& forall|i: int| 0 <= i < NUM_FADERS ==> MIN_VOLUME <= #[trigger] v.target[i] <= MAX_VOLUME
}

impl ProcessingParameters {
    pub open spec fn wf(&self) -> bool {
        &&& faders_wf(self@)
        &&& forall|i: int| 0 <= i < NUM_FADERS ==> MIN_VOLUME <= #[trigger] self.current_volume@[i] <= MAX_VOLUME
    }

    /// All faders at 0 dB and unmuted.
    pub fn new() -> (r: Self)
        ensures
            r.wf(),
            forall|i: int| 0 <= i < NUM_FADERS ==> #[trigger] r@.target[i] == 0 && r@.current[i] == 0 && !r@.mute[i],
    {
        ProcessingParameters {
            target_volume: vec![0i32; NUM_FADERS],
            current_volume: vec![0i32; NUM_FADERS],
            mute: vec![false; NUM_FADERS],
        }
    }

    /// The user set-point of a fader.
    pub fn target_volume(&self, fader: usize) -> (r: i32)
        requires
            self.wf(),
            fader < NUM_FADERS,
        ensures
            r as int == self@.target[fader as int],
    {
        self.target_volume[fader]
    }

    /// The volume the processing stages applied most recently on a fader.
    pub fn current_volume(&self, fader: usize) -> (r: i32)
        requires
            self.wf(),
            fader < NUM_FADERS,
        ensures
            r as int == self@.current[fader as int],
    {
        self.current_volume[fader]
    }

    /// Records the volume the processing stages have reached on a fader.
    pub fn set_current_volume(&mut self, fader: usize, vol: i32)
        requires
            old(self).wf(),
            fader < NUM_FADERS,
        ensures
            final(self).wf(),
            final(self)@ == (FaderView {
                current: old(self)@.current.update(fader as int, clamp_volume(vol as int)),
                ..old(self)@
            }),
    {
        let v = clamped_volume(vol);
        self.current_volume.set(fader, v);
        proof {
            assert(self@.current =~= old(self)@.current.update(fader as int, clamp_volume(vol as int)));
            assert(self@.target =~= old(self)@.target);
        }
    }

    /// Whether a fader is muted.
    pub fn is_muted(&self, fader: usize) -> (r: bool)
        requires
            self.wf(),
            fader < NUM_FADERS,
        ensures
            r == self@.mute[fader as int],
    {
        self.mute[fader]
    }
}

/// A control-surface request on the volume and mute state.
/// Volumes are in millidecibels; `usize` arguments name a fader.
#[derive(Debug, Clone, Copy, PartialEq, Eq, Structural)]
pub enum FaderCommand {
    GetVolume,
    SetVolume(i32),
    AdjustVolume(i32),
    GetMute,
    SetMute(bool),
    ToggleMute,
    GetFaderVolume(usize),
    SetFaderVolume(usize, i32),
    SetFaderExternalVolume(usize, i32),
    AdjustFaderVolume(usize, i32),
    GetFaderMute(usize),
    SetFaderMute(usize, bool),
    ToggleFaderMute(usize),
}

/// The answer to a `FaderCommand`. `ok` is false when the fader index does
/// not exist; `control` echoes the fader index of the request.
#[allow(inconsistent_fields)]
#[derive(Debug, Clone, Copy, PartialEq, Eq, Structural)]
pub enum FaderReply {
    GetVolume { value: i32 },
    SetVolume,
    AdjustVolume { value: i32 },
    GetMute { value: bool },
    SetMute,
    ToggleMute { value: bool },
    GetFaderVolume { ok: bool, value: i32, control: usize },
    SetFaderVolume { ok: bool, control: usize },
    SetFaderExternalVolume { ok: bool, control: usize },
    AdjustFaderVolume { ok: bool, value: i32, control: usize },
    GetFaderMute { ok: bool, value: bool, control: usize },
    SetFaderMute { ok: bool, control: usize },
    ToggleFaderMute { ok: bool, value: bool, control: usize },
}

pub open spec fn set_target(v: FaderView, f: int, vol: int) -> FaderView {
    FaderView { target: v.target.update(f, clamp_volume(vol)), ..v }
}

pub open spec fn set_mute(v: FaderView, f: int, m: bool) -> FaderView {
    FaderView { mute: v.mute.update(f, m), ..v }
}

/// The new fader state and the reply for one command.
pub open spec fn fader_step(v: FaderView, cmd: FaderCommand) -> (FaderView, FaderReply) {
    match cmd {
        FaderCommand::GetVolume => (v, FaderReply::GetVolume { value: v.target[0] as i32 }),
        FaderCommand::SetVolume(x) => (set_target(v, 0, x as int), FaderReply::SetVolume),
        FaderCommand::AdjustVolume(x) => {
            let nv = clamp_volume(v.target[0] + x);
            (set_target(v, 0, nv), FaderReply::AdjustVolume { value: nv as i32 })
        },
        FaderCommand::GetMute => (v, FaderReply::GetMute { value: v.mute[0] }),
        FaderCommand::SetMute(m) => (set_mute(v, 0, m), FaderReply::SetMute),
        FaderCommand::ToggleMute => (set_mute(v, 0, !v.mute[0]), FaderReply::ToggleMute { value: !v.mute[0] }),
        FaderCommand::GetFaderVolume(c) => if c < NUM_FADERS {
            (v, FaderReply::GetFaderVolume { ok: true, value: v.target[c as int] as i32, control: c })
        } else {
            (v, FaderReply::GetFaderVolume { ok: false, value: 0, control: c })
        },
        FaderCommand::SetFaderVolume(c, x) => if c < NUM_FADERS {
            (set_target(v, c as int, x as int), FaderReply::SetFaderVolume { ok: true, control: c })
        } else {
            (v, FaderReply::SetFaderVolume { ok: false, control: c })
        },
        FaderCommand::SetFaderExternalVolume(c, x) => if c < NUM_FADERS {
            let nv = clamp_volume(x as int);
            (FaderView { target: v.target.update(c as int, nv), current: v.current.update(c as int, nv), ..v },
             FaderReply::SetFaderExternalVolume { ok: true, control: c })
        } else {
            (v, FaderReply::SetFaderExternalVolume { ok: false, control: c })
        },
        FaderCommand::AdjustFaderVolume(c, x) => if c < NUM_FADERS {
            let nv = clamp_volume(v.target[c as int] + x);
            (set_target(v, c as int, nv), FaderReply::AdjustFaderVolume { ok: true, value: nv as i32, control: c })
        } else {
            (v, FaderReply::AdjustFaderVolume { ok: false, value: x, control: c })
        },
        FaderCommand::GetFaderMute(c) => if c < NUM_FADERS {
            (v, FaderReply::GetFaderMute { ok: true, value: v.mute[c as int], control: c })
        } else {
            (v, FaderReply::GetFaderMute { ok: false, value: false, control: c })
        },
        FaderCommand::SetFaderMute(c, m) => if c < NUM_FADERS {
            (set_mute(v, c as int, m), FaderReply::SetFaderMute { ok: true, control: c })
        } else {
            (v, FaderReply::SetFaderMute { ok: false, control: c })
        },
        FaderCommand::ToggleFaderMute(c) => if c < NUM_FADERS {
            (set_mute(v, c as int, !v.mute[c as int]),
             FaderReply::ToggleFaderMute { ok: true, value: !v.mute[c as int], control: c })
        } else {
            (v, FaderReply::ToggleFaderMute { ok: false, value: false, control: c })
        },
    }
}

/// Adds `delta` to a fader's target volume and clamps the sum.
fn adjust_target(params: &mut ProcessingParameters, fader: usize, delta: i32) -> (r: i32)
    requires
        old(params).wf(),
        fader < NUM_FADERS,
    ensures
        final(params).wf(),
        r as int == clamp_volume(old(params)@.target[fader as int] + delta),
        final(params)@ == set_target(old(params)@, fader as int, r as int),
{
    let sum: i64 = params.target_volume[fader] as i64 + delta as i64;
    let nv: i32 = if sum < MIN_VOLUME as i64 {
        MIN_VOLUME
    } else if sum > MAX_VOLUME as i64 {
        MAX_VOLUME
    } else {
        sum as i32
    };
    params.target_volume.set(fader, nv);
    proof {
        assert(params@.target =~= old(params)@.target.update(fader as int, nv as int));
        assert(params@.current =~= old(params)@.current);
    }
    nv
}

/// Sets a fader's target volume, clamped to the accepted range.
fn store_target(params: &mut ProcessingParameters, fader: usize, vol: i32)
    requires
        old(params).wf(),
        fader < NUM_FADERS,
    ensures
        final(params).wf(),
        final(params)@ == set_target(old(params)@, fader as int, vol as int),
{
    let nv = clamped_volume(vol);
    params.target_volume.set(fader, nv);
    proof {
        assert(params@.target =~= old(params)@.target.update(fader as int, clamp_volume(vol as int)));
        assert(params@.current =~= old(params)@.current);
    }
}

/// Sets a fader's mute flag.
fn store_mute(params: &mut ProcessingParameters, fader: usize, m: bool)
    requires
        old(params).wf(),
        fader < NUM_FADERS,
    ensures
        final(params).wf(),
        final(params)@ == set_mute(old(params)@, fader as int, m),
{
    params.mute.set(fader, m);
    proof {
        assert(params@.target =~= old(params)@.target);
        assert(params@.current =~= old(params)@.current);
    }
}

/// Applies one volume or mute request of the control surface.
/// Every volume stored is clamped to [-150 dB, +50 dB]; a request on a
/// fader that does not exist changes nothing and is answered with `ok: false`.
pub fn handle_fader_command(params: &mut ProcessingParameters, cmd: FaderCommand) -> (r: FaderReply)
    requires
        old(params).wf(),
    ensures
        final(params).wf(),
        (final(params)@, r) == fader_step(old(params)@, cmd),
{
    match cmd {
        FaderCommand::GetVolume => FaderReply::GetVolume { value: params.target_volume[0] },
        FaderCommand::SetVolume(x) => {
            store_target(params, 0, x);
            FaderReply::SetVolume
        },
        FaderCommand::AdjustVolume(x) => {
            let nv = adjust_target(params, 0, x);
            FaderReply::AdjustVolume { value: nv }
        },
        FaderCommand::GetMute => FaderReply::GetMute { value: params.mute[0] },
        FaderCommand::SetMute(m) => {
            store_mute(params, 0, m);
            FaderReply::SetMute
        },
        FaderCommand::ToggleMute => {
            let m = !params.mute[0];
            store_mute(params, 0, m);
            FaderReply::ToggleMute { value: m }
        },
        FaderCommand::GetFaderVolume(c) => {
            if c >= NUM_FADERS {
                FaderReply::GetFaderVolume { ok: false, value: 0, control: c }
            } else {
                FaderReply::GetFaderVolume { ok: true, value: params.target_volume[c], control: c }
            }
        },
        FaderCommand::SetFaderVolume(c, x) => {
            if c >= NUM_FADERS {
                FaderReply::SetFaderVolume { ok: false, control: c }
            } else {
                store_target(params, c, x);
                FaderReply::SetFaderVolume { ok: true, control: c }
            }
        },
        FaderCommand::SetFaderExternalVolume(c, x) => {
            if c >= NUM_FADERS {
                FaderReply::SetFaderExternalVolume { ok: false, control: c }
            } else {
                store_target(params, c, x);
                params.set_current_volume(c, x);
                FaderReply::SetFaderExternalVolume { ok: true, control: c }
            }
        },
        FaderCommand::AdjustFaderVolume(c, x) => {
            if c >= NUM_FADERS {
                FaderReply::AdjustFaderVolume { ok: false, value: x, control: c }
            } else {
                let nv = adjust_target(params, c, x);
                FaderReply::AdjustFaderVolume { ok: true, value: nv, control: c }
            }
        },
        FaderCommand::GetFaderMute(c) => {
            if c >= NUM_FADERS {
                FaderReply::GetFaderMute { ok: false, value: false, control: c }
            } else {
                FaderReply::GetFaderMute { ok: true, value: params.mute[c], control: c }
            }
        },
        FaderCommand::SetFaderMute(c, m) => {
            if c >= NUM_FADERS {
                FaderReply::SetFaderMute { ok: false, control: c }
            } else {
                store_mute(params, c, m);
                FaderReply::SetFaderMute { ok: true, control: c }
            }
        },
        FaderCommand::ToggleFaderMute(c) => {
            if c >= NUM_FADERS {
                FaderReply::ToggleFaderMute { ok: false, value: false, control: c }
            } else {
                let m = !params.mute[c];
                store_mute(params, c, m);
                FaderReply::ToggleFaderMute { ok: true, value: m, control: c }
            }
        },
    }
}


/// Whatever the command, every target volume afterwards lies in
/// [-150 dB, +50 dB], and a volume that is set is the request clamped to it.
pub proof fn lemma_volume_clamped(v: FaderView, cmd: FaderCommand)
    requires
        faders_wf(v),
    ensures
        faders_wf(fader_step(v, cmd).0),
        cmd matches FaderCommand::SetVolume(x) ==> fader_step(v, cmd).0.target[0] == clamp_volume(x as int),
        cmd matches FaderCommand::SetFaderVolume(c, x) ==> (c < NUM_FADERS ==> fader_step(v, cmd).0.target[c as int] == clamp_volume(x as int)),
        cmd matches FaderCommand::SetFaderExternalVolume(c, x) ==> (c < NUM_FADERS ==> fader_step(v, cmd).0.target[c as int] == clamp_volume(x as int)),
{
    let w = fader_step(v, cmd).0;
    assert forall|i: int| 0 <= i < NUM_FADERS implies MIN_VOLUME <= #[trigger] w.target[i] <= MAX_VOLUME by {
        assert(MIN_VOLUME <= v.target[i] <= MAX_VOLUME);
    }
}


/// One ramp step from `current` toward `target`, moving at most `max_step`.
pub open spec fn ramp_toward(current: int, target: int, max_step: int) -> int {
    if target > current + max_step {
        current + max_step
    } else if target < current - max_step {
        current - max_step
    } else {
        target
    }
}

impl ProcessingParameters {
    /// Moves a fader's applied volume one step, of at most `max_step`
    /// millidecibels, toward its target, and returns the new applied volume.
    pub fn ramp_current_volume(&mut self, fader: usize, max_step: u32) -> (r: i32)
        requires
            old(self).wf(),
            fader < NUM_FADERS,
        ensures
            final(self).wf(),
            r as int == ramp_toward(old(self)@.current[fader as int], old(self)@.target[fader as int], max_step as int),
            final(self)@ == (FaderView {
                current: old(self)@.current.update(fader as int, r as int),
                ..old(self)@
            }),
    {
        let cur: i64 = self.current_volume[fader] as i64;
        let tgt: i64 = self.target_volume[fader] as i64;
        let step: i64 = max_step as i64;
        let next: i64 = if tgt > cur + step {
            cur + step
        } else if tgt < cur - step {
            cur - step
        } else {
            tgt
        };
        assert(MIN_VOLUME <= cur <= MAX_VOLUME);
        assert(self@.target[fader as int] == tgt);
        assert(MIN_VOLUME <= tgt <= MAX_VOLUME);
        let v = next as i32;
        self.current_volume.set(fader, v);
        proof {
            assert forall|i: int| 0 <= i < NUM_FADERS implies MIN_VOLUME <= #[trigger] self.current_volume@[i] <= MAX_VOLUME by {
                if i != fader as int {
                    assert(self.current_volume@[i] == old(self).current_volume@[i]);
                }
            }
            assert(self@.current =~= old(self)@.current.update(fader as int, v as int));
            assert(self@.target =~= old(self)@.target);
        }
        v
    }
}

/// A ramp step never overshoots: it moves toward the target by at most
/// `max_step`, lands on it when it is that close, and stays on it once there.
pub proof fn lemma_ramp_toward(current: int, target: int, max_step: int)
    requires
        max_step >= 0,
    ensures
        current <= target ==> current <= ramp_toward(current, target, max_step) <= target,
        current >= target ==> target <= ramp_toward(current, target, max_step) <= current,
        -max_step <= ramp_toward(current, target, max_step) - current <= max_step,
        (target - current <= max_step && current - target <= max_step) ==> ramp_toward(current, target, max_step) == target,
{
}

} // verus!
