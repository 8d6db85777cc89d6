use camilladsp::volume::{
    clamped_volume, handle_fader_command, FaderCommand, FaderReply, ProcessingParameters, MAX_VOLUME,
    MIN_VOLUME,
};

#[test]
fn set_volume_is_clamped_below() {
    let mut p = ProcessingParameters::new();
    let r = handle_fader_command(&mut p, FaderCommand::SetVolume(-200000));
    assert_eq!(r, FaderReply::SetVolume);
    assert_eq!(p.target_volume(0), -150000);
}

#[test]
fn set_volume_is_clamped_above() {
    let mut p = ProcessingParameters::new();
    handle_fader_command(&mut p, FaderCommand::SetVolume(60000));
    assert_eq!(p.target_volume(0), 50000);
    handle_fader_command(&mut p, FaderCommand::SetVolume(-12500));
    assert_eq!(p.target_volume(0), -12500);
}

#[test]
fn clamped_volume_edges() {
    assert_eq!(clamped_volume(i32::MIN), MIN_VOLUME);
    assert_eq!(clamped_volume(i32::MAX), MAX_VOLUME);
    assert_eq!(clamped_volume(-150000), -150000);
    assert_eq!(clamped_volume(50000), 50000);
    assert_eq!(clamped_volume(0), 0);
}

#[test]
fn adjust_volume_adds_and_clamps() {
    let mut p = ProcessingParameters::new();
    let r = handle_fader_command(&mut p, FaderCommand::AdjustVolume(-3000));
    assert_eq!(r, FaderReply::AdjustVolume { value: -3000 });
    let r = handle_fader_command(&mut p, FaderCommand::AdjustVolume(i32::MIN));
    assert_eq!(r, FaderReply::AdjustVolume { value: -150000 });
    let r = handle_fader_command(&mut p, FaderCommand::GetVolume);
    assert_eq!(r, FaderReply::GetVolume { value: -150000 });
}

#[test]
fn fader_out_of_range_is_refused() {
    let mut p = ProcessingParameters::new();
    let r = handle_fader_command(&mut p, FaderCommand::SetFaderVolume(5, -10000));
    assert_eq!(r, FaderReply::SetFaderVolume { ok: false, control: 5 });
    let r = handle_fader_command(&mut p, FaderCommand::AdjustFaderVolume(7, 250));
    assert_eq!(r, FaderReply::AdjustFaderVolume { ok: false, value: 250, control: 7 });
    let r = handle_fader_command(&mut p, FaderCommand::GetFaderVolume(5));
    assert_eq!(r, FaderReply::GetFaderVolume { ok: false, value: 0, control: 5 });
    let r = handle_fader_command(&mut p, FaderCommand::ToggleFaderMute(5));
    assert_eq!(r, FaderReply::ToggleFaderMute { ok: false, value: false, control: 5 });
    for f in 0..5 {
        assert_eq!(p.target_volume(f), 0);
        assert!(!p.is_muted(f));
    }
}

#[test]
fn fader_volume_and_mute() {
    let mut p = ProcessingParameters::new();
    let r = handle_fader_command(&mut p, FaderCommand::SetFaderVolume(3, -20000));
    assert_eq!(r, FaderReply::SetFaderVolume { ok: true, control: 3 });
    let r = handle_fader_command(&mut p, FaderCommand::AdjustFaderVolume(3, 500));
    assert_eq!(r, FaderReply::AdjustFaderVolume { ok: true, value: -19500, control: 3 });
    assert_eq!(p.current_volume(3), 0);
    let r = handle_fader_command(&mut p, FaderCommand::SetFaderExternalVolume(2, 70000));
    assert_eq!(r, FaderReply::SetFaderExternalVolume { ok: true, control: 2 });
    assert_eq!(p.target_volume(2), 50000);
    assert_eq!(p.current_volume(2), 50000);
    let r = handle_fader_command(&mut p, FaderCommand::ToggleFaderMute(4));
    assert_eq!(r, FaderReply::ToggleFaderMute { ok: true, value: true, control: 4 });
    let r = handle_fader_command(&mut p, FaderCommand::GetFaderMute(4));
    assert_eq!(r, FaderReply::GetFaderMute { ok: true, value: true, control: 4 });
    let r = handle_fader_command(&mut p, FaderCommand::ToggleMute);
    assert_eq!(r, FaderReply::ToggleMute { value: true });
    handle_fader_command(&mut p, FaderCommand::SetMute(false));
    assert_eq!(handle_fader_command(&mut p, FaderCommand::GetMute), FaderReply::GetMute { value: false });
}

#[test]
fn current_volume_ramps_to_target() {
    let mut p = ProcessingParameters::new();
    handle_fader_command(&mut p, FaderCommand::SetFaderVolume(1, -2500));
    assert_eq!(p.ramp_current_volume(1, 1000), -1000);
    assert_eq!(p.ramp_current_volume(1, 1000), -2000);
    assert_eq!(p.ramp_current_volume(1, 1000), -2500);
    assert_eq!(p.ramp_current_volume(1, 1000), -2500);
    assert_eq!(p.current_volume(0), 0);
    handle_fader_command(&mut p, FaderCommand::SetFaderVolume(1, 50000));
    assert_eq!(p.ramp_current_volume(1, u32::MAX), 50000);
}
