use camilladsp::loudness::{
    calc_loudness_gain, validate_config, Loudness, LoudnessConfigError, LoudnessParameters, ShapingGains,
};
use camilladsp::volume::{handle_fader_command, FaderCommand, ProcessingParameters};

#[test]
fn validate_reference_level() {
    let ok = LoudnessParameters { reference_level: -25000, fader: 0, attenuate_mid: false };
    assert_eq!(validate_config(&ok), Ok(()));
    let edge = LoudnessParameters { reference_level: 0, ..ok };
    assert_eq!(validate_config(&edge), Ok(()));
    let edge = LoudnessParameters { reference_level: -100000, ..ok };
    assert_eq!(validate_config(&edge), Ok(()));
    let high = LoudnessParameters { reference_level: 1, ..ok };
    assert_eq!(validate_config(&high), Err(LoudnessConfigError::ReferenceTooHigh));
    assert_eq!(LoudnessConfigError::ReferenceTooHigh.message(), "Reference level must be less than 0");
    let low = LoudnessParameters { reference_level: -100001, ..ok };
    assert_eq!(validate_config(&low), Err(LoudnessConfigError::ReferenceTooLow));
    assert_eq!(LoudnessConfigError::ReferenceTooLow.message(), "Reference level must be higher than -100");
}

#[test]
fn loudness_gain_is_clamped() {
    assert_eq!(calc_loudness_gain(-30000, -20000), 10000);
    assert_eq!(calc_loudness_gain(-10000, -20000), 0);
    assert_eq!(calc_loudness_gain(-100000, -20000), 40000);
    assert_eq!(calc_loudness_gain(i32::MIN, i32::MAX), 40000);
}

#[test]
fn quiescent_at_reference_level() {
    let mut p = ProcessingParameters::new();
    handle_fader_command(&mut p, FaderCommand::SetVolume(-20000));
    let conf = LoudnessParameters { reference_level: -20000, fader: 0, attenuate_mid: true };
    let mut stage = Loudness::from_config("loudness", conf, &p);
    assert_eq!(stage.name(), "loudness");
    assert!(!stage.active);
    assert_eq!(stage.loudness_gain, 0);
    assert_eq!(
        stage.shaping_gains(),
        ShapingGains { high_shelf: 0, low_shelf: 0, peaking_1: 0, peaking_2: 0, peaking_3: 0, mid: Some(0) }
    );
    // Away and back to the reference level.
    assert!(stage.follow_volume(-30000));
    assert!(stage.active);
    assert!(stage.follow_volume(-20000));
    assert!(!stage.active);
}

#[test]
fn follows_volume_changes() {
    let p = ProcessingParameters::new();
    let conf = LoudnessParameters { reference_level: -10000, fader: 0, attenuate_mid: false };
    let mut stage = Loudness::from_config("ld", conf, &p);
    assert_eq!(stage.current_volume, 0);
    assert!(!stage.active);
    // Less than 0.01 dB: nothing changes.
    assert!(!stage.follow_volume(-10));
    assert_eq!(stage.current_volume, 0);
    assert!(stage.follow_volume(-30000));
    assert_eq!(stage.loudness_gain, 20000);
    assert!(stage.active);
    let g = stage.shaping_gains();
    assert_eq!(g.low_shelf, 10400);
    assert_eq!(g.high_shelf, 2912);
    assert_eq!(g.peaking_1, -624);
    assert_eq!(g.peaking_2, -280);
    assert_eq!(g.peaking_3, 728);
    assert_eq!(g.mid, None);
}

#[test]
fn update_parameters_takes_new_config() {
    let mut p = ProcessingParameters::new();
    handle_fader_command(&mut p, FaderCommand::SetFaderExternalVolume(1, -40000));
    let conf = LoudnessParameters { reference_level: -10000, fader: 0, attenuate_mid: false };
    let mut stage = Loudness::from_config("ld", conf, &p);
    let conf2 = LoudnessParameters { reference_level: -20000, fader: 1, attenuate_mid: true };
    stage.update_parameters(conf2, &p);
    assert_eq!(stage.fader, 1);
    assert_eq!(stage.reference_level, -20000);
    assert_eq!(stage.loudness_gain, 20000);
    assert!(stage.active);
    assert_eq!(stage.shaping_gains().mid, Some(-10400));
}

#[test]
fn inactive_at_reference_after_small_moves() {
    let mut p = ProcessingParameters::new();
    handle_fader_command(&mut p, FaderCommand::SetVolume(-30000));
    let conf = LoudnessParameters { reference_level: 0, fader: 0, attenuate_mid: false };
    let mut stage = Loudness::from_config("ld", conf, &p);
    assert!(stage.active);
    assert!(stage.follow_volume(-5));
    assert!(stage.active);
    assert_eq!(stage.loudness_gain, 5);
    // Within 0.01 dB of the last volume, but at the reference level.
    assert!(stage.follow_volume(0));
    assert!(!stage.active);
    assert_eq!(stage.loudness_gain, 0);
    assert!(!stage.follow_volume(0));
}
