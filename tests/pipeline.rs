use camilladsp::pipeline::{silence_limit, DelayAverager, SilenceGate};

fn above_threshold(amplitude: f64, threshold_db: f64) -> bool {
    // A chunk swinging between +amplitude and -amplitude.
    let range = 2.0 * amplitude;
    range > 10f64.powf(threshold_db / 20.0)
}

#[test]
fn silence_gate_pauses_and_resumes() {
    let limit = silence_limit(1000, 48000, 1024);
    assert_eq!(limit, 46);
    let mut gate = SilenceGate::new(limit);
    let chunks_per_second = 48000 / 1024 + 1;
    let mut sent = 0;
    let mut paused_at = None;
    for i in 0..chunks_per_second {
        if gate.process(above_threshold(2f64.powi(-12), -60.0)) {
            sent += 1;
        } else if paused_at.is_none() {
            paused_at = Some(i);
        }
    }
    assert_eq!(sent, 46);
    assert_eq!(paused_at, Some(46));
    assert!(gate.is_paused());
    for _ in 0..chunks_per_second {
        assert!(!gate.process(above_threshold(2f64.powi(-20), -60.0)));
    }
    assert!(gate.process(above_threshold(0.1, -60.0)));
    assert!(!gate.is_paused());
}

#[test]
fn gate_off_sends_everything() {
    let mut gate = SilenceGate::new(0);
    for _ in 0..1000 {
        assert!(gate.process(false));
    }
}

#[test]
fn delay_average() {
    let mut d = DelayAverager::new();
    assert_eq!(d.take_average(), None);
    d.add(1000);
    d.add(1001);
    d.add(1003);
    assert_eq!(d.take_average(), Some(1001));
    assert_eq!(d.take_average(), None);
    d.add(u32::MAX);
    d.add(u32::MAX);
    assert_eq!(d.take_average(), Some(u32::MAX));
}
