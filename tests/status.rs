use camilladsp::signal::SignalRing;
use camilladsp::status::{
    capture_signal_global_peak, capture_signal_peak, capture_signal_rms, playback_signal_peak_since,
    playback_signal_peak_since_last, playback_signal_rms_since_last, reset_capture_signal_global_peak,
    reset_playback_signal_global_peak, CaptureStatus, LocalData, PlaybackStatus, ProcessingState,
};

fn playback() -> PlaybackStatus {
    PlaybackStatus {
        buffer_level: 0,
        clipped_samples: 0,
        update_interval: 1000,
        signal_rms: SignalRing::new(8, 2),
        signal_peak: SignalRing::new(8, 2),
    }
}

fn capture() -> CaptureStatus {
    CaptureStatus {
        measured_samplerate: 48000,
        update_interval: 1000,
        rate_adjust: 1_000_000,
        state: ProcessingState::Running,
        signal_rms: SignalRing::new(8, 1),
        signal_peak: SignalRing::new(8, 1),
    }
}

#[test]
fn since_last_moves_the_mark() {
    let mut pb = playback();
    let mut local = LocalData::new(100);
    pb.signal_peak.append(90, vec![9, 9]);
    pb.signal_peak.append(110, vec![3, 4]);
    pb.signal_peak.append(120, vec![5, 1]);
    assert_eq!(playback_signal_peak_since_last(&pb, &mut local), vec![5, 4]);
    assert_eq!(local.last_pb_peak_time, 120);
    assert_eq!(local.last_pb_rms_time, 100);
    // The newest record is sent again: it is at the mark.
    assert_eq!(playback_signal_peak_since_last(&pb, &mut local), vec![5, 1]);
    assert_eq!(playback_signal_rms_since_last(&pb, &mut local), Vec::<u64>::new());
    assert_eq!(local.last_pb_rms_time, 100);
    assert_eq!(playback_signal_peak_since(&pb, 0), vec![9, 9]);
}

#[test]
fn reset_global_peaks() {
    let mut pb = playback();
    pb.signal_peak.append(1, vec![7, 8]);
    reset_playback_signal_global_peak(&mut pb);
    assert_eq!(pb.signal_peak.global_max(), vec![0, 0]);
    let mut cap = capture();
    cap.signal_peak.append(1, vec![30]);
    assert_eq!(capture_signal_global_peak(&cap), vec![30]);
    reset_capture_signal_global_peak(&mut cap);
    assert_eq!(capture_signal_global_peak(&cap), vec![0]);
    assert_eq!(capture_signal_peak(&cap), vec![30]);
}

#[test]
fn newest_rms_is_square_root() {
    let mut cap = capture();
    assert_eq!(capture_signal_rms(&cap), Vec::<u64>::new());
    cap.signal_rms.append(5, vec![10000]);
    cap.signal_rms.append(6, vec![81]);
    assert_eq!(capture_signal_rms(&cap), vec![9]);
}

#[test]
fn clipped_counter_and_reset() {
    let mut pb = playback();
    pb.add_clipped_samples(30);
    pb.add_clipped_samples(2);
    assert_eq!(pb.clipped_samples, 32);
    pb.add_clipped_samples(usize::MAX);
    assert_eq!(pb.clipped_samples, usize::MAX);
    pb.reset_clipped_samples();
    assert_eq!(pb.clipped_samples, 0);
}

#[test]
fn newest_rms_uses_newest_record_only() {
    let mut pb = playback();
    pb.signal_rms.append(5, vec![100, 9]);
    pb.signal_rms.append(5, vec![4, 10]);
    assert_eq!(camilladsp::status::playback_signal_rms(&pb), vec![2, 3]);
}
