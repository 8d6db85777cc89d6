use camilladsp::conversion::{clip_samples, SampleFormat};

fn scaled(x: f64, format: SampleFormat) -> i64 {
    (x * format.scale().unwrap() as f64) as i64
}

#[test]
fn clipping_count_s16() {
    let f = SampleFormat::S16LE;
    let mut samples = Vec::new();
    for _ in 0..10 {
        samples.push(scaled(1.5, f));
    }
    for _ in 0..20 {
        samples.push(scaled(-1.2, f));
    }
    for _ in 0..50 {
        samples.push(scaled(0.5, f));
    }
    let (out, clipped) = clip_samples(&samples, f);
    assert_eq!(clipped, 30);
    assert_eq!(out[0], 32767);
    assert_eq!(out[10], -32768);
    assert_eq!(out[30], 16384);
}

#[test]
fn full_scale_counts_as_clipped() {
    let f = SampleFormat::S24LE;
    let samples = vec![scaled(1.0, f), scaled(-1.0, f), scaled(0.999, f), scaled(-0.999, f)];
    let (out, clipped) = clip_samples(&samples, f);
    assert_eq!(clipped, 2);
    assert_eq!(out, vec![8388607, -8388608, 8380219, -8380219]);
}

#[test]
fn formats() {
    assert_eq!(SampleFormat::S16LE.bits(), 16);
    assert_eq!(SampleFormat::S24LE.bits(), 24);
    assert_eq!(SampleFormat::S32LE.bits(), 32);
    assert_eq!(SampleFormat::FLOAT32LE.bits(), 32);
    assert_eq!(SampleFormat::FLOAT64LE.bits(), 64);
    assert_eq!(SampleFormat::S32LE.scale(), Some(2147483648));
    assert_eq!(SampleFormat::FLOAT64LE.scale(), None);
    assert!(!SampleFormat::FLOAT32LE.is_integer());
    let (out, clipped) = clip_samples(&[i64::MAX, i64::MIN, 0], SampleFormat::S32LE);
    assert_eq!(clipped, 2);
    assert_eq!(out, vec![i32::MAX, i32::MIN, 0]);
}
