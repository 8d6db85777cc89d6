use camilladsp::signal::{isqrt, SignalRing};

#[test]
fn max_since_takes_componentwise_maximum() {
    let mut ring = SignalRing::new(10, 2);
    ring.append(10, vec![5, 1]);
    ring.append(20, vec![3, 9]);
    ring.append(30, vec![4, 2]);
    let r = ring.max_since(20).unwrap();
    assert_eq!(r.values, vec![4, 9]);
    assert_eq!(r.time, 30);
    let r = ring.max_since(0).unwrap();
    assert_eq!(r.values, vec![5, 9]);
    let r = ring.max_since(30).unwrap();
    assert_eq!(r.values, vec![4, 2]);
    assert!(ring.max_since(31).is_none());
}

#[test]
fn empty_ring_has_nothing() {
    let ring = SignalRing::new(4, 3);
    assert!(ring.max_since(0).is_none());
    assert!(ring.average_sqrt_since(0).is_none());
    assert!(ring.last().is_none());
    assert_eq!(ring.global_max(), vec![0, 0, 0]);
}

#[test]
fn average_sqrt_over_window() {
    let mut ring = SignalRing::new(10, 2);
    ring.append(1, vec![100, 0]);
    ring.append(2, vec![16, 49]);
    ring.append(3, vec![64, 1]);
    // mean(16, 64) = 40, sqrt = 6.3; mean(49, 1) = 25, sqrt = 5.
    let r = ring.average_sqrt_since(2).unwrap();
    assert_eq!(r.values, vec![6, 5]);
    assert_eq!(r.time, 3);
    // mean(100, 16, 64) = 60, sqrt = 7.7; mean(0, 49, 1) = 16, sqrt = 4.
    let r = ring.average_sqrt_since(0).unwrap();
    assert_eq!(r.values, vec![7, 4]);
}

#[test]
fn full_ring_drops_oldest() {
    let mut ring = SignalRing::new(2, 1);
    ring.append(1, vec![50]);
    ring.append(2, vec![7]);
    ring.append(3, vec![8]);
    assert_eq!(ring.max_since(0).unwrap().values, vec![8]);
    let (t, v) = ring.last().unwrap();
    assert_eq!(t, 3);
    assert_eq!(v, vec![8]);
    // The maximum since the start still remembers the dropped record.
    assert_eq!(ring.global_max(), vec![50]);
    ring.reset_global_max();
    assert_eq!(ring.global_max(), vec![0]);
    ring.append(4, vec![2]);
    assert_eq!(ring.global_max(), vec![2]);
}

#[test]
fn integer_square_root() {
    assert_eq!(isqrt(0), 0);
    assert_eq!(isqrt(1), 1);
    assert_eq!(isqrt(15), 3);
    assert_eq!(isqrt(16), 4);
    assert_eq!(isqrt(u64::MAX as u128), 4294967295);
    assert_eq!(isqrt((1u128 << 80) - 1), (1u64 << 40) - 1);
}
