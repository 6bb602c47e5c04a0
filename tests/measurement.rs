use speedtest::batch::{batch_outcome, plan_batch, BatchPlan};
use speedtest::measure::Measurement;
use speedtest::sampler::{Sampler, MAX_PAUSE_MICROS, SAMPLE_WINDOWS, WATCHDOG_MICROS};

#[test]
fn throughput_formula() {
    let m = Measurement { bytes: 1000000, elapsed_micros: 1000000 };
    assert_eq!(m.bits_per_second(), Some(8000000));
    let m = Measurement { bytes: 3, elapsed_micros: 7 };
    assert_eq!(m.bits_per_second(), Some(3428571));
    let m = Measurement { bytes: 5, elapsed_micros: 0 };
    assert_eq!(m.bits_per_second(), None);
    let m = Measurement { bytes: usize::MAX, elapsed_micros: 1 };
    assert_eq!(m.bits_per_second(), Some(usize::MAX as u128 * 8000000));
}

#[test]
fn throughput_agrees_with_independent_computation() {
    let m = Measurement { bytes: 5000000, elapsed_micros: 123457 };
    let expected = 5000000.0 * 8.0 / (123457.0 / 1000000.0);
    let got = m.bits_per_second().unwrap() as f64;
    assert!((got - expected).abs() <= 1.0);
}

#[test]
fn batch_of_one_hundred_over_three() {
    let p = plan_batch(100, 3);
    assert_eq!(p, BatchPlan { connections: 3, per_connection: 33, effective: 99 });
}

#[test]
fn batch_effective_bytes_for_various_sizes() {
    for (requested, n) in [(0usize, 1usize), (7, 1), (2, 5), (10, 5), (1000001, 4), (usize::MAX, 2)] {
        let p = plan_batch(requested, n);
        assert_eq!(p.effective, requested / n * n);
        assert_eq!(p.per_connection * n, p.effective);
    }
}

#[test]
fn batch_fails_on_first_failed_connection() {
    let p = plan_batch(100, 3);
    assert_eq!(batch_outcome(&p, &[true, false, false], 10), Err(1));
    assert_eq!(batch_outcome(&p, &[false, true, true], 10), Err(0));
    assert_eq!(
        batch_outcome(&p, &[true, true, true], 10),
        Ok(Measurement { bytes: 99, elapsed_micros: 10 })
    );
}

#[test]
fn sampler_constants() {
    assert_eq!(SAMPLE_WINDOWS, 32);
    assert_eq!(WATCHDOG_MICROS, 20000000);
    assert_eq!(MAX_PAUSE_MICROS, 1000000);
}

#[test]
fn sampler_reports_only_past_a_window() {
    let mut s = Sampler::new(3200);
    let r = s.poll(100, 1000);
    assert!(r.sample.is_none());
    assert!(!r.stop);
    assert_eq!(r.pause_micros, 250);
    let r = s.poll(101, 2000);
    let m = r.sample.unwrap();
    assert_eq!(m.bytes, 101);
    assert_eq!(m.elapsed_micros, 2000);
    let r = s.poll(150, 2400);
    assert!(r.sample.is_none());
    assert_eq!(r.pause_micros, 100);
    let r = s.poll(3200, 3000);
    let m = r.sample.unwrap();
    assert_eq!(m.bytes, 3099);
    assert_eq!(m.elapsed_micros, 1000);
    assert!(r.stop);
}

#[test]
fn sampler_pause_is_capped() {
    let mut s = Sampler::new(1000000);
    let r = s.poll(0, 10000000);
    assert_eq!(r.pause_micros, MAX_PAUSE_MICROS);
    assert!(!r.stop);
}

#[test]
fn sampler_watchdog_stops_sampling() {
    let mut s = Sampler::new(1000000);
    assert!(!s.poll(10, 20000000).stop);
    assert!(s.poll(10, 20000001).stop);
}

#[test]
fn sampler_ignores_a_lower_count() {
    let mut s = Sampler::new(320);
    assert!(s.poll(100, 10).sample.is_some());
    let r = s.poll(50, 20);
    assert!(r.sample.is_none());
}

#[test]
fn sampler_of_empty_target_stops_at_once() {
    let mut s = Sampler::new(0);
    let r = s.poll(0, 0);
    assert!(r.stop);
    assert!(r.sample.is_none());
}
