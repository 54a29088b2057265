use audio_anemometer::computer::{Computer, DelayResult, ScoringStrategy};
use audio_anemometer::simulator::Simulator;
use audio_anemometer::{ConfigurationError, FIXED_ONE, SAMPLE_LIMIT};

/// A small deterministic generator for noise-like probe signals.
struct Lcg {
    state: u64,
}

impl Lcg {
    fn new(seed: u64) -> Self {
        Lcg { state: seed }
    }

    fn next_sample(&mut self) -> i64 {
        self.state = self
            .state
            .wrapping_mul(6364136223846793005)
            .wrapping_add(1442695040888963407);
        let high: i64 = (self.state >> 40) as i64;
        high % (2 * SAMPLE_LIMIT + 1) - SAMPLE_LIMIT
    }
}

#[test]
fn zero_width_window_is_rejected() {
    let result = Computer::new(16, 0);
    assert!(matches!(result, Err(ConfigurationError)));
}

#[test]
fn query_is_not_ready_until_window_fills() {
    let mut computer = Computer::new(4, 3).unwrap();
    assert!(computer.delay().is_none());
    computer.push_output_sample(100);
    computer.record_sample(100);
    assert!(computer.delay().is_none());
    computer.record_sample(200);
    assert!(computer.delay().is_none());
    computer.record_sample(300);
    // The window is now full: ready, permanently.
    assert!(computer.delay().is_some());
    computer.record_sample(400);
    assert!(computer.delay().is_some());
}

#[test]
fn exact_correlation_scores_and_delay() {
    // Played history [100, -50, 7], captured window [100, -50]: the window
    // matches the start of the history, one sample before its end.
    let mut computer = Computer::new(1, 2).unwrap();
    computer.push_output_sample(100);
    computer.push_output_sample(-50);
    computer.push_output_sample(7);
    computer.record_sample(100);
    computer.record_sample(-50);
    let result: DelayResult = computer.delay().unwrap();
    // Shift 0: 100*100 + (-50)*(-50) = 12500; shift 1: (-50)*100 + 7*(-50).
    assert_eq!(result.cross_correlation, vec![12500, -5350]);
    assert_eq!(result.delay_samples, 1);
}

#[test]
fn exact_absolute_difference_scores_and_delay() {
    let mut computer = Computer::with_strategy(1, 2, ScoringStrategy::AbsoluteDifference).unwrap();
    assert_eq!(
        computer.scoring_strategy(),
        ScoringStrategy::AbsoluteDifference
    );
    computer.push_output_sample(100);
    computer.push_output_sample(-50);
    computer.push_output_sample(7);
    computer.record_sample(100);
    computer.record_sample(-50);
    let result = computer.delay().unwrap();
    // Shift 0: |0| + |0| = 0; shift 1: |-50-100| + |7-(-50)| = 207.
    assert_eq!(result.cross_correlation, vec![0, 207]);
    assert_eq!(result.delay_samples, 1);
}

#[test]
fn zero_delay_candidate_is_covered() {
    // History and window equally long: exactly one candidate, delay 0.
    let mut computer = Computer::new(0, 2).unwrap();
    computer.push_output_sample(3);
    computer.push_output_sample(1);
    computer.record_sample(3);
    computer.record_sample(1);
    let result = computer.delay().unwrap();
    assert_eq!(result.cross_correlation, vec![10]);
    assert_eq!(result.delay_samples, 0);
}

#[test]
fn query_is_idempotent() {
    let mut computer = Computer::new(8, 4).unwrap();
    let mut lcg = Lcg::new(7);
    for _ in 0..30 {
        let probe = lcg.next_sample();
        computer.push_output_sample(probe);
        computer.record_sample(probe / 3);
    }
    let first = computer.delay();
    let second = computer.delay();
    let third = computer.delay();
    assert_eq!(first, second);
    assert_eq!(second, third);
}

#[test]
fn ground_truth_delay_is_recovered() {
    let true_delay: usize = 139;
    let mut computer = Computer::new(2048, 1024).unwrap();
    let mut simulator = Simulator::new(true_delay, FIXED_ONE, i64::MAX);
    let mut lcg = Lcg::new(42);
    for _ in 0..4000 {
        let probe = lcg.next_sample();
        computer.push_output_sample(probe);
        let echoed = simulator.tick(probe);
        computer.record_sample(echoed);
    }
    let result = computer.delay().unwrap();
    assert_eq!(result.delay_samples, true_delay);
}

#[test]
fn estimate_is_bounded_even_when_true_delay_exceeds_maximum() {
    let maximum_expected: usize = 64;
    let mut computer = Computer::new(maximum_expected, 32).unwrap();
    // A true delay far beyond what the estimator can see.
    let mut simulator = Simulator::new(200, FIXED_ONE, i64::MAX);
    let mut lcg = Lcg::new(3);
    for _ in 0..1000 {
        let probe = lcg.next_sample();
        computer.push_output_sample(probe);
        let echoed = simulator.tick(probe);
        computer.record_sample(echoed);
    }
    let result = computer.delay().unwrap();
    // The estimate saturates into the configured range instead of failing.
    assert!(result.delay_samples <= maximum_expected);
}

#[test]
fn snapshot_queries_are_isolated_from_later_mutation() {
    let mut computer = Computer::new(8, 4).unwrap();
    let mut lcg = Lcg::new(11);
    for _ in 0..20 {
        let probe = lcg.next_sample();
        computer.push_output_sample(probe);
        computer.record_sample(probe / 2);
    }
    let snapshot = computer.snapshot();
    let at_snapshot_time = computer.delay();
    let from_snapshot_before = snapshot.delay();
    // Mutate the live estimator heavily after the snapshot was taken.
    for _ in 0..50 {
        let probe = lcg.next_sample();
        computer.push_output_sample(probe);
        computer.record_sample(-probe);
    }
    let from_snapshot_after = snapshot.delay();
    assert_eq!(from_snapshot_before, at_snapshot_time);
    assert_eq!(from_snapshot_after, at_snapshot_time);
}

#[test]
fn output_sample_draws_are_bounded_and_recorded() {
    let mut computer = Computer::new(200, 10).unwrap();
    let mut all_equal = true;
    let mut first: i64 = 0;
    for index in 0..100 {
        let sample = computer.output_sample();
        assert!(-SAMPLE_LIMIT <= sample && sample <= SAMPLE_LIMIT);
        let buffered = computer.output_buffer();
        assert_eq!(buffered.len(), index + 1);
        assert_eq!(*buffered.get(index), sample);
        if index == 0 {
            first = sample;
        } else if sample != first {
            all_equal = false;
        }
    }
    // 100 uniform draws over two million values never coincide completely.
    assert!(!all_equal);
}

#[test]
fn buffers_are_observable() {
    let mut computer = Computer::new(2, 2).unwrap();
    computer.push_output_sample(5);
    computer.record_sample(-5);
    assert_eq!(computer.output_buffer().iter(), vec![5]);
    assert_eq!(computer.input_buffer().iter(), vec![-5]);
    assert_eq!(computer.output_buffer().capacity(), 4);
    assert_eq!(computer.input_buffer().capacity(), 2);
}
