//! The delay estimator: two bounded sample histories and the phase-shift
//! search that compares them.

use crate::ring_buffer::{push_model, RingBuffer};
use crate::rng::random_in_range;
use crate::{samples_bounded, ConfigurationError, Sample, CAPACITY_LIMIT, SAMPLE_LIMIT};
use vstd::prelude::*;

verus! {

/// How a query scores one candidate alignment of the captured window
/// against the played history. Both strategies are valid; the default is
/// [`ScoringStrategy::CrossCorrelation`].
#[derive(Clone, Copy, Debug, PartialEq, Eq, Structural)]
pub enum ScoringStrategy {
    /// Sum of pointwise products; the highest score wins.
    CrossCorrelation,
    /// Sum of absolute pointwise differences; the lowest score wins.
    AbsoluteDifference,
}

/// The estimator owns a history of played (emitted) samples and a shorter
/// window of captured samples; a query searches for the phase shift that
/// best aligns the two.
#[derive(Debug)]
pub struct Computer {
    output: RingBuffer<Sample>,
    input: RingBuffer<Sample>,
    strategy: ScoringStrategy,
}

/// The estimator's state as mathematics: the two sample sequences, oldest
/// first, the two configured capacities, and the scoring strategy.
pub ghost struct ComputerModel {
    pub played: Seq<Sample>,
    pub captured: Seq<Sample>,
    pub played_capacity: nat,
    pub captured_capacity: nat,
    pub strategy: ScoringStrategy,
}

/// What every reachable estimator satisfies: positive capacities with the
/// captured window no wider than the played history, lengths within the
/// capacities, and every stored sample bounded by [`SAMPLE_LIMIT`].
pub open spec fn model_wf(m: ComputerModel) -> bool {
    &&& 0 < m.captured_capacity <= m.played_capacity <= CAPACITY_LIMIT
    &&& m.played.len() <= m.played_capacity
    &&& m.captured.len() <= m.captured_capacity
    &&& samples_bounded(m.played)
    &&& samples_bounded(m.captured)
}

/// A query produces an estimate exactly when the captured window is full.
pub open spec fn query_ready(m: ComputerModel) -> bool {
    m.captured.len() == m.captured_capacity
}

/// One pointwise contribution to a fit score: the product of the aligned
/// samples for cross-correlation, the absolute difference for
/// absolute-difference scoring.
pub open spec fn score_term(strategy: ScoringStrategy, played_sample: int, window_sample: int) -> int {
    match strategy {
        ScoringStrategy::CrossCorrelation => played_sample * window_sample,
        ScoringStrategy::AbsoluteDifference => if played_sample >= window_sample {
            played_sample - window_sample
        } else {
            window_sample - played_sample
        },
    }
}

/// Whether a candidate scoring `challenger` beats one scoring `incumbent`:
/// strictly higher correlation, or a strictly lower compound error.
pub open spec fn improves(strategy: ScoringStrategy, challenger: int, incumbent: int) -> bool {
    match strategy {
        ScoringStrategy::CrossCorrelation => challenger > incumbent,
        ScoringStrategy::AbsoluteDifference => challenger < incumbent,
    }
}

/// Sum of the first `count` pointwise score terms of `window` against
/// `played` shifted by `shift`.
pub open spec fn score_prefix(
    strategy: ScoringStrategy,
    played: Seq<Sample>,
    window: Seq<Sample>,
    shift: int,
    count: int,
) -> int
    decreases count,
{
    if count <= 0 {
        0
    } else {
        score_prefix(strategy, played, window, shift, count - 1) + score_term(
            strategy,
            played[shift + count - 1] as int,
            window[count - 1] as int,
        )
    }
}

/// How many sample pairs overlap when the window is aligned at `shift`.
pub open spec fn overlap(played: Seq<Sample>, window: Seq<Sample>, shift: int) -> int {
    if window.len() <= played.len() - shift {
        window.len() as int
    } else {
        played.len() - shift
    }
}

/// The fit score of candidate `shift`: the sum of pointwise score terms
/// over the overlapping samples.
pub open spec fn score_at(
    strategy: ScoringStrategy,
    played: Seq<Sample>,
    window: Seq<Sample>,
    shift: int,
) -> int {
    score_prefix(strategy, played, window, shift, overlap(played, window, shift))
}

/// How many candidate shifts a query scans; the `+ 1` keeps the zero-delay
/// candidate in play even when history and window are equally long.
pub open spec fn spec_max_shift(m: ComputerModel) -> int {
    if m.played.len() >= m.captured.len() {
        m.played.len() - m.captured.len() + 1
    } else {
        1
    }
}

/// The smallest shift in `[0, count)` whose score is best: shifts are
/// scanned in increasing order and only a strictly better score displaces
/// the incumbent.
pub open spec fn best_shift_upto(
    strategy: ScoringStrategy,
    played: Seq<Sample>,
    window: Seq<Sample>,
    count: int,
) -> int
    decreases count,
{
    if count <= 1 {
        0
    } else {
        let incumbent = best_shift_upto(strategy, played, window, count - 1);
        if improves(
            strategy,
            score_at(strategy, played, window, count - 1),
            score_at(strategy, played, window, incumbent),
        ) {
            count - 1
        } else {
            incumbent
        }
    }
}

/// The delay a query reports: the best shift, mapped so that the largest
/// candidate shift means zero delay.
pub open spec fn estimate_model(m: ComputerModel) -> int {
    spec_max_shift(m) - 1 - best_shift_upto(m.strategy, m.played, m.captured, spec_max_shift(m))
}

/// A delay estimate: the reported delay in samples, and the score of every
/// candidate shift that the search scanned, in shift order.
#[derive(Debug, PartialEq)]
pub struct DelayResult {
    pub delay_samples: usize,
    pub cross_correlation: Vec<Sample>,
}

proof fn lemma_product_bound(a: int, b: int, limit: int)
    by (nonlinear_arith)
    requires
        0 <= limit,
        -limit <= a <= limit,
        -limit <= b <= limit,
    ensures
        -(limit * limit) <= a * b <= limit * limit,
{
}

proof fn lemma_score_prefix_bound(
    strategy: ScoringStrategy,
    played: Seq<Sample>,
    window: Seq<Sample>,
    shift: int,
    count: int,
)
    requires
        samples_bounded(played),
        samples_bounded(window),
        0 <= shift,
        0 <= count,
        shift + count <= played.len(),
        count <= window.len(),
    ensures
        -(count * (SAMPLE_LIMIT * SAMPLE_LIMIT)) <= score_prefix(
            strategy,
            played,
            window,
            shift,
            count,
        ) <= count * (SAMPLE_LIMIT * SAMPLE_LIMIT),
    decreases count,
{
    if count > 0 {
        lemma_score_prefix_bound(strategy, played, window, shift, count - 1);
        lemma_product_bound(
            played[shift + count - 1] as int,
            window[count - 1] as int,
            SAMPLE_LIMIT as int,
        );
    }
}

/// The reported shift is the true optimum under the configured strategy,
/// with ties broken towards the smallest shift: no candidate scores better,
/// and every smaller candidate scores strictly worse.
pub proof fn lemma_best_shift_is_optimal(
    strategy: ScoringStrategy,
    played: Seq<Sample>,
    window: Seq<Sample>,
    count: int,
)
    requires
        count >= 1,
    ensures
        0 <= best_shift_upto(strategy, played, window, count) < count,
        forall|s: int|
            0 <= s < count ==> !improves(
                strategy,
                #[trigger] score_at(strategy, played, window, s),
                score_at(
                    strategy,
                    played,
                    window,
                    best_shift_upto(strategy, played, window, count),
                ),
            ),
        forall|s: int|
            0 <= s < best_shift_upto(strategy, played, window, count) ==> improves(
                strategy,
                score_at(
                    strategy,
                    played,
                    window,
                    best_shift_upto(strategy, played, window, count),
                ),
                #[trigger] score_at(strategy, played, window, s),
            ),
    decreases count,
{
    if count > 1 {
        lemma_best_shift_is_optimal(strategy, played, window, count - 1);
    }
}

impl View for Computer {
    type V = ComputerModel;

    closed spec fn view(&self) -> ComputerModel {
        ComputerModel {
            played: self.output@,
            captured: self.input@,
            played_capacity: self.output.capacity() as nat,
            captured_capacity: self.input.capacity() as nat,
            strategy: self.strategy,
        }
    }
}

impl Computer {
    /// Constructors establish this and every method preserves it.
    pub open spec fn wf(&self) -> bool {
        model_wf(self@)
    }

    /// Create an estimator that can detect delays of up to
    /// `maximum_expected_delay_samples`, comparing windows of
    /// `comparison_window_width` captured samples, scoring with the given
    /// strategy. A zero-width window is rejected.
    pub fn with_strategy(
        maximum_expected_delay_samples: usize,
        comparison_window_width: usize,
        strategy: ScoringStrategy,
    ) -> (r: Result<Self, ConfigurationError>)
        requires
            maximum_expected_delay_samples + comparison_window_width <= CAPACITY_LIMIT,
        ensures
            match r {
                Ok(computer) => {
                    &&& comparison_window_width > 0
                    &&& computer.wf()
                    &&& computer@.played == Seq::<Sample>::empty()
                    &&& computer@.captured == Seq::<Sample>::empty()
                    &&& computer@.played_capacity == maximum_expected_delay_samples
                        + comparison_window_width
                    &&& computer@.captured_capacity == comparison_window_width
                    &&& computer@.strategy == strategy
                },
                Err(_) => comparison_window_width == 0,
            },
    {
        let output = match RingBuffer::new(maximum_expected_delay_samples + comparison_window_width) {
            Ok(buffer) => buffer,
            Err(e) => {
                return Err(e);
            },
        };
        let input = match RingBuffer::new(comparison_window_width) {
            Ok(buffer) => buffer,
            Err(e) => {
                return Err(e);
            },
        };
        Ok(Computer { output, input, strategy })
    }

    /// Create an estimator with the default scoring strategy,
    /// [`ScoringStrategy::CrossCorrelation`].
    pub fn new(maximum_expected_delay_samples: usize, comparison_window_width: usize) -> (r: Result<
        Self,
        ConfigurationError,
    >)
        requires
            maximum_expected_delay_samples + comparison_window_width <= CAPACITY_LIMIT,
        ensures
            match r {
                Ok(computer) => {
                    &&& comparison_window_width > 0
                    &&& computer.wf()
                    &&& computer@.played == Seq::<Sample>::empty()
                    &&& computer@.captured == Seq::<Sample>::empty()
                    &&& computer@.played_capacity == maximum_expected_delay_samples
                        + comparison_window_width
                    &&& computer@.captured_capacity == comparison_window_width
                    &&& computer@.strategy == ScoringStrategy::CrossCorrelation
                },
                Err(_) => comparison_window_width == 0,
            },
    {
        Self::with_strategy(
            maximum_expected_delay_samples,
            comparison_window_width,
            ScoringStrategy::CrossCorrelation,
        )
    }

    /// The configured scoring strategy.
    pub fn scoring_strategy(&self) -> (strategy: ScoringStrategy)
        ensures
            strategy == self@.strategy,
    {
        self.strategy
    }

    /// Append a caller-chosen sample to the played history and hand it back,
    /// the deterministic core of [`Computer::output_sample`]. Use it when the
    /// probe signal comes from elsewhere than this library's generator.
    pub fn push_output_sample(&mut self, sample: Sample) -> (out: Sample)
        requires
            old(self).wf(),
            -SAMPLE_LIMIT <= sample <= SAMPLE_LIMIT,
        ensures
            final(self).wf(),
            out == sample,
            final(self)@.played == push_model(
                old(self)@.played,
                old(self)@.played_capacity,
                sample,
            ),
            final(self)@.captured == old(self)@.captured,
            final(self)@.played_capacity == old(self)@.played_capacity,
            final(self)@.captured_capacity == old(self)@.captured_capacity,
            final(self)@.strategy == old(self)@.strategy,
    {
        self.output.push_back(sample);
        sample
    }

    /// Produce the next probe sample to emit: draw a uniformly distributed
    /// value, record it in the played history and return it.
    pub fn output_sample(&mut self) -> (sample: Sample)
        requires
            old(self).wf(),
        ensures
            final(self).wf(),
            -SAMPLE_LIMIT <= sample <= SAMPLE_LIMIT,
            final(self)@.played == push_model(
                old(self)@.played,
                old(self)@.played_capacity,
                sample,
            ),
            final(self)@.captured == old(self)@.captured,
            final(self)@.played_capacity == old(self)@.played_capacity,
            final(self)@.captured_capacity == old(self)@.captured_capacity,
            final(self)@.strategy == old(self)@.strategy,
    {
        let sample = random_in_range(-SAMPLE_LIMIT, SAMPLE_LIMIT);
        self.push_output_sample(sample)
    }

    /// Append one captured sample to the comparison window.
    pub fn record_sample(&mut self, sample: Sample)
        requires
            old(self).wf(),
            -SAMPLE_LIMIT <= sample <= SAMPLE_LIMIT,
        ensures
            final(self).wf(),
            final(self)@.captured == push_model(
                old(self)@.captured,
                old(self)@.captured_capacity,
                sample,
            ),
            final(self)@.played == old(self)@.played,
            final(self)@.played_capacity == old(self)@.played_capacity,
            final(self)@.captured_capacity == old(self)@.captured_capacity,
            final(self)@.strategy == old(self)@.strategy,
    {
        self.input.push_back(sample);
    }

    /// Estimate the delay by scanning every candidate phase shift of the
    /// captured window against the played history and reporting the shift
    /// whose fit score is best under the configured strategy; ties go to
    /// the smallest shift, and the largest candidate shift means zero
    /// delay, so the estimate always lies between 0 and the configured
    /// maximum. Returns `None` ("not ready") until the captured window has
    /// filled once. The query is read-only; its cost is
    /// `O(shifts * window)`, so run it against a [`Computer::snapshot`]
    /// rather than under a shared lock.
    #[verifier::loop_isolation(false)]
    #[verifier::rlimit(60)]
    pub fn delay(&self) -> (r: Option<DelayResult>)
        requires
            self.wf(),
        ensures
            match r {
                None => !query_ready(self@),
                Some(result) => {
                    &&& query_ready(self@)
                    &&& result.delay_samples == estimate_model(self@)
                    &&& result.delay_samples + self@.captured_capacity <= self@.played_capacity
                    &&& result.cross_correlation@.len() == spec_max_shift(self@)
                    &&& forall|s: int|
                        0 <= s < spec_max_shift(self@) ==> result.cross_correlation@[s] == score_at(
                            self@.strategy,
                            self@.played,
                            self@.captured,
                            s,
                        )
                },
            },
    {
        if !self.input.is_full() {
            // We haven't yet accumulated enough input samples. We'll need to
            // wait a bit more.
            return None;
        }

        let played_len = self.output.len();
        let window_len = self.input.len();
        // The +1 needs to be there to cover 0 delay.
        let maximum_shift = if played_len >= window_len {
            played_len - window_len + 1
        } else {
            1
        };
        assert(maximum_shift == spec_max_shift(self@));

        // Find the phase shift that produced the best fit score.
        let mut cross_correlation: Vec<Sample> = Vec::new();
        let mut best_shift: usize = 0;
        let mut best_score: i64 = 0;

        for shift in 0..maximum_shift
            invariant
                cross_correlation@.len() == shift,
                forall|s: int|
                    0 <= s < shift ==> cross_correlation@[s] == score_at(
                        self@.strategy,
                        self@.played,
                        self@.captured,
                        s,
                    ),
                shift > 0 ==> {
                    &&& best_shift == best_shift_upto(
                        self@.strategy,
                        self@.played,
                        self@.captured,
                        shift as int,
                    )
                    &&& best_shift < shift
                    &&& best_score == score_at(
                        self@.strategy,
                        self@.played,
                        self@.captured,
                        best_shift as int,
                    )
                },
                shift == 0 ==> best_shift == 0,
        {
            let available = played_len - shift;
            let overlap_len = if window_len <= available {
                window_len
            } else {
                available
            };
            assert(overlap_len == overlap(self@.played, self@.captured, shift as int));

            let mut score: i64 = 0;
            for i in 0..overlap_len
                invariant
                    overlap_len == overlap(self@.played, self@.captured, shift as int),
                    shift + overlap_len <= played_len,
                    overlap_len <= window_len,
                    score == score_prefix(
                        self@.strategy,
                        self@.played,
                        self@.captured,
                        shift as int,
                        i as int,
                    ),
                    -((i as int) * (SAMPLE_LIMIT * SAMPLE_LIMIT)) <= score <= (i as int) * (
                    SAMPLE_LIMIT * SAMPLE_LIMIT),
            {
                let output_sample = *self.output.get(shift + i);
                let input_sample = *self.input.get(i);
                proof {
                    lemma_product_bound(
                        output_sample as int,
                        input_sample as int,
                        SAMPLE_LIMIT as int,
                    );
                }
                let term: i64 = match self.strategy {
                    ScoringStrategy::CrossCorrelation => output_sample * input_sample,
                    ScoringStrategy::AbsoluteDifference => {
                        if output_sample >= input_sample {
                            output_sample - input_sample
                        } else {
                            input_sample - output_sample
                        }
                    },
                };
                score = score + term;
            }

            cross_correlation.push(score);

            let displaces = match self.strategy {
                ScoringStrategy::CrossCorrelation => score > best_score,
                ScoringStrategy::AbsoluteDifference => score < best_score,
            };
            if shift == 0 {
                best_shift = 0;
                best_score = score;
            } else if displaces {
                best_score = score;
                best_shift = shift;
            }
        }

        proof {
            lemma_best_shift_is_optimal(
                self@.strategy,
                self@.played,
                self@.captured,
                maximum_shift as int,
            );
        }

        Some(
            DelayResult {
                // Subtract the +1 we added to maximum_shift above.
                delay_samples: maximum_shift - best_shift - 1,
                cross_correlation,
            },
        )
    }

    /// The captured comparison window, oldest sample first.
    pub fn input_buffer(&self) -> (buffer: &RingBuffer<Sample>)
        ensures
            buffer@ == self@.captured,
            buffer.capacity() == self@.captured_capacity,
    {
        &self.input
    }

    /// The played history, oldest sample first.
    pub fn output_buffer(&self) -> (buffer: &RingBuffer<Sample>)
        ensures
            buffer@ == self@.played,
            buffer.capacity() == self@.played_capacity,
    {
        &self.output
    }

    /// An independent deep copy of the whole estimator. Take one under a
    /// brief lock and run [`Computer::delay`] against the copy, so that the
    /// expensive search never blocks the sample-producing paths.
    pub fn snapshot(&self) -> (copy: Self)
        requires
            self.wf(),
        ensures
            copy.wf(),
            copy@ == self@,
    {
        let copy = Computer {
            output: self.output.snapshot(),
            input: self.input.snapshot(),
            strategy: self.strategy,
        };
        copy
    }
}

/// The Filling -> Ready transition is one-way and permanent: once the
/// captured window has filled, recording further samples keeps it full, so
/// an estimator that has answered a query once answers every later query.
pub proof fn lemma_ready_is_permanent(m: ComputerModel, sample: Sample)
    requires
        model_wf(m),
        query_ready(m),
    ensures
        query_ready(
            ComputerModel {
                captured: push_model(m.captured, m.captured_capacity, sample),
                ..m
            },
        ),
{
}

/// Snapshot isolation: an estimate is a function of the queried state
/// alone. A query against a snapshot that agreed with the live estimator at
/// the moment it was taken answers exactly what the live estimator would
/// have answered at that moment; mutations of the live estimator after that
/// moment cannot reach the snapshot, which is an independent value.
pub proof fn lemma_snapshot_query_agrees(
    snapshot: Computer,
    live: Computer,
    from_snapshot: Option<DelayResult>,
    from_live: Option<DelayResult>,
)
    requires
        snapshot.wf(),
        live.wf(),
        snapshot@ == live@,
        call_ensures(Computer::delay, (&snapshot,), from_snapshot),
        call_ensures(Computer::delay, (&live,), from_live),
    ensures
        match (from_snapshot, from_live) {
            (Some(a), Some(b)) => a.delay_samples == b.delay_samples && a.cross_correlation@
                == b.cross_correlation@,
            (None, None) => true,
            _ => false,
        },
{
    match (from_snapshot, from_live) {
        (Some(a), Some(b)) => {
            assert(a.cross_correlation@ =~= b.cross_correlation@);
        },
        _ => {},
    }
}

/// Querying is idempotent: `delay` takes the estimator by shared reference
/// and mutates nothing, and any two results of querying one and the same
/// unmutated estimator agree, in the reported delay and in every candidate
/// score.
pub proof fn lemma_query_idempotent(
    computer: Computer,
    first: Option<DelayResult>,
    second: Option<DelayResult>,
)
    requires
        computer.wf(),
        call_ensures(Computer::delay, (&computer,), first),
        call_ensures(Computer::delay, (&computer,), second),
    ensures
        match (first, second) {
            (Some(a), Some(b)) => a.delay_samples == b.delay_samples && a.cross_correlation@
                == b.cross_correlation@,
            (None, None) => true,
            _ => false,
        },
{
    lemma_snapshot_query_agrees(computer, computer, first, second);
}

} // verus!
