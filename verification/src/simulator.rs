//! Synthetic channel model — delay line, gain, additive noise — used to
//! exercise the estimator against a known ground truth.

use crate::computer::Computer;
use crate::ring_buffer::{push_model, RingBuffer};
use crate::rng::random_in_range;
use crate::{Sample, FIXED_ONE, SAMPLE_LIMIT};
use vstd::prelude::*;

verus! {

/// The simulated channel: an optional delay line (absent when the delay is
/// zero), a fixed-point gain factor and a signal-to-noise ratio.
#[derive(Debug)]
pub struct Simulator {
    delay_buffer: Option<RingBuffer<Sample>>,
    /// Gain applied to every delayed sample, in fixed point:
    /// [`FIXED_ONE`] means a gain of 1.0.
    pub gain: i64,
    /// Signal-to-noise ratio as a plain integer factor; the noise amplitude
    /// is [`FIXED_ONE`] divided by it. Values below 1 are clamped to 1, so a
    /// tiny ratio saturates the noise amplitude instead of blowing up.
    pub signal_to_noise_ratio: i64,
}

/// The simulator's state as mathematics: the delay line contents (oldest
/// first), the configured delay, and the two channel parameters.
pub ghost struct SimulatorModel {
    pub line: Seq<Sample>,
    pub delay: nat,
    pub gain: int,
    pub signal_to_noise_ratio: int,
}

/// Truncating division by the positive constant `divisor`, as the machine
/// computes it (rounding towards zero, unlike the Euclidean `/` of
/// specifications).
pub open spec fn div_towards_zero(value: int, divisor: int) -> int {
    if value >= 0 {
        value / divisor
    } else {
        -((-value) / divisor)
    }
}

/// A sample clamped into the representable range `[-SAMPLE_LIMIT, SAMPLE_LIMIT]`.
pub open spec fn clamp_sample(value: int) -> int {
    if value < -SAMPLE_LIMIT {
        -SAMPLE_LIMIT as int
    } else if value > SAMPLE_LIMIT {
        SAMPLE_LIMIT as int
    } else {
        value
    }
}

/// What the channel makes of one delayed sample: gain, then additive noise,
/// then saturation into the representable sample range.
pub open spec fn channel_output(delayed: int, gain: int, noise: int) -> int {
    clamp_sample(div_towards_zero(delayed * gain, FIXED_ONE as int) + noise)
}

/// The effective signal-to-noise ratio: never below 1.
pub open spec fn effective_snr(signal_to_noise_ratio: int) -> int {
    if signal_to_noise_ratio < 1 {
        1
    } else {
        signal_to_noise_ratio
    }
}

/// The largest noise value a tick may add: [`FIXED_ONE`] divided by the
/// effective signal-to-noise ratio. A huge ratio makes the channel
/// noiseless; a ratio of 1 or below saturates the amplitude at
/// [`FIXED_ONE`].
pub open spec fn noise_amplitude(signal_to_noise_ratio: int) -> int {
    FIXED_ONE as int / effective_snr(signal_to_noise_ratio)
}

/// The sample a tick reads from the delay line before pushing the new one:
/// the oldest buffered sample once the line has filled, silence (0) while
/// the channel is still warming up, and the input itself when there is no
/// delay at all.
pub open spec fn delayed_sample(m: SimulatorModel, input: int) -> int {
    if m.delay == 0 {
        input
    } else if m.line.len() == m.delay {
        m.line[0] as int
    } else {
        0
    }
}

/// The delay line contents after a tick pushed `input`.
pub open spec fn line_after_tick(m: SimulatorModel, input: Sample) -> Seq<Sample> {
    if m.delay == 0 {
        m.line
    } else {
        push_model(m.line, m.delay, input)
    }
}

impl View for Simulator {
    type V = SimulatorModel;

    closed spec fn view(&self) -> SimulatorModel {
        SimulatorModel {
            line: match self.delay_buffer {
                Some(buffer) => buffer@,
                None => Seq::empty(),
            },
            delay: match self.delay_buffer {
                Some(buffer) => buffer.capacity() as nat,
                None => 0,
            },
            gain: self.gain as int,
            signal_to_noise_ratio: self.signal_to_noise_ratio as int,
        }
    }
}

proof fn lemma_i64_product_fits_i128(a: int, b: int)
    by (nonlinear_arith)
    requires
        i64::MIN <= a <= i64::MAX,
        i64::MIN <= b <= i64::MAX,
    ensures
        -((i64::MIN as int) * (i64::MIN as int)) <= a * b <= (i64::MIN as int) * (i64::MIN as int),
{
}

impl Simulator {
    /// Constructors establish this and every method preserves it: the delay
    /// line, when present, is well formed and sized to the configured delay.
    pub closed spec fn wf(&self) -> bool {
        match self.delay_buffer {
            Some(buffer) => buffer.wf(),
            None => true,
        }
    }

    /// The delay line never holds more samples than the configured delay.
    pub proof fn lemma_wf_line_bounded(&self)
        requires
            self.wf(),
        ensures
            self@.line.len() <= self@.delay,
    {
    }

    /// Create a channel with the given delay (0 means pass-through), gain
    /// and signal-to-noise ratio.
    pub fn new(delay_samples: usize, gain: i64, signal_to_noise_ratio: i64) -> (simulator:
        Simulator)
        ensures
            simulator.wf(),
            simulator@.line == Seq::<Sample>::empty(),
            simulator@.delay == delay_samples,
            simulator@.gain == gain,
            simulator@.signal_to_noise_ratio == signal_to_noise_ratio,
    {
        let delay_buffer = if delay_samples > 0 {
            match RingBuffer::new(delay_samples) {
                Ok(buffer) => Some(buffer),
                Err(_) => None,  // unreachable: the capacity is positive
            }
        } else {
            None
        };

        Simulator { delay_buffer, gain, signal_to_noise_ratio }
    }

    /// The deterministic core of [`Simulator::tick`]: run one sample through
    /// the delay line, apply the gain and add the caller-supplied noise
    /// value. Exposed so that a channel can be driven with chosen noise.
    pub fn tick_with_noise(&mut self, input: Sample, noise: i64) -> (output: Sample)
        requires
            old(self).wf(),
            -SAMPLE_LIMIT <= noise <= SAMPLE_LIMIT,
        ensures
            final(self).wf(),
            output == channel_output(delayed_sample(old(self)@, input as int), old(self)@.gain, noise as int),
            -SAMPLE_LIMIT <= output <= SAMPLE_LIMIT,
            final(self)@.line == line_after_tick(old(self)@, input),
            final(self)@.delay == old(self)@.delay,
            final(self)@.gain == old(self)@.gain,
            final(self)@.signal_to_noise_ratio == old(self)@.signal_to_noise_ratio,
    {
        let delayed: i64 = match &mut self.delay_buffer {
            // Delay is zero, let the sample just pass through.
            None => input,
            // Simulate silence while the buffer is filling up (and returning None).
            Some(buffer) => {
                match buffer.push_back(input) {
                    Some(evicted) => evicted,
                    None => 0,
                }
            },
        };

        proof {
            lemma_i64_product_fits_i128(delayed as int, self.gain as int);
        }
        let amplified: i128 = (delayed as i128) * (self.gain as i128);
        let gained: i128 = match amplified.checked_div(FIXED_ONE as i128) {
            Some(q) => q,
            None => 0,  // unreachable: the divisor is a positive constant
        };
        proof {
            if amplified >= 0 {
                vstd::arithmetic::div_mod::lemma_div_nonincreasing(
                    amplified as int,
                    FIXED_ONE as int,
                );
                vstd::arithmetic::div_mod::lemma_div_pos_is_pos(amplified as int, FIXED_ONE as int);
            } else {
                vstd::arithmetic::div_mod::lemma_div_nonincreasing(
                    -amplified as int,
                    FIXED_ONE as int,
                );
                vstd::arithmetic::div_mod::lemma_div_pos_is_pos(
                    -amplified as int,
                    FIXED_ONE as int,
                );
            }
            assert(-((i64::MIN as int) * (i64::MIN as int)) <= gained <= (i64::MIN as int) * (
            i64::MIN as int));
        }
        let with_noise: i128 = gained + (noise as i128);

        let output: i64 = if with_noise < -SAMPLE_LIMIT as i128 {
            -SAMPLE_LIMIT
        } else if with_noise > SAMPLE_LIMIT as i128 {
            SAMPLE_LIMIT
        } else {
            with_noise as i64
        };
        output
    }

    /// Run one sample through the channel: delay, gain, and a fresh draw of
    /// uniformly distributed non-negative noise whose amplitude is set by
    /// the signal-to-noise ratio.
    pub fn tick(&mut self, input: Sample) -> (output: Sample)
        requires
            old(self).wf(),
        ensures
            final(self).wf(),
            exists|noise: int|
                0 <= noise <= noise_amplitude(old(self)@.signal_to_noise_ratio) && output
                    == channel_output(
                    delayed_sample(old(self)@, input as int),
                    old(self)@.gain,
                    noise,
                ),
            -SAMPLE_LIMIT <= output <= SAMPLE_LIMIT,
            final(self)@.line == line_after_tick(old(self)@, input),
            final(self)@.delay == old(self)@.delay,
            final(self)@.gain == old(self)@.gain,
            final(self)@.signal_to_noise_ratio == old(self)@.signal_to_noise_ratio,
    {
        let ratio: i64 = if self.signal_to_noise_ratio < 1 {
            1
        } else {
            self.signal_to_noise_ratio
        };
        let amplitude: i64 = match FIXED_ONE.checked_div(ratio) {
            Some(q) => q,
            None => 0,  // unreachable: the divisor is at least 1
        };
        assert(amplitude == noise_amplitude(self@.signal_to_noise_ratio));
        let noise = random_in_range(0, amplitude);
        let ghost n = noise as int;
        let output = self.tick_with_noise(input, noise);
        proof {
            assert(0 <= n <= noise_amplitude(old(self)@.signal_to_noise_ratio) && output
                == channel_output(delayed_sample(old(self)@, input as int), old(self)@.gain, n));
        }
        output
    }

    /// The currently configured delay, in samples.
    pub fn delay_samples(&self) -> (d: usize)
        ensures
            d == self@.delay,
    {
        match &self.delay_buffer {
            Some(buffer) => buffer.capacity(),
            None => 0,
        }
    }

    /// Reconfigure the delay. Growing keeps every buffered sample; shrinking
    /// discards the oldest samples until the new capacity holds — at most
    /// the difference between the old and the new delay of them. Moving to
    /// or from zero installs or drops the delay line.
    pub fn set_delay(&mut self, delay_samples: usize)
        requires
            old(self).wf(),
        ensures
            final(self).wf(),
            final(self)@.delay == delay_samples,
            final(self)@.gain == old(self)@.gain,
            final(self)@.signal_to_noise_ratio == old(self)@.signal_to_noise_ratio,
            final(self)@.line == if delay_samples == 0 {
                Seq::<Sample>::empty()
            } else if old(self)@.line.len() <= delay_samples {
                old(self)@.line
            } else {
                old(self)@.line.skip(old(self)@.line.len() - delay_samples)
            },
            old(self)@.line.len() - final(self)@.line.len() <= old(self)@.delay - delay_samples
                || old(self)@.delay <= delay_samples,
    {
        match (&mut self.delay_buffer, delay_samples) {
            (None, 0) => {},
            (None, _) => {
                self.delay_buffer = match RingBuffer::new(delay_samples) {
                    Ok(buffer) => Some(buffer),
                    Err(_) => None,  // unreachable: the capacity is positive
                };
            },
            (Some(_), 0) => {
                self.delay_buffer = None;
            },
            (Some(buffer), _) => {
                buffer.set_capacity(delay_samples);
            },
        }
    }
}

/// Zero-delay pass-through: with no configured delay a tick buffers
/// nothing — the delayed sample is the input itself, so the output is the
/// input with gain and noise applied, with no lag.
pub proof fn lemma_zero_delay_passthrough(m: SimulatorModel, input: Sample, noise: int)
    requires
        m.delay == 0,
    ensures
        delayed_sample(m, input as int) == input as int,
        line_after_tick(m, input) == m.line,
        channel_output(delayed_sample(m, input as int), m.gain, noise) == clamp_sample(
            div_towards_zero(input as int * m.gain, FIXED_ONE as int) + noise,
        ),
{
}

/// One step of the simulated audio pipeline: the estimator emits a probe
/// sample, the synthetic channel delays and distorts it, and the result is
/// recorded as a captured sample — the loop body that a background task
/// runs over and over.
pub fn pipeline_step(computer: &mut Computer, simulator: &mut Simulator)
    requires
        old(computer).wf(),
        old(simulator).wf(),
    ensures
        final(computer).wf(),
        final(simulator).wf(),
        final(computer)@.played_capacity == old(computer)@.played_capacity,
        final(computer)@.captured_capacity == old(computer)@.captured_capacity,
        final(simulator)@.delay == old(simulator)@.delay,
        final(simulator)@.gain == old(simulator)@.gain,
        final(simulator)@.signal_to_noise_ratio == old(simulator)@.signal_to_noise_ratio,
        exists|probe: Sample, echoed: Sample, noise: int|
            {
                &&& -SAMPLE_LIMIT <= probe <= SAMPLE_LIMIT
                &&& 0 <= noise <= noise_amplitude(old(simulator)@.signal_to_noise_ratio)
                &&& echoed == channel_output(
                    delayed_sample(old(simulator)@, probe as int),
                    old(simulator)@.gain,
                    noise,
                )
                &&& final(computer)@.played == push_model(
                    old(computer)@.played,
                    old(computer)@.played_capacity,
                    probe,
                )
                &&& final(simulator)@.line == line_after_tick(old(simulator)@, probe)
                &&& final(computer)@.captured == push_model(
                    old(computer)@.captured,
                    old(computer)@.captured_capacity,
                    echoed,
                )
            },
{
    let probe = computer.output_sample();
    let echoed = simulator.tick(probe);
    computer.record_sample(echoed);
}

} // verus!
