//! The simulation clock: converts an irregular stream of elapsed-time
//! samples into a deterministic, lossless count of fixed-size simulation
//! frames, returning on each query exactly the frame numbers that have
//! newly become due.
//!
//! All durations are in nanoseconds, held as plain integers.

use vstd::prelude::*;
use vstd::arithmetic::div_mod::{
    lemma_fundamental_div_mod, lemma_fundamental_div_mod_converse, lemma_mod_bound,
    lemma_div_pos_is_pos, lemma_basic_div, lemma_small_mod,
};
use crate::errors::ConfigError;

verus! {

/// Mathematical model of a simulation clock: the fixed frame duration, the
/// remainder of wall-clock time not yet consumed by a whole frame, and the
/// number of the most recently completed frame.
pub ghost struct ClockModel {
    pub frame_duration: int,
    pub accumulated: int,
    pub next_frame: int,
}

/// Well-formedness: the frame duration is positive and the accumulated
/// remainder is strictly below one frame duration.
pub open spec fn clock_wf(m: ClockModel) -> bool {
    &&& m.frame_duration > 0
    &&& 0 <= m.accumulated < m.frame_duration
    &&& 0 <= m.next_frame
}

/// How many whole frames become due when `elapsed` is added to the clock.
pub open spec fn due_count(m: ClockModel, elapsed: int) -> int {
    (m.accumulated + elapsed) / m.frame_duration
}

/// The clock state after absorbing `elapsed`: whole frames are consumed,
/// the remainder is kept.
pub open spec fn clock_step(m: ClockModel, elapsed: int) -> ClockModel {
    ClockModel {
        frame_duration: m.frame_duration,
        accumulated: (m.accumulated + elapsed) % m.frame_duration,
        next_frame: m.next_frame + due_count(m, elapsed),
    }
}

/// The frame numbers that absorbing `elapsed` makes due: consecutive
/// integers starting just above the last completed frame.
pub open spec fn due_frames(m: ClockModel, elapsed: int) -> Seq<int> {
    Seq::new(due_count(m, elapsed) as nat, |i: int| m.next_frame + 1 + i)
}

/// The total wall-clock time a clock state accounts for: completed frames
/// plus the unconsumed remainder.
pub open spec fn clock_total(m: ClockModel) -> int {
    m.next_frame * m.frame_duration + m.accumulated
}

/// The freshly constructed clock state for a given frame duration.
pub open spec fn initial_clock(frame_duration: int) -> ClockModel {
    ClockModel { frame_duration: frame_duration, accumulated: 0, next_frame: 0 }
}

/// The clock state after absorbing a whole sequence of elapsed-time samples.
pub open spec fn run_clock(m: ClockModel, samples: Seq<int>) -> ClockModel
    decreases samples.len(),
{
    if samples.len() == 0 {
        m
    } else {
        run_clock(clock_step(m, samples[0]), samples.drop_first())
    }
}

/// The sum of a sequence of elapsed-time samples.
pub open spec fn elapsed_sum(samples: Seq<int>) -> int
    decreases samples.len(),
{
    if samples.len() == 0 {
        0
    } else {
        samples[0] + elapsed_sum(samples.drop_first())
    }
}

pub open spec fn all_nonneg(samples: Seq<int>) -> bool {
    forall|i: int| 0 <= i < samples.len() ==> samples[i] >= 0
}

/// One step of the clock preserves well-formedness, accounts for exactly
/// the elapsed time it absorbed, and never makes a negative number of
/// frames due.
pub proof fn lemma_step_total(m: ClockModel, elapsed: int)
    requires
        clock_wf(m),
        elapsed >= 0,
    ensures
        clock_wf(clock_step(m, elapsed)),
        clock_total(clock_step(m, elapsed)) == clock_total(m) + elapsed,
        due_count(m, elapsed) >= 0,
{
    let x = m.accumulated + elapsed;
    let d = m.frame_duration;
    let q = x / d;
    let r = x % d;
    lemma_fundamental_div_mod(x, d);
    lemma_mod_bound(x, d);
    lemma_div_pos_is_pos(x, d);
    assert((m.next_frame + q) * d == m.next_frame * d + q * d) by (nonlinear_arith);
}

/// Lossless accumulation, generalized: absorbing any sequence of
/// non-negative samples keeps the clock well formed and accounts for
/// exactly the sum of the samples.
pub proof fn lemma_run_total(m: ClockModel, samples: Seq<int>)
    requires
        clock_wf(m),
        all_nonneg(samples),
    ensures
        clock_wf(run_clock(m, samples)),
        run_clock(m, samples).frame_duration == m.frame_duration,
        clock_total(run_clock(m, samples)) == clock_total(m) + elapsed_sum(samples),
    decreases samples.len(),
{
    if samples.len() > 0 {
        lemma_step_total(m, samples[0]);
        lemma_run_total(clock_step(m, samples[0]), samples.drop_first());
    }
}

/// For every sequence of non-negative elapsed-time samples summing to `T`,
/// a clock started fresh ends with exactly `floor(T / frame_duration)`
/// completed frames — accumulation is lossless, and the total depends only
/// on the sum, not on how it was split into samples.
pub proof fn lemma_lossless_accumulation(frame_duration: int, samples: Seq<int>)
    requires
        frame_duration > 0,
        all_nonneg(samples),
    ensures
        run_clock(initial_clock(frame_duration), samples).next_frame
            == elapsed_sum(samples) / frame_duration,
{
    let m0 = initial_clock(frame_duration);
    let mf = run_clock(m0, samples);
    lemma_run_total(m0, samples);
    let total = elapsed_sum(samples);
    assert(total == mf.next_frame * frame_duration + mf.accumulated);
    lemma_fundamental_div_mod_converse(total, frame_duration, mf.next_frame, mf.accumulated);
}

/// One call of `advance` only returns frame numbers strictly above the last
/// completed frame, strictly increasing; and across two successive calls
/// the two batches join into one run of consecutive frame numbers — no
/// duplicates, no gaps, every frame of the second batch above every frame
/// of the first.
pub proof fn lemma_frames_monotone(m: ClockModel, e1: int, e2: int)
    requires
        clock_wf(m),
        e1 >= 0,
        e2 >= 0,
    ensures
        forall|i: int| 0 <= i < due_frames(m, e1).len() ==> due_frames(m, e1)[i] > m.next_frame,
        forall|i: int, j: int|
            0 <= i < j < due_frames(m, e1).len() ==> due_frames(m, e1)[i] < due_frames(m, e1)[j],
        forall|i: int, j: int|
            0 <= i < due_frames(m, e1).len() && 0 <= j < due_frames(clock_step(m, e1), e2).len()
                ==> due_frames(m, e1)[i] < due_frames(clock_step(m, e1), e2)[j],
        due_frames(m, e1) + due_frames(clock_step(m, e1), e2)
            == Seq::new(
                (due_count(m, e1) + due_count(clock_step(m, e1), e2)) as nat,
                |i: int| m.next_frame + 1 + i,
            ),
{
    lemma_step_total(m, e1);
    let m1 = clock_step(m, e1);
    lemma_step_total(m1, e2);
    assert(due_frames(m, e1) + due_frames(m1, e2)
        =~= Seq::new(
            (due_count(m, e1) + due_count(m1, e2)) as nat,
            |i: int| m.next_frame + 1 + i,
        ));
}

/// Every frame a batch returns lies in the window between the frame
/// counter before the call and the frame counter after it. Together with
/// `lemma_next_frame_monotone` this extends `lemma_frames_monotone` to
/// calls arbitrarily far apart: a batch returned after any run of samples
/// lies strictly above every batch returned before it.
pub proof fn lemma_batch_window(m: ClockModel, elapsed: int)
    requires
        clock_wf(m),
        elapsed >= 0,
    ensures
        forall|i: int| #![trigger due_frames(m, elapsed)[i]] 0 <= i < due_frames(m, elapsed).len()
            ==> m.next_frame < due_frames(m, elapsed)[i] <= clock_step(m, elapsed).next_frame,
{
    lemma_step_total(m, elapsed);
}

/// The frame counter never decreases, however many samples are absorbed.
pub proof fn lemma_next_frame_monotone(m: ClockModel, samples: Seq<int>)
    requires
        clock_wf(m),
        all_nonneg(samples),
    ensures
        run_clock(m, samples).next_frame >= m.next_frame,
    decreases samples.len(),
{
    if samples.len() > 0 {
        lemma_step_total(m, samples[0]);
        lemma_next_frame_monotone(clock_step(m, samples[0]), samples.drop_first());
    }
}

/// A zero elapsed-time sample is a no-op: no frame becomes due and the
/// clock state is unchanged.
pub proof fn lemma_advance_zero_noop(m: ClockModel)
    requires
        clock_wf(m),
    ensures
        clock_step(m, 0) == m,
        due_frames(m, 0) == Seq::<int>::empty(),
{
    lemma_basic_div(m.accumulated, m.frame_duration);
    lemma_small_mod(m.accumulated as nat, m.frame_duration as nat);
    assert(due_frames(m, 0) =~= Seq::<int>::empty());
}

/// A fixed-rate simulation clock. Created once with a configured frame
/// duration; advanced once per update-loop invocation.
pub struct SimulationClock {
    frame_duration: u64,
    accumulated_time: u64,
    next_frame_number: u32,
}

impl View for SimulationClock {
    type V = ClockModel;

    closed spec fn view(&self) -> ClockModel {
        ClockModel {
            frame_duration: self.frame_duration as int,
            accumulated: self.accumulated_time as int,
            next_frame: self.next_frame_number as int,
        }
    }
}

impl SimulationClock {
    pub open spec fn wf(&self) -> bool {
        clock_wf(self@)
    }

    /// Create a clock with the given frame duration in nanoseconds.
    /// A zero frame duration is rejected: it would make catch-up unbounded.
    pub fn new(frame_duration_nanos: u64) -> (r: Result<SimulationClock, ConfigError>)
        ensures
            r is Ok <==> frame_duration_nanos > 0,
            r is Ok ==> r->Ok_0.wf(),
            r is Ok ==> r->Ok_0@ == (ClockModel {
                frame_duration: frame_duration_nanos as int,
                accumulated: 0,
                next_frame: 0,
            }),
            r is Err ==> r->Err_0 == ConfigError::InvalidConfiguration,
    {
        if frame_duration_nanos == 0 {
            Err(ConfigError::InvalidConfiguration)
        } else {
            Ok(SimulationClock {
                frame_duration: frame_duration_nanos,
                accumulated_time: 0,
                next_frame_number: 0,
            })
        }
    }

    /// Absorb one elapsed-time sample (in nanoseconds) and return the frame
    /// numbers that have newly become due, in strictly increasing order with
    /// no gaps. A slow update loop therefore yields a catch-up batch rather
    /// than dropped frames; a zero sample yields an empty batch.
    pub fn advance(&mut self, elapsed_nanos: u64) -> (frames: Vec<u32>)
        requires
            old(self).wf(),
            old(self)@.accumulated + elapsed_nanos <= u64::MAX,
            old(self)@.next_frame + due_count(old(self)@, elapsed_nanos as int) <= u32::MAX,
        ensures
            final(self).wf(),
            final(self)@ == clock_step(old(self)@, elapsed_nanos as int),
            frames@.map_values(|f: u32| f as int) == due_frames(old(self)@, elapsed_nanos as int),
    {
        let ghost m0 = self@;
        let total: u64 = self.accumulated_time + elapsed_nanos;
        let count: u64 = total / self.frame_duration;
        self.accumulated_time = total % self.frame_duration;
        let mut frames: Vec<u32> = Vec::new();
        let mut i: u64 = 0;
        while i < count
            invariant
                i <= count,
                count == due_count(m0, elapsed_nanos as int),
                m0.next_frame + count <= u32::MAX,
                self.frame_duration == m0.frame_duration,
                self.accumulated_time == (m0.accumulated + elapsed_nanos) % m0.frame_duration,
                self.next_frame_number == m0.next_frame + i,
                frames@.len() == i,
                forall|j: int| 0 <= j < i ==> frames@[j] == m0.next_frame + 1 + j,
            decreases count - i,
        {
            self.next_frame_number = self.next_frame_number + 1;
            frames.push(self.next_frame_number);
            i = i + 1;
        }
        proof {
            assert(frames@.map_values(|f: u32| f as int) =~= due_frames(m0, elapsed_nanos as int));
        }
        frames
    }

    /// The configured frame duration in nanoseconds.
    pub fn frame_duration_nanos(&self) -> (r: u64)
        ensures
            r == self@.frame_duration,
    {
        self.frame_duration
    }

    /// The remainder of elapsed time not yet consumed by a whole frame.
    pub fn accumulated_nanos(&self) -> (r: u64)
        ensures
            r == self@.accumulated,
    {
        self.accumulated_time
    }

    /// The number of the most recently completed simulation frame.
    pub fn next_frame_number(&self) -> (r: u32)
        ensures
            r == self@.next_frame,
    {
        self.next_frame_number
    }
}

} // verus!
