//! The cadence gate: decides, among a batch of due simulation frames,
//! which ones may produce an action, enforcing a minimum spacing measured
//! in simulation-frame units rather than wall-clock time, so behavior is
//! deterministic under replay.

use vstd::prelude::*;

verus! {

/// Mathematical model of a cadence gate: the last frame that triggered an
/// action and the fixed minimum spacing between triggering frames.
pub ghost struct GateModel {
    pub last_triggered: int,
    pub min_interval: int,
}

/// The stateful left-to-right scan over a batch of candidate frames:
/// a frame `f` triggers when `f >= last + min`, and a triggering frame
/// becomes the new `last`, suppressing later frames of the same batch that
/// fall within the interval. Returns the final `last` and the triggering
/// frames in order.
pub open spec fn gate_run(last: int, min: int, frames: Seq<int>) -> (int, Seq<int>)
    decreases frames.len(),
{
    if frames.len() == 0 {
        (last, Seq::<int>::empty())
    } else if frames[0] >= last + min {
        let rest = gate_run(frames[0], min, frames.drop_first());
        (rest.0, seq![frames[0]] + rest.1)
    } else {
        gate_run(last, min, frames.drop_first())
    }
}

/// Extending the batch by one frame extends the scan by one step.
proof fn lemma_gate_run_push(last: int, min: int, frames: Seq<int>, f: int)
    ensures
        gate_run(last, min, frames.push(f)) == ({
            let r = gate_run(last, min, frames);
            if f >= r.0 + min {
                (f, r.1.push(f))
            } else {
                r
            }
        }),
    decreases frames.len(),
{
    let r = gate_run(last, min, frames);
    if frames.len() == 0 {
        assert(frames.push(f).drop_first() =~= Seq::<int>::empty());
        assert(frames.push(f)[0] == f);
        assert(gate_run(f, min, Seq::<int>::empty()) == (f, Seq::<int>::empty()));
        assert(gate_run(last, min, Seq::<int>::empty()) == (last, Seq::<int>::empty()));
        if f >= last + min {
            assert(seq![f] + Seq::<int>::empty() =~= r.1.push(f));
        }
    } else {
        assert(frames.push(f).drop_first() =~= frames.drop_first().push(f));
        if frames[0] >= last + min {
            lemma_gate_run_push(frames[0], min, frames.drop_first(), f);
            let rest = gate_run(frames[0], min, frames.drop_first());
            if f >= rest.0 + min {
                assert((seq![frames[0]] + rest.1).push(f) =~= seq![frames[0]] + rest.1.push(f));
            }
        } else {
            lemma_gate_run_push(last, min, frames.drop_first(), f);
        }
    }
}

/// The minimum-spacing guarantee of the scan: the triggering frames are
/// spaced at least `min` apart pairwise, each is at least `min` above the
/// incoming `last`, and the final `last` is the last triggering frame (or
/// the incoming one when nothing triggered).
pub proof fn lemma_gate_spacing(last: int, min: int, frames: Seq<int>)
    requires
        min >= 0,
    ensures
        ({
            let r = gate_run(last, min, frames);
            &&& forall|i: int, j: int| 0 <= i < j < r.1.len() ==> r.1[j] >= r.1[i] + min
            &&& forall|k: int| 0 <= k < r.1.len() ==> r.1[k] >= last + min
            &&& r.0 >= last
            &&& (r.1.len() == 0 ==> r.0 == last)
            &&& (r.1.len() > 0 ==> r.0 == r.1.last())
        }),
    decreases frames.len(),
{
    let r = gate_run(last, min, frames);
    if frames.len() == 0 {
    } else if frames[0] >= last + min {
        lemma_gate_spacing(frames[0], min, frames.drop_first());
        let rest = gate_run(frames[0], min, frames.drop_first());
        assert(forall|k: int| 0 <= k < rest.1.len() ==> rest.1[k] >= frames[0] + min);
        assert(r.1[0] == frames[0]);
        assert(forall|j: int| 1 <= j < r.1.len() ==> r.1[j] == rest.1[j - 1]);
    } else {
        lemma_gate_spacing(last, min, frames.drop_first());
    }
}

/// A minimum-interval gate over simulation-frame numbers. `last_triggered`
/// starts at 0, meaning "no frame yet seen as recent".
pub struct CadenceGate {
    last_triggered_frame: u32,
    min_interval_frames: u32,
}

impl View for CadenceGate {
    type V = GateModel;

    closed spec fn view(&self) -> GateModel {
        GateModel {
            last_triggered: self.last_triggered_frame as int,
            min_interval: self.min_interval_frames as int,
        }
    }
}

impl CadenceGate {
    /// Create a gate that lets a frame trigger only when it is at least
    /// `min_interval_frames` above the previous triggering frame.
    pub fn new(min_interval_frames: u32) -> (g: CadenceGate)
        ensures
            g@ == (GateModel { last_triggered: 0, min_interval: min_interval_frames as int }),
    {
        CadenceGate { last_triggered_frame: 0, min_interval_frames }
    }

    /// The last frame number that triggered, 0 when none has yet.
    pub fn last_triggered_frame(&self) -> (r: u32)
        ensures
            r == self@.last_triggered,
    {
        self.last_triggered_frame
    }

    /// The configured minimum spacing, in simulation frames.
    pub fn min_interval_frames(&self) -> (r: u32)
        ensures
            r == self@.min_interval,
    {
        self.min_interval_frames
    }

    /// Scan a batch of candidate frames left to right and return the ones
    /// that trigger; every triggering frame becomes the new threshold.
    /// Duplicates in the input are tolerated: a repeat of the triggering
    /// frame falls inside the interval and is skipped.
    pub fn filter(&mut self, frames: &Vec<u32>) -> (out: Vec<u32>)
        ensures
            final(self)@.min_interval == old(self)@.min_interval,
            final(self)@.last_triggered == gate_run(
                old(self)@.last_triggered,
                old(self)@.min_interval,
                frames@.map_values(|f: u32| f as int),
            ).0,
            out@.map_values(|f: u32| f as int) == gate_run(
                old(self)@.last_triggered,
                old(self)@.min_interval,
                frames@.map_values(|f: u32| f as int),
            ).1,
    {
        let ghost g0 = self@;
        let ghost fseq = frames@.map_values(|f: u32| f as int);
        let mut out: Vec<u32> = Vec::new();
        let mut i: usize = 0;
        while i < frames.len()
            invariant
                i <= frames.len(),
                fseq == frames@.map_values(|f: u32| f as int),
                self@.min_interval == g0.min_interval,
                (self@.last_triggered, out@.map_values(|f: u32| f as int))
                    == gate_run(g0.last_triggered, g0.min_interval, fseq.take(i as int)),
            decreases frames.len() - i,
        {
            let f = frames[i];
            proof {
                assert(fseq.take(i + 1) =~= fseq.take(i as int).push(fseq[i as int]));
                lemma_gate_run_push(g0.last_triggered, g0.min_interval, fseq.take(i as int), fseq[i as int]);
            }
            if f as u64 >= self.last_triggered_frame as u64 + self.min_interval_frames as u64 {
                self.last_triggered_frame = f;
                out.push(f);
                proof {
                    assert(out@.map_values(|x: u32| x as int)
                        =~= out@.drop_last().map_values(|x: u32| x as int).push(f as int));
                }
            }
            i = i + 1;
        }
        proof {
            assert(fseq.take(frames@.len() as int) =~= fseq);
        }
        out
    }
}

} // verus!
