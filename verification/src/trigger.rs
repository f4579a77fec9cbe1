//! The sensor-trigger protocol between the motion thread and the sampling
//! thread: small integer codes travel one way over a channel, and the
//! sampling thread decides from each code whether to stop, warm up, or
//! capture and persist a sample, and under which label.

use vstd::prelude::*;
use crate::wire::{dec_digits, push_dec_u64};

verus! {

/// Ends the sampling thread's receive loop.
pub const TRIGGER_STOP: u32 = 0;

/// Asks for one numbered mid-run capture.
pub const TRIGGER_SAMPLE: u32 = 1;

/// Asks for the capture that marks the run's start.
pub const TRIGGER_MARK_START: u32 = 2;

/// Asks for the capture that marks the run's end.
pub const TRIGGER_MARK_END: u32 = 3;

/// Asks for a discarded warm-up capture.
pub const TRIGGER_WARM_UP: u32 = 4;

/// How a saved sample is labelled.
#[derive(Clone, Copy, PartialEq, Eq, Structural, Debug)]
pub enum SampleLabel {
    /// The capture taken as the run's motion begins.
    Start,
    /// The capture taken after the run's motion ends.
    End,
    /// A numbered capture; the number counts only the plain sample codes.
    Numbered(u64),
}

/// What the sampling thread does with one received code.
#[derive(Clone, Copy, PartialEq, Eq, Structural, Debug)]
pub enum SampleAction {
    /// Leave the receive loop; the run is over.
    Shutdown,
    /// Capture and discard, letting the hardware settle.
    Discard,
    /// Capture, transform, filter and persist one sample under the label.
    Save(SampleLabel),
}

/// What one code asks of the sampling thread, given the capture counter:
/// zero stops the loop, the warm-up code discards, the mark codes save
/// under their names, and any other code saves under the counter.
pub open spec fn action_of(code: u32, cnt: u64) -> SampleAction {
    if code == 0 {
        SampleAction::Shutdown
    } else if code == 4 {
        SampleAction::Discard
    } else if code == 2 {
        SampleAction::Save(SampleLabel::Start)
    } else if code == 3 {
        SampleAction::Save(SampleLabel::End)
    } else {
        SampleAction::Save(SampleLabel::Numbered(cnt))
    }
}

/// The capture counter after one code: only the plain sample code advances
/// it; marks, warm-ups and unknown codes leave it alone.
pub open spec fn next_cnt(code: u32, cnt: u64) -> int {
    if code == 1 {
        cnt + 1
    } else {
        cnt as int
    }
}

/// The sampling thread's decision state: the counter that numbers the
/// mid-run captures.
pub struct Sampler {
    /// How many plain sample codes have been acted on.
    pub cnt: u64,
}

impl Sampler {
    /// A sampler that has not yet captured.
    pub fn new() -> (r: Sampler)
        ensures
            r.cnt == 0,
    {
        Sampler { cnt: 0 }
    }

    /// Decides one code's action and advances the capture counter.
    pub fn handle(&mut self, code: u32) -> (r: SampleAction)
        requires
            old(self).cnt < u64::MAX,
        ensures
            r == action_of(code, old(self).cnt),
            final(self).cnt == next_cnt(code, old(self).cnt),
    {
        if code == 0 {
            SampleAction::Shutdown
        } else if code == 4 {
            SampleAction::Discard
        } else if code == 2 {
            SampleAction::Save(SampleLabel::Start)
        } else if code == 3 {
            SampleAction::Save(SampleLabel::End)
        } else {
            let n: u64 = self.cnt;
            if code == 1 {
                self.cnt = n + 1;
            }
            SampleAction::Save(SampleLabel::Numbered(n))
        }
    }
}

/// The actions a code sequence produces, in order, up to and including the
/// first stop code; codes after the stop are never received.
pub open spec fn sample_plan(codes: Seq<u32>, cnt: u64) -> Seq<SampleAction>
    decreases codes.len(),
{
    if codes.len() == 0 {
        Seq::empty()
    } else if codes[0] == 0 {
        seq![SampleAction::Shutdown]
    } else if next_cnt(codes[0], cnt) <= u64::MAX {
        seq![action_of(codes[0], cnt)] + sample_plan(
            codes.drop_first(),
            next_cnt(codes[0], cnt) as u64,
        )
    } else {
        seq![action_of(codes[0], cnt)]
    }
}

/// Replays the decision loop over a recorded code sequence, appending the
/// action of each code up to and including the first stop.
fn plan_from(codes: &Vec<u32>, i: usize, sampler: &mut Sampler, out: &mut Vec<SampleAction>)
    requires
        i <= codes@.len(),
        old(sampler).cnt as int + codes@.len() - i <= u64::MAX,
    ensures
        final(out)@ == old(out)@ + sample_plan(codes@.skip(i as int), old(sampler).cnt),
    decreases codes@.len() - i,
{
    if i == codes.len() {
        proof {
            assert(codes@.skip(i as int) =~= Seq::<u32>::empty());
            assert(out@ =~= out@ + sample_plan(codes@.skip(i as int), sampler.cnt));
        }
        return ;
    }
    let code: u32 = codes[i];
    let ghost cnt0 = sampler.cnt;
    let a: SampleAction = sampler.handle(code);
    out.push(a);
    let ghost mid = out@;
    proof {
        assert(codes@.skip(i as int).drop_first() =~= codes@.skip(i + 1 as int));
    }
    if code == 0 {
        proof {
            assert(out@ =~= old(out)@ + sample_plan(codes@.skip(i as int), cnt0));
        }
        return ;
    }
    plan_from(codes, i + 1, sampler, out);
    proof {
        assert(mid =~= old(out)@ + seq![action_of(code, cnt0)]);
        assert(out@ =~= old(out)@ + sample_plan(codes@.skip(i as int), cnt0));
    }
}

/// The actions a whole code sequence yields from a fresh sampler: what the
/// sampling thread would do, in order, were these codes sent.
pub fn plan_samples(codes: &Vec<u32>) -> (r: Vec<SampleAction>)
    requires
        codes@.len() <= u64::MAX,
    ensures
        r@ == sample_plan(codes@, 0),
{
    let mut sampler = Sampler::new();
    let mut out: Vec<SampleAction> = Vec::new();
    plan_from(codes, 0, &mut sampler, &mut out);
    proof {
        assert(codes@.skip(0) =~= codes@);
    }
    out
}

/// The filename suffix a label determines: `_START`, `_END`, or an
/// underscore and the capture number.
pub open spec fn label_suffix(label: SampleLabel) -> Seq<u8> {
    match label {
        SampleLabel::Start => seq![95u8, 83u8, 84u8, 65u8, 82u8, 84u8],
        SampleLabel::End => seq![95u8, 69u8, 78u8, 68u8],
        SampleLabel::Numbered(n) => seq![95u8] + dec_digits(n as nat),
    }
}

/// Appends a label's filename suffix to a file stem.
pub fn push_label_suffix(out: &mut Vec<u8>, label: SampleLabel)
    ensures
        final(out)@ == old(out)@ + label_suffix(label),
{
    match label {
        SampleLabel::Start => {
            out.push(95);
            out.push(83);
            out.push(84);
            out.push(65);
            out.push(82);
            out.push(84);
        },
        SampleLabel::End => {
            out.push(95);
            out.push(69);
            out.push(78);
            out.push(68);
        },
        SampleLabel::Numbered(n) => {
            out.push(95);
            push_dec_u64(out, n);
        },
    }
    proof {
        assert(out@ =~= old(out)@ + label_suffix(label));
    }
}

/// The full name a sample is persisted under: the run's file stem and the
/// label's suffix.
pub fn sample_filename(stem: &Vec<u8>, label: SampleLabel) -> (r: Vec<u8>)
    ensures
        r@ == stem@ + label_suffix(label),
{
    let mut out: Vec<u8> = Vec::new();
    let mut i: usize = 0;
    let n: usize = stem.len();
    while i < n
        invariant
            i <= n,
            n == stem@.len(),
            out@ == stem@.take(i as int),
        decreases n - i,
    {
        out.push(stem[i]);
        proof {
            assert(out@ =~= stem@.take(i + 1 as int));
        }
        i = i + 1;
    }
    proof {
        assert(out@ =~= stem@);
    }
    push_label_suffix(&mut out, label);
    out
}

} // verus!
