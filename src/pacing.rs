use vstd::prelude::*;

use crate::dispatch::{cascade, EventHandler};
use crate::events::Event;
use crate::machine::{run_scanline, MachineView};
use crate::worker::{Worker, WorkerView, MAX_CASCADE_DEPTH};

verus! {

/// Queue depth, in samples, below which the emulation keeps running.
pub const LOW_WATER_MARK: usize = 512;

/// The scanline after which a frame is complete.
pub const FRAME_COMPLETE_SCANLINE: u16 = 242;

/// Whether the emulation should run another scanline, given how many
/// samples wait in the output queue.
pub fn should_step(queued: usize) -> (r: bool)
    ensures
        r == (queued < LOW_WATER_MARK),
{
    queued < LOW_WATER_MARK
}

/// What one scanline produced.
pub struct ScanlineOutput {
    /// The samples made since the last hand-out, oldest first.
    pub samples: Vec<i16>,
    /// Whether this scanline completed a frame.
    pub frame_complete: bool,
}

/// What one pacing burst did.
pub struct PaceReport {
    pub scanlines: usize,
    pub frame_complete: bool,
}

/// One scanline step as `step_scanline` takes it: the worker afterwards,
/// the samples handed out, and whether the scanline completed a frame.
pub open spec fn scanline_step(v: WorkerView) -> (WorkerView, Seq<i16>, bool) {
    let s = cascade::<Event, Worker>(v, seq![Event::NesRunScanline], MAX_CASCADE_DEPTH as nat).0;
    (
        WorkerView { machine: MachineView { samples: Seq::empty(), ..s.machine }, ..s },
        s.machine.samples,
        s.machine.scanline == FRAME_COMPLETE_SCANLINE,
    )
}

/// Where `k` successive scanline steps lead: the worker, and every sample
/// handed out along the way, in order.
pub ghost struct Paced {
    pub state: WorkerView,
    pub samples: Seq<i16>,
}

pub open spec fn paced(v: WorkerView, k: nat) -> Paced
    decreases k,
{
    if k == 0 {
        Paced { state: v, samples: Seq::empty() }
    } else {
        let p = paced(v, (k - 1) as nat);
        let step = scanline_step(p.state);
        Paced { state: step.0, samples: p.samples + step.1 }
    }
}

/// Whether an event is a frame-sequencer tick.
pub open spec fn is_tick(e: Event) -> bool {
    e is ApuQuarterFrame || e is ApuHalfFrame
}

/// Frame-sequencer ticks change neither the samples nor the scanline, nor
/// anything else outside the channel.
proof fn lemma_ticks_keep_samples(v: WorkerView, pending: Seq<Event>, depth: nat)
    requires
        forall|i: int| 0 <= i < pending.len() ==> is_tick(#[trigger] pending[i]),
    ensures
        ({
            let w = cascade::<Event, Worker>(v, pending, depth).0;
            &&& w.machine.samples == v.machine.samples
            &&& w.machine.scanline == v.machine.scanline
            &&& w.machine.mapper == v.machine.mapper
            &&& w.exit_requested == v.exit_requested
            &&& w.notices == v.notices
        }),
    decreases depth, pending.len(),
{
    if pending.len() > 0 {
        let e = pending[0];
        let s1 = <Worker as EventHandler<Event>>::after(v, e);
        assert(is_tick(e));
        let follow = <Worker as EventHandler<Event>>::responses(v, e);
        assert(follow.len() == 0);
        let inner = if depth > 0 {
            cascade::<Event, Worker>(s1, follow, (depth - 1) as nat)
        } else {
            (s1, Seq::empty(), follow.len() == 0)
        };
        assert(inner.0 == s1);
        let rest = pending.drop_first();
        assert forall|i: int| 0 <= i < rest.len() implies is_tick(#[trigger] rest[i]) by {
            assert(rest[i] == pending[i + 1]);
        }
        lemma_ticks_keep_samples(s1, rest, depth);
    }
}

/// Running a scanline through the dispatcher adds exactly the scanline's
/// sample and moves to the next scanline, whatever ticks it raises.
proof fn lemma_scanline_cascade(v: WorkerView)
    ensures
        ({
            let w = cascade::<Event, Worker>(
                v,
                seq![Event::NesRunScanline],
                MAX_CASCADE_DEPTH as nat,
            ).0;
            &&& w.machine.samples == run_scanline(v.machine).samples
            &&& w.machine.scanline == run_scanline(v.machine).scanline
        }),
{
    let d = MAX_CASCADE_DEPTH as nat;
    let s1 = <Worker as EventHandler<Event>>::after(v, Event::NesRunScanline);
    let follow = <Worker as EventHandler<Event>>::responses(v, Event::NesRunScanline);
    assert(seq![Event::NesRunScanline][0] == Event::NesRunScanline);
    assert forall|i: int| 0 <= i < follow.len() implies is_tick(#[trigger] follow[i]) by {}
    lemma_ticks_keep_samples(s1, follow, (d - 1) as nat);
    let inner = cascade::<Event, Worker>(s1, follow, (d - 1) as nat);
    assert(seq![Event::NesRunScanline].drop_first() =~= Seq::<Event>::empty());
    assert(cascade::<Event, Worker>(inner.0, Seq::<Event>::empty(), d).0 == inner.0);
}

/// A frame-complete event leaves the worker as it is.
proof fn lemma_request_frame_cascade(v: WorkerView)
    ensures
        cascade::<Event, Worker>(v, seq![Event::RequestFrame], MAX_CASCADE_DEPTH as nat).0 == v,
{
    let d = MAX_CASCADE_DEPTH as nat;
    assert(seq![Event::RequestFrame][0] == Event::RequestFrame);
    assert(seq![Event::RequestFrame].drop_first() =~= Seq::<Event>::empty());
    let inner = cascade::<Event, Worker>(v, Seq::<Event>::empty(), (d - 1) as nat);
    assert(inner.0 == v);
    assert(cascade::<Event, Worker>(inner.0, Seq::<Event>::empty(), d).0 == v);
}

impl Worker {
    /// Runs one scanline through the dispatcher, announces a completed frame
    /// when the scanline ends one, and hands out the samples made so far.
    pub fn step_scanline(&mut self) -> (r: ScanlineOutput)
        requires
            old(self).wf(),
        ensures
            final(self).wf(),
            final(self)@ == scanline_step(old(self)@).0,
            r.samples@ == scanline_step(old(self)@).1,
            r.frame_complete == scanline_step(old(self)@).2,
            r.samples@ == run_scanline(old(self)@.machine).samples,
            r.samples@.len() == old(self)@.machine.samples.len() + 1,
    {
        proof {
            lemma_scanline_cascade(self@);
        }
        self.dispatch_event(Event::NesRunScanline);
        let frame_complete = self.scanline() == FRAME_COMPLETE_SCANLINE;
        if frame_complete {
            proof {
                lemma_request_frame_cascade(self@);
            }
            self.dispatch_event(Event::RequestFrame);
        }
        let samples = self.take_samples();
        ScanlineOutput { samples, frame_complete }
    }

    /// Runs scanlines while the queue is below the low-water mark, appending
    /// each scanline's samples to it, and reports how many ran and whether
    /// one of them completed a frame.
    pub fn step_emulator(&mut self, queue: &mut Vec<i16>) -> (r: PaceReport)
        requires
            old(self).wf(),
        ensures
            final(self).wf(),
            final(self)@ == paced(old(self)@, r.scanlines as nat).state,
            final(queue)@ == old(queue)@ + paced(old(self)@, r.scanlines as nat).samples,
            forall|k: nat|
                k < r.scanlines ==> old(queue)@.len() + (#[trigger] paced(
                    old(self)@,
                    k,
                )).samples.len() < LOW_WATER_MARK,
            final(queue)@.len() >= LOW_WATER_MARK,
            (r.scanlines == 0) == (old(queue)@.len() >= LOW_WATER_MARK),
            r.scanlines == 0 ==> final(self)@ == old(self)@ && final(queue)@ == old(queue)@,
            r.frame_complete == (exists|k: nat|
                k < r.scanlines && (#[trigger] paced(old(self)@, k + 1)).state.machine.scanline
                    == FRAME_COMPLETE_SCANLINE),
    {
        let ghost start = self@;
        let mut scanlines: usize = 0;
        let mut frame_complete = false;
        proof {
            assert(old(queue)@ + paced(start, 0).samples =~= old(queue)@);
        }
        while should_step(queue.len())
            invariant
                self.wf(),
                self@ == paced(start, scanlines as nat).state,
                queue@ == old(queue)@ + paced(start, scanlines as nat).samples,
                queue@.len() >= old(queue)@.len() + scanlines,
                forall|k: nat|
                    k < scanlines ==> old(queue)@.len() + (#[trigger] paced(
                        start,
                        k,
                    )).samples.len() < LOW_WATER_MARK,
                frame_complete == (exists|k: nat|
                    k < scanlines && (#[trigger] paced(start, k + 1)).state.machine.scanline
                        == FRAME_COMPLETE_SCANLINE),
            decreases (if queue@.len() < LOW_WATER_MARK {
                LOW_WATER_MARK - queue@.len()
            } else {
                0
            }),
        {
            let ghost k = scanlines as nat;
            let ghost prev = paced(start, k);
            assert(old(queue)@.len() + prev.samples.len() < LOW_WATER_MARK);
            let mut out = self.step_scanline();
            let ghost next = paced(start, k + 1);
            assert(next.state == self@);
            assert(next.samples == prev.samples + out.samples@);
            queue.append(&mut out.samples);
            assert(queue@ =~= old(queue)@ + next.samples);
            let ghost was = frame_complete;
            frame_complete = frame_complete || out.frame_complete;
            assert(out.frame_complete == (next.state.machine.scanline == FRAME_COMPLETE_SCANLINE));
            proof {
                if frame_complete && !was {
                    assert(k < k + 1 && paced(start, k + 1).state.machine.scanline
                        == FRAME_COMPLETE_SCANLINE);
                }
                if !frame_complete {
                    assert forall|j: nat| j < k + 1 implies !(#[trigger] paced(
                        start,
                        j + 1,
                    ).state.machine.scanline == FRAME_COMPLETE_SCANLINE) by {
                        if j < k {
                            assert(!(j < k && paced(start, j + 1).state.machine.scanline
                                == FRAME_COMPLETE_SCANLINE));
                        }
                    }
                }
            }
            scanlines = scanlines + 1;
        }
        PaceReport { scanlines, frame_complete }
    }
}

} // verus!
