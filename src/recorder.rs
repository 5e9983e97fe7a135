//! The decisions of the capture loop: when to stop, when to start an export, and
//! what a capture attempt does to the buffer.
use vstd::prelude::*;
use crate::ring::{FrameRing, push_model};
use crate::export::{frame_interval_ns, interval_of};

verus! {

/// Where the recorder stands in its life.
#[derive(Clone, Copy, Debug, PartialEq, Eq, Structural)]
pub enum Phase {
    /// Made, not yet capturing.
    Idle,
    /// The capture loop runs.
    Capturing,
    /// A stop was observed; the loop has ended for good.
    Stopped,
}

/// The part of a recorder's state that the loop's decisions read and change.
#[derive(Clone, Copy, Debug, PartialEq, Eq, Structural)]
pub struct RecorderModel {
    pub phase: Phase,
    /// Whether an export is in flight.
    pub exporting: bool,
}

/// The state after one poll that saw a stop request or not, and an export request or not.
pub open spec fn poll_next(m: RecorderModel, stop: bool, export_requested: bool) -> RecorderModel {
    if m.phase == Phase::Stopped || stop {
        RecorderModel { phase: Phase::Stopped, exporting: m.exporting }
    } else if export_requested && !m.exporting {
        RecorderModel { phase: m.phase, exporting: true }
    } else {
        m
    }
}

/// Whether that poll starts an export: only a request that finds none in flight does.
pub open spec fn poll_starts(m: RecorderModel, stop: bool, export_requested: bool) -> bool {
    m.phase != Phase::Stopped && !stop && export_requested && !m.exporting
}

/// The state after the export in flight, if any, has finished.
pub open spec fn finish_next(m: RecorderModel) -> RecorderModel {
    RecorderModel { phase: m.phase, exporting: false }
}

/// What reaches the recorder's decisions from outside.
pub enum Event {
    /// One poll at the head of a loop iteration.
    Poll { stop: bool, export_requested: bool },
    /// The export in flight reported completion or failure.
    ExportDone,
}

/// The state after one event.
pub open spec fn step(m: RecorderModel, e: Event) -> RecorderModel {
    match e {
        Event::Poll { stop, export_requested } => poll_next(m, stop, export_requested),
        Event::ExportDone => finish_next(m),
    }
}

/// 1 where the event starts an export, else 0.
pub open spec fn starts(m: RecorderModel, e: Event) -> nat {
    match e {
        Event::Poll { stop, export_requested } => if poll_starts(m, stop, export_requested) {
            1
        } else {
            0
        },
        Event::ExportDone => 0,
    }
}

/// 1 where the event ends an export in flight, else 0.
pub open spec fn finishes(m: RecorderModel, e: Event) -> nat {
    match e {
        Event::ExportDone => if m.exporting {
            1
        } else {
            0
        },
        _ => 0,
    }
}

/// The state after the events `evs`, in order.
pub open spec fn run(m: RecorderModel, evs: Seq<Event>) -> RecorderModel
    decreases evs.len(),
{
    if evs.len() == 0 {
        m
    } else {
        step(run(m, evs.drop_last()), evs.last())
    }
}

/// How many exports the events `evs` start.
pub open spec fn starts_in(m: RecorderModel, evs: Seq<Event>) -> nat
    decreases evs.len(),
{
    if evs.len() == 0 {
        0
    } else {
        starts_in(m, evs.drop_last()) + starts(run(m, evs.drop_last()), evs.last())
    }
}

/// How many exports in flight the events `evs` see finish.
pub open spec fn finishes_in(m: RecorderModel, evs: Seq<Event>) -> nat
    decreases evs.len(),
{
    if evs.len() == 0 {
        0
    } else {
        finishes_in(m, evs.drop_last()) + finishes(run(m, evs.drop_last()), evs.last())
    }
}

/// 1 while an export is in flight, else 0.
pub open spec fn active(m: RecorderModel) -> nat {
    if m.exporting {
        1
    } else {
        0
    }
}

/// Whatever the events, at most one export is in flight at a time: each export
/// started is matched by one finished, but for the one that may still be in
/// flight, and requests that come while one is in flight start nothing.
pub proof fn lemma_at_most_one_export(m: RecorderModel, evs: Seq<Event>)
    ensures
        starts_in(m, evs) + active(m) == finishes_in(m, evs) + active(run(m, evs)),
        !m.exporting ==> starts_in(m, evs) <= finishes_in(m, evs) + 1,
    decreases evs.len(),
{
    if evs.len() > 0 {
        lemma_at_most_one_export(m, evs.drop_last());
    }
}

/// Once a stop has been observed the loop is over: the poll that sees it exits,
/// and whatever comes after it, every later state stays stopped and no export
/// starts.
pub proof fn lemma_stop_is_final(m: RecorderModel, export_requested: bool, later: Seq<Event>)
    ensures
        poll_next(m, true, export_requested).phase == Phase::Stopped,
        !poll_starts(m, true, export_requested),
        run(poll_next(m, true, export_requested), later).phase == Phase::Stopped,
        starts_in(poll_next(m, true, export_requested), later) == 0,
    decreases later.len(),
{
    if later.len() > 0 {
        lemma_stop_is_final(m, export_requested, later.drop_last());
    }
}

/// What the capture loop does next after a poll.
pub enum Control {
    /// Leave the loop and release the trigger listener.
    Exit,
    /// Hand this snapshot, oldest frame first, to the exporter; then capture.
    Export(Vec<Vec<u8>>),
    /// Capture a frame.
    Capture,
}

/// Why a recorder cannot be made.
#[derive(Clone, Copy, Debug, PartialEq, Eq, Structural)]
pub enum StartupError {
    /// A frame rate of zero.
    ZeroFrameRate,
    /// A buffer that would hold no frame.
    EmptyBuffer,
    /// A buffer of more frames than a `u32` counts.
    BufferTooLarge,
}

/// A failed attempt to capture one frame.
#[derive(Clone, Copy, Debug, PartialEq, Eq, Structural)]
pub struct CaptureFrameError;

/// The capture loop's state: the frame buffer, the phase, and whether an export is in flight.
pub struct Recorder {
    ring: FrameRing,
    phase: Phase,
    exporting: bool,
    interval_ns: u64,
}

impl Recorder {
    /// The phase and the export flag.
    pub closed spec fn model(&self) -> RecorderModel {
        RecorderModel { phase: self.phase, exporting: self.exporting }
    }

    /// The frames buffered, oldest first.
    pub closed spec fn frames(&self) -> Seq<Seq<u8>> {
        self.ring@
    }

    /// The buffer's capacity in frames.
    pub closed spec fn cap(&self) -> nat {
        self.ring.cap()
    }

    /// The spacing of loop iterations, in nanoseconds.
    pub closed spec fn interval(&self) -> nat {
        self.interval_ns as nat
    }

    /// The buffer is well formed.
    pub closed spec fn wf(&self) -> bool {
        self.ring.wf()
    }

    /// A recorder that keeps the last `buffer_seconds` seconds at `fps` frames per
    /// second, that is `buffer_seconds * fps` frames.
    pub fn new(buffer_seconds: u32, fps: u32) -> (r: Result<Recorder, StartupError>)
        ensures
            r is Err <==> (fps == 0 || buffer_seconds == 0 || buffer_seconds as nat * fps as nat
                > u32::MAX),
            r is Err ==> r->Err_0 == (if fps == 0 {
                StartupError::ZeroFrameRate
            } else if buffer_seconds == 0 {
                StartupError::EmptyBuffer
            } else {
                StartupError::BufferTooLarge
            }),
            r is Ok ==> {
                let rec = r->Ok_0;
                &&& rec.wf()
                &&& rec.cap() == buffer_seconds as nat * fps as nat
                &&& rec.frames() == Seq::<Seq<u8>>::empty()
                &&& rec.model() == RecorderModel { phase: Phase::Idle, exporting: false }
                &&& rec.interval() == interval_of(fps as nat)
            },
    {
        if fps == 0 {
            return Err(StartupError::ZeroFrameRate);
        }
        proof {
            let (a, b) = (buffer_seconds as nat, fps as nat);
            assert(a * b <= 0xffff_ffff * 0xffff_ffff) by (nonlinear_arith)
                requires
                    a <= 0xffff_ffff,
                    b <= 0xffff_ffff,
            ;
            assert(a * b == 0 <==> a == 0) by (nonlinear_arith)
                requires
                    b > 0,
            ;
        }
        let total: u64 = (buffer_seconds as u64) * (fps as u64);
        if total == 0 {
            return Err(StartupError::EmptyBuffer);
        }
        if total > u32::MAX as u64 {
            return Err(StartupError::BufferTooLarge);
        }
        Ok(Recorder {
            ring: FrameRing::new(total as usize),
            phase: Phase::Idle,
            exporting: false,
            interval_ns: frame_interval_ns(fps),
        })
    }

    /// Moves an idle recorder to capturing; any other phase stays.
    pub fn start(&mut self)
        ensures
            final(self).model() == (if old(self).model().phase == Phase::Idle {
                RecorderModel { phase: Phase::Capturing, exporting: old(self).model().exporting }
            } else {
                old(self).model()
            }),
            final(self).frames() == old(self).frames(),
            final(self).cap() == old(self).cap(),
            final(self).interval() == old(self).interval(),
            final(self).wf() == old(self).wf(),
    {
        if self.phase == Phase::Idle {
            self.phase = Phase::Capturing;
        }
    }

    /// The head of one loop iteration: a stop seen now, or earlier, ends the loop;
    /// otherwise an export request that finds no export in flight takes a snapshot
    /// for a new export, and one that finds an export in flight is dropped.
    pub fn poll(&mut self, stop: bool, export_requested: bool) -> (r: Control)
        requires
            old(self).wf(),
            old(self).model().phase != Phase::Idle,
        ensures
            final(self).wf(),
            final(self).model() == poll_next(old(self).model(), stop, export_requested),
            final(self).frames() == old(self).frames(),
            final(self).cap() == old(self).cap(),
            final(self).interval() == old(self).interval(),
            r is Exit <==> (old(self).model().phase == Phase::Stopped || stop),
            r is Export <==> poll_starts(old(self).model(), stop, export_requested),
            r is Export ==> {
                let snap = r->Export_0;
                &&& snap@.len() == old(self).frames().len()
                &&& forall|i: int|
                    0 <= i < snap@.len() ==> #[trigger] snap@[i]@ == old(self).frames()[i]
            },
    {
        if self.phase == Phase::Stopped || stop {
            self.phase = Phase::Stopped;
            Control::Exit
        } else if export_requested && !self.exporting {
            self.exporting = true;
            Control::Export(self.ring.snapshot())
        } else {
            Control::Capture
        }
    }

    /// Takes the outcome of one capture attempt: a frame is pushed, evicting the
    /// oldest at capacity; a failed attempt leaves the buffer as it was.
    pub fn record(&mut self, outcome: Result<Vec<u8>, CaptureFrameError>)
        requires
            old(self).wf(),
        ensures
            final(self).wf(),
            final(self).model() == old(self).model(),
            final(self).cap() == old(self).cap(),
            final(self).interval() == old(self).interval(),
            outcome is Ok ==> final(self).frames() == push_model(
                old(self).frames(),
                old(self).cap(),
                outcome->Ok_0@,
            ),
            outcome is Err ==> final(self).frames() == old(self).frames(),
    {
        match outcome {
            Ok(frame) => self.ring.push(frame),
            Err(_) => {},
        }
    }

    /// Notes that the export in flight has finished, with success or not.
    pub fn export_finished(&mut self)
        ensures
            final(self).model() == finish_next(old(self).model()),
            final(self).frames() == old(self).frames(),
            final(self).cap() == old(self).cap(),
            final(self).interval() == old(self).interval(),
            final(self).wf() == old(self).wf(),
    {
        self.exporting = false;
    }

    /// How long to sleep after an iteration that took `elapsed_ns`: the rest of
    /// the interval, or nothing where the iteration ran over (no catch-up).
    pub fn sleep_after(&self, elapsed_ns: u64) -> (r: u64)
        ensures
            r <= self.interval(),
            elapsed_ns < self.interval() ==> r == self.interval() - elapsed_ns,
            elapsed_ns >= self.interval() ==> r == 0,
    {
        if elapsed_ns < self.interval_ns {
            self.interval_ns - elapsed_ns
        } else {
            0
        }
    }

    /// The spacing of loop iterations, in nanoseconds.
    pub fn frame_interval_ns(&self) -> (r: u64)
        ensures
            r as nat == self.interval(),
    {
        self.interval_ns
    }

    /// The number of frames buffered.
    pub fn len(&self) -> (r: usize)
        ensures
            r as nat == self.frames().len(),
    {
        self.ring.len()
    }

    /// The buffer's capacity in frames.
    pub fn capacity(&self) -> (r: usize)
        ensures
            r as nat == self.cap(),
    {
        self.ring.capacity()
    }

    /// The current phase.
    pub fn phase(&self) -> (r: Phase)
        ensures
            r == self.model().phase,
    {
        self.phase
    }

    /// Whether an export is in flight.
    pub fn is_exporting(&self) -> (r: bool)
        ensures
            r == self.model().exporting,
    {
        self.exporting
    }
}

} // verus!
