//! Turning a snapshot of frames into a timed frame stream, and the result of an export.
use vstd::prelude::*;

verus! {

/// Nanoseconds in one second.
pub const NANOS_PER_SECOND: u64 = 1_000_000_000;

/// The spacing of frames at `fps` frames per second, in whole nanoseconds.
pub open spec fn interval_of(fps: nat) -> nat
    recommends
        fps > 0,
{
    NANOS_PER_SECOND as nat / fps
}

/// The presentation timestamp of the `n`-th frame of a stream, counting from zero.
pub open spec fn pts_of(n: nat, interval: nat) -> nat {
    n * interval
}

/// The spacing of frames at `fps` frames per second, in whole nanoseconds.
pub fn frame_interval_ns(fps: u32) -> (r: u64)
    requires
        fps > 0,
    ensures
        r as nat == interval_of(fps as nat),
{
    NANOS_PER_SECOND / (fps as u64)
}

/// One frame of an exported stream with its presentation time.
pub struct TimedFrame {
    /// Offset from the start of the stream, in nanoseconds.
    pub pts_ns: u64,
    /// How long the frame is shown, in nanoseconds.
    pub duration_ns: u64,
    /// The frame's pixels.
    pub data: Vec<u8>,
}

/// Assigns the `n`-th frame of `snapshot` the timestamp `n * interval_ns`, keeping
/// the snapshot's order; each frame lasts one interval.
pub fn timed_stream(snapshot: Vec<Vec<u8>>, interval_ns: u64) -> (r: Vec<TimedFrame>)
    requires
        snapshot@.len() == 0 || (snapshot@.len() - 1) * interval_ns <= u64::MAX,
    ensures
        r@.len() == snapshot@.len(),
        forall|n: int|
            0 <= n < r@.len() ==> {
                &&& (#[trigger] r@[n]).pts_ns as nat == pts_of(n as nat, interval_ns as nat)
                &&& r@[n].duration_ns == interval_ns
                &&& r@[n].data@ == snapshot@[n]@
            },
{
    let mut frames = snapshot;
    let ghost orig = frames@;
    let k = frames.len();
    let mut out: Vec<TimedFrame> = Vec::new();
    let mut i: usize = 0;
    while i < k
        invariant
            k == orig.len(),
            frames@.len() == k,
            i <= k,
            k == 0 || (k - 1) * interval_ns <= u64::MAX,
            out@.len() == i,
            forall|j: int| i <= j < k ==> #[trigger] frames@[j] == orig[j],
            forall|n: int|
                0 <= n < i ==> {
                    &&& (#[trigger] out@[n]).pts_ns as nat == pts_of(n as nat, interval_ns as nat)
                    &&& out@[n].duration_ns == interval_ns
                    &&& out@[n].data@ == orig[n]@
                },
        decreases k - i,
    {
        proof {
            assert(i * interval_ns <= (k - 1) * interval_ns) by (nonlinear_arith)
                requires
                    i < k,
            ;
        }
        let mut data: Vec<u8> = Vec::new();
        frames.set_and_swap(i, &mut data);
        let pts = (i as u64) * interval_ns;
        out.push(TimedFrame { pts_ns: pts, duration_ns: interval_ns, data });
        i = i + 1;
    }
    out
}

/// Timestamps that the stream assigns rise by exactly one interval from frame to
/// frame, starting at zero: strictly increasing, with no duplicates and no gaps,
/// whenever the interval is positive.
pub proof fn lemma_timestamps_even(interval: nat, i: nat, j: nat)
    requires
        interval > 0,
    ensures
        pts_of(0, interval) == 0,
        pts_of(i + 1, interval) == pts_of(i, interval) + interval,
        i < j ==> pts_of(i, interval) < pts_of(j, interval),
        pts_of(i, interval) == pts_of(j, interval) ==> i == j,
{
    assert(pts_of(i + 1, interval) == pts_of(i, interval) + interval) by (nonlinear_arith);
    assert(i < j ==> pts_of(i, interval) < pts_of(j, interval)) by (nonlinear_arith)
        requires
            interval > 0,
    ;
    assert(pts_of(i, interval) == pts_of(j, interval) ==> i == j) by (nonlinear_arith)
        requires
            interval > 0,
    ;
}

/// What an export came to.
pub enum ExportResult {
    /// The encoder finished and the file stands at this target.
    OutputWritten(String),
    /// The encoder reported this error.
    ExportFailed(String),
}

/// The result of an export to `output_target`, from what the encoder reported.
pub fn export_result(output_target: String, encoder: Result<(), String>) -> (r: ExportResult)
    ensures
        encoder is Ok ==> r == ExportResult::OutputWritten(output_target),
        encoder is Err ==> r == ExportResult::ExportFailed(encoder->Err_0),
{
    match encoder {
        Ok(()) => ExportResult::OutputWritten(output_target),
        Err(reason) => ExportResult::ExportFailed(reason),
    }
}

} // verus!
