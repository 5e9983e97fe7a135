//! A fixed-capacity store of frames that evicts the oldest frame on overflow.
use vstd::prelude::*;
use ringbuffer::AllocRingBuffer;

verus! {

#[verifier::external_type_specification]
#[verifier::external_body]
#[verifier::reject_recursive_types(T)]
pub struct ExAllocRingBuffer<T>(AllocRingBuffer<T>);

/// The frames held by a ring buffer, oldest first.
pub uninterp spec fn ring_frames(rb: AllocRingBuffer<Vec<u8>>) -> Seq<Seq<u8>>;

/// The capacity that a ring buffer was made with.
pub uninterp spec fn ring_capacity(rb: AllocRingBuffer<Vec<u8>>) -> nat;

/// Relies on `AllocRingBuffer::new`: an empty buffer of the given capacity; it
/// panics on capacity zero.
#[verifier::external_body]
fn rb_new(capacity: usize) -> (r: AllocRingBuffer<Vec<u8>>)
    requires
        0 < capacity <= u32::MAX,
    ensures
        ring_frames(r) == Seq::<Seq<u8>>::empty(),
        ring_capacity(r) == capacity as nat,
{
    AllocRingBuffer::new(capacity)
}

/// Relies on `RingBuffer::push` of `AllocRingBuffer`: when full, the oldest
/// element is dropped first; the new one is appended at the back.
#[verifier::external_body]
fn rb_push(rb: &mut AllocRingBuffer<Vec<u8>>, frame: Vec<u8>)
    ensures
        ring_capacity(*final(rb)) == ring_capacity(*old(rb)),
        ring_frames(*final(rb)) == (if ring_frames(*old(rb)).len() == ring_capacity(*old(rb)) {
            ring_frames(*old(rb)).drop_first().push(frame@)
        } else {
            ring_frames(*old(rb)).push(frame@)
        }),
{
    ringbuffer::RingBuffer::push(rb, frame)
}

/// Relies on `RingBuffer::len` of `AllocRingBuffer`: the number of frames held.
#[verifier::external_body]
fn rb_len(rb: &AllocRingBuffer<Vec<u8>>) -> (r: usize)
    ensures
        r as nat == ring_frames(*rb).len(),
{
    ringbuffer::RingBuffer::len(rb)
}

/// Relies on `RingBuffer::capacity` of `AllocRingBuffer`: the capacity it was made with.
#[verifier::external_body]
fn rb_capacity(rb: &AllocRingBuffer<Vec<u8>>) -> (r: usize)
    ensures
        r as nat == ring_capacity(*rb),
{
    ringbuffer::RingBuffer::capacity(rb)
}

/// Relies on `RingBuffer::to_vec` of `AllocRingBuffer`: a clone of every frame,
/// oldest first.
#[verifier::external_body]
fn rb_to_vec(rb: &AllocRingBuffer<Vec<u8>>) -> (r: Vec<Vec<u8>>)
    ensures
        r@.len() == ring_frames(*rb).len(),
        forall|i: int| 0 <= i < r@.len() ==> #[trigger] r@[i]@ == ring_frames(*rb)[i],
{
    ringbuffer::RingBuffer::to_vec(rb)
}

/// The contents after one frame is pushed into contents `s` of capacity `cap`.
pub open spec fn push_model(s: Seq<Seq<u8>>, cap: nat, f: Seq<u8>) -> Seq<Seq<u8>> {
    if s.len() < cap {
        s.push(f)
    } else {
        s.push(f).drop_first()
    }
}

/// The contents after the frames `fs` are pushed in order.
pub open spec fn push_all_model(s: Seq<Seq<u8>>, cap: nat, fs: Seq<Seq<u8>>) -> Seq<Seq<u8>>
    decreases fs.len(),
{
    if fs.len() == 0 {
        s
    } else {
        push_model(push_all_model(s, cap, fs.drop_last()), cap, fs.last())
    }
}

/// The last `n` items of `s`, or all of them where `s` holds fewer.
pub open spec fn last_n(s: Seq<Seq<u8>>, n: nat) -> Seq<Seq<u8>> {
    if s.len() <= n {
        s
    } else {
        s.subrange(s.len() - n, s.len() as int)
    }
}

/// Pushing any frames into a store that holds at most `cap` leaves exactly the
/// last `cap` frames of everything pushed so far, oldest first; fewer than `cap`
/// pushed in all, it holds all of them.
pub proof fn lemma_push_all_keeps_last(s: Seq<Seq<u8>>, cap: nat, fs: Seq<Seq<u8>>)
    requires
        0 < cap,
        s.len() <= cap,
    ensures
        push_all_model(s, cap, fs) == last_n(s + fs, cap),
        s.len() == 0 && fs.len() > cap ==> push_all_model(s, cap, fs) == fs.subrange(
            fs.len() - cap,
            fs.len() as int,
        ),
    decreases fs.len(),
{
    if s.len() == 0 {
        assert(s + fs =~= fs);
    }
    if fs.len() == 0 {
        assert(s + fs =~= s);
    } else {
        let init = fs.drop_last();
        lemma_push_all_keeps_last(s, cap, init);
        let t = push_all_model(s, cap, init);
        let all = s + fs;
        assert(all =~= (s + init).push(fs.last()));
        if (s + init).len() < cap {
            assert(push_model(t, cap, fs.last()) =~= all);
        } else {
            assert(push_model(t, cap, fs.last()) =~= all.subrange(all.len() - cap, all.len() as int));
        }
    }
}

/// A fixed-capacity store of frames, oldest first.
pub struct FrameRing {
    buf: AllocRingBuffer<Vec<u8>>,
}

impl View for FrameRing {
    type V = Seq<Seq<u8>>;

    closed spec fn view(&self) -> Seq<Seq<u8>> {
        ring_frames(self.buf)
    }
}

impl FrameRing {
    /// The capacity, fixed at construction.
    pub closed spec fn cap(&self) -> nat {
        ring_capacity(self.buf)
    }

    /// The store never holds more frames than its capacity, which is positive.
    pub open spec fn wf(&self) -> bool {
        0 < self.cap() <= u32::MAX && self@.len() <= self.cap()
    }

    /// An empty store that keeps at most `capacity` frames.
    pub fn new(capacity: usize) -> (r: FrameRing)
        requires
            0 < capacity <= u32::MAX,
        ensures
            r.wf(),
            r@ == Seq::<Seq<u8>>::empty(),
            r.cap() == capacity as nat,
    {
        FrameRing { buf: rb_new(capacity) }
    }

    /// Appends a frame; at capacity the single oldest frame is evicted first.
    pub fn push(&mut self, frame: Vec<u8>)
        requires
            old(self).wf(),
        ensures
            final(self).wf(),
            final(self).cap() == old(self).cap(),
            final(self)@ == push_model(old(self)@, old(self).cap(), frame@),
    {
        proof {
            let s = self@;
            if s.len() == self.cap() {
                assert(s.drop_first().push(frame@) =~= s.push(frame@).drop_first());
            }
        }
        rb_push(&mut self.buf, frame);
    }

    /// The number of frames held.
    pub fn len(&self) -> (r: usize)
        ensures
            r as nat == self@.len(),
    {
        rb_len(&self.buf)
    }

    /// The capacity, fixed at construction.
    pub fn capacity(&self) -> (r: usize)
        ensures
            r as nat == self.cap(),
    {
        rb_capacity(&self.buf)
    }

    /// An independent copy of every frame held, oldest first.
    pub fn snapshot(&self) -> (r: Vec<Vec<u8>>)
        ensures
            r@.len() == self@.len(),
            forall|i: int| 0 <= i < r@.len() ==> #[trigger] r@[i]@ == self@[i],
    {
        rb_to_vec(&self.buf)
    }
}

} // verus!
