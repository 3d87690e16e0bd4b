//! Buffering between the capture callback and the outbound channel.
//!
//! The callback must return promptly, so it never waits for the channel.
//! Converted samples go into a bounded ring buffer and are drained from there
//! in fixed-size chunks as far as the channel takes them. When the buffer is
//! full the oldest samples give way to the newest.

use std::collections::VecDeque;
use tokio::sync::mpsc::error::TrySendError;
use tokio::sync::mpsc::Sender;
use vstd::prelude::*;

verus! {

/// Sample rate of the audio that is streamed, in Hz.
pub const TARGET_SAMPLE_RATE: u32 = 16000;

/// Number of samples in one block handed to the converter and in one chunk
/// handed to the channel.
pub const CHUNK_SIZE: usize = 1024;

/// Capacity of the ring buffer: five seconds of audio at the target rate.
pub const PRECONNECT_BUFFER_SAMPLES: usize = 80000;

/// The last `capacity` items of `samples`, or all of them if there are fewer.
pub open spec fn most_recent(samples: Seq<i16>, capacity: nat) -> Seq<i16> {
    if samples.len() <= capacity {
        samples
    } else {
        samples.skip(samples.len() - capacity)
    }
}

/// What a buffer of the given capacity holds after `incoming` is pushed onto
/// `held`: the newest samples win.
pub open spec fn after_push(held: Seq<i16>, incoming: Seq<i16>, capacity: nat) -> Seq<i16> {
    most_recent(held + incoming, capacity)
}

/// Number of samples that one `pop_chunk(max_len)` takes from `held`.
pub open spec fn chunk_len(held: Seq<i16>, max_len: nat) -> nat {
    if held.len() <= max_len {
        held.len()
    } else {
        max_len
    }
}

/// The samples that one `pop_chunk(max_len)` hands out of `held`.
pub open spec fn popped(held: Seq<i16>, max_len: nat) -> Seq<i16> {
    held.take(chunk_len(held, max_len) as int)
}

/// What stays of `held` after one `pop_chunk(max_len)`.
pub open spec fn after_pop(held: Seq<i16>, max_len: nat) -> Seq<i16> {
    held.skip(chunk_len(held, max_len) as int)
}

/// What a buffer of the given capacity holds after `chunk` is put back in
/// front of `held`: all of both where they fit, and otherwise the most recent
/// `capacity` samples, so that the oldest samples of the chunk give way.
pub open spec fn after_push_front(held: Seq<i16>, chunk: Seq<i16>, capacity: nat) -> Seq<i16> {
    most_recent(chunk + held, capacity)
}

/// What a buffer holds after a sequence of pushes onto `held`.
pub open spec fn after_pushes(held: Seq<i16>, pushes: Seq<Seq<i16>>, capacity: nat) -> Seq<i16>
    decreases pushes.len(),
{
    if pushes.len() == 0 {
        held
    } else {
        after_push(after_pushes(held, pushes.drop_last(), capacity), pushes.last(), capacity)
    }
}

/// All samples of a sequence of pushes, oldest first.
pub open spec fn all_pushed(pushes: Seq<Seq<i16>>) -> Seq<i16>
    decreases pushes.len(),
{
    if pushes.len() == 0 {
        Seq::empty()
    } else {
        all_pushed(pushes.drop_last()) + pushes.last()
    }
}

#[verifier::external_type_specification]
#[verifier::external_body]
#[verifier::reject_recursive_types(T)]
pub struct ExSender<T>(Sender<T>);

/// How an attempt to hand a chunk to the outbound channel ended.
#[derive(Debug, Clone, PartialEq, Eq)]
pub enum SendOutcome {
    /// The channel took the chunk.
    Sent,
    /// The channel is full for now; the chunk comes back.
    Full(Vec<i16>),
    /// The receiving side is gone for good.
    Closed,
}

/// How a flush of the ring buffer ended.
#[derive(Debug, Clone, Copy, PartialEq, Eq, Structural)]
pub enum FlushEnd {
    /// Everything that was buffered went to the channel.
    Drained,
    /// The channel filled up; what it did not take stays buffered.
    Backpressure,
    /// The channel is closed; the buffer was emptied.
    Closed,
}

/// Account of one flush.
#[derive(Debug, Clone, Copy, PartialEq, Eq, Structural)]
pub struct FlushReport {
    /// Number of samples that the channel took.
    pub delivered: usize,
    /// Why the flush stopped.
    pub end: FlushEnd,
}

/// Calls `tokio::sync::mpsc::Sender::try_send`, which never waits. Trusted:
/// when the channel is full, the chunk that comes back is the one that was
/// offered. Which of the three outcomes occurs depends on the channel.
#[verifier::external_body]
fn try_send_chunk(sender: &Sender<Vec<i16>>, chunk: Vec<i16>) -> (outcome: SendOutcome)
    ensures
        outcome matches SendOutcome::Full(returned) ==> returned@ == chunk@,
{
    match sender.try_send(chunk) {
        Ok(()) => SendOutcome::Sent,
        Err(TrySendError::Full(returned)) => SendOutcome::Full(returned),
        Err(TrySendError::Closed(_)) => SendOutcome::Closed,
    }
}

/// Bounded queue of samples, oldest first.
pub struct CircularSampleBuffer {
    samples: VecDeque<i16>,
    capacity: usize,
}

impl View for CircularSampleBuffer {
    type V = Seq<i16>;

    closed spec fn view(&self) -> Seq<i16> {
        self.samples@
    }
}

impl CircularSampleBuffer {
    #[verifier::type_invariant]
    spec fn within_capacity(self) -> bool {
        self.samples@.len() <= self.capacity
    }

    /// The most that the buffer holds.
    pub closed spec fn spec_capacity(&self) -> usize {
        self.capacity
    }

    pub fn new(capacity: usize) -> (buffer: CircularSampleBuffer)
        ensures
            buffer@ == Seq::<i16>::empty(),
            buffer.spec_capacity() == capacity,
    {
        CircularSampleBuffer { samples: VecDeque::with_capacity(capacity), capacity }
    }

    #[verifier::when_used_as_spec(spec_capacity)]
    pub fn capacity(&self) -> (capacity: usize)
        ensures
            capacity == self.spec_capacity(),
    {
        self.capacity
    }

    pub fn len(&self) -> (len: usize)
        ensures
            len == self@.len(),
            len <= self.spec_capacity(),
    {
        proof {
            use_type_invariant(&*self);
        }
        self.samples.len()
    }

    /// Appends `incoming`. Where the buffer would overflow, the oldest
    /// samples are dropped first: afterwards the buffer holds the most recent
    /// `capacity` samples of what it held followed by `incoming`.
    pub fn push_samples(&mut self, incoming: &[i16])
        ensures
            final(self)@ == after_push(old(self)@, incoming@, old(self).spec_capacity() as nat),
            final(self)@.len() <= final(self).spec_capacity(),
            final(self).spec_capacity() == old(self).spec_capacity(),
    {
        proof {
            use_type_invariant(&*self);
        }
        if incoming.len() == 0 {
            return ;
        }
        let capacity: usize = self.capacity;
        let ghost held = self.samples@;
        let mut samples: VecDeque<i16> = VecDeque::new();
        std::mem::swap(&mut samples, &mut self.samples);
        if incoming.len() >= capacity {
            samples.clear();
            let start: usize = incoming.len() - capacity;
            let mut i: usize = start;
            while i < incoming.len()
                invariant
                    start <= i <= incoming@.len(),
                    start == incoming@.len() - capacity,
                    samples@ == incoming@.subrange(start as int, i as int),
                decreases incoming@.len() - i,
            {
                samples.push_back(incoming[i]);
                i += 1;
            }
            assert(samples@ =~= after_push(held, incoming@, capacity as nat));
        } else {
            let room: usize = capacity - incoming.len();
            let overflow: usize = if samples.len() > room {
                samples.len() - room
            } else {
                0
            };
            let mut dropped: usize = 0;
            while dropped < overflow
                invariant
                    dropped <= overflow <= held.len(),
                    samples@ == held.skip(dropped as int),
                decreases overflow - dropped,
            {
                let _ = samples.pop_front();
                dropped += 1;
            }
            let ghost kept = samples@;
            let mut i: usize = 0;
            while i < incoming.len()
                invariant
                    i <= incoming@.len(),
                    kept.len() + incoming@.len() <= capacity,
                    samples@ == kept + incoming@.take(i as int),
                decreases incoming@.len() - i,
            {
                samples.push_back(incoming[i]);
                i += 1;
            }
            assert(samples@ =~= after_push(held, incoming@, capacity as nat));
        }
        self.samples = samples;
    }

    /// Removes and returns up to `max_len` of the oldest samples, or nothing
    /// if the buffer is empty.
    pub fn pop_chunk(&mut self, max_len: usize) -> (chunk: Option<Vec<i16>>)
        ensures
            chunk is Some == (old(self)@.len() > 0),
            chunk matches Some(taken) ==> taken@ == popped(old(self)@, max_len as nat),
            final(self)@ == after_pop(old(self)@, max_len as nat),
            final(self).spec_capacity() == old(self).spec_capacity(),
    {
        proof {
            use_type_invariant(&*self);
        }
        if self.samples.len() == 0 {
            assert(self.samples@.skip(0) =~= self.samples@);
            return None;
        }
        let ghost held = self.samples@;
        let mut samples: VecDeque<i16> = VecDeque::new();
        std::mem::swap(&mut samples, &mut self.samples);
        let len: usize = if samples.len() <= max_len {
            samples.len()
        } else {
            max_len
        };
        let mut taken: Vec<i16> = Vec::with_capacity(len);
        let mut i: usize = 0;
        while i < len
            invariant
                i <= len <= held.len(),
                taken@ == held.take(i as int),
                samples@ == held.skip(i as int),
            decreases len - i,
        {
            match samples.pop_front() {
                Some(sample) => {
                    taken.push(sample);
                    assert(taken@ =~= held.take(i + 1));
                    assert(samples@ =~= held.skip(i + 1));
                },
                None => {},
            }
            i += 1;
        }
        self.samples = samples;
        Some(taken)
    }

    /// Puts `chunk` back at the head of the buffer, in its order, so that the
    /// next `pop_chunk` starts with it. A chunk that was just taken from the
    /// buffer always fits. Of one that does not fit, the oldest samples are
    /// dropped: the buffer never holds more than its capacity.
    pub fn push_front_samples(&mut self, chunk: &[i16])
        ensures
            final(self)@ == after_push_front(
                old(self)@,
                chunk@,
                old(self).spec_capacity() as nat,
            ),
            final(self)@.len() <= final(self).spec_capacity(),
            final(self).spec_capacity() == old(self).spec_capacity(),
    {
        proof {
            use_type_invariant(&*self);
        }
        let capacity: usize = self.capacity;
        let ghost held = self.samples@;
        let mut samples: VecDeque<i16> = VecDeque::new();
        std::mem::swap(&mut samples, &mut self.samples);
        let room: usize = capacity - samples.len();
        let first: usize = if chunk.len() > room {
            chunk.len() - room
        } else {
            0
        };
        let mut i: usize = chunk.len();
        while i > first
            invariant
                first <= i <= chunk@.len(),
                chunk@.len() - first + held.len() <= capacity,
                samples@ == chunk@.skip(i as int) + held,
            decreases i,
        {
            i -= 1;
            samples.push_front(chunk[i]);
            assert(samples@ =~= chunk@.skip(i as int) + held);
        }
        assert(samples@ =~= after_push_front(held, chunk@, capacity as nat));
        self.samples = samples;
    }

    /// Discards everything that is buffered.
    pub fn clear(&mut self)
        ensures
            final(self)@ == Seq::<i16>::empty(),
            final(self).spec_capacity() == old(self).spec_capacity(),
    {
        let mut samples: VecDeque<i16> = VecDeque::new();
        std::mem::swap(&mut samples, &mut self.samples);
        samples.clear();
        self.samples = samples;
    }
}

impl CircularSampleBuffer {
    /// Acts on the outcome of offering a chunk to the channel and tells why
    /// draining stops, if it does. A chunk that the channel took is gone, and
    /// draining goes on; one that came back is put back in front; a closed
    /// channel empties the buffer.
    pub fn settle(&mut self, outcome: SendOutcome) -> (stop: Option<FlushEnd>)
        ensures
            stop == match outcome {
                SendOutcome::Sent => None::<FlushEnd>,
                SendOutcome::Full(_) => Some(FlushEnd::Backpressure),
                SendOutcome::Closed => Some(FlushEnd::Closed),
            },
            final(self)@ == match outcome {
                SendOutcome::Sent => old(self)@,
                SendOutcome::Full(returned) => after_push_front(
                    old(self)@,
                    returned@,
                    old(self).spec_capacity() as nat,
                ),
                SendOutcome::Closed => Seq::<i16>::empty(),
            },
            final(self)@.len() <= final(self).spec_capacity(),
            final(self).spec_capacity() == old(self).spec_capacity(),
    {
        proof {
            use_type_invariant(&*self);
        }
        match outcome {
            SendOutcome::Sent => None,
            SendOutcome::Full(returned) => {
                self.push_front_samples(returned.as_slice());
                Some(FlushEnd::Backpressure)
            },
            SendOutcome::Closed => {
                self.clear();
                Some(FlushEnd::Closed)
            },
        }
    }
}

/// Buffers `samples` and then drains the buffer into the channel, one chunk
/// of at most [`CHUNK_SIZE`] samples at a time and without ever waiting.
///
/// Whatever the channel does, the buffer first becomes what
/// [`CircularSampleBuffer::push_samples`] makes of it. The channel then takes
/// the oldest `delivered` samples of that. If it fills up, the rest stays
/// buffered for the next call; if it takes everything, the buffer ends empty;
/// if it turns out closed, the buffer is emptied and the rest is lost.
pub fn enqueue_and_flush(
    sender: &Sender<Vec<i16>>,
    ring_buffer: &mut CircularSampleBuffer,
    samples: &[i16],
) -> (report: FlushReport)
    ensures
        final(ring_buffer).spec_capacity() == old(ring_buffer).spec_capacity(),
        report.delivered <= after_push(
            old(ring_buffer)@,
            samples@,
            old(ring_buffer).spec_capacity() as nat,
        ).len(),
        final(ring_buffer)@ == match report.end {
            FlushEnd::Closed => Seq::<i16>::empty(),
            _ => after_push(
                old(ring_buffer)@,
                samples@,
                old(ring_buffer).spec_capacity() as nat,
            ).skip(report.delivered as int),
        },
        report.end == FlushEnd::Drained ==> final(ring_buffer)@.len() == 0,
        report.end == FlushEnd::Closed ==> report.delivered < after_push(
            old(ring_buffer)@,
            samples@,
            old(ring_buffer).spec_capacity() as nat,
        ).len(),
        report.end == FlushEnd::Backpressure ==> final(ring_buffer)@.len() > 0 && report.delivered
            % CHUNK_SIZE == 0,
{
    ring_buffer.push_samples(samples);
    let ghost pushed = ring_buffer@;
    let mut delivered: usize = 0;
    loop
        invariant
            delivered <= pushed.len(),
            ring_buffer@ == pushed.skip(delivered as int),
            ring_buffer@.len() <= ring_buffer.spec_capacity(),
            ring_buffer.spec_capacity() == old(ring_buffer).spec_capacity(),
            pushed == after_push(
                old(ring_buffer)@,
                samples@,
                old(ring_buffer).spec_capacity() as nat,
            ),
            delivered % CHUNK_SIZE == 0,
        decreases pushed.len() - delivered,
    {
        let ghost held = ring_buffer@;
        match ring_buffer.pop_chunk(CHUNK_SIZE) {
            None => {
                return FlushReport { delivered, end: FlushEnd::Drained };
            },
            Some(chunk) => {
                let taken: usize = chunk.len();
                let ghost offered = chunk@;
                let outcome = try_send_chunk(sender, chunk);
                proof {
                    assert(offered + ring_buffer@ =~= held);
                    assert(after_push_front(
                        ring_buffer@,
                        offered,
                        ring_buffer.spec_capacity() as nat,
                    ) == held);
                }
                match ring_buffer.settle(outcome) {
                    Some(end) => {
                        return FlushReport { delivered, end };
                    },
                    None => {},
                }
                assert(ring_buffer@ =~= pushed.skip(delivered + taken));
                if taken < CHUNK_SIZE {
                    return FlushReport { delivered: delivered + taken, end: FlushEnd::Drained };
                }
                delivered = delivered + taken;
            },
        }
    }
}

/// Keeping the most recent samples at every push keeps the most recent
/// samples overall.
pub proof fn lemma_most_recent_absorbs(earlier: Seq<i16>, later: Seq<i16>, capacity: nat)
    ensures
        most_recent(most_recent(earlier, capacity) + later, capacity) == most_recent(
            earlier + later,
            capacity,
        ),
{
    assert(most_recent(most_recent(earlier, capacity) + later, capacity) =~= most_recent(
        earlier + later,
        capacity,
    ));
}

/// Whatever is pushed, in however many calls: the buffer never holds more
/// than its capacity, and it holds exactly the most recent `capacity` samples
/// of what it held at first followed by everything pushed since (all of them
/// if they are fewer).
pub proof fn lemma_pushes_keep_most_recent(held: Seq<i16>, pushes: Seq<Seq<i16>>, capacity: nat)
    requires
        held.len() <= capacity,
    ensures
        after_pushes(held, pushes, capacity).len() <= capacity,
        after_pushes(held, pushes, capacity) == most_recent(held + all_pushed(pushes), capacity),
    decreases pushes.len(),
{
    if pushes.len() == 0 {
        assert(held + all_pushed(pushes) =~= held);
    } else {
        let before = pushes.drop_last();
        lemma_pushes_keep_most_recent(held, before, capacity);
        lemma_most_recent_absorbs(held + all_pushed(before), pushes.last(), capacity);
        assert((held + all_pushed(before)) + pushes.last() =~= held + all_pushed(pushes));
    }
}

/// Putting back a chunk that fits and then popping as many samples as it
/// holds returns the same samples in the same order, and leaves the buffer as
/// it was before the put-back.
pub proof fn lemma_put_back_round_trip(held: Seq<i16>, chunk: Seq<i16>, capacity: nat)
    requires
        held.len() + chunk.len() <= capacity,
    ensures
        popped(after_push_front(held, chunk, capacity), chunk.len()) == chunk,
        after_pop(after_push_front(held, chunk, capacity), chunk.len()) == held,
{
    assert(popped(after_push_front(held, chunk, capacity), chunk.len()) =~= chunk);
    assert(after_pop(after_push_front(held, chunk, capacity), chunk.len()) =~= held);
}

/// A put-back never takes the buffer beyond its capacity, whatever the
/// chunk, and it keeps everything that was buffered before.
pub proof fn lemma_put_back_within_capacity(held: Seq<i16>, chunk: Seq<i16>, capacity: nat)
    requires
        held.len() <= capacity,
    ensures
        after_push_front(held, chunk, capacity).len() <= capacity,
        most_recent(after_push_front(held, chunk, capacity), held.len()) == held,
{
    assert(most_recent(after_push_front(held, chunk, capacity), held.len()) =~= held);
}

} // verus!
