//! The queue of answers that are still owed to the host.
//!
//! The storage is a `ringbuffer::ConstGenericRingBuffer` with room for four
//! entries. What that crate does is stated here without proof, in the
//! contracts of four small functions; `ReadyQueue` and its callers are verified
//! against those contracts.

use ringbuffer::ConstGenericRingBuffer;
use ringbuffer::RingBuffer;
use vstd::prelude::*;

verus! {

/// An answer that the host has asked for and has not been sent yet.
#[derive(Copy, Clone, Debug, PartialEq, Eq, Structural)]
pub enum RogTerminalReadyData {
    /// The firmware version report.
    FirmwareVersion,
    /// The configuration table report.
    ConfigTable,
}

/// How many answers can wait at once.
pub const READY_QUEUE_CAPACITY: usize = 4;

/// `ringbuffer::ConstGenericRingBuffer`, opaque to the verifier.
#[verifier::external_type_specification]
#[verifier::external_body]
#[verifier::reject_recursive_types(T)]
pub struct ExConstGenericRingBuffer<T, const CAP: usize>(ConstGenericRingBuffer<T, CAP>);

/// The entries that a ring buffer holds, oldest first.
pub uninterp spec fn ring_items(
    ring: ConstGenericRingBuffer<RogTerminalReadyData, READY_QUEUE_CAPACITY>,
) -> Seq<RogTerminalReadyData>;

/// The write index of a ring buffer: how many entries were pushed into it
/// since it was made. The index only grows, and a push at `usize::MAX`
/// overflows it.
pub uninterp spec fn ring_writes(
    ring: ConstGenericRingBuffer<RogTerminalReadyData, READY_QUEUE_CAPACITY>,
) -> nat;

/// `ConstGenericRingBuffer::new`: a buffer with no entries and both indices
/// at zero. The call does not panic.
#[verifier::external_body]
fn ring_new() -> (ring: ConstGenericRingBuffer<RogTerminalReadyData, READY_QUEUE_CAPACITY>)
    ensures
        ring_items(ring) == Seq::<RogTerminalReadyData>::empty(),
        ring_writes(ring) == 0,
    no_unwind
{
    ConstGenericRingBuffer::new()
}

/// `RingBuffer::push`: the entry goes to the back; a buffer that already
/// holds four entries drops its oldest one first. The write index moves up by
/// one, which is why it must be below `usize::MAX`; below that the call does
/// not panic.
#[verifier::external_body]
fn ring_push(
    ring: &mut ConstGenericRingBuffer<RogTerminalReadyData, READY_QUEUE_CAPACITY>,
    item: RogTerminalReadyData,
)
    requires
        ring_writes(*old(ring)) < usize::MAX,
    ensures
        ring_items(*final(ring)) == enqueued(ring_items(*old(ring)), item),
        ring_writes(*final(ring)) == ring_writes(*old(ring)) + 1,
    no_unwind
{
    ring.push(item)
}

/// `RingBuffer::peek`: the oldest entry, if there is one. The buffer is not
/// changed.
#[verifier::external_body]
fn ring_peek(
    ring: &ConstGenericRingBuffer<RogTerminalReadyData, READY_QUEUE_CAPACITY>,
) -> (front: Option<RogTerminalReadyData>)
    ensures
        front == oldest(ring_items(*ring)),
{
    ring.peek().copied()
}

/// `RingBuffer::dequeue`: takes the oldest entry out and returns it; an empty
/// buffer stays as it is. The write index is not touched, and the call does
/// not panic.
#[verifier::external_body]
fn ring_dequeue(
    ring: &mut ConstGenericRingBuffer<RogTerminalReadyData, READY_QUEUE_CAPACITY>,
) -> (front: Option<RogTerminalReadyData>)
    ensures
        front == oldest(ring_items(*old(ring))),
        ring_items(*final(ring)) == dequeued(ring_items(*old(ring))),
        ring_writes(*final(ring)) == ring_writes(*old(ring)),
    no_unwind
{
    ring.dequeue()
}

/// The queue after `item` has arrived: at the back, and once the queue is
/// full at the cost of the oldest entry.
pub open spec fn enqueued(items: Seq<RogTerminalReadyData>, item: RogTerminalReadyData) -> Seq<
    RogTerminalReadyData,
> {
    if items.len() < READY_QUEUE_CAPACITY {
        items.push(item)
    } else {
        items.skip(1).push(item)
    }
}

/// The entry that has waited longest.
pub open spec fn oldest(items: Seq<RogTerminalReadyData>) -> Option<RogTerminalReadyData> {
    if items.len() == 0 {
        None
    } else {
        Some(items[0])
    }
}

/// The queue without the entry that has waited longest.
pub open spec fn dequeued(items: Seq<RogTerminalReadyData>) -> Seq<RogTerminalReadyData> {
    if items.len() == 0 {
        items
    } else {
        items.skip(1)
    }
}

/// A first-in, first-out queue of at most four pending answers.
///
/// The write index of the ring below only ever grows. The queue counts the
/// writes, and before the index could overflow it moves its entries into a
/// fresh ring, so that `enqueue` works however long the device runs.
pub struct ReadyQueue {
    ring: ConstGenericRingBuffer<RogTerminalReadyData, READY_QUEUE_CAPACITY>,
    /// Upper bound of the ring's write index.
    writes: usize,
}

impl View for ReadyQueue {
    type V = Seq<RogTerminalReadyData>;

    closed spec fn view(&self) -> Seq<RogTerminalReadyData> {
        ring_items(self.ring)
    }
}

impl ReadyQueue {
    #[verifier::type_invariant]
    spec fn well_formed(self) -> bool {
        &&& ring_items(self.ring).len() <= READY_QUEUE_CAPACITY
        &&& ring_writes(self.ring) <= self.writes
    }

    /// An empty queue.
    pub fn new() -> (queue: Self)
        ensures
            queue@ == Seq::<RogTerminalReadyData>::empty(),
    {
        ReadyQueue { ring: ring_new(), writes: 0 }
    }

    /// Moves the entries into a fresh ring, whose write index starts over.
    fn rewind(&mut self)
        ensures
            final(self)@ == old(self)@,
            final(self).writes <= READY_QUEUE_CAPACITY,
        no_unwind
    {
        proof {
            use_type_invariant(&*self);
        }
        let ghost before = self@;
        let mut fresh = ring_new();
        loop
            invariant
                ring_items(fresh) + ring_items(self.ring) == before,
                ring_writes(fresh) == ring_items(fresh).len(),
                ring_writes(self.ring) <= self.writes,
                before.len() <= READY_QUEUE_CAPACITY,
            ensures
                ring_items(self.ring).len() == 0,
            decreases ring_items(self.ring).len(),
        {
            match ring_dequeue(&mut self.ring) {
                Some(item) => {
                    ring_push(&mut fresh, item);
                },
                None => {
                    break;
                },
            }
        }
        *self = ReadyQueue { ring: fresh, writes: READY_QUEUE_CAPACITY };
    }

    /// Adds `item` at the back. A full queue drops its oldest entry to make
    /// room, so the call never fails and never waits.
    pub fn enqueue(&mut self, item: RogTerminalReadyData)
        ensures
            final(self)@ == enqueued(old(self)@, item),
            final(self)@.len() <= READY_QUEUE_CAPACITY,
        no_unwind
    {
        if self.writes == usize::MAX {
            self.rewind();
        }
        proof {
            use_type_invariant(&*self);
        }
        self.writes = self.writes + 1;
        ring_push(&mut self.ring, item);
    }

    /// The entry that has waited longest, which stays in the queue.
    pub fn peek(&self) -> (front: Option<RogTerminalReadyData>)
        ensures
            front == oldest(self@),
            self@.len() <= READY_QUEUE_CAPACITY,
    {
        proof {
            use_type_invariant(self);
        }
        ring_peek(&self.ring)
    }

    /// Takes out the entry that has waited longest. On an empty queue nothing
    /// happens.
    pub fn dequeue(&mut self) -> (front: Option<RogTerminalReadyData>)
        ensures
            front == oldest(old(self)@),
            final(self)@ == dequeued(old(self)@),
            final(self)@.len() <= READY_QUEUE_CAPACITY,
        no_unwind
    {
        proof {
            use_type_invariant(&*self);
        }
        ring_dequeue(&mut self.ring)
    }
}

} // verus!
