//! The bounded history of recent steps, kept in a ring buffer.

use crate::op::LogEntry;
use ringbuffer::AllocRingBuffer;
use ringbuffer::RingBuffer;
use ringbuffer::RingBufferExt;
use ringbuffer::RingBufferWrite;
use vstd::arithmetic::power2::is_pow2;
use vstd::prelude::*;

verus! {

/// `ringbuffer::AllocRingBuffer`: a ring buffer of fixed capacity, opaque
/// here.
#[verifier::external_type_specification]
#[verifier::external_body]
#[verifier::reject_recursive_types(T)]
pub struct ExAllocRingBuffer<T>(AllocRingBuffer<T>);

/// The entries that a ring buffer holds, oldest first.
pub uninterp spec fn ring_entries(ring: AllocRingBuffer<LogEntry>) -> Seq<LogEntry>;

/// The capacity that a ring buffer was made with.
pub uninterp spec fn ring_capacity(ring: AllocRingBuffer<LogEntry>) -> nat;

/// How many entries were ever pushed into a ring buffer.
pub uninterp spec fn ring_pushed(ring: AllocRingBuffer<LogEntry>) -> nat;

/// The last `cap` entries of `all`, or all of them where there are fewer.
pub open spec fn keep_last(all: Seq<LogEntry>, cap: nat) -> Seq<LogEntry> {
    if all.len() > cap {
        all.skip(all.len() - cap)
    } else {
        all
    }
}

/// `AllocRingBuffer::with_capacity`: an empty buffer of the given capacity.
/// The call panics unless the capacity is a power of two, so that is
/// required.
#[verifier::external_body]
fn ring_with_capacity(capacity: usize) -> (ring: AllocRingBuffer<LogEntry>)
    requires
        is_pow2(capacity as int),
    ensures
        ring_entries(ring) == Seq::<LogEntry>::empty(),
        ring_capacity(ring) == capacity,
        ring_pushed(ring) == 0,
{
    AllocRingBuffer::with_capacity(capacity)
}

/// `RingBufferWrite::push`: appends the entry, and where the buffer is full
/// drops the oldest one first. The buffer counts its pushes in a `usize`,
/// which must not overflow.
#[verifier::external_body]
fn ring_push(ring: &mut AllocRingBuffer<LogEntry>, entry: LogEntry)
    requires
        ring_pushed(*old(ring)) < usize::MAX,
    ensures
        ring_entries(*final(ring)) == keep_last(
            ring_entries(*old(ring)).push(entry),
            ring_capacity(*old(ring)),
        ),
        ring_capacity(*final(ring)) == ring_capacity(*old(ring)),
        ring_pushed(*final(ring)) == ring_pushed(*old(ring)) + 1,
{
    ring.push(entry)
}

/// `RingBuffer::len`: the number of entries held.
#[verifier::external_body]
fn ring_len(ring: &AllocRingBuffer<LogEntry>) -> (len: usize)
    ensures
        len == ring_entries(*ring).len(),
{
    ring.len()
}

/// `RingBufferExt::to_vec`: the entries held, oldest first.
#[verifier::external_body]
fn ring_to_vec(ring: &AllocRingBuffer<LogEntry>) -> (entries: Vec<LogEntry>)
    ensures
        entries@ == ring_entries(*ring),
{
    ring.to_vec()
}

/// Number of steps that the history keeps.
pub const HISTORY_CAPACITY: usize = 1024;

/// The most recent steps, oldest first, at most `HISTORY_CAPACITY` of them.
pub struct History {
    ring: AllocRingBuffer<LogEntry>,
    all: Ghost<Seq<LogEntry>>,
}

impl History {
    /// Every entry ever recorded, oldest first.
    pub closed spec fn all(&self) -> Seq<LogEntry> {
        self.all@
    }

    /// The entries that are still held, oldest first.
    pub open spec fn view(&self) -> Seq<LogEntry> {
        keep_last(self.all(), HISTORY_CAPACITY as nat)
    }

    /// The ring buffer holds the last entries recorded, and has counted
    /// them all.
    pub closed spec fn wf(&self) -> bool {
        &&& ring_capacity(self.ring) == HISTORY_CAPACITY
        &&& ring_pushed(self.ring) == self.all@.len()
        &&& ring_entries(self.ring) == keep_last(self.all@, HISTORY_CAPACITY as nat)
    }

    /// An empty history.
    pub fn new() -> (h: History)
        ensures
            h.wf(),
            h.all() == Seq::<LogEntry>::empty(),
    {
        proof {
            reveal_with_fuel(is_pow2, 12);
        }
        History { ring: ring_with_capacity(HISTORY_CAPACITY), all: Ghost(Seq::empty()) }
    }

    /// Records one more step, forgetting the oldest where the history is
    /// full.
    pub fn record(&mut self, entry: LogEntry)
        requires
            old(self).wf(),
            old(self).all().len() < usize::MAX,
        ensures
            final(self).wf(),
            final(self).all() == old(self).all().push(entry),
    {
        ring_push(&mut self.ring, entry);
        self.all = Ghost(self.all@.push(entry));
        proof {
            lemma_keep_last_push(old(self).all@, entry, HISTORY_CAPACITY as nat);
        }
    }

    /// Number of entries held.
    pub fn len(&self) -> (len: usize)
        requires
            self.wf(),
        ensures
            len == self@.len(),
            len <= HISTORY_CAPACITY,
            len <= self.all().len(),
    {
        ring_len(&self.ring)
    }

    /// The entries held, oldest first.
    pub fn entries(&self) -> (entries: Vec<LogEntry>)
        requires
            self.wf(),
        ensures
            entries@ == self@,
    {
        ring_to_vec(&self.ring)
    }
}

/// Keeping the last `cap` entries after each push keeps the last `cap`
/// entries of everything pushed.
pub proof fn lemma_keep_last_push(all: Seq<LogEntry>, entry: LogEntry, cap: nat)
    requires
        cap > 0,
    ensures
        keep_last(keep_last(all, cap).push(entry), cap) == keep_last(all.push(entry), cap),
{
    assert(keep_last(keep_last(all, cap).push(entry), cap) =~= keep_last(all.push(entry), cap));
}

} // verus!
