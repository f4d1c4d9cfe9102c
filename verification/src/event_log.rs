//! A bounded history that forgets its oldest entry when it overflows.

use vstd::prelude::*;

verus! {

/// What a log holding `log`, oldest first, holds after `sample` is pushed into
/// it: the sample goes to the end, and a log that was already at `capacity`
/// loses its first entry.
pub open spec fn pushed<S>(log: Seq<S>, capacity: nat, sample: S) -> Seq<S> {
    if log.len() < capacity {
        log.push(sample)
    } else {
        log.drop_first().push(sample)
    }
}

/// Pushing into a log that respects its capacity gives one that still does:
/// the new sample is the newest entry, the entries before it are the old ones
/// in their old order, and only when the log was full did the oldest one go.
pub proof fn lemma_pushed_keeps_order<S>(log: Seq<S>, capacity: nat, sample: S)
    requires
        capacity >= 1,
        log.len() <= capacity,
    ensures
        pushed(log, capacity, sample).len() == if log.len() < capacity {
            log.len() + 1
        } else {
            capacity
        },
        pushed(log, capacity, sample).len() <= capacity,
        pushed(log, capacity, sample).last() == sample,
        log.len() < capacity ==> pushed(log, capacity, sample).drop_last() == log,
        log.len() == capacity ==> pushed(log, capacity, sample).drop_last() == log.drop_first(),
{
}

/// What a log holds after each of `samples` is pushed into it in turn.
pub open spec fn pushed_all<S>(log: Seq<S>, capacity: nat, samples: Seq<S>) -> Seq<S>
    decreases samples.len(),
{
    if samples.len() == 0 {
        log
    } else {
        pushed(pushed_all(log, capacity, samples.drop_last()), capacity, samples.last())
    }
}

/// The newest `count` entries of `entries`, or all of them if there are fewer.
pub open spec fn newest<S>(entries: Seq<S>, count: nat) -> Seq<S> {
    if entries.len() <= count {
        entries
    } else {
        entries.subrange(entries.len() - count, entries.len() as int)
    }
}

/// A log forgets nothing but what overflows: after any run of pushes it holds
/// the newest entries of everything it was ever given, as many as fit, in the
/// order in which they came.
pub proof fn lemma_pushed_all_keeps_newest<S>(log: Seq<S>, capacity: nat, samples: Seq<S>)
    requires
        capacity >= 1,
        log.len() <= capacity,
    ensures
        pushed_all(log, capacity, samples) == newest(log + samples, capacity),
    decreases samples.len(),
{
    if samples.len() > 0 {
        lemma_pushed_all_keeps_newest(log, capacity, samples.drop_last());
    }
}

/// The slot that holds the `offset`-th oldest entry of a ring of `len` slots
/// whose oldest entry sits at `start`.
spec fn ring_slot(start: int, offset: int, len: int) -> int {
    if start + offset < len {
        start + offset
    } else {
        start + offset - len
    }
}

/// A fixed-capacity, insertion-ordered log. Its view is the sequence of the
/// entries it holds, oldest first.
pub struct EventLog<S> {
    slots: Vec<S>,
    start: usize,
    capacity: usize,
}

impl<S> View for EventLog<S> {
    type V = Seq<S>;

    closed spec fn view(&self) -> Seq<S> {
        Seq::new(
            self.slots@.len(),
            |i: int| self.slots@[ring_slot(self.start as int, i, self.slots@.len() as int)],
        )
    }
}

impl<S> EventLog<S> {
    /// The representation invariant: the ring never outgrows its capacity, and
    /// it only starts to rotate once it is full.
    pub closed spec fn wf(self) -> bool {
        &&& self.capacity >= 1
        &&& self.slots@.len() <= self.capacity
        &&& if self.slots@.len() == self.capacity {
            self.start < self.capacity
        } else {
            self.start == 0
        }
    }

    /// The number of entries the log can hold, fixed when it is made.
    pub closed spec fn spec_capacity(self) -> nat {
        self.capacity as nat
    }

    /// A well-formed log never holds more than its capacity, which is at least
    /// one.
    pub proof fn lemma_bounded(self)
        requires
            self.wf(),
        ensures
            self@.len() <= self.spec_capacity(),
            self.spec_capacity() >= 1,
    {
    }

    /// An empty log with room for `capacity` entries. The room is reserved up
    /// front where the allocator grants it, so that pushes need not reallocate.
    pub fn new(capacity: usize) -> (r: Self)
        requires
            capacity >= 1,
        ensures
            r.wf(),
            r@ == Seq::<S>::empty(),
            r.spec_capacity() == capacity,
    {
        let mut slots: Vec<S> = Vec::new();
        let _ = slots.try_reserve(capacity);
        EventLog { slots, start: 0, capacity }
    }

    /// Appends `sample`, discarding the oldest entry first if the log is full.
    pub fn push(&mut self, sample: S)
        requires
            old(self).wf(),
        ensures
            final(self).wf(),
            final(self).spec_capacity() == old(self).spec_capacity(),
            final(self)@ == pushed(old(self)@, old(self).spec_capacity(), sample),
            final(self)@.len() <= final(self).spec_capacity(),
    {
        if self.slots.len() < self.capacity {
            self.slots.push(sample);
        } else {
            let at: usize = self.start;
            self.slots[at] = sample;
            self.start = if at + 1 == self.capacity {
                0
            } else {
                at + 1
            };
        }
    }

    /// Forgets every entry; the capacity stays.
    pub fn clear(&mut self)
        requires
            old(self).wf(),
        ensures
            final(self).wf(),
            final(self).spec_capacity() == old(self).spec_capacity(),
            final(self)@ == Seq::<S>::empty(),
    {
        self.slots.clear();
        self.start = 0;
    }

    /// The number of entries held.
    pub fn len(&self) -> (r: usize)
        requires
            self.wf(),
        ensures
            r == self@.len(),
            r <= self.spec_capacity(),
    {
        self.slots.len()
    }

    /// Whether the log holds no entry.
    pub fn is_empty(&self) -> (r: bool)
        requires
            self.wf(),
        ensures
            r == (self@.len() == 0),
    {
        self.slots.len() == 0
    }

    /// The number of entries the log can hold.
    pub fn capacity(&self) -> (r: usize)
        requires
            self.wf(),
        ensures
            r == self.spec_capacity(),
            r >= 1,
    {
        self.capacity
    }

    /// The `index`-th oldest entry, or `None` past the newest one.
    pub fn get(&self, index: usize) -> (r: Option<&S>)
        requires
            self.wf(),
        ensures
            r == (if index < self@.len() {
                Some(&self@[index as int])
            } else {
                None
            }),
    {
        let len: usize = self.slots.len();
        if index >= len {
            return None;
        }
        let room: usize = len - self.start;
        let at: usize = if index < room {
            self.start + index
        } else {
            index - room
        };
        Some(&self.slots[at])
    }
}

impl<S: Copy> EventLog<S> {
    /// The entries held, oldest first.
    pub fn to_vec(&self) -> (r: Vec<S>)
        requires
            self.wf(),
        ensures
            r@ == self@,
    {
        let len: usize = self.len();
        let mut out: Vec<S> = Vec::with_capacity(len);
        let mut i: usize = 0;
        while i < len
            invariant
                self.wf(),
                len == self@.len(),
                i <= len,
                out@ == self@.subrange(0, i as int),
            decreases len - i,
        {
            match self.get(i) {
                Some(sample) => out.push(*sample),
                None => {},
            }
            i += 1;
        }
        out
    }
}

} // verus!
