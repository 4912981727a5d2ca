//! Bounded FIFO queues for decoded frames. Each media kind gets one buffer,
//! filled by the decode loop and drained by that kind's playback driver.
//! Pushing never blocks: a full buffer refuses the frame and hands it back,
//! which is what the decode loop's backpressure rests on.

use vstd::prelude::*;

verus! {

/// A fixed-capacity FIFO. The capacity is chosen at construction and never
/// changes; `push` fails (returning the rejected item) when the buffer is
/// full, and `pop` returns nothing when it is empty.
pub struct FrameBuffer<T> {
    items: Vec<T>,
    capacity: usize,
}

impl<T> View for FrameBuffer<T> {
    type V = Seq<T>;

    /// The queued frames, oldest first.
    closed spec fn view(&self) -> Seq<T> {
        self.items@
    }
}

impl<T> FrameBuffer<T> {
    /// Never more frames than the fixed capacity.
    #[verifier::type_invariant]
    spec fn inv(&self) -> bool {
        self.items@.len() <= self.capacity
    }

    /// The fixed capacity the buffer was built with.
    pub closed spec fn cap(&self) -> nat {
        self.capacity as nat
    }

    pub fn new(size: usize) -> (buffer: Self)
        ensures
            buffer@ =~= Seq::<T>::empty(),
            buffer.cap() == size,
    {
        FrameBuffer { items: Vec::new(), capacity: size }
    }

    /// Append a frame at the back. A full buffer is left untouched and the
    /// frame comes back to the caller; otherwise the frame is queued.
    pub fn push(&mut self, item: T) -> (result: Result<(), T>)
        ensures
            final(self).cap() == old(self).cap(),
            old(self)@.len() == old(self).cap() ==> {
                &&& final(self)@ == old(self)@
                &&& result matches Err(rejected) && rejected == item
            },
            old(self)@.len() < old(self).cap() ==> {
                &&& final(self)@ == old(self)@.push(item)
                &&& result is Ok
            },
    {
        proof {
            use_type_invariant(&*self);
        }
        if self.items.len() == self.capacity {
            Err(item)
        } else {
            let mut items: Vec<T> = Vec::new();
            std::mem::swap(&mut items, &mut self.items);
            items.push(item);
            self.items = items;
            Ok(())
        }
    }

    /// Remove and return the oldest frame, or nothing if the buffer is empty.
    pub fn pop(&mut self) -> (result: Option<T>)
        ensures
            final(self).cap() == old(self).cap(),
            old(self)@.len() == 0 ==> {
                &&& final(self)@ == old(self)@
                &&& result is None
            },
            old(self)@.len() > 0 ==> {
                &&& final(self)@ == old(self)@.drop_first()
                &&& result matches Some(frame) && frame == old(self)@[0]
            },
    {
        proof {
            use_type_invariant(&*self);
        }
        if self.items.len() == 0 {
            None
        } else {
            let mut items: Vec<T> = Vec::new();
            std::mem::swap(&mut items, &mut self.items);
            let frame = items.remove(0);
            self.items = items;
            Some(frame)
        }
    }

    pub fn is_empty(&self) -> (empty: bool)
        ensures
            empty == (self@.len() == 0),
    {
        self.items.len() == 0
    }

    pub fn is_full(&self) -> (full: bool)
        ensures
            full == (self@.len() == self.cap()),
    {
        proof {
            use_type_invariant(&*self);
        }
        self.items.len() == self.capacity
    }

    pub fn len(&self) -> (n: usize)
        ensures
            n == self@.len(),
    {
        self.items.len()
    }

    /// Drain the buffer to empty, discarding every queued frame.
    pub fn clear(&mut self)
        ensures
            final(self)@ =~= Seq::<T>::empty(),
            final(self).cap() == old(self).cap(),
    {
        while !self.is_empty()
            invariant
                self.cap() == old(self).cap(),
            decreases self@.len(),
        {
            self.pop();
        }
    }
}

} // verus!
