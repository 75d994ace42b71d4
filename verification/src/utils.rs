//! A three-slot character FIFO, laid out as a circular buffer.

use vstd::prelude::*;

verus! {

/// The number of slots of a [`FifoQueue`].
pub const FIFO_LEN: usize = 3;

/// A circular buffer with three slots.
///
/// Its view is the sequence of queued characters, oldest first.
pub struct FifoQueue {
    buf: [u8; 3],
    read_ptr: usize,
    write_ptr: usize,
    len: usize,
}

/// Why a [`FifoQueue`] operation was refused.
#[derive(Debug, Clone, Copy, PartialEq, Eq)]
pub enum FifoError {
    /// A push onto a full queue.
    Overflow,
    /// A pop from an empty queue.
    Underrun,
}

impl View for FifoQueue {
    type V = Seq<u8>;

    closed spec fn view(&self) -> Seq<u8> {
        Seq::new(self.len as nat, |i: int| self.buf@[(self.read_ptr + i) % 3])
    }
}

impl FifoQueue {
    /// The pointers stay inside the buffer and agree with the length.
    pub closed spec fn wf(&self) -> bool {
        &&& self.read_ptr < 3
        &&& self.len <= 3
        &&& self.write_ptr == (self.read_ptr + self.len) % 3
    }

    /// An empty queue.
    pub fn new() -> (q: FifoQueue)
        ensures
            q.wf(),
            q@ == Seq::<u8>::empty(),
    {
        let q = FifoQueue { buf: [0; 3], read_ptr: 0, write_ptr: 0, len: 0 };
        assert(q@ =~= Seq::<u8>::empty());
        q
    }

    /// Appends `c` behind the queued characters, unless three are queued
    /// already.
    pub fn push(&mut self, c: u8) -> (r: Result<(), FifoError>)
        requires
            old(self).wf(),
        ensures
            final(self).wf(),
            old(self)@.len() < 3 ==> r == Ok::<(), FifoError>(()) && final(self)@ == old(self)@.push(c),
            old(self)@.len() >= 3 ==> r == Err::<(), FifoError>(FifoError::Overflow) && final(self)@
                == old(self)@,
    {
        if self.len == FIFO_LEN {
            Err(FifoError::Overflow)
        } else {
            self.buf[self.write_ptr] = c;
            self.write_ptr = (self.write_ptr + 1) % FIFO_LEN;
            self.len += 1;
            assert(final(self)@ =~= old(self)@.push(c));
            Ok(())
        }
    }

    /// Takes the oldest character out of the queue.
    pub fn pop(&mut self) -> (r: Result<u8, FifoError>)
        requires
            old(self).wf(),
        ensures
            final(self).wf(),
            old(self)@.len() > 0 ==> r == Ok::<u8, FifoError>(old(self)@[0]) && final(self)@
                == old(self)@.drop_first(),
            old(self)@.len() == 0 ==> r == Err::<u8, FifoError>(FifoError::Underrun) && final(self)@
                == old(self)@,
    {
        if self.len == 0 {
            Err(FifoError::Underrun)
        } else {
            let c: u8 = self.buf[self.read_ptr];
            self.read_ptr = (self.read_ptr + 1) % FIFO_LEN;
            self.len -= 1;
            assert(final(self)@ =~= old(self)@.drop_first());
            Ok(c)
        }
    }

    /// Forgets every queued character.
    pub fn clear(&mut self)
        ensures
            final(self).wf(),
            final(self)@ == Seq::<u8>::empty(),
    {
        self.read_ptr = 0;
        self.write_ptr = 0;
        self.len = 0;
        assert(final(self)@ =~= Seq::<u8>::empty());
    }

    /// Whether nothing is queued.
    pub fn is_empty(&self) -> (r: bool)
        ensures
            r == (self@.len() == 0),
    {
        self.len == 0
    }

    /// Whether all three slots are taken.
    pub fn is_full(&self) -> (r: bool)
        ensures
            r == (self@.len() == 3),
    {
        self.len == FIFO_LEN
    }

    /// The number of queued characters.
    pub fn len(&self) -> (r: usize)
        ensures
            r == self@.len(),
    {
        self.len
    }
}

} // verus!
