//! The receive FIFO's storage: a ring buffer of the `ringbuffer` crate,
//! made with four slots because the crate asks for a power of two. The
//! items here say what the crate's code does; Verus takes them on trust.

use ringbuffer::{ConstGenericRingBuffer, RingBuffer, RingBufferExt, RingBufferRead, RingBufferWrite};
use vstd::prelude::*;

verus! {

#[verifier::external_type_specification]
#[verifier::external_body]
#[verifier::reject_recursive_types(T)]
pub struct ExConstGenericRingBuffer<T, const CAP: usize>(ConstGenericRingBuffer<T, CAP>);

/// The characters that a buffer holds, oldest first.
pub uninterp spec fn ring_items(rb: ConstGenericRingBuffer<u8, 4>) -> Seq<u8>;

/// The buffer's write position: the number of pushes since it was made
/// or last cleared. The crate keeps it in a `usize` and adds one on
/// each push.
pub uninterp spec fn ring_written(rb: ConstGenericRingBuffer<u8, 4>) -> nat;

/// `ConstGenericRingBuffer::new`: an empty buffer with both positions at
/// zero. (It panics unless the capacity is a power of two; four is.)
#[verifier::external_body]
pub(crate) fn ring_new() -> (rb: ConstGenericRingBuffer<u8, 4>)
    ensures
        ring_items(rb) == Seq::<u8>::empty(),
        ring_written(rb) == 0,
{
    ConstGenericRingBuffer::<u8, 4>::new()
}

/// `RingBuffer::len`: the write position minus the read position, which
/// is the number of characters held.
#[verifier::external_body]
pub(crate) fn ring_len(rb: &ConstGenericRingBuffer<u8, 4>) -> (n: usize)
    ensures
        n == ring_items(*rb).len(),
{
    rb.len()
}

/// `RingBufferWrite::push`: appends `c`; a buffer that already holds four
/// characters drops its oldest one first. The write position grows by
/// one, so the call is kept away from a position that cannot grow.
#[verifier::external_body]
pub(crate) fn ring_push(rb: &mut ConstGenericRingBuffer<u8, 4>, c: u8)
    requires
        ring_written(*old(rb)) < usize::MAX,
    ensures
        ring_items(*final(rb)) == (if ring_items(*old(rb)).len() < 4 {
            ring_items(*old(rb)).push(c)
        } else {
            ring_items(*old(rb)).drop_first().push(c)
        }),
        ring_written(*final(rb)) == ring_written(*old(rb)) + 1,
{
    rb.push(c)
}

/// `RingBufferRead::dequeue`: takes the oldest character out, or returns
/// `None` and changes nothing when the buffer is empty. The write
/// position stays.
#[verifier::external_body]
pub(crate) fn ring_dequeue(rb: &mut ConstGenericRingBuffer<u8, 4>) -> (r: Option<u8>)
    ensures
        ring_written(*final(rb)) == ring_written(*old(rb)),
        ring_items(*old(rb)).len() == 0 ==> r == None::<u8> && ring_items(*final(rb)) == ring_items(
            *old(rb),
        ),
        ring_items(*old(rb)).len() > 0 ==> r == Some(ring_items(*old(rb))[0]) && ring_items(
            *final(rb),
        ) == ring_items(*old(rb)).drop_first(),
{
    rb.dequeue()
}

/// `RingBufferExt::clear`: drops every character and sets both
/// positions back to zero.
#[verifier::external_body]
pub(crate) fn ring_clear(rb: &mut ConstGenericRingBuffer<u8, 4>)
    ensures
        ring_items(*final(rb)) == Seq::<u8>::empty(),
        ring_written(*final(rb)) == 0,
{
    rb.clear()
}

} // verus!
