//! Bounded first-in first-out queues, kept in crossbeam's `ArrayQueue` and
//! used by one owner at a time.

use crossbeam_queue::ArrayQueue;
use vstd::prelude::*;

verus! {

/// Declares the bounded queue type of the crossbeam_queue crate.
#[verifier::external_type_specification]
#[verifier::external_body]
#[verifier::reject_recursive_types(T)]
pub struct ExArrayQueue<T>(ArrayQueue<T>);

/// The largest capacity that this library makes a queue with.
pub const MAX_QUEUE_CAPACITY: usize = 0x1_0000;

/// The identifiers that a queue holds, oldest first.
pub uninterp spec fn id_items(queue: ArrayQueue<u64>) -> Seq<u64>;

/// The capacity that a queue of identifiers was made with.
pub uninterp spec fn id_limit(queue: ArrayQueue<u64>) -> nat;

/// The bytes that a queue holds, oldest first.
pub uninterp spec fn byte_items(queue: ArrayQueue<u8>) -> Seq<u8>;

/// The capacity that a queue of bytes was made with.
pub uninterp spec fn byte_limit(queue: ArrayQueue<u8>) -> nat;

/// `ArrayQueue::new`: an empty queue of capacity `cap`. The crate panics on
/// a capacity of zero, which the precondition leaves out with those that an
/// allocation may not take.
#[verifier::external_body]
pub(crate) fn id_queue_new(cap: usize) -> (queue: ArrayQueue<u64>)
    requires
        0 < cap <= MAX_QUEUE_CAPACITY,
    ensures
        id_items(queue) == Seq::<u64>::empty(),
        id_limit(queue) == cap,
{
    ArrayQueue::new(cap)
}

/// `ArrayQueue::push`: `id` goes to the back of the queue unless the queue
/// is full; whether it went in.
#[verifier::external_body]
pub(crate) fn id_queue_push(queue: &mut ArrayQueue<u64>, id: u64) -> (pushed: bool)
    ensures
        pushed == (id_items(*old(queue)).len() < id_limit(*old(queue))),
        id_items(*final(queue)) == if pushed {
            id_items(*old(queue)).push(id)
        } else {
            id_items(*old(queue))
        },
        id_limit(*final(queue)) == id_limit(*old(queue)),
{
    match queue.push(id) {
        Ok(()) => true,
        Err(_) => false,
    }
}

/// `ArrayQueue::pop`: the identifier at the front leaves the queue and is
/// returned; `None` when the queue is empty.
#[verifier::external_body]
pub(crate) fn id_queue_pop(queue: &mut ArrayQueue<u64>) -> (id: Option<u64>)
    ensures
        id == if id_items(*old(queue)).len() > 0 {
            Some(id_items(*old(queue))[0])
        } else {
            None
        },
        id_items(*final(queue)) == if id_items(*old(queue)).len() > 0 {
            id_items(*old(queue)).skip(1)
        } else {
            id_items(*old(queue))
        },
        id_limit(*final(queue)) == id_limit(*old(queue)),
{
    queue.pop().ok()
}

/// `ArrayQueue::len`: how many identifiers the queue holds.
#[verifier::external_body]
pub(crate) fn id_queue_len(queue: &ArrayQueue<u64>) -> (len: usize)
    ensures
        len == id_items(*queue).len(),
{
    queue.len()
}

/// `ArrayQueue::capacity`: the capacity that the queue was made with.
#[verifier::external_body]
pub(crate) fn id_queue_capacity(queue: &ArrayQueue<u64>) -> (cap: usize)
    ensures
        cap == id_limit(*queue),
{
    queue.capacity()
}

/// `ArrayQueue::new`: an empty queue of capacity `cap`. The crate panics on
/// a capacity of zero, which the precondition leaves out with those that an
/// allocation may not take.
#[verifier::external_body]
pub(crate) fn byte_queue_new(cap: usize) -> (queue: ArrayQueue<u8>)
    requires
        0 < cap <= MAX_QUEUE_CAPACITY,
    ensures
        byte_items(queue) == Seq::<u8>::empty(),
        byte_limit(queue) == cap,
{
    ArrayQueue::new(cap)
}

/// `ArrayQueue::push`: `byte` goes to the back of the queue unless the queue
/// is full; whether it went in.
#[verifier::external_body]
pub(crate) fn byte_queue_push(queue: &mut ArrayQueue<u8>, byte: u8) -> (pushed: bool)
    ensures
        pushed == (byte_items(*old(queue)).len() < byte_limit(*old(queue))),
        byte_items(*final(queue)) == if pushed {
            byte_items(*old(queue)).push(byte)
        } else {
            byte_items(*old(queue))
        },
        byte_limit(*final(queue)) == byte_limit(*old(queue)),
{
    match queue.push(byte) {
        Ok(()) => true,
        Err(_) => false,
    }
}

/// `ArrayQueue::pop`: the byte at the front leaves the queue and is
/// returned; `None` when the queue is empty.
#[verifier::external_body]
pub(crate) fn byte_queue_pop(queue: &mut ArrayQueue<u8>) -> (byte: Option<u8>)
    ensures
        byte == if byte_items(*old(queue)).len() > 0 {
            Some(byte_items(*old(queue))[0])
        } else {
            None
        },
        byte_items(*final(queue)) == if byte_items(*old(queue)).len() > 0 {
            byte_items(*old(queue)).skip(1)
        } else {
            byte_items(*old(queue))
        },
        byte_limit(*final(queue)) == byte_limit(*old(queue)),
{
    queue.pop().ok()
}

} // verus!
