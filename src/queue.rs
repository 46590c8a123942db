use vstd::prelude::*;

use crate::types::{ApiInMsg, ApiOutMsg};

verus! {

#[verifier::external_type_specification]
#[verifier::external_body]
#[verifier::reject_recursive_types(T)]
pub struct ExSender<T>(crossbeam_channel::Sender<T>);

#[verifier::external_type_specification]
#[verifier::external_body]
#[verifier::reject_recursive_types(T)]
pub struct ExReceiver<T>(crossbeam_channel::Receiver<T>);

/// The largest capacity a queue is created with: crossbeam's `bounded`
/// panics when the capacity's next power of two cannot be doubled.
pub const MAX_QUEUE_BOUND: usize = 0x1000_0000;

/// Which queue an inbound sender feeds: equal for two handles of one queue.
pub uninterp spec fn in_sender_queue(s: crossbeam_channel::Sender<ApiInMsg>) -> int;

/// Which queue an inbound receiver reads.
pub uninterp spec fn in_receiver_queue(r: crossbeam_channel::Receiver<ApiInMsg>) -> int;

/// Which queue an outbound sender feeds.
pub uninterp spec fn out_sender_queue(s: crossbeam_channel::Sender<ApiOutMsg>) -> int;

/// Which queue an outbound receiver reads.
pub uninterp spec fn out_receiver_queue(r: crossbeam_channel::Receiver<ApiOutMsg>) -> int;

/// The bound an inbound queue was created with; it never changes.
pub uninterp spec fn in_capacity(r: crossbeam_channel::Receiver<ApiInMsg>) -> Option<usize>;

/// The bound an outbound queue was created with; it never changes.
pub uninterp spec fn out_capacity(r: crossbeam_channel::Receiver<ApiOutMsg>) -> Option<usize>;

/// A new outbound queue whose two ends are still held here alone, so that
/// nothing but the calls below can have touched it.
#[verifier::external_body]
pub struct FreshOut {
    sender: crossbeam_channel::Sender<ApiOutMsg>,
    receiver: crossbeam_channel::Receiver<ApiOutMsg>,
}

/// The bound a fresh outbound queue was created with.
pub uninterp spec fn fresh_capacity(q: FreshOut) -> usize;

/// The messages a fresh outbound queue holds, oldest first.
pub uninterp spec fn fresh_contents(q: FreshOut) -> Seq<ApiOutMsg>;

/// Relies on crossbeam_channel::bounded: a new, empty inbound queue of
/// capacity `cap` and its two ends. It panics only on capacities far above
/// `MAX_QUEUE_BOUND`.
#[verifier::external_body]
pub(crate) fn make_in(cap: usize) -> (r: (crossbeam_channel::Sender<ApiInMsg>, crossbeam_channel::Receiver<ApiInMsg>))
    requires
        cap <= MAX_QUEUE_BOUND,
    ensures
        in_sender_queue(r.0) == in_receiver_queue(r.1),
        in_capacity(r.1) == Some(cap),
{
    crossbeam_channel::bounded(cap)
}

/// Relies on crossbeam_channel::bounded: a new, empty outbound queue of
/// capacity `cap`.
#[verifier::external_body]
pub(crate) fn make_out(cap: usize) -> (r: FreshOut)
    requires
        cap <= MAX_QUEUE_BOUND,
    ensures
        fresh_capacity(r) == cap,
        fresh_contents(r) == Seq::<ApiOutMsg>::empty(),
{
    let (sender, receiver) = crossbeam_channel::bounded(cap);
    FreshOut { sender, receiver }
}

/// Relies on crossbeam_channel::Sender::try_send on a queue no other thread
/// holds: it takes the message exactly when the queue has room; a queue of
/// capacity zero has no receiver waiting, so it never does.
#[verifier::external_body]
pub(crate) fn push_fresh(q: FreshOut, msg: ApiOutMsg) -> (r: Result<FreshOut, FreshOut>)
    ensures
        r is Ok <==> fresh_contents(q).len() < fresh_capacity(q),
        r matches Ok(n) ==> fresh_contents(n) == fresh_contents(q).push(msg) && fresh_capacity(n)
            == fresh_capacity(q),
{
    match q.sender.try_send(msg) {
        Ok(()) => Ok(q),
        Err(_) => Err(q),
    }
}

/// Hands out the two ends of a fresh outbound queue.
#[verifier::external_body]
pub(crate) fn split_out(q: FreshOut) -> (r: (crossbeam_channel::Sender<ApiOutMsg>, crossbeam_channel::Receiver<ApiOutMsg>))
    ensures
        out_sender_queue(r.0) == out_receiver_queue(r.1),
        out_capacity(r.1) == Some(fresh_capacity(q)),
{
    (q.sender, q.receiver)
}

/// Relies on crossbeam_channel::Sender::clone: another handle to the same
/// queue.
#[verifier::external_body]
pub(crate) fn clone_in_sender(s: &crossbeam_channel::Sender<ApiInMsg>) -> (r: crossbeam_channel::Sender<ApiInMsg>)
    ensures
        in_sender_queue(r) == in_sender_queue(*s),
{
    s.clone()
}

/// Relies on crossbeam_channel::Receiver::clone: another handle to the same
/// queue, with the same bound.
#[verifier::external_body]
pub(crate) fn clone_out_receiver(r: &crossbeam_channel::Receiver<ApiOutMsg>) -> (c: crossbeam_channel::Receiver<ApiOutMsg>)
    ensures
        out_receiver_queue(c) == out_receiver_queue(*r),
        out_capacity(c) == out_capacity(*r),
{
    r.clone()
}

/// Relies on crossbeam_channel::Sender::try_send: enqueues without blocking,
/// and on failure (queue full or disconnected) hands the message back.
#[verifier::external_body]
pub(crate) fn try_send<T>(s: &crossbeam_channel::Sender<T>, msg: T) -> (r: Result<(), T>)
    ensures
        r matches Err(back) ==> back == msg,
{
    match s.try_send(msg) {
        Ok(()) => Ok(()),
        Err(e) => Err(e.into_inner()),
    }
}

/// Relies on crossbeam_channel::Receiver::try_recv: takes the oldest queued
/// message without blocking, or nothing when the queue is empty.
#[verifier::external_body]
pub(crate) fn try_recv<T>(r: &crossbeam_channel::Receiver<T>) -> Option<T> {
    r.try_recv().ok()
}

/// Relies on crossbeam_channel::Receiver::recv: blocks until a message
/// arrives, or gives nothing once every sender is gone.
#[verifier::external_body]
pub(crate) fn recv_blocking<T>(r: &crossbeam_channel::Receiver<T>) -> Option<T> {
    r.recv().ok()
}

/// Relies on crossbeam_channel::Receiver::recv_timeout: blocks for at most
/// `millis` milliseconds waiting for a message.
#[verifier::external_body]
pub(crate) fn recv_timeout_ms<T>(r: &crossbeam_channel::Receiver<T>, millis: u64) -> Option<T> {
    r.recv_timeout(core::time::Duration::from_millis(millis)).ok()
}

/// Relies on crossbeam_channel::Receiver::len: how many messages are queued
/// at the moment of the call.
#[verifier::external_body]
pub(crate) fn queued<T>(r: &crossbeam_channel::Receiver<T>) -> usize {
    r.len()
}

/// Relies on crossbeam_channel::Receiver::capacity: the bound the outbound
/// queue was created with.
#[verifier::external_body]
pub(crate) fn out_bound_of(r: &crossbeam_channel::Receiver<ApiOutMsg>) -> (c: Option<usize>)
    ensures
        c == out_capacity(*r),
{
    r.capacity()
}

/// Relies on crossbeam_channel::Receiver::is_full: whether the queue held as
/// many messages as its bound at the moment of the call.
#[verifier::external_body]
pub(crate) fn is_full<T>(r: &crossbeam_channel::Receiver<T>) -> bool {
    r.is_full()
}

} // verus!
