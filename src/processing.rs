use vstd::prelude::*;

use crate::channels::{ApiInputChannel, ApiOutputChannel, ApiOutputChannelMaintenance};
use crate::queue::{is_full, out_bound_of, out_capacity, queued, try_recv, try_send};
use crate::types::{ApiInMsg, ApiOutMsg};

verus! {

/// Number of consecutive full ticks that the outbound queue may stay full
/// before the oldest message is evicted.
pub const MAX_FULL_TICKS_FOR_MAINTENANCE: usize = 10;

/// The message the engine answers an inbound message with.
pub open spec fn spec_reply(m: ApiInMsg) -> ApiOutMsg {
    match m {
        ApiInMsg::Ping => ApiOutMsg::Pong,
    }
}

/// The replies to a batch of inbound messages, in the order of the batch.
pub open spec fn spec_replies(msgs: Seq<ApiInMsg>) -> Seq<ApiOutMsg> {
    msgs.map_values(|m: ApiInMsg| spec_reply(m))
}

/// Dispatches one inbound message to its reply.
pub fn reply_to(m: ApiInMsg) -> (r: ApiOutMsg)
    ensures
        r == spec_reply(m),
{
    match m {
        ApiInMsg::Ping => ApiOutMsg::Pong,
    }
}

/// The replies to a batch of inbound messages, in the order of the batch.
pub fn replies_for(msgs: &Vec<ApiInMsg>) -> (r: Vec<ApiOutMsg>)
    ensures
        r@ == spec_replies(msgs@),
{
    let mut out: Vec<ApiOutMsg> = Vec::new();
    let mut i: usize = 0;
    while i < msgs.len()
        invariant
            i <= msgs.len(),
            out@ == spec_replies(msgs@.subrange(0, i as int)),
        decreases msgs.len() - i,
    {
        out.push(reply_to(msgs[i]));
        proof {
            assert(msgs@.subrange(0, i + 1) == msgs@.subrange(0, i as int).push(msgs@[i as int]));
        }
        i = i + 1;
    }
    proof {
        assert(msgs@.subrange(0, msgs@.len() as int) == msgs@);
    }
    out
}

/// Replies to a batch split in two are the replies to the first part
/// followed by the replies to the second: splitting the inbound stream over
/// ticks keeps every acknowledgment, and keeps them in the order of their
/// probes.
pub proof fn lemma_replies_concat(a: Seq<ApiInMsg>, b: Seq<ApiInMsg>)
    ensures
        spec_replies(a + b) == spec_replies(a) + spec_replies(b),
        spec_replies(a + b).len() == a.len() + b.len(),
{
    assert(spec_replies(a + b) =~= spec_replies(a) + spec_replies(b));
}

/// Every one of N probes is answered by one acknowledgment, in order: the
/// replies to N probes are exactly N `Pong`s.
pub proof fn lemma_probes_answered(msgs: Seq<ApiInMsg>)
    requires
        forall|i: int| 0 <= i < msgs.len() ==> msgs[i] == ApiInMsg::Ping,
    ensures
        spec_replies(msgs).len() == msgs.len(),
        forall|i: int| 0 <= i < msgs.len() ==> spec_replies(msgs)[i] == ApiOutMsg::Pong,
{
}

/// What one run of the inbound processor did.
pub struct InboundReport {
    /// The messages taken from the inbound queue, oldest first.
    pub received: Vec<ApiInMsg>,
    /// The replies, in the order they were offered to the outbound queue.
    pub replies: Vec<ApiOutMsg>,
    /// For each reply, whether the outbound queue accepted it.
    pub delivered: Vec<bool>,
}

/// Takes every message queued on the inbound queue when the call starts,
/// oldest first, and offers the reply to each to the outbound queue without
/// blocking. A reply the outbound queue refuses is dropped; the remaining
/// messages are still answered.
pub fn process_input_messages(input: &ApiInputChannel, output: &ApiOutputChannel) -> (r: InboundReport)
    ensures
        r.replies@ == spec_replies(r.received@),
        r.delivered@.len() == r.replies@.len(),
{
    let pending = queued(&input.receiver);
    let mut received: Vec<ApiInMsg> = Vec::new();
    let mut i: usize = 0;
    while i < pending
        invariant
            i <= pending,
            received@.len() <= i,
        decreases pending - i,
    {
        match try_recv(&input.receiver) {
            Some(m) => received.push(m),
            None => break,
        }
        i = i + 1;
    }
    let replies = replies_for(&received);
    let mut delivered: Vec<bool> = Vec::new();
    let mut j: usize = 0;
    while j < replies.len()
        invariant
            j <= replies.len(),
            delivered@.len() == j,
        decreases replies.len() - j,
    {
        let ok = try_send(&output.sender, replies[j]).is_ok();
        delivered.push(ok);
        j = j + 1;
    }
    InboundReport { received, replies, delivered }
}

/// Whether an observation of the outbound queue counts as full: queues of
/// capacity zero, and unbounded ones, are never monitored.
pub open spec fn counts_as_full(capacity: Option<usize>, full: bool) -> bool {
    full && match capacity {
        Some(c) => c > 0,
        None => false,
    }
}

/// Whether a tick that starts with `ticks` consecutive full ticks and makes
/// the given observation evicts a message.
pub open spec fn spec_evicts(ticks: usize, capacity: Option<usize>, full: bool) -> bool {
    counts_as_full(capacity, full) && ticks + 1 > MAX_FULL_TICKS_FOR_MAINTENANCE
}

/// The count of consecutive full ticks after a tick: it grows by one on a
/// full tick, falls back to zero on any other tick, and starts over after an
/// eviction.
pub open spec fn spec_next_ticks(ticks: usize, capacity: Option<usize>, full: bool) -> usize {
    if !counts_as_full(capacity, full) || spec_evicts(ticks, capacity, full) {
        0
    } else {
        (ticks + 1) as usize
    }
}

/// The per-process state of the outbound clog monitor.
pub struct ClogMonitor {
    /// Consecutive ticks on which the outbound queue was seen full.
    pub full_ticks: usize,
}

impl ClogMonitor {
    pub fn new() -> (r: ClogMonitor)
        ensures
            r.full_ticks == 0,
            r.wf(),
    {
        ClogMonitor { full_ticks: 0 }
    }

    /// The count never passes the threshold: the tick that would pass it
    /// evicts and starts over.
    pub open spec fn wf(&self) -> bool {
        self.full_ticks <= MAX_FULL_TICKS_FOR_MAINTENANCE
    }

    /// Records one tick's observation of the outbound queue and says whether
    /// the oldest message must be evicted.
    pub fn observe(&mut self, capacity: Option<usize>, full: bool) -> (evict: bool)
        requires
            old(self).wf(),
        ensures
            final(self).wf(),
            evict == spec_evicts(old(self).full_ticks, capacity, full),
            final(self).full_ticks == spec_next_ticks(old(self).full_ticks, capacity, full),
    {
        let counted = match capacity {
            Some(c) => full && c > 0,
            None => false,
        };
        if !counted {
            self.full_ticks = 0;
            return false;
        }
        let ticks = self.full_ticks + 1;
        if ticks > MAX_FULL_TICKS_FOR_MAINTENANCE {
            self.full_ticks = 0;
            true
        } else {
            self.full_ticks = ticks;
            false
        }
    }
}

/// Looks at the outbound queue once, late in a tick, and evicts its oldest
/// message when it has been full for more than the threshold of consecutive
/// ticks. Returns the evicted message, if one was taken.
pub fn check_output_channel_for_clogs(
    out_channel: &ApiOutputChannelMaintenance,
    monitor: &mut ClogMonitor,
) -> (r: Option<ApiOutMsg>)
    requires
        old(monitor).wf(),
    ensures
        final(monitor).wf(),
        exists|f: bool|
            final(monitor).full_ticks == spec_next_ticks(
                old(monitor).full_ticks,
                out_capacity(out_channel.receiver),
                f,
            ) && (r is Some ==> spec_evicts(old(monitor).full_ticks, out_capacity(out_channel.receiver), f)),
{
    let capacity = out_bound_of(&out_channel.receiver);
    let full = is_full(&out_channel.receiver);
    let evict = monitor.observe(capacity, full);
    if evict {
        try_recv(&out_channel.receiver)
    } else {
        None
    }
}

/// The state of the monitor and the number of evictions after `n` ticks
/// that all see a queue of capacity `cap` full, starting from `ticks`: the
/// observations that `ClogMonitor::observe` makes on each of them.
pub open spec fn full_run(ticks: usize, cap: usize, n: nat) -> (usize, nat)
    decreases n,
{
    if n == 0 {
        (ticks, 0)
    } else {
        let evicted: nat = if spec_evicts(ticks, Some(cap), true) { 1 } else { 0 };
        let rest = full_run(spec_next_ticks(ticks, Some(cap), true), cap, (n - 1) as nat);
        (rest.0, rest.1 + evicted)
    }
}

/// Holding a bounded, nonzero-capacity queue full makes the monitor evict
/// exactly one message per crossing of the threshold: after `n` full ticks
/// from a fresh monitor there have been `n / 11` evictions, and the count
/// stands at `n % 11`.
pub proof fn lemma_one_eviction_per_crossing(cap: usize, n: nat)
    requires
        cap > 0,
    ensures
        full_run(0, cap, n).1 == n / (MAX_FULL_TICKS_FOR_MAINTENANCE as nat + 1),
        full_run(0, cap, n).0 as nat == n % (MAX_FULL_TICKS_FOR_MAINTENANCE as nat + 1),
{
    lemma_full_run_from(0, cap, n);
}

proof fn lemma_full_run_from(t: usize, cap: usize, n: nat)
    requires
        t <= MAX_FULL_TICKS_FOR_MAINTENANCE,
        cap > 0,
    ensures
        full_run(t, cap, n).1 == (t + n) / 11,
        full_run(t, cap, n).0 as nat == (t + n) % 11,
    decreases n,
{
    if n > 0 {
        let next = spec_next_ticks(t, Some(cap), true);
        lemma_full_run_from(next, cap, (n - 1) as nat);
        if t == 10 {
            assert(next == 0);
            assert((t + n) / 11 == (n - 1) / 11 + 1) by (nonlinear_arith)
                requires t == 10, n > 0;
            assert((t + n) % 11 == (n - 1) % 11) by (nonlinear_arith)
                requires t == 10, n > 0;
        } else {
            assert(next == t + 1);
        }
    }
}

} // verus!
