use vstd::prelude::*;

use crate::queue::{
    clone_in_sender, clone_out_receiver, fresh_contents, in_capacity, in_receiver_queue,
    in_sender_queue, make_in, make_out, out_capacity, out_receiver_queue, out_sender_queue,
    push_fresh, split_out, MAX_QUEUE_BOUND,
};
use crate::types::{ApiInMsg, ApiOutMsg};

verus! {

/// Capacity of the inbound queue when none is configured.
pub const DEFAULT_IN_CHANNEL_BOUND: usize = 100;

/// Capacity of the outbound queue when none is configured.
pub const DEFAULT_OUT_CHANNEL_BOUND: usize = 100;

/// Read access to the inbound queue: messages sent by the host to the engine.
pub struct ApiInputChannel {
    pub receiver: crossbeam_channel::Receiver<ApiInMsg>,
}

/// Write access to the outbound queue: messages sent by the engine to the host.
pub struct ApiOutputChannel {
    pub sender: crossbeam_channel::Sender<ApiOutMsg>,
}

/// Write access to the inbound queue from the engine's side, for test
/// harnesses that play the host. Never handed to production host code.
pub struct ApiInputChannelMock {
    pub sender: crossbeam_channel::Sender<ApiInMsg>,
}

/// Read access to the outbound queue from the engine's side, used only to
/// evict messages from a clogged queue.
pub struct ApiOutputChannelMaintenance {
    pub receiver: crossbeam_channel::Receiver<ApiOutMsg>,
}

/// The host's ends of the two queues: it writes the inbound one and reads the
/// outbound one.
pub struct HostChannels {
    pub in_sender: crossbeam_channel::Sender<ApiInMsg>,
    pub out_receiver: crossbeam_channel::Receiver<ApiOutMsg>,
}

/// The engine's ends of the two queues, created by one successful bind.
pub struct EngineChannels {
    pub input: ApiInputChannel,
    pub input_mock: ApiInputChannelMock,
    pub output: ApiOutputChannel,
    pub maintenance: ApiOutputChannelMaintenance,
    /// What the outbound queue held when its ends were handed out.
    pub outbound_at_bind: Ghost<Seq<ApiOutMsg>>,
}

impl EngineChannels {
    /// The engine's ends and the host's ends are the two ends of the same
    /// two queues, with the given capacities.
    pub open spec fn pairs_with(&self, host: HostChannels, in_cap: usize, out_cap: usize) -> bool {
        &&& in_receiver_queue(self.input.receiver) == in_sender_queue(host.in_sender)
        &&& in_sender_queue(self.input_mock.sender) == in_sender_queue(host.in_sender)
        &&& out_sender_queue(self.output.sender) == out_receiver_queue(host.out_receiver)
        &&& out_receiver_queue(self.maintenance.receiver) == out_receiver_queue(host.out_receiver)
        &&& in_capacity(self.input.receiver) == Some(in_cap)
        &&& out_capacity(self.maintenance.receiver) == Some(out_cap)
        &&& out_capacity(host.out_receiver) == Some(out_cap)
    }
}

/// Why binding the channels failed. Both are fatal initialization errors.
#[derive(Clone, Copy, Debug, PartialEq, Eq, Structural)]
pub enum BindError {
    /// The registry already holds a pair of queues.
    AlreadyBound,
    /// The engine-started notification could not be queued (for instance on
    /// an outbound queue of capacity zero).
    StartupRejected,
}

/// The registry of the pair of queues: empty until bound, bound at most once.
pub struct ChannelRegistry {
    pub host: Option<HostChannels>,
}

impl ChannelRegistry {
    /// An unbound registry.
    pub fn new() -> (r: ChannelRegistry)
        ensures
            !r.is_bound(),
    {
        ChannelRegistry { host: None }
    }

    pub open spec fn is_bound(&self) -> bool {
        self.host is Some
    }

    pub fn bound(&self) -> (r: bool)
        ensures
            r == self.is_bound(),
    {
        self.host.is_some()
    }
}

/// Configuration of the two queues' capacities; an unset capacity takes its
/// default.
#[derive(Clone, Copy, Debug, PartialEq, Eq, Structural)]
pub struct ApiChannelsPlugin {
    pub in_channel_bound: Option<usize>,
    pub out_channel_bound: Option<usize>,
}

/// The capacity that a configured bound gives.
pub open spec fn bound_or(b: Option<usize>, default: usize) -> usize {
    match b {
        Some(v) => v,
        None => default,
    }
}

impl Default for ApiChannelsPlugin {
    fn default() -> (r: ApiChannelsPlugin)
        ensures
            r.in_channel_bound is None,
            r.out_channel_bound is None,
    {
        ApiChannelsPlugin { in_channel_bound: None, out_channel_bound: None }
    }
}

impl ApiChannelsPlugin {
    pub fn with_bounds(in_bound: Option<usize>, out_bound: Option<usize>) -> (r: ApiChannelsPlugin)
        ensures
            r.in_channel_bound == in_bound,
            r.out_channel_bound == out_bound,
    {
        ApiChannelsPlugin { in_channel_bound: in_bound, out_channel_bound: out_bound }
    }

    pub fn with_bounds_tuple(bounds: Option<(usize, usize)>) -> (r: ApiChannelsPlugin)
        ensures
            r.in_channel_bound == (match bounds {
                Some(b) => Some(b.0),
                None => None::<usize>,
            }),
            r.out_channel_bound == (match bounds {
                Some(b) => Some(b.1),
                None => None::<usize>,
            }),
    {
        match bounds {
            Some(b) => ApiChannelsPlugin { in_channel_bound: Some(b.0), out_channel_bound: Some(b.1) },
            None => ApiChannelsPlugin { in_channel_bound: None, out_channel_bound: None },
        }
    }

    pub open spec fn spec_in_bound(&self) -> usize {
        bound_or(self.in_channel_bound, DEFAULT_IN_CHANNEL_BOUND)
    }

    pub open spec fn spec_out_bound(&self) -> usize {
        bound_or(self.out_channel_bound, DEFAULT_OUT_CHANNEL_BOUND)
    }

    /// The capacity the inbound queue is created with.
    pub fn in_bound(&self) -> (r: usize)
        ensures
            r == self.spec_in_bound(),
    {
        match self.in_channel_bound {
            Some(v) => v,
            None => DEFAULT_IN_CHANNEL_BOUND,
        }
    }

    /// The capacity the outbound queue is created with.
    pub fn out_bound(&self) -> (r: usize)
        ensures
            r == self.spec_out_bound(),
    {
        match self.out_channel_bound {
            Some(v) => v,
            None => DEFAULT_OUT_CHANNEL_BOUND,
        }
    }

    /// Whether both capacities can be created.
    pub open spec fn valid(&self) -> bool {
        self.spec_in_bound() <= MAX_QUEUE_BOUND && self.spec_out_bound() <= MAX_QUEUE_BOUND
    }

    /// Creates both queues, queues the engine-started notification on the
    /// outbound one, and records the host's ends in the registry.
    ///
    /// On an unbound registry this succeeds whenever the outbound capacity
    /// is above zero: the queues get the configured capacities, the engine's
    /// and the host's ends are the ends of the same two queues, and the
    /// outbound queue holds the engine-started notification and nothing
    /// else. A registry that is already bound is left as it is. An outbound
    /// queue of capacity zero cannot take the notification, so binding fails
    /// and the registry stays unbound.
    pub fn bind(&self, registry: &mut ChannelRegistry) -> (r: Result<EngineChannels, BindError>)
        requires
            self.valid(),
        ensures
            old(registry).is_bound() ==> r == Err::<EngineChannels, BindError>(BindError::AlreadyBound),
            !old(registry).is_bound() && self.spec_out_bound() == 0 ==> r == Err::<EngineChannels, BindError>(BindError::StartupRejected),
            !old(registry).is_bound() && self.spec_out_bound() > 0 ==> r is Ok,
            r is Err ==> final(registry).host == old(registry).host,
            r matches Ok(ch) ==> {
                &&& final(registry).host matches Some(host)
                &&& ch.pairs_with(host, self.spec_in_bound(), self.spec_out_bound())
                &&& ch.outbound_at_bind@ == seq![ApiOutMsg::CraniumStarted]
            },
    {
        if registry.bound() {
            return Err(BindError::AlreadyBound);
        }
        let in_bound = self.in_bound();
        let out_bound = self.out_bound();
        let (in_snd, in_rcv) = make_in(in_bound);
        let fresh = make_out(out_bound);
        let fresh = match push_fresh(fresh, ApiOutMsg::CraniumStarted) {
            Ok(q) => q,
            Err(_) => {
                return Err(BindError::StartupRejected);
            },
        };
        let outbound_at_bind = Ghost(fresh_contents(fresh));
        proof {
            assert(outbound_at_bind@ =~= seq![ApiOutMsg::CraniumStarted]);
        }
        let (out_snd, out_rcv) = split_out(fresh);
        let host = HostChannels { in_sender: clone_in_sender(&in_snd), out_receiver: clone_out_receiver(&out_rcv) };
        registry.host = Some(host);
        Ok(EngineChannels {
            input: ApiInputChannel { receiver: in_rcv },
            input_mock: ApiInputChannelMock { sender: in_snd },
            output: ApiOutputChannel { sender: out_snd },
            maintenance: ApiOutputChannelMaintenance { receiver: out_rcv },
            outbound_at_bind,
        })
    }
}

} // verus!
