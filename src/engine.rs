use vstd::prelude::*;

use core::sync::atomic::AtomicBool;

use crate::channels::EngineChannels;
use crate::queue::out_capacity;
use crate::heartbeat::{gate_tick, sat_add, HeartbeatGate};
use crate::processing::{
    check_output_channel_for_clogs, process_input_messages, spec_evicts, spec_next_ticks,
    spec_replies, ClogMonitor, InboundReport,
};
use crate::types::ApiOutMsg;

verus! {

/// The engine's side of the bridge: its ends of the queues and the state
/// that the per-tick phases keep from one tick to the next.
pub struct Engine {
    pub channels: EngineChannels,
    pub monitor: ClogMonitor,
    pub gate: HeartbeatGate,
}

/// What one tick did.
pub struct TickReport {
    /// The early phase: the inbound messages handled and their replies.
    pub inbound: InboundReport,
    /// The late phase: the message evicted from a clogged outbound queue.
    pub evicted: Option<ApiOutMsg>,
    /// Whether the run loop goes on after this tick.
    pub keep_running: bool,
}

impl Engine {
    pub fn new(channels: EngineChannels, idle_timeout_ms: u64) -> (r: Engine)
        ensures
            r.wf(),
            r.monitor.full_ticks == 0,
            r.gate.idle_ms == 0,
            r.gate.timeout_ms == idle_timeout_ms,
    {
        Engine { channels, monitor: ClogMonitor::new(), gate: HeartbeatGate::new(idle_timeout_ms) }
    }

    pub open spec fn wf(&self) -> bool {
        self.monitor.wf()
    }

    /// Runs one tick: the inbound messages first, then the clog monitor, then
    /// the liveness gate, for a tick of `elapsed_ms` milliseconds.
    pub fn tick(&mut self, flag: &AtomicBool, elapsed_ms: u64) -> (r: TickReport)
        requires
            old(self).wf(),
        ensures
            final(self).wf(),
            r.inbound.replies@ == spec_replies(r.inbound.received@),
            r.inbound.delivered@.len() == r.inbound.replies@.len(),
            exists|f: bool|
                final(self).monitor.full_ticks == spec_next_ticks(
                    old(self).monitor.full_ticks,
                    out_capacity(old(self).channels.maintenance.receiver),
                    f,
                ) && (r.evicted is Some ==> spec_evicts(
                    old(self).monitor.full_ticks,
                    out_capacity(old(self).channels.maintenance.receiver),
                    f,
                )),
            final(self).channels == old(self).channels,
            final(self).gate.timeout_ms == old(self).gate.timeout_ms,
            final(self).gate.idle_ms == 0 || final(self).gate.idle_ms == sat_add(old(self).gate.idle_ms, elapsed_ms),
            r.keep_running == final(self).gate.alive(),
    {
        let inbound = process_input_messages(&self.channels.input, &self.channels.output);
        let evicted = check_output_channel_for_clogs(&self.channels.maintenance, &mut self.monitor);
        let keep_running = gate_tick(&mut self.gate, flag, elapsed_ms);
        TickReport { inbound, evicted, keep_running }
    }
}

} // verus!
