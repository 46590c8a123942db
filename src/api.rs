use vstd::prelude::*;

use crate::channels::ChannelRegistry;
use crate::queue::{recv_blocking, recv_timeout_ms, try_send};
use crate::types::{ApiInMsg, ApiOutMsg};

verus! {

/// How long `try_get_message` waits for a message, in milliseconds.
pub const TRY_GET_TIMEOUT_MS: u64 = 1000;

/// Blocks until the engine sends a message and returns it. Returns nothing at
/// once when the registry is unbound, and nothing once the engine is gone.
pub fn await_message(registry: &ChannelRegistry) -> (r: Option<ApiOutMsg>)
    ensures
        !registry.is_bound() ==> r is None,
{
    match &registry.host {
        Some(host) => recv_blocking(&host.out_receiver),
        None => None,
    }
}

/// Waits up to one second for a message from the engine. Returns nothing at
/// once when the registry is unbound, and nothing after the second has passed
/// with the outbound queue empty.
pub fn try_get_message(registry: &ChannelRegistry) -> (r: Option<ApiOutMsg>)
    ensures
        !registry.is_bound() ==> r is None,
{
    match &registry.host {
        Some(host) => recv_timeout_ms(&host.out_receiver, TRY_GET_TIMEOUT_MS),
        None => None,
    }
}

/// Offers a liveness probe to the engine without blocking. Returns whether
/// the inbound queue took it: never on an unbound registry, and not when the
/// queue is full, in which case the messages already queued are untouched.
pub fn write_ping(registry: &ChannelRegistry) -> (r: bool)
    ensures
        !registry.is_bound() ==> !r,
{
    match &registry.host {
        Some(host) => try_send(&host.in_sender, ApiInMsg::Ping).is_ok(),
        None => false,
    }
}

} // verus!
