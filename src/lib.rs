pub mod api;
pub mod channels;
pub mod engine;
pub mod heartbeat;
pub mod processing;
mod queue;
pub mod types;

pub use api::{await_message, try_get_message, write_ping};
pub use channels::{
    ApiChannelsPlugin, ApiInputChannel, ApiInputChannelMock, ApiOutputChannel,
    ApiOutputChannelMaintenance, BindError, ChannelRegistry, EngineChannels, HostChannels,
};
pub use engine::{Engine, TickReport};
pub use heartbeat::{gate_tick, request_heartbeat, take_heartbeat, HeartbeatGate};
pub use processing::{check_output_channel_for_clogs, process_input_messages, ClogMonitor};
pub use queue::MAX_QUEUE_BOUND;
pub use types::{ApiInMsg, ApiOutMsg, FFIOption};
