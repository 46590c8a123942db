use std::sync::atomic::AtomicBool;
use std::time::{Duration, Instant};

use cranium_api::channels::{DEFAULT_IN_CHANNEL_BOUND, DEFAULT_OUT_CHANNEL_BOUND};
use cranium_api::heartbeat::{millis_of_text, millis_setting, tick_interval_ms, DEFAULT_TICK_INTERVAL_MS};
use cranium_api::processing::{reply_to, replies_for, MAX_FULL_TICKS_FOR_MAINTENANCE};
use cranium_api::{
    await_message, check_output_channel_for_clogs, gate_tick, process_input_messages,
    request_heartbeat, take_heartbeat, try_get_message, write_ping, ApiChannelsPlugin, ApiInMsg,
    ApiOutMsg, BindError, ChannelRegistry, ClogMonitor, Engine, FFIOption, HeartbeatGate,
};

fn bound(in_bound: usize, out_bound: usize) -> (ChannelRegistry, Engine) {
    let mut registry = ChannelRegistry::new();
    let channels = ApiChannelsPlugin::with_bounds(Some(in_bound), Some(out_bound))
        .bind(&mut registry)
        .expect("fresh registry binds");
    (registry, Engine::new(channels, 10_000))
}

#[test]
fn bind_twice_fails() {
    let mut registry = ChannelRegistry::new();
    assert!(!registry.bound());
    let plugin = ApiChannelsPlugin::default();
    assert!(plugin.bind(&mut registry).is_ok());
    assert!(registry.bound());
    assert!(matches!(plugin.bind(&mut registry), Err(BindError::AlreadyBound)));
    assert!(registry.bound());
}

#[test]
fn startup_notification_comes_first() {
    let (registry, _engine) = bound(4, 4);
    assert!(write_ping(&registry));
    assert_eq!(try_get_message(&registry), Some(ApiOutMsg::CraniumStarted));
}

#[test]
fn await_message_returns_startup_notification() {
    let (registry, _engine) = bound(4, 4);
    assert_eq!(await_message(&registry), Some(ApiOutMsg::CraniumStarted));
}

#[test]
fn zero_outbound_capacity_is_rejected() {
    let mut registry = ChannelRegistry::new();
    let r = ApiChannelsPlugin::with_bounds(None, Some(0)).bind(&mut registry);
    assert!(matches!(r, Err(BindError::StartupRejected)));
    assert!(!registry.bound());
}

#[test]
fn unbound_registry_gives_nothing() {
    let registry = ChannelRegistry::new();
    assert!(!write_ping(&registry));
    assert_eq!(await_message(&registry), None);
    assert_eq!(try_get_message(&registry), None);
}

#[test]
fn n_probes_give_n_acknowledgments_in_order() {
    let (registry, mut engine) = bound(100, 100);
    let flag = AtomicBool::new(false);
    let n = 7;
    for _ in 0..n {
        assert!(write_ping(&registry));
    }
    let report = engine.tick(&flag, 200);
    assert_eq!(report.inbound.received.len(), n);
    assert_eq!(report.inbound.replies, vec![ApiOutMsg::Pong; n]);
    assert_eq!(report.inbound.delivered, vec![true; n]);
    assert_eq!(try_get_message(&registry), Some(ApiOutMsg::CraniumStarted));
    for _ in 0..n {
        assert_eq!(try_get_message(&registry), Some(ApiOutMsg::Pong));
    }
    assert!(report.evicted.is_none());
}

#[test]
fn probes_split_over_ticks_are_all_answered() {
    let (registry, mut engine) = bound(100, 100);
    let flag = AtomicBool::new(false);
    assert!(write_ping(&registry));
    assert!(write_ping(&registry));
    let first = engine.tick(&flag, 200);
    assert!(write_ping(&registry));
    let second = engine.tick(&flag, 200);
    assert_eq!(first.inbound.replies.len() + second.inbound.replies.len(), 3);
    let mut got = Vec::new();
    for _ in 0..4 {
        got.push(try_get_message(&registry).expect("message queued"));
    }
    assert_eq!(
        got,
        vec![ApiOutMsg::CraniumStarted, ApiOutMsg::Pong, ApiOutMsg::Pong, ApiOutMsg::Pong]
    );
}

#[test]
fn option_round_trip() {
    for v in [Some(ApiOutMsg::CraniumStarted), Some(ApiOutMsg::Pong), None] {
        let w: FFIOption<ApiOutMsg> = v.into();
        assert_eq!(w.is_some(), v.is_some());
        assert_eq!(w.is_none(), v.is_none());
        let back: Option<ApiOutMsg> = w.into();
        assert_eq!(back, v);
    }
    assert_eq!(format!("{:?}", FFIOption::Present(ApiOutMsg::Pong)), "Present(Pong)");
    let w = FFIOption::Present(ApiInMsg::Ping);
    assert!(w.is_some());
    assert_eq!(w.into_option(), Some(ApiInMsg::Ping));
    let a: FFIOption<u32> = FFIOption::from_option(None);
    assert!(a.is_none());
    assert!(matches!(FFIOption::from_option(Some(5u32)), FFIOption::Present(5)));
}

#[test]
fn clogged_outbound_queue_loses_exactly_one_per_crossing() {
    let (registry, mut engine) = bound(10, 2);
    let flag = AtomicBool::new(false);
    assert!(write_ping(&registry));
    engine.tick(&flag, 0);
    // The outbound queue now holds the startup notification and one Pong.
    for _ in 1..MAX_FULL_TICKS_FOR_MAINTENANCE {
        let r = engine.tick(&flag, 0);
        assert!(r.evicted.is_none());
    }
    assert_eq!(engine.monitor.full_ticks, MAX_FULL_TICKS_FOR_MAINTENANCE);
    let r = engine.tick(&flag, 0);
    assert_eq!(r.evicted, Some(ApiOutMsg::CraniumStarted));
    assert_eq!(engine.monitor.full_ticks, 0);
    assert_eq!(try_get_message(&registry), Some(ApiOutMsg::Pong));
    assert_eq!(engine.channels.maintenance.receiver.len(), 0);
}

#[test]
fn clog_monitor_counts_consecutive_full_ticks() {
    let mut m = ClogMonitor::new();
    for _ in 0..5 {
        assert!(!m.observe(Some(3), true));
    }
    assert_eq!(m.full_ticks, 5);
    assert!(!m.observe(Some(3), false));
    assert_eq!(m.full_ticks, 0);
    let mut evictions = 0;
    for _ in 0..33 {
        if m.observe(Some(3), true) {
            evictions += 1;
        }
    }
    assert_eq!(evictions, 3);
    assert_eq!(m.full_ticks, 0);
}

#[test]
fn clog_monitor_ignores_zero_and_unbounded_queues() {
    let mut m = ClogMonitor::new();
    for _ in 0..30 {
        assert!(!m.observe(Some(0), true));
        assert!(!m.observe(None, true));
    }
    assert_eq!(m.full_ticks, 0);
}

#[test]
fn check_for_clogs_leaves_a_free_queue_alone() {
    let (_registry, engine) = bound(4, 4);
    let mut m = ClogMonitor::new();
    for _ in 0..20 {
        assert_eq!(check_output_channel_for_clogs(&engine.channels.maintenance, &mut m), None);
    }
    assert_eq!(engine.channels.maintenance.receiver.len(), 1);
}

#[test]
fn timed_receive_on_empty_queue_waits_a_second() {
    let (registry, _engine) = bound(4, 4);
    assert_eq!(try_get_message(&registry), Some(ApiOutMsg::CraniumStarted));
    let start = Instant::now();
    assert_eq!(try_get_message(&registry), None);
    assert!(start.elapsed() >= Duration::from_millis(990));
}

#[test]
fn full_inbound_queue_refuses_at_once() {
    let (registry, engine) = bound(2, 10);
    assert!(write_ping(&registry));
    assert!(write_ping(&registry));
    let start = Instant::now();
    assert!(!write_ping(&registry));
    assert!(start.elapsed() < Duration::from_millis(500));
    assert_eq!(engine.channels.input.receiver.len(), 2);
    let report = process_input_messages(&engine.channels.input, &engine.channels.output);
    assert_eq!(report.received, vec![ApiInMsg::Ping, ApiInMsg::Ping]);
}

#[test]
fn refused_replies_do_not_stop_processing() {
    let (registry, engine) = bound(5, 2);
    for _ in 0..3 {
        assert!(write_ping(&registry));
    }
    let report = process_input_messages(&engine.channels.input, &engine.channels.output);
    assert_eq!(report.received.len(), 3);
    assert_eq!(report.delivered, vec![true, false, false]);
}

#[test]
fn silence_past_the_timeout_stops_the_loop() {
    let mut gate = HeartbeatGate::new(1000);
    assert!(gate.on_tick(false, 200));
    assert!(gate.on_tick(false, 800));
    assert_eq!(gate.idle_ms, 1000);
    assert!(!gate.on_tick(false, 200));
}

#[test]
fn heartbeat_resets_the_idle_time() {
    let flag = AtomicBool::new(false);
    let mut gate = HeartbeatGate::new(500);
    assert!(gate_tick(&mut gate, &flag, 400));
    request_heartbeat(&flag);
    request_heartbeat(&flag);
    assert!(gate_tick(&mut gate, &flag, 400));
    assert_eq!(gate.idle_ms, 0);
    assert!(gate_tick(&mut gate, &flag, 400));
    assert_eq!(gate.idle_ms, 400);
    assert!(!gate_tick(&mut gate, &flag, 400));
    assert!(!take_heartbeat(&flag));
    request_heartbeat(&flag);
    assert!(take_heartbeat(&flag));
    assert!(!take_heartbeat(&flag));
}

#[test]
fn idle_time_saturates() {
    let mut gate = HeartbeatGate::new(u64::MAX - 1);
    assert!(gate.on_tick(false, u64::MAX - 1));
    assert!(!gate.on_tick(false, 5));
    assert_eq!(gate.idle_ms, u64::MAX);
}

#[test]
fn engine_stops_without_heartbeats() {
    let mut registry = ChannelRegistry::new();
    let channels = ApiChannelsPlugin::default().bind(&mut registry).unwrap();
    let mut engine = Engine::new(channels, 450);
    let flag = AtomicBool::new(false);
    assert!(engine.tick(&flag, 200).keep_running);
    assert!(engine.tick(&flag, 200).keep_running);
    request_heartbeat(&flag);
    assert!(engine.tick(&flag, 200).keep_running);
    assert_eq!(engine.gate.idle_ms, 0);
    assert!(engine.tick(&flag, 200).keep_running);
    assert!(engine.tick(&flag, 200).keep_running);
    assert!(!engine.tick(&flag, 200).keep_running);
}

#[test]
fn plugin_bounds() {
    let d = ApiChannelsPlugin::default();
    assert_eq!(d.in_bound(), DEFAULT_IN_CHANNEL_BOUND);
    assert_eq!(d.out_bound(), DEFAULT_OUT_CHANNEL_BOUND);
    assert_eq!(DEFAULT_IN_CHANNEL_BOUND, 100);
    let p = ApiChannelsPlugin::with_bounds_tuple(Some((3, 9)));
    assert_eq!(p.in_channel_bound, Some(3));
    assert_eq!(p.out_channel_bound, Some(9));
    assert_eq!(p.in_bound(), 3);
    assert_eq!(p.out_bound(), 9);
    assert_eq!(ApiChannelsPlugin::with_bounds_tuple(None), ApiChannelsPlugin::default());
    let q = ApiChannelsPlugin::with_bounds(None, Some(7));
    assert_eq!(q.in_bound(), 100);
    assert_eq!(q.out_bound(), 7);
}

#[test]
fn bound_queues_have_configured_capacity() {
    let mut registry = ChannelRegistry::new();
    let channels = ApiChannelsPlugin::with_bounds(Some(3), None).bind(&mut registry).unwrap();
    assert_eq!(channels.input.receiver.capacity(), Some(3));
    assert_eq!(channels.maintenance.receiver.capacity(), Some(100));
}

#[test]
fn dispatch_answers_ping_with_pong() {
    assert_eq!(reply_to(ApiInMsg::Ping), ApiOutMsg::Pong);
    assert_eq!(replies_for(&vec![ApiInMsg::Ping; 3]), vec![ApiOutMsg::Pong; 3]);
    assert_eq!(replies_for(&vec![]), vec![]);
}

#[test]
fn tick_interval_default() {
    assert_eq!(tick_interval_ms(None), 200);
    assert_eq!(DEFAULT_TICK_INTERVAL_MS, 200);
    assert_eq!(tick_interval_ms(Some(50)), 50);
}

#[test]
fn millis_settings_parse_or_default() {
    assert_eq!(millis_of_text("250", DEFAULT_TICK_INTERVAL_MS), 250);
    assert_eq!(millis_of_text("+7", DEFAULT_TICK_INTERVAL_MS), 7);
    assert_eq!(millis_of_text("abc", DEFAULT_TICK_INTERVAL_MS), 200);
    assert_eq!(millis_of_text("", DEFAULT_TICK_INTERVAL_MS), 200);
    assert_eq!(millis_of_text("+", DEFAULT_TICK_INTERVAL_MS), 200);
    assert_eq!(millis_of_text("-5", DEFAULT_TICK_INTERVAL_MS), 200);
    assert_eq!(millis_of_text("18446744073709551615", 1), u64::MAX);
    assert_eq!(millis_of_text("18446744073709551616", 1), 1);
    assert_eq!(millis_setting(Some("  300 \n"), DEFAULT_TICK_INTERVAL_MS), 300);
    assert_eq!(millis_setting(Some(" 1 2 "), 9), 9);
    assert_eq!(millis_setting(None, DEFAULT_TICK_INTERVAL_MS), 200);
}

#[test]
fn default_bind_gives_paired_queues_of_one_hundred() {
    let mut registry = ChannelRegistry::new();
    let channels = ApiChannelsPlugin::default().bind(&mut registry).unwrap();
    assert_eq!(channels.input.receiver.capacity(), Some(100));
    assert_eq!(channels.maintenance.receiver.capacity(), Some(100));
    assert_eq!(channels.maintenance.receiver.len(), 1);
    assert_eq!(channels.input.receiver.len(), 0);
    let host = registry.host.as_ref().unwrap();
    assert_eq!(host.out_receiver.capacity(), Some(100));
    assert!(channels.input_mock.sender.try_send(ApiInMsg::Ping).is_ok());
    assert!(host.in_sender.try_send(ApiInMsg::Ping).is_ok());
    assert_eq!(channels.input.receiver.len(), 2);
    assert!(channels.output.sender.try_send(ApiOutMsg::Pong).is_ok());
    assert_eq!(await_message(&registry), Some(ApiOutMsg::CraniumStarted));
    assert_eq!(await_message(&registry), Some(ApiOutMsg::Pong));
}

#[test]
fn settings_are_trimmed_of_unicode_white_space() {
    assert_eq!(millis_setting(Some("\u{3000}42\u{85}\t"), 1), 42);
    assert_eq!(millis_setting(Some("\u{2003}\u{a0}7\u{202f}"), 1), 7);
    assert_eq!(millis_setting(Some("\u{200b}7"), 1), 1);
    assert_eq!(millis_setting(Some("   "), 1), 1);
}
