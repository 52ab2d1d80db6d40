//! End-to-end scenarios over the bridge state machine: the handshake, the
//! command ordering, the lifecycle, and the containment barrier.

use shigure::bridge::{raise_event, Bridge, PluginLifecycleState};
use shigure::channel::ChannelSet;
use shigure::command::{Command, WorkerEvent};
use shigure::config::ConfigReads;
use shigure::events::{ErrorData, Event, EventRaiser};
use shigure::host_api::{RainmeterContext, RmLogLevel};
use shigure::shim::{shim_call, HostCall};

fn reads(url: &str, width: u32, height: u32, x: i32, y: i32) -> ConfigReads {
    ConfigReads {
        url: Some(url.to_string()),
        width: Some(width),
        height: Some(height),
        x: Some(x),
        y: Some(y),
    }
}

fn no_reads() -> ConfigReads {
    ConfigReads { url: None, width: None, height: None, x: None, y: None }
}

#[test]
fn handshake_is_delivered_exactly_once() {
    let mut channels = ChannelSet::new();
    channels.send_handshake(0x1234);
    assert_eq!(channels.poll_handshake(), Some(0x1234));
    assert_eq!(channels.poll_handshake(), None);
    assert_eq!(channels.poll_handshake(), None);
}

#[test]
fn update_caches_handle_and_keeps_it() {
    let mut b = Bridge::new();
    b.initialize(reads("https://a.example", 300, 200, 0, 0));
    let ctx = RainmeterContext::new(11);
    assert_eq!(b.update(ctx), None);
    b.worker_publish_handle(42);
    let layout = b.update(ctx).expect("handle was published");
    assert_eq!(layout.hwnd, 42);
    assert_eq!((layout.x, layout.y, layout.width, layout.height), (0, 0, 300, 200));
    let again = b.update(ctx).expect("handle stays cached");
    assert_eq!(again.hwnd, 42);
    assert_eq!(b.meter.hwnd, Some(42));
}

#[test]
fn raise_event_before_initialize_is_silent() {
    let mut b = Bridge::new();
    let ev = Event::ERROR(ErrorData { message: "early".to_string(), code: 1 });
    raise_event(&mut b, &ev);
    assert_eq!(b.channels.pending_commands(), 0);
    assert!(b.channels.commands.is_empty());
}

#[test]
fn commands_are_applied_in_send_order_exactly_once() {
    let mut b = Bridge::new();
    b.initialize(reads("https://a.example", 300, 200, 0, 0));
    let a = Event::ERROR(ErrorData { message: "first".to_string(), code: 1 });
    let b_ev = Event::ERROR(ErrorData { message: "second".to_string(), code: 2 });
    raise_event(&mut b, &a);
    raise_event(&mut b, &b_ev);
    assert_eq!(b.channels.pending_commands(), 2);

    let t1 = b.worker_tick(&WorkerEvent::Other);
    let s1 = t1.run_script.expect("first command becomes a script");
    assert!(s1.contains("first"));
    let t2 = b.worker_tick(&WorkerEvent::Other);
    let s2 = t2.run_script.expect("second command becomes a script");
    assert!(s2.contains("second"));
    let t3 = b.worker_tick(&WorkerEvent::Other);
    assert!(t3.run_script.is_none());

    assert_eq!(b.worker.applied.len(), 2);
    match (&b.worker.applied[0], &b.worker.applied[1]) {
        (Command::Event(p1), Command::Event(p2)) => {
            assert!(p1.contains("first"));
            assert!(p2.contains("second"));
        },
        other => panic!("unexpected applied commands: {:?}", other),
    }
}

#[test]
fn instance_raise_event_routes_like_the_free_function() {
    let mut b = Bridge::new();
    b.initialize(reads("https://a.example", 300, 200, 0, 0));
    let ev = Event::ERROR(ErrorData { message: "via trait".to_string(), code: 5 });
    EventRaiser::raise_event(&mut b, &ev);
    assert_eq!(b.channels.pending_commands(), 1);
    let tick = b.worker_tick(&WorkerEvent::Other);
    assert!(tick.run_script.expect("delivered").contains("via trait"));
}

#[test]
fn round_trip_reload_navigates_exactly_once() {
    let mut b = Bridge::new();
    b.initialize(reads("https://a.example", 300, 200, 0, 0));
    b.worker_publish_handle(7);
    let layout = b.update(RainmeterContext::new(1)).expect("handshake received");
    assert_eq!((layout.x, layout.y, layout.width, layout.height), (0, 0, 300, 200));

    let layout = b
        .reload(reads("https://b.example", 300, 200, 0, 0))
        .expect("handle known, layout issued");
    assert_eq!(layout.hwnd, 7);
    assert_eq!(b.channels.pending_commands(), 1);

    let tick = b.worker_tick(&WorkerEvent::Other);
    assert_eq!(tick.navigate.as_deref(), Some("https://b.example"));
    assert_eq!(b.worker.current_url, "https://b.example");

    let tick = b.worker_tick(&WorkerEvent::Other);
    assert!(tick.navigate.is_none());
    assert_eq!(b.worker.applied.len(), 1);
}

#[test]
fn reload_with_unchanged_url_sends_nothing() {
    let mut b = Bridge::new();
    b.initialize(reads("https://a.example", 300, 200, 0, 0));
    b.reload(reads("https://a.example", 640, 480, 10, 20));
    assert_eq!(b.channels.pending_commands(), 0);
    assert_eq!(b.meter.config.width, 640);
    assert_eq!(b.meter.config.x, 10);
}

#[test]
fn missing_keys_leave_configuration_unchanged() {
    let mut b = Bridge::new();
    b.initialize(no_reads());
    assert_eq!(b.meter.config.url, "https://example.com");
    assert_eq!(b.meter.config.width, 300);
    assert_eq!(b.meter.config.height, 200);
    assert_eq!(b.meter.config.x, 0);
    assert_eq!(b.meter.config.y, 0);
}

#[test]
fn finalize_then_raise_event_delivers_nothing() {
    let mut b = Bridge::new();
    b.initialize(reads("https://a.example", 300, 200, 0, 0));
    b.worker_publish_handle(7);
    b.update(RainmeterContext::new(1));
    b.finalize();
    assert!(matches!(b.lifecycle, PluginLifecycleState::Terminated));

    let ev = Event::ERROR(ErrorData { message: "late".to_string(), code: 9 });
    raise_event(&mut b, &ev);

    let tick = b.worker_tick(&WorkerEvent::Other);
    assert!(tick.exit);
    assert!(tick.run_script.is_none());
    assert!(b.worker.exited);
    assert!(b.worker.applied.is_empty());

    let ev2 = Event::ERROR(ErrorData { message: "later".to_string(), code: 10 });
    raise_event(&mut b, &ev2);
    assert!(b.worker.applied.is_empty());
    assert!(!b.channels.receiver_live());
}

#[test]
fn contained_failure_returns_default_and_logs_once() {
    let mut b = Bridge::new();
    b.initialize(reads("https://a.example", 300, 200, 0, 0));
    let url_before = b.meter.config.url.clone();

    let r = shim_call(
        &mut b,
        HostCall::Update(RainmeterContext::new(3)),
        Some("boom".to_string()),
    );
    assert_eq!(r.numeric, 0);
    assert!(r.text.is_none());
    assert!(r.layout.is_none());
    let line = r.log.expect("a contained failure logs exactly once");
    assert!(matches!(line.level, RmLogLevel::LogError));
    assert_eq!(line.message, "Panic in Update: boom");

    assert!(matches!(b.lifecycle, PluginLifecycleState::Running));
    assert_eq!(b.meter.config.url, url_before);

    let r = shim_call(&mut b, HostCall::Update(RainmeterContext::new(3)), None);
    assert!(r.log.is_none());
    assert_eq!(r.numeric, 0);
}

#[test]
fn shim_names_each_entry_point_in_its_failure_log() {
    let cases: Vec<(HostCall, &str)> = vec![
        (HostCall::Reload(no_reads()), "Panic in Reload: x"),
        (HostCall::Update(RainmeterContext::new(1)), "Panic in Update: x"),
        (HostCall::GetString, "Panic in GetString: x"),
        (HostCall::ExecuteBang("bang".to_string()), "Panic in ExecuteBang: x"),
        (HostCall::Finalize, "Panic in Finalize: x"),
    ];
    for (call, expected) in cases {
        let mut b = Bridge::new();
        b.initialize(no_reads());
        let r = shim_call(&mut b, call, Some("x".to_string()));
        assert_eq!(r.log.expect("failure logged").message, expected);
    }
    let mut b = Bridge::new();
    let r = shim_call(&mut b, HostCall::Initialize(no_reads()), Some("x".to_string()));
    assert_eq!(r.log.expect("failure logged").message, "Panic in Initialize: x");
    assert!(matches!(b.lifecycle, PluginLifecycleState::Uninitialized));
}

#[test]
fn shim_get_string_and_bang_change_nothing() {
    let mut b = Bridge::new();
    b.initialize(reads("https://a.example", 300, 200, 0, 0));
    let r = shim_call(&mut b, HostCall::GetString, None);
    assert!(r.text.is_none());
    assert!(r.log.is_none());
    let r = shim_call(&mut b, HostCall::ExecuteBang("[!Refresh]".to_string()), None);
    assert!(r.log.is_none());
    assert!(matches!(b.lifecycle, PluginLifecycleState::Running));
    assert_eq!(b.meter.config.url, "https://a.example");
    assert_eq!(b.channels.pending_commands(), 0);
}

#[test]
fn repeated_finalize_is_a_no_op() {
    let mut b = Bridge::new();
    b.initialize(reads("https://a.example", 300, 200, 0, 0));
    b.worker_publish_handle(4);
    b.update(RainmeterContext::new(1));
    b.finalize();
    assert!(matches!(b.lifecycle, PluginLifecycleState::Terminated));
    b.finalize();
    assert!(matches!(b.lifecycle, PluginLifecycleState::Terminated));
    assert!(b.channels.poll_shutdown());
    assert_eq!(b.meter.config.url, "https://a.example");
    assert_eq!(b.meter.hwnd, Some(4));
    assert_eq!(b.channels.pending_commands(), 0);

    let r = shim_call(&mut b, HostCall::Finalize, None);
    assert!(r.log.is_none());
    assert!(matches!(b.lifecycle, PluginLifecycleState::Terminated));
}

#[test]
fn shim_finalize_signals_shutdown() {
    let mut b = Bridge::new();
    b.initialize(no_reads());
    let r = shim_call(&mut b, HostCall::Finalize, None);
    assert!(r.log.is_none());
    assert!(b.channels.poll_shutdown());
    assert!(matches!(b.lifecycle, PluginLifecycleState::Terminated));
}

#[test]
fn poll_updates_raises_a_music_event_through_the_bridge() {
    let mut b = Bridge::new();
    b.initialize(no_reads());
    b.update(RainmeterContext::new(2));

    let song = shigure::music_player::get_current_song(None);
    b.poll_updates(song);
    assert_eq!(b.channels.pending_commands(), 1);

    let tick = b.worker_tick(&WorkerEvent::Other);
    let script = tick.run_script.expect("music update delivered as a script");
    assert!(script.contains("\"kind\":\"MusicUpdate\""));
    assert!(script.contains("\"player\":\"No Rainmeter\""));

    let song = shigure::music_player::get_current_song(None);
    b.poll_updates(song);
    assert_eq!(b.channels.pending_commands(), 0);
}

#[test]
fn close_requested_ends_the_loop() {
    let mut b = Bridge::new();
    b.initialize(no_reads());
    b.worker_publish_handle(1);
    let tick = b.worker_tick(&WorkerEvent::CloseRequested);
    assert!(tick.exit);
    assert!(b.worker.exited);
    assert!(!b.channels.receiver_live());
}

#[test]
fn redraw_requested_asks_for_a_redraw() {
    let mut b = Bridge::new();
    b.initialize(no_reads());
    b.worker_publish_handle(1);
    let tick = b.worker_tick(&WorkerEvent::RedrawRequested);
    assert!(tick.redraw);
    assert!(!tick.exit);
}
