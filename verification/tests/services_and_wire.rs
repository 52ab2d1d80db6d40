//! The services around the bridge and the event wire format, checked
//! against exact expected strings and cross-checked with a JSON parser.

use shigure::command::{event_script, worker_decide, Command, WorkerEvent};
use shigure::config::{reposition, PluginConfig};
use shigure::events::{event_json, ErrorData, Event};
use shigure::host::{Host, HostService};
use shigure::host_api::RmLogLevel;
use shigure::music_player::{
    get_current_song, status_from_code, tick_music_player, MusicPlayer, MusicPlayerState,
    MusicPlayerStatus, SongReads,
};
use shigure::version::{MadoVersion, MadoVersionService};

fn sample_state() -> MusicPlayerState {
    MusicPlayerState {
        is_connected: true,
        player: "Foobar".to_string(),
        title: "A \"Song\"".to_string(),
        artist: "Artist\\Band".to_string(),
        album: "Album".to_string(),
        cover: "https://covers.example/a.png".to_string(),
        duration: "03:20".to_string(),
        position: "01:10".to_string(),
        progress: 350_000,
        volume: 1_000_000,
        status: MusicPlayerStatus::Playing,
    }
}

#[test]
fn event_script_wraps_the_payload() {
    let s = event_script("{\"x\":1}");
    assert_eq!(s, "if(window.ipcEvent)window.ipcEvent({\"x\":1});");
}

#[test]
fn error_event_wire_form_is_exact() {
    let ev = Event::ERROR(ErrorData { message: "oh \"no\"\n".to_string(), code: 404 });
    let json = event_json(&ev);
    assert_eq!(
        json,
        "{\"kind\":\"ERROR\",\"value\":{\"message\":\"oh \\\"no\\\"\\n\",\"code\":404}}"
    );
}

#[test]
fn error_event_wire_form_parses_back() {
    let ev = Event::ERROR(ErrorData { message: "tab\there\u{8}".to_string(), code: 0 });
    let json = event_json(&ev);
    let v: serde_json::Value = serde_json::from_str(&json).expect("wire form is valid JSON");
    assert_eq!(v["kind"], "ERROR");
    assert_eq!(v["value"]["message"], "tab\there\u{8}");
    assert_eq!(v["value"]["code"], 0);
}

#[test]
fn music_update_wire_form_parses_back() {
    let ev = Event::MusicUpdate(sample_state());
    let json = event_json(&ev);
    let v: serde_json::Value = serde_json::from_str(&json).expect("wire form is valid JSON");
    assert_eq!(v["kind"], "MusicUpdate");
    assert_eq!(v["value"]["is_connected"], true);
    assert_eq!(v["value"]["player"], "Foobar");
    assert_eq!(v["value"]["title"], "A \"Song\"");
    assert_eq!(v["value"]["artist"], "Artist\\Band");
    assert_eq!(v["value"]["duration"], "03:20");
    assert_eq!(v["value"]["progress"].as_f64().unwrap(), 0.35);
    assert_eq!(v["value"]["volume"].as_f64().unwrap(), 1.0);
    assert_eq!(v["value"]["status"], "Playing");
}

#[test]
fn rare_control_characters_get_a_unicode_escape() {
    let ev = Event::ERROR(ErrorData { message: "a\u{1}b\u{1f}c".to_string(), code: 1 });
    let json = event_json(&ev);
    assert!(json.contains("a\\u0001b\\u001fc"));
    let v: serde_json::Value = serde_json::from_str(&json).expect("valid JSON");
    assert_eq!(v["value"]["message"], "a\u{1}b\u{1f}c");
}

#[test]
fn music_state_json_is_exact_for_the_disconnected_state() {
    let song = get_current_song(None);
    assert_eq!(song.player, "No Rainmeter");
    assert_eq!(song.duration, "00:00");
    assert!(matches!(song.status, MusicPlayerStatus::Stopped));
    let json = song.to_json();
    assert_eq!(
        json,
        "{\"is_connected\":false,\"player\":\"No Rainmeter\",\"title\":\"\",\"artist\":\"\",\
         \"album\":\"\",\"cover\":\"\",\"duration\":\"00:00\",\"position\":\"00:00\",\
         \"progress\":0.000000,\"volume\":0.000000,\"status\":\"Stopped\"}"
    );
}

#[test]
fn song_reads_build_the_snapshot() {
    let song = get_current_song(Some(SongReads {
        connected_code: 1,
        player: "P".to_string(),
        title: "T".to_string(),
        artist: "A".to_string(),
        album: "L".to_string(),
        cover: "C".to_string(),
        duration: "02:00".to_string(),
        position: "00:30".to_string(),
        progress: 250_000,
        volume: 800_000,
        state_code: 2,
    }));
    assert!(song.is_connected);
    assert!(matches!(song.status, MusicPlayerStatus::Paused));
    assert_eq!(song.progress, 250_000);
}

#[test]
fn status_codes_map_like_the_host_reports() {
    assert!(matches!(status_from_code(1), MusicPlayerStatus::Playing));
    assert!(matches!(status_from_code(2), MusicPlayerStatus::Paused));
    assert!(matches!(status_from_code(0), MusicPlayerStatus::Stopped));
    assert!(matches!(status_from_code(-7), MusicPlayerStatus::Stopped));
}

#[test]
fn tick_announces_changes_only() {
    let mut last = None;
    let raised = tick_music_player(&mut last, sample_state(), true);
    assert!(matches!(raised, Some(Event::MusicUpdate(_))));
    assert!(last.is_some());

    let raised = tick_music_player(&mut last, sample_state(), true);
    assert!(raised.is_none());

    let mut changed = sample_state();
    changed.title = "Another".to_string();
    let raised = tick_music_player(&mut last, changed, true);
    assert!(matches!(raised, Some(Event::MusicUpdate(_))));
}

#[test]
fn tick_ignores_the_player_name_alone() {
    let mut last = Some(sample_state());
    let mut renamed = sample_state();
    renamed.player = "Other Player".to_string();
    let raised = tick_music_player(&mut last, renamed, true);
    assert!(raised.is_none());
}

#[test]
fn tick_without_host_updates_but_stays_silent() {
    let mut last = None;
    let raised = tick_music_player(&mut last, sample_state(), false);
    assert!(raised.is_none());
    assert!(last.is_some());
}

#[test]
fn transport_commands_are_gated_and_exact() {
    let mp = MusicPlayer;
    assert_eq!(
        mp.play(true).as_deref(),
        Some("[!CommandMeasure \"MadoWNPTitle\" \"Play\"]")
    );
    assert_eq!(
        mp.pause(true).as_deref(),
        Some("[!CommandMeasure \"MadoWNPTitle\" \"Pause\"]")
    );
    assert_eq!(
        mp.next(true).as_deref(),
        Some("[!CommandMeasure \"MadoWNPTitle\" \"Next\"]")
    );
    assert_eq!(
        mp.previous(true).as_deref(),
        Some("[!CommandMeasure \"MadoWNPTitle\" \"Previous\"]")
    );
    assert_eq!(
        mp.set_volume(true, 250_000).as_deref(),
        Some("[!CommandMeasure \"MadoWNPTitle\" \"SetVolume 0.250000\"]")
    );
    assert_eq!(
        mp.seek_absolute(true, 1_500_000).as_deref(),
        Some("[!CommandMeasure \"MadoWNPTitle\" \"SetPosition 1.500000\"]")
    );
    assert!(mp.play(false).is_none());
    assert!(mp.set_volume(false, 1).is_none());
}

#[test]
fn host_reads_fall_back_to_defaults() {
    let host = Host;
    assert_eq!(
        host.read_string(Some("value".to_string()), "default".to_string()),
        "value"
    );
    assert_eq!(host.read_string(None, "default".to_string()), "default");
    assert_eq!(host.read_int(Some(7), -1), 7);
    assert_eq!(host.read_int(None, -1), -1);
    assert_eq!(host.get_skin_name(Some("MySkin".to_string())), "MySkin");
    assert_eq!(host.get_skin_name(None), "Unknown");
    assert_eq!(host.get_variable(Some("resolved".to_string())), "resolved");
    assert_eq!(host.get_variable(None), "");
    assert_eq!(
        host.execute_bang(true, "[!Refresh]".to_string()).as_deref(),
        Some("[!Refresh]")
    );
    assert!(host.execute_bang(false, "[!Refresh]".to_string()).is_none());
}

#[test]
fn host_names_itself() {
    let host = Host;
    assert_eq!(host.get_host(), "Shigure/Rainmeter");
    assert_eq!(host.host_name(), "Shigure/Rainmeter");
}

#[test]
fn version_getters_return_what_was_recorded() {
    let v = MadoVersion::new(
        "1.2.3".to_string(),
        "v1.2.3".to_string(),
        "abcdef0".to_string(),
        "main".to_string(),
    );
    assert_eq!(v.get_version(), "1.2.3");
    assert_eq!(v.get_tag(), "v1.2.3");
    assert_eq!(v.get_commit(), "abcdef0");
    assert_eq!(v.get_branch(), "main");
}

#[test]
fn log_levels_match_the_host_numbers() {
    assert_eq!(RmLogLevel::LogError.level_code(), 1);
    assert_eq!(RmLogLevel::LogWarning.level_code(), 2);
    assert_eq!(RmLogLevel::LogNotice.level_code(), 3);
    assert_eq!(RmLogLevel::LogDebug.level_code(), 4);
}

#[test]
fn default_configuration_matches_a_fresh_instance() {
    let c = PluginConfig::default();
    assert_eq!(c.url, "https://example.com");
    assert_eq!((c.width, c.height, c.x, c.y), (300, 200, 0, 0));
}

#[test]
fn reposition_waits_for_the_handle() {
    let c = PluginConfig::default();
    assert!(reposition(None, &c).is_none());
    let call = reposition(Some(9), &c).expect("handle known");
    assert_eq!((call.hwnd, call.width, call.height), (9, 300, 200));
}

#[test]
fn worker_decision_obeys_shutdown_first() {
    let cmd = Some(Command::UpdateUrl("https://x.example".to_string()));
    let a = worker_decide(true, cmd, &WorkerEvent::RedrawRequested);
    assert!(a.exit);
    assert!(a.navigate.is_none());
    assert!(!a.redraw);

    let cmd = Some(Command::UpdateUrl("https://x.example".to_string()));
    let a = worker_decide(false, cmd, &WorkerEvent::RedrawRequested);
    assert!(!a.exit);
    assert_eq!(a.navigate.as_deref(), Some("https://x.example"));
    assert!(a.redraw);
}
