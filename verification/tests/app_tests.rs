use psiphon_tui::app::{App, Command, ConnectionState, Key, MAX_LOG_LINES};
use psiphon_tui::json::{JsonNumber, JsonValue};
use psiphon_tui::notice::{Notice, Severity};
use psiphon_tui::psiphon::Event;

fn app() -> App {
    App::new("psiphon.config".to_string(), "servers.txt".to_string(), "data".to_string())
}

fn obj(members: Vec<(&str, JsonValue)>) -> JsonValue {
    JsonValue::Object(members.into_iter().map(|(k, v)| (k.to_string(), v)).collect())
}

fn notice(t: &str, data: JsonValue) -> Notice {
    Notice {
        notice_type: t.to_string(),
        timestamp: "2024-05-01T10:20:30Z".to_string(),
        data,
        data_json: String::new(),
    }
}

fn num(n: i64) -> JsonValue {
    if n >= 0 {
        JsonValue::Number(JsonNumber::PosInt(n as u64))
    } else {
        JsonValue::Number(JsonNumber::NegInt(n))
    }
}

fn tunnels(n: i64) -> Notice {
    notice("Tunnels", obj(vec![("count", num(n))]))
}

fn with_regions(app: &mut App, regions: &[&str]) {
    let items = regions.iter().map(|r| JsonValue::Str(r.to_string())).collect();
    app.apply_notice(notice("AvailableEgressRegions", obj(vec![("regions", JsonValue::Array(items))])));
}

fn last_text(app: &App) -> String {
    app.log.back().unwrap().text.clone()
}

#[test]
fn new_app_is_idle() {
    let a = app();
    assert_eq!(a.state, ConnectionState::Idle);
    assert!(a.log.is_empty());
    assert!(a.can_launch());
    assert_eq!(a.config_path, "psiphon.config");
    assert_eq!(a.region_picker_items(), vec!["Any"]);
}

#[test]
fn labels() {
    assert_eq!(ConnectionState::Idle.label(), "IDLE");
    assert_eq!(ConnectionState::Starting.label(), "STARTING");
    assert_eq!(ConnectionState::Connecting.label(), "CONNECTING");
    assert_eq!(ConnectionState::Connected.label(), "CONNECTED");
    assert_eq!(ConnectionState::Reconnecting.label(), "RECONNECTING");
    assert_eq!(ConnectionState::Stopping.label(), "STOPPING");
    assert_eq!(ConnectionState::Stopped.label(), "STOPPED");
    assert_eq!(ConnectionState::Failed("x".to_string()).label(), "ERROR");
}

#[test]
fn can_launch_only_when_idle_stopped_or_failed() {
    let mut a = app();
    for (state, expected) in [
        (ConnectionState::Idle, true),
        (ConnectionState::Stopped, true),
        (ConnectionState::Failed("boom".to_string()), true),
        (ConnectionState::Starting, false),
        (ConnectionState::Connecting, false),
        (ConnectionState::Connected, false),
        (ConnectionState::Reconnecting, false),
        (ConnectionState::Stopping, false),
    ] {
        a.state = state;
        assert_eq!(a.can_launch(), expected);
    }
}

#[test]
fn log_is_capped() {
    let mut a = app();
    for i in 0..(MAX_LOG_LINES + 5) {
        a.push_log(Severity::Warning, String::new(), format!("line {i}"));
    }
    assert_eq!(a.log.len(), MAX_LOG_LINES);
    assert_eq!(a.log.front().unwrap().text, "line 5");
    assert_eq!(a.log.back().unwrap().text, format!("line {}", MAX_LOG_LINES + 4));
}

#[test]
fn system_lines_are_info_without_timestamp() {
    let mut a = app();
    a.push_system("hello".to_string());
    let l = a.log.back().unwrap();
    assert_eq!(l.severity, Severity::Info);
    assert_eq!(l.timestamp, "");
    assert_eq!(l.text, "hello");
}

#[test]
fn mark_starting_resets_attempt() {
    let mut a = app();
    a.socks_port = Some(1);
    a.http_port = Some(2);
    a.tunnels_count = 3;
    a.last_error = Some("e".to_string());
    a.active_protocol = Some("OSSH".to_string());
    a.client_region = Some("US".to_string());
    a.mark_starting();
    assert_eq!(a.state, ConnectionState::Starting);
    assert!(a.started_at.is_some());
    assert!(a.connected_at.is_none());
    assert_eq!(a.socks_port, None);
    assert_eq!(a.http_port, None);
    assert_eq!(a.tunnels_count, 0);
    assert_eq!(a.last_error, None);
    assert_eq!(a.active_protocol, None);
    assert_eq!(a.client_region, Some("US".to_string()));
    a.mark_stopping();
    assert_eq!(a.state, ConnectionState::Stopping);
}

#[test]
fn notices_are_logged() {
    let mut a = app();
    a.apply_notice(notice("Warning", obj(vec![("message", JsonValue::Str("careful".to_string()))])));
    let l = a.log.back().unwrap();
    assert_eq!(l.severity, Severity::Warning);
    assert_eq!(l.text, "careful");
    assert_eq!(l.timestamp, "2024-05-01T10:20:30Z");
}

#[test]
fn tunnel_count_drives_connection() {
    let mut a = app();
    a.apply_notice(notice("ConnectingServer", JsonValue::Null));
    assert_eq!(a.state, ConnectionState::Connecting);
    a.apply_notice(tunnels(1));
    assert_eq!(a.state, ConnectionState::Connected);
    assert_eq!(a.tunnels_count, 1);
    assert!(a.connected_at.is_some());
    a.apply_notice(notice("ConnectingServer", JsonValue::Null));
    assert_eq!(a.state, ConnectionState::Connected);
    a.active_protocol = Some("OSSH".to_string());
    a.apply_notice(tunnels(0));
    assert_eq!(a.state, ConnectionState::Reconnecting);
    assert_eq!(a.active_protocol, None);
    a.apply_notice(tunnels(0));
    assert_eq!(a.state, ConnectionState::Reconnecting);
    a.apply_notice(notice("RequestingTactics", JsonValue::Null));
    assert_eq!(a.state, ConnectionState::Connecting);
}

#[test]
fn error_is_fatal_only_without_tunnel() {
    let mut a = app();
    a.apply_notice(tunnels(2));
    a.apply_notice(notice("Error", obj(vec![("message", JsonValue::Str("dsl hiccup".to_string()))])));
    assert_eq!(a.state, ConnectionState::Connected);
    assert_eq!(a.last_error, Some("dsl hiccup".to_string()));
    a.apply_notice(tunnels(0));
    a.apply_notice(notice("Error", obj(vec![("message", JsonValue::Str("no server".to_string()))])));
    assert_eq!(a.state, ConnectionState::Failed("no server".to_string()));
}

#[test]
fn bridge_error_is_always_fatal() {
    let mut a = app();
    a.apply_notice(tunnels(2));
    a.apply_notice(notice("BridgeError", obj(vec![("message", JsonValue::Str("commit failed".to_string()))])));
    assert_eq!(a.state, ConnectionState::Failed("commit failed".to_string()));
    assert_eq!(a.last_error, Some("commit failed".to_string()));
}

#[test]
fn ports_regions_and_totals() {
    let mut a = app();
    a.apply_notice(notice("ListeningSocksProxyPort", obj(vec![("port", num(1080))])));
    a.apply_notice(notice("ListeningHttpProxyPort", obj(vec![("port", num(70000))])));
    assert_eq!(a.socks_port, Some(1080));
    assert_eq!(a.http_port, Some(4464));
    a.apply_notice(notice("ListeningHttpProxyPort", obj(vec![("port", num(-1))])));
    assert_eq!(a.http_port, None);
    a.apply_notice(notice("ClientRegion", obj(vec![("region", JsonValue::Str("IR".to_string()))])));
    a.apply_notice(notice("ConnectedServerRegion", obj(vec![("serverRegion", JsonValue::Str("DE".to_string()))])));
    a.apply_notice(notice("ActiveTunnel", obj(vec![("protocol", JsonValue::Str("TLS-OSSH".to_string()))])));
    a.apply_notice(notice("SessionId", obj(vec![("sessionId", JsonValue::Str("abc".to_string()))])));
    assert_eq!(a.client_region, Some("IR".to_string()));
    assert_eq!(a.server_region, Some("DE".to_string()));
    assert_eq!(a.active_protocol, Some("TLS-OSSH".to_string()));
    assert_eq!(a.session_id, Some("abc".to_string()));
    a.apply_notice(notice("TotalBytesTransferred", obj(vec![("sent", num(100)), ("received", num(200))])));
    assert_eq!((a.total_sent, a.total_received), (100, 200));
    a.apply_notice(notice("TotalBytesTransferred", obj(vec![("received", num(300))])));
    assert_eq!((a.total_sent, a.total_received), (100, 300));
    a.apply_notice(notice("Homepage", obj(vec![("url", JsonValue::Str("https://a/".to_string()))])));
    a.apply_notice(notice("Homepage", JsonValue::Null));
    assert_eq!(a.homepages, vec!["https://a/"]);
}

#[test]
fn reported_regions_are_sorted_strings() {
    let mut a = app();
    let items = vec![
        JsonValue::Str("US".to_string()),
        JsonValue::Number(JsonNumber::PosInt(3)),
        JsonValue::Str("CA".to_string()),
        JsonValue::Str("DE".to_string()),
    ];
    a.apply_notice(notice("AvailableEgressRegions", obj(vec![("regions", JsonValue::Array(items))])));
    assert_eq!(a.available_regions, vec!["CA", "DE", "US"]);
    assert_eq!(a.region_picker_items(), vec!["Any", "CA", "DE", "US"]);
    a.apply_notice(notice("AvailableEgressRegions", obj(vec![("regions", JsonValue::Str("US".to_string()))])));
    assert_eq!(a.available_regions, vec!["CA", "DE", "US"]);
}

#[test]
fn bridge_stopped_clears_tunnel() {
    let mut a = app();
    a.apply_notice(notice("ListeningSocksProxyPort", obj(vec![("port", num(1080))])));
    a.apply_notice(tunnels(1));
    a.apply_notice(notice("BridgeStopped", JsonValue::Null));
    assert_eq!(a.state, ConnectionState::Stopped);
    assert_eq!(a.socks_port, None);
    assert_eq!(a.tunnels_count, 0);
}

#[test]
fn bridge_starting_keeps_first_start_time() {
    let mut a = app();
    assert!(a.started_at.is_none());
    a.apply_notice(notice("BridgeStarting", JsonValue::Null));
    let first = a.started_at;
    assert!(first.is_some());
    a.apply_notice(notice("BridgeStarting", JsonValue::Null));
    assert_eq!(a.started_at, first);
}

#[test]
fn picker_opens_on_selected_region() {
    let mut a = app();
    with_regions(&mut a, &["US", "DE"]);
    a.open_region_picker();
    assert!(a.region_picker_open);
    assert_eq!(a.region_picker_index, 0);
    a.selected_region = Some("US".to_string());
    a.open_region_picker();
    assert_eq!(a.region_picker_index, 2);
    a.selected_region = Some("FR".to_string());
    a.open_region_picker();
    assert_eq!(a.region_picker_index, 0);
}

#[test]
fn picker_moves_wrap_around() {
    let mut a = app();
    with_regions(&mut a, &["DE", "US"]);
    a.move_region_picker(-1);
    assert_eq!(a.region_picker_index, 2);
    a.move_region_picker(1);
    assert_eq!(a.region_picker_index, 0);
    a.move_region_picker(7);
    assert_eq!(a.region_picker_index, 1);
    a.move_region_picker(-7);
    assert_eq!(a.region_picker_index, 0);
    a.region_picker_index = usize::MAX;
    a.move_region_picker(1);
    assert_eq!(a.region_picker_index, 0);
}

#[test]
fn launch_with_valid_paths() {
    let mut a = app();
    match a.launch() {
        Command::Launch(args) => {
            assert_eq!(args.config_path, "psiphon.config");
            assert_eq!(args.server_list_path, Some("servers.txt".to_string()));
            assert_eq!(args.data_root_directory, "data");
            assert_eq!(args.egress_region, None);
        }
        other => panic!("unexpected {other:?}"),
    }
    assert_eq!(a.state, ConnectionState::Starting);
}

#[test]
fn launch_refused_for_nul_path() {
    let mut a = App::new("bad\0config".to_string(), String::new(), "data".to_string());
    match a.launch() {
        Command::Nothing => {}
        other => panic!("unexpected {other:?}"),
    }
    let msg = "config path contains a NUL byte and cannot be passed to the bridge";
    assert_eq!(a.state, ConnectionState::Failed(msg.to_string()));
    assert_eq!(last_text(&a), format!("failed to launch: {msg}"));
}

#[test]
fn launch_without_server_list_and_with_region() {
    let mut a = App::new("c".to_string(), String::new(), "d".to_string());
    a.selected_region = Some("DE".to_string());
    match a.launch() {
        Command::Launch(args) => {
            assert_eq!(args.server_list_path, None);
            assert_eq!(args.egress_region, Some("DE".to_string()));
        }
        other => panic!("unexpected {other:?}"),
    }
}

#[test]
fn keys_quit_start_stop() {
    let mut a = app();
    assert!(matches!(a.handle_key(Key::Char('s'), false), Command::Launch(_)));
    assert_eq!(a.state, ConnectionState::Starting);
    assert!(matches!(a.handle_key(Key::Char('s'), true), Command::Nothing));
    assert!(matches!(a.handle_key(Key::Char('x'), false), Command::Nothing));
    assert_eq!(a.state, ConnectionState::Starting);
    assert!(matches!(a.handle_key(Key::Char('x'), true), Command::Stop));
    assert_eq!(a.state, ConnectionState::Stopping);
    assert!(matches!(a.handle_key(Key::Char('x'), true), Command::Nothing));
    assert!(matches!(a.handle_key(Key::Char('s'), true), Command::Nothing));
    assert!(!a.should_quit);
    a.handle_key(Key::Esc, true);
    assert!(a.should_quit);
}

#[test]
fn keys_scroll() {
    let mut a = app();
    a.handle_key(Key::Up, false);
    a.handle_key(Key::Char('k'), false);
    assert_eq!(a.scroll_up, 2);
    a.handle_key(Key::PageUp, false);
    assert_eq!(a.scroll_up, 12);
    a.handle_key(Key::Char('j'), false);
    assert_eq!(a.scroll_up, 11);
    a.handle_key(Key::PageDown, false);
    a.handle_key(Key::PageDown, false);
    assert_eq!(a.scroll_up, 0);
    a.handle_key(Key::Down, false);
    assert_eq!(a.scroll_up, 0);
    a.handle_key(Key::Home, false);
    assert_eq!(a.scroll_up, usize::MAX / 2);
    a.handle_key(Key::End, false);
    assert_eq!(a.scroll_up, 0);
    a.scroll_up = usize::MAX - 3;
    a.handle_key(Key::PageUp, false);
    assert_eq!(a.scroll_up, usize::MAX);
    a.handle_key(Key::Other, false);
    assert_eq!(a.scroll_up, usize::MAX);
}

#[test]
fn picker_keys_move_and_close() {
    let mut a = app();
    with_regions(&mut a, &["DE", "US"]);
    a.handle_key(Key::Char('r'), false);
    assert!(a.region_picker_open);
    a.handle_key(Key::Down, false);
    a.handle_key(Key::Char('j'), false);
    assert_eq!(a.region_picker_index, 2);
    a.handle_key(Key::Char('k'), false);
    assert_eq!(a.region_picker_index, 1);
    a.handle_key(Key::Char('q'), false);
    assert!(!a.region_picker_open);
    assert!(!a.should_quit);
    assert_eq!(a.selected_region, None);
}

#[test]
fn region_change_while_idle_launches_at_once() {
    let mut a = app();
    with_regions(&mut a, &["DE", "US"]);
    a.handle_key(Key::Char('r'), false);
    a.handle_key(Key::Down, false);
    match a.handle_key(Key::Enter, false) {
        Command::Launch(args) => assert_eq!(args.egress_region, Some("DE".to_string())),
        other => panic!("unexpected {other:?}"),
    }
    assert_eq!(a.selected_region, Some("DE".to_string()));
    assert!(!a.region_picker_open);
    assert!(!a.pending_relaunch);
    assert!(a
        .log
        .iter()
        .any(|l| l.text == "region filter changed to DE — reconnecting…"));
}

#[test]
fn region_change_while_connected_stops_then_relaunches() {
    let mut a = app();
    with_regions(&mut a, &["DE", "US"]);
    a.apply_notice(tunnels(1));
    a.handle_key(Key::Char('r'), true);
    a.handle_key(Key::Up, true);
    assert!(matches!(a.handle_key(Key::Enter, true), Command::Stop));
    assert_eq!(a.state, ConnectionState::Stopping);
    assert!(a.pending_relaunch);
    assert_eq!(a.selected_region, Some("US".to_string()));
    assert!(matches!(a.relaunch_if_pending(), Command::Nothing));
    a.apply_event(Event::Notice(notice("BridgeStopped", JsonValue::Null)));
    assert_eq!(a.state, ConnectionState::Stopped);
    match a.relaunch_if_pending() {
        Command::Launch(args) => assert_eq!(args.egress_region, Some("US".to_string())),
        other => panic!("unexpected {other:?}"),
    }
    assert!(!a.pending_relaunch);
    assert_eq!(a.state, ConnectionState::Starting);
    assert!(matches!(a.relaunch_if_pending(), Command::Nothing));
}

#[test]
fn unchanged_region_does_not_interrupt() {
    let mut a = app();
    with_regions(&mut a, &["DE"]);
    a.apply_notice(tunnels(1));
    a.handle_key(Key::Char('r'), true);
    assert!(matches!(a.handle_key(Key::Enter, true), Command::Nothing));
    assert_eq!(a.state, ConnectionState::Connected);
    assert!(!a.region_picker_open);
}

#[test]
fn choosing_any_clears_filter() {
    let mut a = app();
    with_regions(&mut a, &["DE"]);
    a.selected_region = Some("DE".to_string());
    a.handle_key(Key::Char('r'), false);
    assert_eq!(a.region_picker_index, 1);
    a.handle_key(Key::Up, false);
    assert!(matches!(a.handle_key(Key::Enter, false), Command::Launch(_)));
    assert_eq!(a.selected_region, None);
    assert!(a.log.iter().any(|l| l.text == "region filter changed to Any — reconnecting…"));
}

#[test]
fn unparsed_events_are_logged() {
    let mut a = app();
    a.apply_event(Event::Unparsed("garbage".to_string()));
    assert_eq!(last_text(&a), "(unparsed) garbage");
}

#[test]
fn picker_move_and_back() {
    let mut a = app();
    with_regions(&mut a, &["AT", "BE", "CH", "DE"]);
    for start in 0..5 {
        for d in [-9isize, -4, -1, 0, 1, 3, 12] {
            a.region_picker_index = start;
            a.move_region_picker(d);
            assert!(a.region_picker_index < 5);
            a.move_region_picker(-d);
            assert_eq!(a.region_picker_index, start);
        }
    }
}

#[test]
fn log_keeps_newest_line_last() {
    let mut a = app();
    for i in 0..(MAX_LOG_LINES * 2) {
        a.push_system(format!("{i}"));
        assert!(a.log.len() <= MAX_LOG_LINES);
        assert_eq!(last_text(&a), format!("{i}"));
    }
}

#[test]
fn steps_at_a_given_time() {
    let mut a = app();
    let t = std::time::Instant::now();
    assert!(matches!(a.handle_key_at(Key::Char('s'), false, t), Command::Launch(_)));
    assert_eq!(a.started_at, Some(t));
    a.state = ConnectionState::Stopped;
    assert!(matches!(a.launch_at(t), Command::Launch(_)));
    assert_eq!(a.state, ConnectionState::Starting);
    a.apply_notice_at(tunnels(1), t);
    assert_eq!(a.connected_at, Some(t));
}
