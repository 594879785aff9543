use psiphon_tui::app::{App, ConnectionState};
use psiphon_tui::psiphon::{LaunchArgs, StartError};
use psiphon_tui::ui::{
    centered_rect, display_or, log_title, log_window, opt_port, picker_height, short_timestamp, state_tone, Area,
    Tone,
};

#[test]
fn tones() {
    assert_eq!(state_tone(&ConnectionState::Idle), Tone::Quiet);
    assert_eq!(state_tone(&ConnectionState::Stopped), Tone::Quiet);
    assert_eq!(state_tone(&ConnectionState::Starting), Tone::Pending);
    assert_eq!(state_tone(&ConnectionState::Connecting), Tone::Pending);
    assert_eq!(state_tone(&ConnectionState::Reconnecting), Tone::Pending);
    assert_eq!(state_tone(&ConnectionState::Stopping), Tone::Pending);
    assert_eq!(state_tone(&ConnectionState::Connected), Tone::Up);
    assert_eq!(state_tone(&ConnectionState::Failed(String::new())), Tone::Down);
}

#[test]
fn texts() {
    assert_eq!(display_or(""), "(none)");
    assert_eq!(display_or("x"), "x");
    assert_eq!(opt_port(Some(1080)), "127.0.0.1:1080");
    assert_eq!(opt_port(Some(0)), "127.0.0.1:0");
    assert_eq!(opt_port(None), "-");
    assert_eq!(log_title(0), " Log (live) ");
    assert_eq!(log_title(12), " Log (scrolled, 12 from bottom — End to jump to live) ");
}

#[test]
fn timestamps() {
    assert_eq!(short_timestamp("2024-05-01T10:20:30.123Z"), "10:20:30");
    assert_eq!(short_timestamp("2024-05-01T10:20:30Z"), "10:20:30");
    assert_eq!(short_timestamp("2024-05-01T10:20:30+02:00"), "10:20:30");
    assert_eq!(short_timestamp("2024-05-01T12:34:56-05:00"), "12:34:56");
    assert_eq!(short_timestamp("2024-05-01T12:34:56.5-05:00"), "12:34:56");
    assert_eq!(short_timestamp("2024-05-01T10:20:30"), "10:20:30");
    assert_eq!(short_timestamp("no time"), "no time");
    assert_eq!(short_timestamp("T"), "");
    assert_eq!(short_timestamp("xTaTb.c"), "aTb");
}

#[test]
fn log_windows() {
    let w = log_window(100, 12, 0);
    assert_eq!((w.start, w.end, w.scroll_up), (90, 100, 0));
    let w = log_window(100, 12, 5);
    assert_eq!((w.start, w.end, w.scroll_up), (85, 95, 5));
    let w = log_window(100, 12, 500);
    assert_eq!((w.start, w.end, w.scroll_up), (0, 10, 90));
    let w = log_window(3, 12, 2);
    assert_eq!((w.start, w.end, w.scroll_up), (0, 3, 0));
    let w = log_window(5, 1, 2);
    assert_eq!((w.start, w.end, w.scroll_up), (3, 3, 2));
}

#[test]
fn centering() {
    let area = Area { x: 2, y: 3, width: 80, height: 24 };
    assert_eq!(centered_rect(46, 10, area), Area { x: 19, y: 10, width: 46, height: 10 });
    assert_eq!(centered_rect(100, 30, area), Area { x: 2, y: 3, width: 80, height: 24 });
    assert_eq!(picker_height(1), 5);
    assert_eq!(picker_height(16), 20);
    assert_eq!(picker_height(300), 20);
    assert_eq!(picker_height(65536 + 2), 6);
}

#[test]
fn current_region_marks() {
    let mut a = App::new(String::new(), String::new(), String::new());
    assert!(a.is_current_region("Any"));
    assert!(!a.is_current_region("US"));
    a.selected_region = Some("US".to_string());
    assert!(a.is_current_region("US"));
    assert!(!a.is_current_region("Any"));
}

#[test]
fn launch_arguments() {
    let ok = LaunchArgs::prepare("c", "", "d", "").unwrap();
    assert_eq!(ok.config_path, "c");
    assert_eq!(ok.server_list_path, None);
    assert_eq!(ok.egress_region, None);
    let ok = LaunchArgs::prepare("c", "s", "d", "US").unwrap();
    assert_eq!(ok.server_list_path, Some("s".to_string()));
    assert_eq!(ok.egress_region, Some("US".to_string()));
    assert_eq!(LaunchArgs::prepare("c\0", "s\0", "d", "").unwrap_err(), StartError::InvalidPath("config path"));
    assert_eq!(LaunchArgs::prepare("c", "s\0", "d\0", "").unwrap_err(), StartError::InvalidPath("data root directory"));
    assert_eq!(LaunchArgs::prepare("c", "s\0", "d", "\0").unwrap_err(), StartError::InvalidPath("server list path"));
    assert_eq!(LaunchArgs::prepare("c", "s", "d", "U\0S").unwrap_err(), StartError::InvalidPath("egress region"));
    assert_eq!(
        StartError::InvalidPath("egress region").message(),
        "egress region contains a NUL byte and cannot be passed to the bridge"
    );
}
