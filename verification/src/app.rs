//! Application state: everything the interface shows, and the logic that
//! turns incoming notices and key presses into that state.

use vstd::prelude::*;
use std::collections::VecDeque;
use std::time::Instant;
use crate::notice::{Notice, Severity, severity_of, summary_of, text_or};
use crate::psiphon::{Event, LaunchArgs, LaunchRequest, launch_request, start_error_message};
use crate::json::{str_member, i64_member, u64_member, strings_member};
use crate::text::{texts, sort_texts, sort_strings, text_is};

verus! {

broadcast use vstd::std_specs::vecdeque::axiom_spec_len;

/// The log keeps at most this many lines; older ones are dropped.
pub const MAX_LOG_LINES: usize = 4000;

/// std's `Instant`, carried through as an opaque value.
#[verifier::external_type_specification]
#[verifier::external_body]
pub struct ExInstant(std::time::Instant);

/// The current time, from `std::time::Instant::now`. Nothing is stated of
/// the value: it depends on the clock.
#[verifier::external_body]
fn current_instant() -> Instant {
    Instant::now()
}

/// Where the tunnel stands.
#[derive(Debug, Clone, PartialEq, Eq)]
pub enum ConnectionState {
    Idle,
    Starting,
    Connecting,
    Connected,
    Reconnecting,
    Stopping,
    Stopped,
    Failed(String),
}

/// A connection state with its failure text as plain text.
pub enum StateView {
    Idle,
    Starting,
    Connecting,
    Connected,
    Reconnecting,
    Stopping,
    Stopped,
    Failed(Seq<char>),
}

impl View for ConnectionState {
    type V = StateView;

    open spec fn view(&self) -> StateView {
        match self {
            ConnectionState::Idle => StateView::Idle,
            ConnectionState::Starting => StateView::Starting,
            ConnectionState::Connecting => StateView::Connecting,
            ConnectionState::Connected => StateView::Connected,
            ConnectionState::Reconnecting => StateView::Reconnecting,
            ConnectionState::Stopping => StateView::Stopping,
            ConnectionState::Stopped => StateView::Stopped,
            ConnectionState::Failed(s) => StateView::Failed(s@),
        }
    }
}

/// The badge text of a connection state.
pub open spec fn label_of(s: StateView) -> Seq<char> {
    match s {
        StateView::Idle => "IDLE"@,
        StateView::Starting => "STARTING"@,
        StateView::Connecting => "CONNECTING"@,
        StateView::Connected => "CONNECTED"@,
        StateView::Reconnecting => "RECONNECTING"@,
        StateView::Stopping => "STOPPING"@,
        StateView::Stopped => "STOPPED"@,
        StateView::Failed(_) => "ERROR"@,
    }
}

impl ConnectionState {
    /// The badge text of the state.
    pub fn label(&self) -> (s: String)
        ensures
            s@ == label_of(self@),
    {
        match self {
            ConnectionState::Idle => String::from_str("IDLE"),
            ConnectionState::Starting => String::from_str("STARTING"),
            ConnectionState::Connecting => String::from_str("CONNECTING"),
            ConnectionState::Connected => String::from_str("CONNECTED"),
            ConnectionState::Reconnecting => String::from_str("RECONNECTING"),
            ConnectionState::Stopping => String::from_str("STOPPING"),
            ConnectionState::Stopped => String::from_str("STOPPED"),
            ConnectionState::Failed(_) => String::from_str("ERROR"),
        }
    }
}

/// One line of the log.
#[derive(Debug)]
pub struct LogLine {
    pub timestamp: String,
    pub severity: Severity,
    pub text: String,
}

/// A log line as plain text.
pub struct LogEntry {
    pub timestamp: Seq<char>,
    pub severity: Severity,
    pub text: Seq<char>,
}

impl View for LogLine {
    type V = LogEntry;

    open spec fn view(&self) -> LogEntry {
        LogEntry { timestamp: self.timestamp@, severity: self.severity, text: self.text@ }
    }
}

/// The plain text of each log line.
pub open spec fn log_entries(s: Seq<LogLine>) -> Seq<LogEntry> {
    s.map_values(|l: LogLine| l@)
}

/// The text of an optional string.
pub open spec fn opt_text(o: Option<String>) -> Option<Seq<char>> {
    match o {
        Some(s) => Some(s@),
        None => None,
    }
}

/// A key press, as far as the interface tells keys apart.
#[derive(Debug, Clone, Copy, PartialEq, Eq, Structural)]
pub enum Key {
    Char(char),
    Esc,
    Enter,
    Up,
    Down,
    PageUp,
    PageDown,
    Home,
    End,
    Other,
}

/// What the application has to do with the bridge after a step.
#[derive(Debug)]
pub enum Command {
    Nothing,
    /// Start a tunnel with these arguments.
    Launch(LaunchArgs),
    /// Request the running tunnel to stop, without waiting for it.
    Stop,
}

/// A command with its launch arguments as plain texts.
pub enum CommandView {
    Nothing,
    Launch(LaunchRequest),
    Stop,
}

impl View for Command {
    type V = CommandView;

    open spec fn view(&self) -> CommandView {
        match self {
            Command::Nothing => CommandView::Nothing,
            Command::Launch(a) => CommandView::Launch(a@),
            Command::Stop => CommandView::Stop,
        }
    }
}

/// `a + b`, or `usize::MAX` when that is larger.
pub open spec fn sat_add(a: usize, b: usize) -> usize {
    if a + b > usize::MAX { usize::MAX } else { (a + b) as usize }
}

/// `a - b`, or zero when that is negative.
pub open spec fn sat_sub(a: usize, b: usize) -> usize {
    if a < b { 0 } else { (a - b) as usize }
}

/// The text of the log line that announces a new region filter.
pub open spec fn region_change_line(region: Option<Seq<char>>) -> Seq<char> {
    "region filter changed to "@ + text_or(region, "Any"@) + " — reconnecting…"@
}

/// Everything the interface shows.
pub struct App {
    pub config_path: String,
    pub server_list_path: String,
    pub data_root_directory: String,

    pub state: ConnectionState,
    pub log: VecDeque<LogLine>,
    /// Lines scrolled up from the bottom; 0 means pinned to the latest line.
    pub scroll_up: usize,

    pub socks_port: Option<u16>,
    pub http_port: Option<u16>,
    pub client_region: Option<String>,
    pub server_region: Option<String>,
    pub homepages: Vec<String>,
    pub tunnels_count: i64,
    pub session_id: Option<String>,
    pub total_sent: i64,
    pub total_received: i64,

    pub started_at: Option<Instant>,
    pub connected_at: Option<Instant>,

    /// Most recent "Error"/"BridgeError" notice text, kept for display even
    /// while otherwise connected.
    pub last_error: Option<String>,
    /// The tunnel protocol actually in use (e.g. "TLS-OSSH"), from the
    /// "ActiveTunnel" notice.
    pub active_protocol: Option<String>,

    /// Region codes the engine itself has reported as available (from the
    /// "AvailableEgressRegions" notice), in ascending order.
    pub available_regions: Vec<String>,
    /// Currently applied egress region filter; None means "Any".
    pub selected_region: Option<String>,
    pub region_picker_open: bool,
    pub region_picker_index: usize,
    /// Set when a region change requires a stop and relaunch cycle;
    /// consumed once the "BridgeStopped" notice confirms the old tunnel is
    /// down.
    pub pending_relaunch: bool,

    pub should_quit: bool,
}

/// The application state with its texts as plain texts.
pub struct AppView {
    pub config_path: Seq<char>,
    pub server_list_path: Seq<char>,
    pub data_root_directory: Seq<char>,
    pub state: StateView,
    pub log: Seq<LogEntry>,
    pub scroll_up: usize,
    pub socks_port: Option<u16>,
    pub http_port: Option<u16>,
    pub client_region: Option<Seq<char>>,
    pub server_region: Option<Seq<char>>,
    pub homepages: Seq<Seq<char>>,
    pub tunnels_count: i64,
    pub session_id: Option<Seq<char>>,
    pub total_sent: i64,
    pub total_received: i64,
    pub started_at: Option<Instant>,
    pub connected_at: Option<Instant>,
    pub last_error: Option<Seq<char>>,
    pub active_protocol: Option<Seq<char>>,
    pub available_regions: Seq<Seq<char>>,
    pub selected_region: Option<Seq<char>>,
    pub region_picker_open: bool,
    pub region_picker_index: usize,
    pub pending_relaunch: bool,
    pub should_quit: bool,
}

impl View for App {
    type V = AppView;

    open spec fn view(&self) -> AppView {
        AppView {
            config_path: self.config_path@,
            server_list_path: self.server_list_path@,
            data_root_directory: self.data_root_directory@,
            state: self.state@,
            log: log_entries(self.log@),
            scroll_up: self.scroll_up,
            socks_port: self.socks_port,
            http_port: self.http_port,
            client_region: opt_text(self.client_region),
            server_region: opt_text(self.server_region),
            homepages: texts(self.homepages@),
            tunnels_count: self.tunnels_count,
            session_id: opt_text(self.session_id),
            total_sent: self.total_sent,
            total_received: self.total_received,
            started_at: self.started_at,
            connected_at: self.connected_at,
            last_error: opt_text(self.last_error),
            active_protocol: opt_text(self.active_protocol),
            available_regions: texts(self.available_regions@),
            selected_region: opt_text(self.selected_region),
            region_picker_open: self.region_picker_open,
            region_picker_index: self.region_picker_index,
            pending_relaunch: self.pending_relaunch,
            should_quit: self.should_quit,
        }
    }
}

/// `log` with `e` appended, dropping the oldest line when the log then
/// holds more than `MAX_LOG_LINES` lines.
pub open spec fn bounded_push(log: Seq<LogEntry>, e: LogEntry) -> Seq<LogEntry> {
    if log.len() + 1 > MAX_LOG_LINES {
        log.push(e).drop_first()
    } else {
        log.push(e)
    }
}


/// The position of the first occurrence of `x` in `s`.
pub open spec fn position(s: Seq<Seq<char>>, x: Seq<char>) -> Option<int>
    decreases s.len(),
{
    if s.len() == 0 {
        None
    } else if s[0] == x {
        Some(0)
    } else {
        match position(s.drop_first(), x) {
            Some(i) => Some(i + 1),
            None => None,
        }
    }
}

/// A port number as the low 16 bits of the reported value.
pub open spec fn port_of(p: Option<u64>) -> Option<u16> {
    match p {
        Some(v) => Some(v as u16),
        None => None,
    }
}

/// A `usize` read as the `isize` with the same bits.
pub open spec fn as_signed(i: usize) -> int {
    if i <= isize::MAX {
        i as int
    } else {
        i - (usize::MAX + 1)
    }
}

/// The position of the first string of `items` with the text of `x`.
fn find_text(items: &Vec<String>, x: &String) -> (r: Option<usize>)
    ensures
        match r {
            Some(i) => position(texts(items@), x@) == Some(i as int),
            None => position(texts(items@), x@) is None,
        },
{
    let ghost its = texts(items@);
    let mut i: usize = 0;
    assert(its.skip(0) =~= its);
    while i < items.len()
        invariant
            i <= items@.len(),
            its == texts(items@),
            position(its, x@) == match position(its.skip(i as int), x@) {
                Some(k) => Some(k + i),
                None => None,
            },
        decreases items@.len() - i,
    {
        assert(its.skip(i as int)[0] == items@[i as int]@);
        if items[i] == *x {
            return Some(i);
        }
        assert(its.skip(i as int).drop_first() =~= its.skip(i + 1));
        i = i + 1;
    }
    None
}

/// Whether two optional strings hold the same text.
fn same_text(a: &Option<String>, b: &Option<String>) -> (r: bool)
    ensures
        r == (opt_text(*a) == opt_text(*b)),
{
    match (a, b) {
        (Some(x), Some(y)) => *x == *y,
        (None, None) => true,
        _ => false,
    }
}

/// `n` modulo `d` for a positive `d`, computed without signed division.
fn euclid_mod(n: i128, d: i128) -> (r: i128)
    requires
        d > 0,
        n > i128::MIN,
    ensures
        r == n % d,
        0 <= r < d,
{
    if n >= 0 {
        (n as u128 % d as u128) as i128
    } else {
        let k: u128 = (-n) as u128;
        let m: u128 = k % (d as u128);
        proof {
            let q = (k as int) / (d as int);
            vstd::arithmetic::div_mod::lemma_fundamental_div_mod(k as int, d as int);
            if m == 0 {
                assert(n == (-q) * d) by (nonlinear_arith)
                    requires k == q * d + m, m == 0, n == -k;
                vstd::arithmetic::div_mod::lemma_fundamental_div_mod_converse(n as int, d as int, -q, 0);
            } else {
                assert(n == (-q - 1) * d + (d - m)) by (nonlinear_arith)
                    requires k == q * d + m, n == -k;
                vstd::arithmetic::div_mod::lemma_fundamental_div_mod_converse(n as int, d as int,
                    -q - 1, d - m);
            }
        }
        if m == 0 {
            0
        } else {
            d - m as i128
        }
    }
}

impl AppView {
    /// A fresh state for the given paths.
    pub open spec fn initial(config_path: Seq<char>, server_list_path: Seq<char>,
        data_root_directory: Seq<char>) -> AppView {
        AppView {
            config_path,
            server_list_path,
            data_root_directory,
            state: StateView::Idle,
            log: Seq::empty(),
            scroll_up: 0,
            socks_port: None,
            http_port: None,
            client_region: None,
            server_region: None,
            homepages: Seq::empty(),
            tunnels_count: 0,
            session_id: None,
            total_sent: 0,
            total_received: 0,
            started_at: None,
            connected_at: None,
            last_error: None,
            active_protocol: None,
            available_regions: Seq::empty(),
            selected_region: None,
            region_picker_open: false,
            region_picker_index: 0,
            pending_relaunch: false,
            should_quit: false,
        }
    }

    /// The invariant of the state: the log holds at most `MAX_LOG_LINES` lines.
    pub open spec fn wf(self) -> bool {
        self.log.len() <= MAX_LOG_LINES
    }

    /// Whether a tunnel may be launched: the bridge is neither connecting
    /// nor tearing down.
    pub open spec fn can_launch(self) -> bool {
        match self.state {
            StateView::Idle | StateView::Stopped | StateView::Failed(_) => true,
            _ => false,
        }
    }

    /// The state with `e` added to the log.
    pub open spec fn with_line(self, e: LogEntry) -> AppView {
        AppView { log: bounded_push(self.log, e), ..self }
    }

    /// The state with an untimestamped informational line added to the log.
    pub open spec fn with_system_line(self, text: Seq<char>) -> AppView {
        self.with_line(LogEntry { timestamp: Seq::empty(), severity: Severity::Info, text })
    }

    /// The state once a launch begins at time `now`.
    pub open spec fn starting(self, now: Instant) -> AppView {
        AppView {
            state: StateView::Starting,
            started_at: Some(now),
            connected_at: None,
            socks_port: None,
            http_port: None,
            tunnels_count: 0,
            last_error: None,
            active_protocol: None,
            ..self
        }
    }

    /// The state once a stop has been requested.
    pub open spec fn stopping(self) -> AppView {
        AppView { state: StateView::Stopping, ..self }
    }

    /// The state after the notice `n` arrives at time `now`: the notice is
    /// logged with its summary, then the state reacts to it.
    pub open spec fn after_notice(self, n: Notice, now: Instant) -> AppView {
        let summary = summary_of(n);
        self.with_line(LogEntry {
            timestamp: n.timestamp@,
            severity: severity_of(n.notice_type@),
            text: summary,
        }).react(n, summary, now)
    }

    /// How the state reacts to the notice `n`, whose summary is `summary`.
    pub open spec fn react(self, n: Notice, summary: Seq<char>, now: Instant) -> AppView {
        let t = n.notice_type@;
        let d = n.data;
        if t == "BridgeStarting"@ {
            if self.started_at is None {
                AppView { started_at: Some(now), ..self }
            } else {
                self
            }
        } else if t == "ConnectingServer"@ || t == "RequestingTactics"@ {
            if self.state is Connected {
                self
            } else {
                AppView { state: StateView::Connecting, ..self }
            }
        } else if t == "Tunnels"@ {
            let count = match i64_member(d, "count"@) {
                Some(c) => c,
                None => 0,
            };
            if count > 0 {
                AppView {
                    tunnels_count: count,
                    connected_at: if self.state is Connected { self.connected_at } else { Some(now) },
                    state: StateView::Connected,
                    ..self
                }
            } else if self.state is Connected {
                AppView {
                    tunnels_count: count,
                    state: StateView::Reconnecting,
                    active_protocol: None,
                    ..self
                }
            } else {
                AppView { tunnels_count: count, ..self }
            }
        } else if t == "ActiveTunnel"@ {
            AppView { active_protocol: str_member(d, "protocol"@), ..self }
        } else if t == "ListeningSocksProxyPort"@ {
            AppView { socks_port: port_of(u64_member(d, "port"@)), ..self }
        } else if t == "ListeningHttpProxyPort"@ {
            AppView { http_port: port_of(u64_member(d, "port"@)), ..self }
        } else if t == "ClientRegion"@ {
            AppView { client_region: str_member(d, "region"@), ..self }
        } else if t == "AvailableEgressRegions"@ {
            match strings_member(d, "regions"@) {
                Some(regions) => AppView { available_regions: sort_texts(regions), ..self },
                None => self,
            }
        } else if t == "ConnectedServerRegion"@ {
            AppView { server_region: str_member(d, "serverRegion"@), ..self }
        } else if t == "Homepage"@ {
            match str_member(d, "url"@) {
                Some(url) => AppView { homepages: self.homepages.push(url), ..self },
                None => self,
            }
        } else if t == "SessionId"@ {
            AppView { session_id: str_member(d, "sessionId"@), ..self }
        } else if t == "TotalBytesTransferred"@ {
            AppView {
                total_sent: match i64_member(d, "sent"@) {
                    Some(v) => v,
                    None => self.total_sent,
                },
                total_received: match i64_member(d, "received"@) {
                    Some(v) => v,
                    None => self.total_received,
                },
                ..self
            }
        } else if t == "BridgeStopped"@ {
            AppView {
                state: StateView::Stopped,
                socks_port: None,
                http_port: None,
                tunnels_count: 0,
                active_protocol: None,
                ..self
            }
        } else if t == "BridgeError"@ {
            AppView { last_error: Some(summary), state: StateView::Failed(summary), ..self }
        } else if t == "Error"@ {
            AppView {
                last_error: Some(summary),
                state: if self.tunnels_count == 0 { StateView::Failed(summary) } else { self.state },
                ..self
            }
        } else {
            self
        }
    }

    /// The state and command once a launch is attempted at time `now`:
    /// the state is marked starting; the launch goes ahead when its
    /// arguments can be handed to the bridge, and otherwise the refusal is
    /// logged and the state fails with its message.
    pub open spec fn launched(self, now: Instant) -> (AppView, CommandView) {
        let s = self.starting(now);
        match launch_request(s.config_path, s.server_list_path, s.data_root_directory,
            text_or(s.selected_region, Seq::empty())) {
            Ok(r) => (s, CommandView::Launch(r)),
            Err(which) => {
                let m = start_error_message(which);
                (AppView { state: StateView::Failed(m), ..s.with_system_line("failed to launch: "@ + m) },
                 CommandView::Nothing)
            },
        }
    }

    /// The entry the picker selection stands on ("Any" when it is out of range).
    pub open spec fn picker_choice(self) -> Seq<char> {
        if self.region_picker_index < self.picker_items().len() {
            self.picker_items()[self.region_picker_index as int]
        } else {
            "Any"@
        }
    }

    /// The state and command once the picker selection is applied at time
    /// `now`. An unchanged filter only closes the picker. A changed filter
    /// is logged and launches at once when that is safe; otherwise the
    /// running tunnel is stopped and a relaunch is left pending.
    pub open spec fn region_chosen(self, now: Instant) -> (AppView, CommandView) {
        let choice = self.picker_choice();
        let new_region = if choice == "Any"@ { None } else { Some(choice) };
        let closed = AppView { region_picker_open: false, ..self };
        if new_region == self.selected_region {
            (closed, CommandView::Nothing)
        } else {
            let chosen = AppView { selected_region: new_region, ..closed }.with_system_line(
                region_change_line(new_region));
            if chosen.can_launch() {
                chosen.launched(now)
            } else {
                (AppView { pending_relaunch: true, ..chosen }.stopping(), CommandView::Stop)
            }
        }
    }

    /// The state and command after `key` is pressed while the region picker is open.
    pub open spec fn after_picker_key(self, key: Key, now: Instant) -> (AppView, CommandView) {
        match key {
            Key::Esc | Key::Char('q') => (AppView { region_picker_open: false, ..self }, CommandView::Nothing),
            Key::Up | Key::Char('k') => (self.picker_moved(-1), CommandView::Nothing),
            Key::Down | Key::Char('j') => (self.picker_moved(1), CommandView::Nothing),
            Key::Enter => self.region_chosen(now),
            _ => (self, CommandView::Nothing),
        }
    }

    /// The state and command after `key` is pressed at time `now`;
    /// `running` tells whether the bridge reports a running tunnel.
    pub open spec fn after_key(self, key: Key, running: bool, now: Instant) -> (AppView, CommandView) {
        if self.region_picker_open {
            self.after_picker_key(key, now)
        } else {
            match key {
                Key::Char('q') | Key::Esc => (AppView { should_quit: true, ..self }, CommandView::Nothing),
                Key::Char('s') => if self.can_launch() {
                    self.launched(now)
                } else {
                    (self, CommandView::Nothing)
                },
                Key::Char('x') => if running && !(self.state is Stopping) {
                    (self.stopping(), CommandView::Stop)
                } else {
                    (self, CommandView::Nothing)
                },
                Key::Char('r') => (self.picker_opened(), CommandView::Nothing),
                Key::Up | Key::Char('k') => (AppView { scroll_up: sat_add(self.scroll_up, 1), ..self },
                    CommandView::Nothing),
                Key::Down | Key::Char('j') => (AppView { scroll_up: sat_sub(self.scroll_up, 1), ..self },
                    CommandView::Nothing),
                Key::PageUp => (AppView { scroll_up: sat_add(self.scroll_up, 10), ..self },
                    CommandView::Nothing),
                Key::PageDown => (AppView { scroll_up: sat_sub(self.scroll_up, 10), ..self },
                    CommandView::Nothing),
                Key::End => (AppView { scroll_up: 0, ..self }, CommandView::Nothing),
                Key::Home => (AppView { scroll_up: (usize::MAX / 2) as usize, ..self }, CommandView::Nothing),
                _ => (self, CommandView::Nothing),
            }
        }
    }

    /// Whether pressing `key` can be handled without the picker index
    /// overflowing `isize` when it moves.
    pub open spec fn key_in_range(self, key: Key) -> bool {
        self.region_picker_open ==> {
            &&& (key == Key::Up || key == Key::Char('k')) ==> as_signed(self.region_picker_index) > isize::MIN
            &&& (key == Key::Down || key == Key::Char('j')) ==> as_signed(self.region_picker_index) < isize::MAX
        }
    }

    /// The state after the event `e` arrives at time `now`.
    pub open spec fn after_event(self, e: Event, now: Instant) -> AppView {
        match e {
            Event::Notice(n) => self.after_notice(n, now),
            Event::Unparsed(s) => self.with_system_line("(unparsed) "@ + s@),
        }
    }

    /// The state and command once a pending relaunch is checked at time
    /// `now`: it goes ahead once the old tunnel has stopped.
    pub open spec fn relaunch_checked(self, now: Instant) -> (AppView, CommandView) {
        if self.pending_relaunch && self.state is Stopped {
            AppView { pending_relaunch: false, ..self }.launched(now)
        } else {
            (self, CommandView::Nothing)
        }
    }

    /// The entries of the region picker: "Any" followed by the regions the
    /// engine reported.
    pub open spec fn picker_items(self) -> Seq<Seq<char>> {
        seq!["Any"@] + self.available_regions
    }

    /// The state with the region picker open on the applied region filter
    /// ("Any" when there is none or it is not listed).
    pub open spec fn picker_opened(self) -> AppView {
        AppView {
            region_picker_index: match self.selected_region {
                Some(r) => match position(self.picker_items(), r) {
                    Some(i) => i as usize,
                    None => 0,
                },
                None => 0,
            },
            region_picker_open: true,
            ..self
        }
    }

    /// The state with the picker selection moved by `delta` entries,
    /// wrapping around at both ends.
    pub open spec fn picker_moved(self, delta: int) -> AppView {
        AppView {
            region_picker_index: ((as_signed(self.region_picker_index) + delta)
                % (self.picker_items().len() as int)) as usize,
            ..self
        }
    }
}

impl App {
    /// A fresh state for the given paths: idle, with an empty log.
    pub fn new(config_path: String, server_list_path: String, data_root_directory: String) -> (app: Self)
        ensures
            app@ == AppView::initial(config_path@, server_list_path@, data_root_directory@),
    {
        let app = App {
            config_path,
            server_list_path,
            data_root_directory,
            state: ConnectionState::Idle,
            log: VecDeque::new(),
            scroll_up: 0,
            socks_port: None,
            http_port: None,
            client_region: None,
            server_region: None,
            homepages: Vec::new(),
            tunnels_count: 0,
            session_id: None,
            total_sent: 0,
            total_received: 0,
            started_at: None,
            connected_at: None,
            last_error: None,
            active_protocol: None,
            available_regions: Vec::new(),
            selected_region: None,
            region_picker_open: false,
            region_picker_index: 0,
            pending_relaunch: false,
            should_quit: false,
        };
        assert(app@.log =~= Seq::empty());
        assert(app@.homepages =~= Seq::empty());
        assert(app@.available_regions =~= Seq::empty());
        app
    }

    /// Whether it's currently safe to launch: the bridge is definitely not
    /// mid-connection or mid-teardown.
    pub fn can_launch(&self) -> (b: bool)
        ensures
            b == self@.can_launch(),
    {
        matches!(self.state, ConnectionState::Idle | ConnectionState::Stopped | ConnectionState::Failed(_))
    }

    /// Appends a line to the log, dropping the oldest line when the log
    /// would otherwise exceed `MAX_LOG_LINES` lines.
    pub fn push_log(&mut self, severity: Severity, timestamp: String, text: String)
        ensures
            final(self)@ == old(self)@.with_line(LogEntry { timestamp: timestamp@, severity, text: text@ }),
    {
        let ghost entry = LogEntry { timestamp: timestamp@, severity, text: text@ };
        let line = LogLine { timestamp, severity, text };
        self.log.push_back(line);
        assert(log_entries(self.log@) =~= log_entries(old(self).log@).push(entry));
        if self.log.len() > MAX_LOG_LINES {
            let _ = self.log.pop_front();
            assert(log_entries(self.log@) =~= log_entries(old(self).log@).push(entry).drop_first());
        }
    }

    /// Appends an untimestamped informational line to the log.
    pub fn push_system(&mut self, text: String)
        ensures
            final(self)@ == old(self)@.with_system_line(text@),
    {
        proof { reveal_strlit(""); }
        self.push_log(Severity::Info, String::new(), text);
    }

    /// `mark_starting` at the given time.
    pub fn mark_starting_at(&mut self, now: Instant)
        ensures
            final(self)@ == old(self)@.starting(now),
    {
        self.state = ConnectionState::Starting;
        self.started_at = Some(now);
        self.connected_at = None;
        self.socks_port = None;
        self.http_port = None;
        self.tunnels_count = 0;
        self.last_error = None;
        self.active_protocol = None;
    }

    /// Records that a launch begins now: clears the proxy ports, tunnel
    /// count, last error and protocol of the previous attempt.
    pub fn mark_starting(&mut self)
        ensures
            exists|now: Instant| final(self)@ == old(self)@.starting(now),
    {
        let now = current_instant();
        self.mark_starting_at(now);
    }

    /// Items shown in the region picker: "Any" followed by whatever
    /// regions the engine has actually reported.
    pub fn region_picker_items(&self) -> (items: Vec<String>)
        ensures
            texts(items@) == self@.picker_items(),
    {
        let mut items: Vec<String> = Vec::new();
        items.push(String::from_str("Any"));
        let mut i: usize = 0;
        while i < self.available_regions.len()
            invariant
                i <= self.available_regions@.len(),
                items@.len() == i + 1,
                items@[0]@ == "Any"@,
                forall|k: int| 0 <= k < i ==> #[trigger] items@[k + 1]@ == self.available_regions@[k]@,
            decreases self.available_regions@.len() - i,
        {
            let r = self.available_regions[i].clone();
            items.push(r);
            i = i + 1;
        }
        assert forall|j: int| 1 <= j < items@.len() implies #[trigger] items@[j]@
            == self.available_regions@[j - 1]@ by {
            assert(items@[(j - 1) + 1]@ == self.available_regions@[j - 1]@);
        }
        assert(texts(items@) =~= self@.picker_items());
        items
    }

    /// Opens the region picker on the applied region filter.
    pub fn open_region_picker(&mut self)
        ensures
            final(self)@ == old(self)@.picker_opened(),
    {
        let items = self.region_picker_items();
        let index = match &self.selected_region {
            Some(region) => match find_text(&items, region) {
                Some(k) => k,
                None => 0,
            },
            None => 0,
        };
        self.region_picker_index = index;
        self.region_picker_open = true;
    }

    /// Moves the picker selection by `delta` entries, wrapping around.
    pub fn move_region_picker(&mut self, delta: isize)
        requires
            isize::MIN <= as_signed(old(self).region_picker_index) + delta <= isize::MAX,
        ensures
            final(self)@ == old(self)@.picker_moved(delta as int),
    {
        let len = self.available_regions.len() as i128 + 1;
        let idx = self.region_picker_index;
        let current: i128 = if idx <= isize::MAX as usize {
            idx as i128
        } else {
            idx as i128 - (usize::MAX as i128 + 1)
        };
        let next = euclid_mod(current + delta as i128, len);
        self.region_picker_index = next as usize;
    }

    /// Applies the notice `n`, arrived at time `now`: logs its summary,
    /// then updates the state it reports on.
    pub fn apply_notice_at(&mut self, notice: Notice, now: Instant)
        ensures
            final(self)@ == old(self)@.after_notice(notice, now),
    {
        let summary = notice.summary();
        let severity = notice.severity();
        self.push_log(severity, notice.timestamp.clone(), summary.clone());
        let ghost logged = self@;
        let t = notice.notice_type.as_str();
        let d = &notice.data;
        if text_is(t, "BridgeStarting") {
            if self.started_at.is_none() {
                self.started_at = Some(now);
            }
        } else if text_is(t, "ConnectingServer") || text_is(t, "RequestingTactics") {
            if !matches!(self.state, ConnectionState::Connected) {
                self.state = ConnectionState::Connecting;
            }
        } else if text_is(t, "Tunnels") {
            let count = match d.i64_member("count") {
                Some(c) => c,
                None => 0,
            };
            self.tunnels_count = count;
            if count > 0 {
                if !matches!(self.state, ConnectionState::Connected) {
                    self.connected_at = Some(now);
                }
                self.state = ConnectionState::Connected;
            } else if matches!(self.state, ConnectionState::Connected) {
                self.state = ConnectionState::Reconnecting;
                self.active_protocol = None;
            }
        } else if text_is(t, "ActiveTunnel") {
            self.active_protocol = d.str_member("protocol");
        } else if text_is(t, "ListeningSocksProxyPort") {
            self.socks_port = match d.u64_member("port") {
                Some(p) => Some(p as u16),
                None => None,
            };
        } else if text_is(t, "ListeningHttpProxyPort") {
            self.http_port = match d.u64_member("port") {
                Some(p) => Some(p as u16),
                None => None,
            };
        } else if text_is(t, "ClientRegion") {
            self.client_region = d.str_member("region");
        } else if text_is(t, "AvailableEgressRegions") {
            match d.strings_member("regions") {
                Some(regions) => {
                    self.available_regions = sort_strings(regions);
                },
                None => {},
            }
        } else if text_is(t, "ConnectedServerRegion") {
            self.server_region = d.str_member("serverRegion");
        } else if text_is(t, "Homepage") {
            match d.str_member("url") {
                Some(url) => {
                    self.homepages.push(url);
                    assert(texts(self.homepages@) =~= logged.homepages.push(
                        str_member(notice.data, "url"@)->0));
                },
                None => {},
            }
        } else if text_is(t, "SessionId") {
            self.session_id = d.str_member("sessionId");
        } else if text_is(t, "TotalBytesTransferred") {
            match d.i64_member("sent") {
                Some(v) => {
                    self.total_sent = v;
                },
                None => {},
            }
            match d.i64_member("received") {
                Some(v) => {
                    self.total_received = v;
                },
                None => {},
            }
        } else if text_is(t, "BridgeStopped") {
            self.state = ConnectionState::Stopped;
            self.socks_port = None;
            self.http_port = None;
            self.tunnels_count = 0;
            self.active_protocol = None;
        } else if text_is(t, "BridgeError") {
            self.last_error = Some(summary.clone());
            self.state = ConnectionState::Failed(summary);
        } else if text_is(t, "Error") {
            self.last_error = Some(summary.clone());
            if self.tunnels_count == 0 {
                self.state = ConnectionState::Failed(summary);
            }
        }
    }

    /// Applies the notice `n`: logs its summary, then updates the state it
    /// reports on (a tunnel count above zero means connected, "Error" is
    /// fatal only while no tunnel is up, "BridgeError" always is).
    pub fn apply_notice(&mut self, notice: Notice)
        ensures
            exists|now: Instant| final(self)@ == old(self)@.after_notice(notice, now),
    {
        let now = current_instant();
        self.apply_notice_at(notice, now);
    }

    /// `launch` at the given time.
    pub fn launch_at(&mut self, now: Instant) -> (c: Command)
        ensures
            final(self)@ == old(self)@.launched(now).0,
            c@ == old(self)@.launched(now).1,
    {
        self.mark_starting_at(now);
        let region = match &self.selected_region {
            Some(r) => r.clone(),
            None => String::new(),
        };
        match LaunchArgs::prepare(self.config_path.as_str(), self.server_list_path.as_str(),
            self.data_root_directory.as_str(), region.as_str()) {
            Ok(args) => Command::Launch(args),
            Err(e) => {
                let m = e.message();
                let mut line = String::from_str("failed to launch: ");
                line.append(m.as_str());
                self.push_system(line);
                self.state = ConnectionState::Failed(m);
                Command::Nothing
            },
        }
    }

    /// Starts (or restarts) a tunnel with the paths and the selected egress
    /// region: marks the state starting and returns the launch to perform,
    /// or logs why the arguments cannot be handed to the bridge and fails.
    pub fn launch(&mut self) -> (c: Command)
        ensures
            exists|now: Instant| final(self)@ == old(self)@.launched(now).0 && c@ == old(self)@.launched(
                now).1,
    {
        let now = current_instant();
        self.launch_at(now)
    }

    fn handle_region_picker_key(&mut self, key: Key, now: Instant) -> (c: Command)
        requires
            old(self).region_picker_open,
            old(self)@.key_in_range(key),
        ensures
            final(self)@ == old(self)@.after_picker_key(key, now).0,
            c@ == old(self)@.after_picker_key(key, now).1,
    {
        match key {
            Key::Esc | Key::Char('q') => {
                self.region_picker_open = false;
                Command::Nothing
            },
            Key::Up | Key::Char('k') => {
                self.move_region_picker(-1);
                Command::Nothing
            },
            Key::Down | Key::Char('j') => {
                self.move_region_picker(1);
                Command::Nothing
            },
            Key::Enter => {
                let items = self.region_picker_items();
                let choice = if self.region_picker_index < items.len() {
                    items[self.region_picker_index].clone()
                } else {
                    String::from_str("Any")
                };
                self.region_picker_open = false;
                let new_region = if text_is(choice.as_str(), "Any") {
                    None
                } else {
                    Some(choice)
                };
                if same_text(&new_region, &self.selected_region) {
                    return Command::Nothing;
                }
                self.selected_region = new_region;
                let mut line = String::from_str("region filter changed to ");
                match &self.selected_region {
                    Some(r) => line.append(r.as_str()),
                    None => line.append("Any"),
                }
                line.append(" — reconnecting…");
                self.push_system(line);
                if self.can_launch() {
                    self.launch_at(now)
                } else {
                    self.pending_relaunch = true;
                    self.mark_stopping();
                    Command::Stop
                }
            },
            _ => Command::Nothing,
        }
    }

    /// `handle_key` at the given time.
    pub fn handle_key_at(&mut self, key: Key, tunnel_running: bool, now: Instant) -> (c: Command)
        requires
            old(self)@.key_in_range(key),
        ensures
            final(self)@ == old(self)@.after_key(key, tunnel_running, now).0,
            c@ == old(self)@.after_key(key, tunnel_running, now).1,
    {
        if self.region_picker_open {
            return self.handle_region_picker_key(key, now);
        }
        match key {
            Key::Char('q') | Key::Esc => {
                self.should_quit = true;
                Command::Nothing
            },
            Key::Char('s') => if self.can_launch() {
                self.launch_at(now)
            } else {
                Command::Nothing
            },
            Key::Char('x') => if tunnel_running && !matches!(self.state, ConnectionState::Stopping) {
                self.mark_stopping();
                Command::Stop
            } else {
                Command::Nothing
            },
            Key::Char('r') => {
                self.open_region_picker();
                Command::Nothing
            },
            Key::Up | Key::Char('k') => {
                self.scroll_up = self.scroll_up.saturating_add(1);
                Command::Nothing
            },
            Key::Down | Key::Char('j') => {
                self.scroll_up = self.scroll_up.saturating_sub(1);
                Command::Nothing
            },
            Key::PageUp => {
                self.scroll_up = self.scroll_up.saturating_add(10);
                Command::Nothing
            },
            Key::PageDown => {
                self.scroll_up = self.scroll_up.saturating_sub(10);
                Command::Nothing
            },
            Key::End => {
                self.scroll_up = 0;
                Command::Nothing
            },
            Key::Home => {
                self.scroll_up = usize::MAX / 2;
                Command::Nothing
            },
            _ => Command::Nothing,
        }
    }

    /// Handles a key press. `tunnel_running` tells whether the bridge
    /// reports a running tunnel (it decides whether 'x' stops one). With
    /// the region picker open the keys move, apply or close the picker.
    pub fn handle_key(&mut self, key: Key, tunnel_running: bool) -> (c: Command)
        requires
            old(self)@.key_in_range(key),
        ensures
            exists|now: Instant| final(self)@ == old(self)@.after_key(key, tunnel_running, now).0
                && c@ == old(self)@.after_key(key, tunnel_running, now).1,
    {
        let now = current_instant();
        self.handle_key_at(key, tunnel_running, now)
    }

    /// Applies an event from the notice poller.
    pub fn apply_event(&mut self, event: Event)
        ensures
            exists|now: Instant| final(self)@ == old(self)@.after_event(event, now),
    {
        let now = current_instant();
        let ghost e = event;
        match event {
            Event::Notice(n) => self.apply_notice_at(n, now),
            Event::Unparsed(raw) => {
                let mut line = String::from_str("(unparsed) ");
                line.append(raw.as_str());
                self.push_system(line);
            },
        }
        assert(self@ == old(self)@.after_event(e, now));
    }

    /// Relaunches once a stop made for a region change has completed.
    pub fn relaunch_if_pending(&mut self) -> (c: Command)
        ensures
            exists|now: Instant| final(self)@ == old(self)@.relaunch_checked(now).0
                && c@ == old(self)@.relaunch_checked(now).1,
    {
        let now = current_instant();
        let c = if self.pending_relaunch && matches!(self.state, ConnectionState::Stopped) {
            self.pending_relaunch = false;
            self.launch_at(now)
        } else {
            Command::Nothing
        };
        assert(self@ == old(self)@.relaunch_checked(now).0 && c@ == old(self)@.relaunch_checked(now).1);
        c
    }

    /// Records that a stop has been requested.
    pub fn mark_stopping(&mut self)
        ensures
            final(self)@ == old(self)@.stopping(),
    {
        self.state = ConnectionState::Stopping;
    }
}

} // verus!
