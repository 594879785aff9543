//! Properties of the application state machine that span its operations.

use vstd::prelude::*;
use std::time::Instant;
use crate::app::{AppView, Key, CommandView, StateView, LogEntry, MAX_LOG_LINES, bounded_push,
    as_signed, position};
use crate::psiphon::{Event, launch_request};
use crate::notice::{Notice, text_or, severity_of, summary_of};
use crate::json::{str_member, i64_member, u64_member};
use crate::json::strings_member;
use crate::text::sort_texts;
use crate::text::{is_sorted, lemma_sort_texts};

verus! {

/// Adding a line to a log of at most `MAX_LOG_LINES` lines keeps it at
/// most that long, puts the line last, and drops nothing but the oldest
/// line.
pub proof fn log_push_keeps_bound(log: Seq<LogEntry>, e: LogEntry)
    requires
        log.len() <= MAX_LOG_LINES,
    ensures
        bounded_push(log, e).len() <= MAX_LOG_LINES,
        bounded_push(log, e).last() == e,
        bounded_push(log, e) == log.push(e) || bounded_push(log, e) == log.push(e).drop_first(),
{
}

/// No step of the application lets the log grow beyond `MAX_LOG_LINES`
/// lines: a fresh state starts within the bound, and no notice, event, key
/// press, launch, relaunch check or added line takes it out.
pub proof fn log_stays_bounded(v: AppView, n: Notice, e: Event, key: Key, running: bool, now: Instant,
    line: LogEntry, config_path: Seq<char>, server_list_path: Seq<char>, data_root_directory: Seq<char>)
    requires
        v.wf(),
    ensures
        AppView::initial(config_path, server_list_path, data_root_directory).wf(),
        v.with_line(line).wf(),
        v.after_notice(n, now).wf(),
        v.after_event(e, now).wf(),
        v.after_key(key, running, now).0.wf(),
        v.launched(now).0.wf(),
        v.relaunch_checked(now).0.wf(),
{
}

/// A line the bridge sent that is not a notice is logged as information,
/// untimestamped, as "(unparsed) " followed by the line; nothing else
/// changes.
pub proof fn unparsed_lines_are_logged(v: AppView, line: String, now: Instant)
    requires
        v.wf(),
    ensures
        v.after_event(Event::Unparsed(line), now) == (AppView {
            log: bounded_push(v.log, LogEntry {
                timestamp: Seq::empty(),
                severity: crate::notice::Severity::Info,
                text: "(unparsed) "@ + line@,
            }),
            ..v
        }),
{
}

/// A relaunch check does nothing unless a relaunch is pending and the old
/// tunnel has stopped; then it clears the pending relaunch and launches
/// exactly as 's' would.
pub proof fn relaunch_waits_for_stop(v: AppView, now: Instant)
    ensures
        !(v.pending_relaunch && v.state is Stopped) ==> v.relaunch_checked(now) == (v, CommandView::Nothing),
        v.pending_relaunch && v.state is Stopped ==> {
            &&& v.relaunch_checked(now) == (AppView { pending_relaunch: false, ..v }).launched(now)
            &&& v.relaunch_checked(now).0.pending_relaunch == false
            &&& v.relaunch_checked(now).0.state is Starting || v.relaunch_checked(now).0.state is Failed
        },
{
}

/// A notice of type `t`.
pub open spec fn is_type(n: Notice, t: Seq<char>) -> bool {
    n.notice_type@ == t
}

/// "BridgeError" is always fatal to the current attempt; "Error" is fatal
/// only while no tunnel is up, and otherwise leaves the connection state
/// alone. Both are kept as the last error.
pub proof fn error_notices(v: AppView, n: Notice, now: Instant)
    ensures
        is_type(n, "BridgeError"@) ==> v.after_notice(n, now).state == StateView::Failed(
            crate::notice::summary_of(n)),
        is_type(n, "BridgeError"@) || is_type(n, "Error"@) ==> v.after_notice(n, now).last_error == Some(
            crate::notice::summary_of(n)),
        is_type(n, "Error"@) && v.tunnels_count != 0 ==> v.after_notice(n, now).state == v.state,
        is_type(n, "Error"@) && v.tunnels_count == 0 ==> v.after_notice(n, now).state == StateView::Failed(
            crate::notice::summary_of(n)),
{
    crate::notice::lemma_notice_type_texts();
    let t = n.notice_type@;
    if t == "Error"@ {
        assert(t != "BridgeError"@);
    }
}

/// A tunnel count above zero means connected; a count of zero or below
/// (or none) while connected means reconnecting, with no protocol in use.
pub proof fn tunnel_count_drives_state(v: AppView, n: Notice, now: Instant)
    requires
        is_type(n, "Tunnels"@),
    ensures
        match crate::json::i64_member(n.data, "count"@) {
            Some(c) => c > 0 ==> v.after_notice(n, now).state == StateView::Connected
                && v.after_notice(n, now).tunnels_count == c,
            None => true,
        },
        !(crate::json::i64_member(n.data, "count"@) matches Some(c) && c > 0) && v.state is Connected ==> {
            &&& v.after_notice(n, now).state == StateView::Reconnecting
            &&& v.after_notice(n, now).active_protocol is None
        },
{
    crate::notice::lemma_notice_type_texts();
}

/// The log line a notice is recorded with.
pub open spec fn notice_line(n: Notice) -> LogEntry {
    LogEntry { timestamp: n.timestamp@, severity: severity_of(n.notice_type@),
        text: summary_of(n) }
}

/// Every notice is logged with its timestamp, severity and summary as the
/// newest line, whatever its type.
pub proof fn notices_are_logged(v: AppView, n: Notice, now: Instant)
    requires
        v.wf(),
    ensures
        v.after_notice(n, now).log.last() == notice_line(n),
        v.after_notice(n, now).log == bounded_push(v.log, notice_line(n)),
{
    crate::notice::lemma_notice_type_texts();
}

/// "ConnectingServer" and "RequestingTactics" mean connecting, unless a
/// tunnel is already up: from any state but Connected (Starting included)
/// the state becomes Connecting, and nothing else but the log changes.
pub proof fn connecting_notices(v: AppView, n: Notice, now: Instant)
    requires
        is_type(n, "ConnectingServer"@) || is_type(n, "RequestingTactics"@),
    ensures
        v.state is Connected ==> v.after_notice(n, now).state == StateView::Connected,
        !(v.state is Connected) ==> v.after_notice(n, now).state == StateView::Connecting,
        v.state is Starting ==> v.after_notice(n, now).state == StateView::Connecting,
        v.after_notice(n, now) == (AppView { state: v.after_notice(n, now).state, log: v.after_notice(n, now).log, ..v }),
{
    crate::notice::lemma_notice_type_texts();
}

/// "BridgeStarting" records the start time when none is recorded yet, and
/// changes nothing else but the log.
pub proof fn bridge_starting_notice(v: AppView, n: Notice, now: Instant)
    requires
        is_type(n, "BridgeStarting"@),
    ensures
        v.started_at is None ==> v.after_notice(n, now).started_at == Some(now),
        v.started_at is Some ==> v.after_notice(n, now).started_at == v.started_at,
        v.after_notice(n, now) == (AppView { started_at: v.after_notice(n, now).started_at,
            log: v.after_notice(n, now).log, ..v }),
{
    crate::notice::lemma_notice_type_texts();
}

/// "Tunnels" records the reported count (zero when there is none); a
/// first count above zero sets the connection time.
pub proof fn tunnels_notice(v: AppView, n: Notice, now: Instant)
    requires
        is_type(n, "Tunnels"@),
    ensures
        v.after_notice(n, now).tunnels_count == match i64_member(n.data, "count"@) {
            Some(c) => c,
            None => 0,
        },
        v.after_notice(n, now).tunnels_count > 0 && !(v.state is Connected)
            ==> v.after_notice(n, now).connected_at == Some(now),
        v.state is Connected ==> v.after_notice(n, now).connected_at == v.connected_at,
        v.after_notice(n, now).tunnels_count <= 0 && !(v.state is Connected)
            ==> v.after_notice(n, now).state == v.state,
        v.after_notice(n, now).selected_region == v.selected_region,
        v.after_notice(n, now).last_error == v.last_error,
{
    crate::notice::lemma_notice_type_texts();
}

/// The notices that report one value store it (or its absence), and
/// change nothing else but the log.
pub proof fn reporting_notices(v: AppView, n: Notice, now: Instant)
    ensures
        ({
            let w = v.after_notice(n, now);
            let d = n.data;
            &&& is_type(n, "ActiveTunnel"@) ==> w == (AppView { active_protocol: str_member(d, "protocol"@),
                log: w.log, ..v })
            &&& is_type(n, "ListeningSocksProxyPort"@) ==> w == (AppView {
                socks_port: match u64_member(d, "port"@) { Some(p) => Some(p as u16), None => None },
                log: w.log, ..v })
            &&& is_type(n, "ListeningHttpProxyPort"@) ==> w == (AppView {
                http_port: match u64_member(d, "port"@) { Some(p) => Some(p as u16), None => None },
                log: w.log, ..v })
            &&& is_type(n, "ClientRegion"@) ==> w == (AppView { client_region: str_member(d, "region"@),
                log: w.log, ..v })
            &&& is_type(n, "ConnectedServerRegion"@) ==> w == (AppView {
                server_region: str_member(d, "serverRegion"@), log: w.log, ..v })
            &&& is_type(n, "SessionId"@) ==> w == (AppView { session_id: str_member(d, "sessionId"@),
                log: w.log, ..v })
        }),
{
    crate::notice::lemma_notice_type_texts();
}

/// "Homepage" adds its URL to the homepages when it has one;
/// "TotalBytesTransferred" records the totals it holds; "AvailableEgressRegions"
/// replaces the regions when it holds a list. Nothing else but the log changes.
pub proof fn collecting_notices(v: AppView, n: Notice, now: Instant)
    ensures
        ({
            let w = v.after_notice(n, now);
            let d = n.data;
            &&& is_type(n, "Homepage"@) ==> w == (AppView {
                homepages: match str_member(d, "url"@) { Some(u) => v.homepages.push(u), None => v.homepages },
                log: w.log, ..v })
            &&& is_type(n, "TotalBytesTransferred"@) ==> w == (AppView {
                total_sent: match i64_member(d, "sent"@) { Some(x) => x, None => v.total_sent },
                total_received: match i64_member(d, "received"@) { Some(x) => x, None => v.total_received },
                log: w.log, ..v })
            &&& is_type(n, "AvailableEgressRegions"@) ==> w == (AppView {
                available_regions: match strings_member(d, "regions"@) {
                    Some(r) => sort_texts(r),
                    None => v.available_regions,
                },
                log: w.log, ..v })
        }),
{
    crate::notice::lemma_notice_type_texts();
}

/// A notice of any other type only adds its line to the log.
pub proof fn other_notices_only_log(v: AppView, n: Notice, now: Instant)
    requires
        !(is_type(n, "BridgeStarting"@) || is_type(n, "ConnectingServer"@) || is_type(n, "RequestingTactics"@)
            || is_type(n, "Tunnels"@) || is_type(n, "ActiveTunnel"@) || is_type(n, "ListeningSocksProxyPort"@)
            || is_type(n, "ListeningHttpProxyPort"@) || is_type(n, "ClientRegion"@)
            || is_type(n, "AvailableEgressRegions"@) || is_type(n, "ConnectedServerRegion"@)
            || is_type(n, "Homepage"@) || is_type(n, "SessionId"@) || is_type(n, "TotalBytesTransferred"@)
            || is_type(n, "BridgeStopped"@) || is_type(n, "BridgeError"@) || is_type(n, "Error"@)),
    ensures
        v.after_notice(n, now) == (AppView { log: bounded_push(v.log, notice_line(n)), ..v }),
{
}

/// The regions the engine reports are listed in ascending order, each as
/// often as it was reported.
pub proof fn reported_regions_sorted(v: AppView, n: Notice, now: Instant)
    requires
        is_type(n, "AvailableEgressRegions"@),
        strings_member(n.data, "regions"@) is Some,
    ensures
        is_sorted(v.after_notice(n, now).available_regions),
        v.after_notice(n, now).available_regions.to_multiset()
            == strings_member(n.data, "regions"@)->0.to_multiset(),
{
    crate::notice::lemma_notice_type_texts();
    let t = n.notice_type@;
    assert(t[0] == 'A');
    assert(t != "ListeningHttpProxyPort"@);
    lemma_sort_texts(strings_member(n.data, "regions"@)->0);
}

/// Once the bridge reports the tunnel stopped, the state is Stopped with
/// no proxy ports, tunnels or protocol, and a pending relaunch is kept.
pub proof fn bridge_stopped_clears(v: AppView, n: Notice, now: Instant)
    requires
        is_type(n, "BridgeStopped"@),
    ensures
        v.after_notice(n, now).state == StateView::Stopped,
        v.after_notice(n, now).socks_port is None,
        v.after_notice(n, now).http_port is None,
        v.after_notice(n, now).tunnels_count == 0,
        v.after_notice(n, now).active_protocol is None,
        v.after_notice(n, now).pending_relaunch == v.pending_relaunch,
        v.after_notice(n, now).selected_region == v.selected_region,
{
    crate::notice::lemma_notice_type_texts();
}

/// The region filter the picker entry `choice` stands for.
pub open spec fn filter_of(choice: Seq<char>) -> Option<Seq<char>> {
    if choice == "Any"@ { None } else { Some(choice) }
}

/// Choosing another region while a tunnel is up or on its way stops it
/// and leaves a relaunch pending; once the bridge reports the tunnel
/// stopped, the relaunch goes ahead with the new region as the egress
/// region, with nothing more from the user.
pub proof fn region_change_relaunches(v: AppView, running: bool, n: Notice, t0: Instant,
    t1: Instant, t2: Instant)
    requires
        v.region_picker_open,
        !v.can_launch(),
        filter_of(v.picker_choice()) != v.selected_region,
        is_type(n, "BridgeStopped"@),
    ensures
        ({
            let region = filter_of(v.picker_choice());
            let (v1, c1) = v.after_key(Key::Enter, running, t0);
            let v2 = v1.after_notice(n, t1);
            let (v3, c3) = v2.relaunch_checked(t2);
            &&& c1 == CommandView::Stop
            &&& v1.state is Stopping
            &&& v1.pending_relaunch
            &&& v1.selected_region == region
            &&& v2.state is Stopped
            &&& v2.pending_relaunch
            &&& !v3.pending_relaunch
            &&& v3.selected_region == region
            &&& c3 == match launch_request(v.config_path, v.server_list_path, v.data_root_directory,
                text_or(region, Seq::empty())) {
                Ok(r) => CommandView::Launch(r),
                Err(_) => CommandView::Nothing,
            }
        }),
{
    let (v1, c1) = v.after_key(Key::Enter, running, t0);
    bridge_stopped_clears(v1, n, t1);
}

/// Choosing another region while no tunnel is up or on its way launches
/// at once with the new region as the egress region.
pub proof fn region_change_launches(v: AppView, running: bool, t0: Instant)
    requires
        v.region_picker_open,
        v.can_launch(),
        filter_of(v.picker_choice()) != v.selected_region,
    ensures
        ({
            let region = filter_of(v.picker_choice());
            let (v1, c1) = v.after_key(Key::Enter, running, t0);
            &&& !v1.pending_relaunch || v.pending_relaunch
            &&& v1.selected_region == region
            &&& c1 == match launch_request(v.config_path, v.server_list_path, v.data_root_directory,
                text_or(region, Seq::empty())) {
                Ok(r) => CommandView::Launch(r),
                Err(_) => CommandView::Nothing,
            }
        }),
{
}

/// With the region picker closed, 'q' and Esc set the quit flag and do
/// nothing else; 'r' opens the picker; the scrolling keys move the view by
/// one line (arrows, 'k'/'j') or ten (page keys), never past zero or
/// `usize::MAX`; End returns to the latest line, Home scrolls to the top;
/// Enter and keys without a meaning change nothing.
pub proof fn keys_with_picker_closed(v: AppView, key: Key, running: bool, now: Instant)
    requires
        !v.region_picker_open,
    ensures
        ({
            let (w, c) = v.after_key(key, running, now);
            &&& (key == Key::Char('q') || key == Key::Esc) ==> w == (AppView { should_quit: true, ..v })
                && c == CommandView::Nothing
            &&& key == Key::Char('r') ==> w == v.picker_opened() && c == CommandView::Nothing
            &&& (key == Key::Up || key == Key::Char('k')) ==> c == CommandView::Nothing && w == (AppView {
                scroll_up: if v.scroll_up < usize::MAX { (v.scroll_up + 1) as usize } else { usize::MAX }, ..v })
            &&& (key == Key::Down || key == Key::Char('j')) ==> c == CommandView::Nothing && w == (AppView {
                scroll_up: if v.scroll_up > 0 { (v.scroll_up - 1) as usize } else { 0 }, ..v })
            &&& key == Key::PageUp ==> c == CommandView::Nothing && w == (AppView {
                scroll_up: if v.scroll_up <= usize::MAX - 10 { (v.scroll_up + 10) as usize } else { usize::MAX },
                ..v })
            &&& key == Key::PageDown ==> c == CommandView::Nothing && w == (AppView {
                scroll_up: if v.scroll_up >= 10 { (v.scroll_up - 10) as usize } else { 0 }, ..v })
            &&& key == Key::End ==> c == CommandView::Nothing && w == (AppView { scroll_up: 0, ..v })
            &&& key == Key::Home ==> c == CommandView::Nothing && w == (AppView {
                scroll_up: (usize::MAX / 2) as usize, ..v })
            &&& (key == Key::Enter || key == Key::Other || key == Key::Char('z')) ==> w == v
                && c == CommandView::Nothing
        }),
{
}

/// With the region picker open, 'q' and Esc close it and do nothing else
/// (the program does not quit); the arrows and 'k'/'j' move the selection
/// to the previous or next entry, wrapping around at the ends; keys other
/// than these and Enter change nothing.
pub proof fn keys_with_picker_open(v: AppView, key: Key, running: bool, now: Instant)
    requires
        v.region_picker_open,
        v.region_picker_index < v.picker_items().len(),
        v.picker_items().len() <= isize::MAX,
    ensures
        (key == Key::Char('q') || key == Key::Esc) ==> v.after_key(key, running, now) == (
            AppView { region_picker_open: false, ..v }, CommandView::Nothing),
        (key == Key::Up || key == Key::Char('k')) ==> v.after_key(key, running, now) == (AppView {
            region_picker_index: if v.region_picker_index == 0 { (v.picker_items().len() - 1) as usize } else {
                (v.region_picker_index - 1) as usize }, ..v }, CommandView::Nothing),
        (key == Key::Down || key == Key::Char('j')) ==> v.after_key(key, running, now) == (AppView {
            region_picker_index: if v.region_picker_index == v.picker_items().len() - 1 { 0 } else {
                (v.region_picker_index + 1) as usize }, ..v }, CommandView::Nothing),
        (key == Key::Char('s') || key == Key::Char('x') || key == Key::Char('r') || key == Key::Home
            || key == Key::End || key == Key::PageUp || key == Key::PageDown || key == Key::Other)
            ==> v.after_key(key, running, now) == (v, CommandView::Nothing),
{
    let len = v.picker_items().len() as int;
    let i = v.region_picker_index as int;
    assert(as_signed(v.region_picker_index) == i);
    if i == 0 {
        vstd::arithmetic::div_mod::lemma_fundamental_div_mod_converse(-1, len, -1, len - 1);
    } else {
        vstd::arithmetic::div_mod::lemma_fundamental_div_mod_converse(i - 1, len, 0, i - 1);
    }
    if i == len - 1 {
        vstd::arithmetic::div_mod::lemma_fundamental_div_mod_converse(len, len, 1, 0);
    } else {
        vstd::arithmetic::div_mod::lemma_fundamental_div_mod_converse(i + 1, len, 0, i + 1);
    }
}

/// Confirming the entry of the current filter closes the picker and does
/// nothing else.
pub proof fn confirming_current_filter_changes_nothing(v: AppView, running: bool, now: Instant)
    requires
        v.region_picker_open,
        filter_of(v.picker_choice()) == v.selected_region,
    ensures
        v.after_key(Key::Enter, running, now) == (AppView { region_picker_open: false, ..v }, CommandView::Nothing),
{
}

/// The picker lists "Any" first, then the reported regions in order.
pub proof fn picker_lists_any_then_regions(v: AppView)
    ensures
        v.picker_items().len() == v.available_regions.len() + 1,
        v.picker_items()[0] == "Any"@,
        forall|i: int| 0 <= i < v.available_regions.len() ==> v.picker_items()[i + 1] == v.available_regions[i],
{
}

/// Opening the picker puts the selection on the first entry equal to the
/// applied filter, or on "Any" when there is no filter or it is not listed.
pub proof fn opening_selects_current_filter(v: AppView)
    requires
        v.available_regions.len() < usize::MAX,
    ensures
        v.picker_opened().region_picker_open,
        v.picker_opened() == (AppView { region_picker_open: true,
            region_picker_index: v.picker_opened().region_picker_index, ..v }),
        v.selected_region is None ==> v.picker_opened().region_picker_index == 0,
        match v.selected_region {
            Some(r) => {
                ||| (v.picker_opened().region_picker_index < v.picker_items().len()
                    && v.picker_items()[v.picker_opened().region_picker_index as int] == r
                    && forall|j: int| 0 <= j < v.picker_opened().region_picker_index ==> v.picker_items()[j] != r)
                ||| (!v.picker_items().contains(r) && v.picker_opened().region_picker_index == 0)
            },
            None => true,
        },
{
    match v.selected_region {
        Some(r) => {
            lemma_position(v.picker_items(), r);
            lemma_position_first(v.picker_items(), r);
        },
        None => {},
    }
}

proof fn lemma_position_first(s: Seq<Seq<char>>, x: Seq<char>)
    ensures
        position(s, x) matches Some(i) ==> forall|j: int| 0 <= j < i ==> s[j] != x,
        position(s, x) is None ==> !s.contains(x),
    decreases s.len(),
{
    lemma_position(s, x);
    if s.len() > 0 {
        lemma_position_first(s.drop_first(), x);
        if position(s, x) is None && s.contains(x) {
            let k = choose|k: int| 0 <= k < s.len() && s[k] == x;
            assert(s.drop_first()[k - 1] == x);
        }
        match position(s, x) {
            Some(i) => {
                assert forall|j: int| 0 <= j < i implies s[j] != x by {
                    if j > 0 {
                        assert(s[j] == s.drop_first()[j - 1]);
                    }
                }
            },
            None => {},
        }
    }
}

proof fn lemma_position(s: Seq<Seq<char>>, x: Seq<char>)
    ensures
        position(s, x) matches Some(i) ==> 0 <= i < s.len() && s[i] == x,
        s.contains(x) ==> position(s, x) is Some,
    decreases s.len(),
{
    if s.len() > 0 {
        lemma_position(s.drop_first(), x);
        if s.contains(x) && s[0] != x {
            let k = choose|k: int| 0 <= k < s.len() && s[k] == x;
            assert(s.drop_first()[k - 1] == x);
        }
    }
}

/// Opening the region picker and confirming at once keeps the filter and
/// does not touch the tunnel, when the applied filter is listed (or none).
pub proof fn reopening_keeps_filter(v: AppView, running: bool, now: Instant)
    requires
        v.available_regions.len() < usize::MAX,
        match v.selected_region {
            Some(r) => v.available_regions.contains(r) && r != "Any"@,
            None => true,
        },
    ensures
        v.picker_opened().region_picker_open,
        v.picker_opened().after_key(Key::Enter, running, now).1 == CommandView::Nothing,
        v.picker_opened().after_key(Key::Enter, running, now).0.selected_region == v.selected_region,
        v.picker_opened().after_key(Key::Enter, running, now).0.state == v.state,
        !v.picker_opened().after_key(Key::Enter, running, now).0.region_picker_open,
{
    let items = v.picker_items();
    match v.selected_region {
        Some(r) => {
            let k = choose|k: int| 0 <= k < v.available_regions.len() && v.available_regions[k] == r;
            assert(items[k + 1] == r);
            assert(items.contains(r));
            lemma_position(items, r);
            let i = position(items, r)->0;
            assert(v.picker_opened().region_picker_index == i);
            assert(v.picker_opened().picker_choice() == r);
        },
        None => {},
    }
}

/// Moving the picker selection keeps it on an entry, and moving back by
/// the same amount returns to where it was.
pub proof fn picker_move_round_trip(v: AppView, d: int)
    requires
        v.region_picker_index < v.picker_items().len(),
        v.picker_items().len() <= isize::MAX,
        isize::MIN <= v.region_picker_index + d <= isize::MAX,
        isize::MIN <= v.picker_items().len() - d,
        isize::MAX + d >= v.picker_items().len(),
    ensures
        v.picker_moved(d).region_picker_index < v.picker_items().len(),
        v.picker_moved(d).picker_moved(-d).region_picker_index == v.region_picker_index,
{
    let l = v.picker_items().len() as int;
    let i = v.region_picker_index as int;
    assert(as_signed(v.region_picker_index) == i);
    let j = (i + d) % l;
    vstd::arithmetic::div_mod::lemma_fundamental_div_mod(i + d, l);
    let q = (i + d) / l;
    assert(0 <= j < l);
    let w = v.picker_moved(d);
    assert(w.region_picker_index == j);
    assert(as_signed(w.region_picker_index) == j);
    assert(j - d == (-q) * l + i) by (nonlinear_arith)
        requires
            i + d == q * l + j,
    ;
    vstd::arithmetic::div_mod::lemma_fundamental_div_mod_converse(j - d, l, -q, i);
}

/// 's' launches only when no tunnel is up, on its way or tearing down; at
/// any other time it changes nothing.
pub proof fn start_key_only_when_safe(v: AppView, running: bool, now: Instant)
    requires
        !v.region_picker_open,
    ensures
        v.can_launch() ==> v.after_key(Key::Char('s'), running, now) == v.launched(now),
        !v.can_launch() ==> v.after_key(Key::Char('s'), running, now) == (v, CommandView::Nothing),
{
}

/// 'x' requests a stop only while the bridge reports a running tunnel and
/// no stop is under way; at any other time it changes nothing.
pub proof fn stop_key_only_when_running(v: AppView, running: bool, now: Instant)
    requires
        !v.region_picker_open,
    ensures
        running && !(v.state is Stopping) ==> v.after_key(Key::Char('x'), running, now) == (v.stopping(),
            CommandView::Stop),
        !(running && !(v.state is Stopping)) ==> v.after_key(Key::Char('x'), running, now) == (v,
            CommandView::Nothing),
{
}

/// A launch marks the state starting and clears what the previous attempt
/// left (ports, tunnel count, last error, protocol); it goes ahead exactly
/// when the paths and the region hold no NUL character, with the selected
/// region as the egress region.
pub proof fn launch_goes_ahead_when_arguments_pass(v: AppView, now: Instant)
    ensures
        ({
            let (w, c) = v.launched(now);
            let req = launch_request(v.config_path, v.server_list_path, v.data_root_directory,
                text_or(v.selected_region, Seq::empty()));
            &&& w.started_at == Some(now)
            &&& w.socks_port is None && w.http_port is None
            &&& w.tunnels_count == 0
            &&& w.active_protocol is None
            &&& (req is Ok <==> c is Launch)
            &&& req is Ok ==> w.state is Starting && w.last_error is None
            &&& req is Err ==> w.state is Failed
        }),
{
}

} // verus!
