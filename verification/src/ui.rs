//! The computations behind the terminal interface's drawing: the colour
//! family of each connection state, the texts of the panels, the slice of
//! the log that fits, and the placement of the region picker popup.

use vstd::prelude::*;
use crate::app::{App, ConnectionState, StateView, opt_text};
use crate::text::{format_u64, decimal, char_position, text_is, lemma_position_absent, lemma_position_after};

verus! {

/// The colour family a connection state is drawn in.
#[derive(Debug, Clone, Copy, PartialEq, Eq, Structural)]
pub enum Tone {
    /// Nothing is happening (grey).
    Quiet,
    /// Something is under way (yellow).
    Pending,
    /// Connected (green).
    Up,
    /// Failed (red).
    Down,
}

/// The colour family of a connection state.
pub open spec fn tone_of(s: StateView) -> Tone {
    match s {
        StateView::Idle | StateView::Stopped => Tone::Quiet,
        StateView::Starting | StateView::Connecting | StateView::Reconnecting | StateView::Stopping => Tone::Pending,
        StateView::Connected => Tone::Up,
        StateView::Failed(_) => Tone::Down,
    }
}

/// The colour family a connection state is drawn in.
pub fn state_tone(state: &ConnectionState) -> (t: Tone)
    ensures
        t == tone_of(state@),
{
    match state {
        ConnectionState::Idle => Tone::Quiet,
        ConnectionState::Starting | ConnectionState::Connecting => Tone::Pending,
        ConnectionState::Connected => Tone::Up,
        ConnectionState::Reconnecting => Tone::Pending,
        ConnectionState::Stopping => Tone::Pending,
        ConnectionState::Stopped => Tone::Quiet,
        ConnectionState::Failed(_) => Tone::Down,
    }
}

/// A path as shown in the header: "(none)" when it is empty.
pub fn display_or(s: &str) -> (r: &str)
    ensures
        r@ == (if s@.len() == 0 { "(none)"@ } else { s@ }),
{
    if s.unicode_len() == 0 {
        "(none)"
    } else {
        s
    }
}

/// The text of a local proxy port: its loopback address, or "-".
pub open spec fn port_text(p: Option<u16>) -> Seq<char> {
    match p {
        Some(p) => "127.0.0.1:"@ + decimal(p as nat),
        None => "-"@,
    }
}

/// The text of a local proxy port: its loopback address, or "-".
pub fn opt_port(p: Option<u16>) -> (s: String)
    ensures
        s@ == port_text(p),
{
    match p {
        Some(p) => {
            let mut s = String::from_str("127.0.0.1:");
            let d = format_u64(p as u64);
            s.append(d.as_str());
            s
        },
        None => String::from_str("-"),
    }
}

/// Whether `c` ends the time of day in an RFC 3339 timestamp: the start
/// of the fraction of a second, the UTC mark, or a time-zone offset.
pub open spec fn ends_time(c: char) -> bool {
    c == '.' || c == 'Z' || c == '+' || c == '-'
}

/// The position of the first character of `s` that ends the time of
/// day, or the length of `s`.
pub open spec fn time_end(s: Seq<char>) -> int
    decreases s.len(),
{
    if s.len() == 0 {
        0
    } else if ends_time(s[0]) {
        0
    } else {
        time_end(s.drop_first()) + 1
    }
}

/// The time-of-day part of an RFC 3339 timestamp: what follows the first
/// 'T', up to the first '.', 'Z', '+' or '-'. A text without 'T' is kept
/// whole.
pub open spec fn short_timestamp_of(ts: Seq<char>) -> Seq<char> {
    match char_position(ts, 'T') {
        Some(t) => {
            let rest = ts.skip(t + 1);
            rest.take(time_end(rest))
        },
        None => ts,
    }
}

/// The time-of-day part of an RFC 3339 timestamp, to keep log lines compact.
pub fn short_timestamp(ts: &str) -> (r: &str)
    ensures
        r@ == short_timestamp_of(ts@),
{
    let n = ts.unicode_len();
    let mut t: usize = 0;
    assert(ts@.skip(0) =~= ts@);
    while t < n && ts.get_char(t) != 'T'
        invariant
            n == ts@.len(),
            t <= n,
            char_position(ts@, 'T') == match char_position(ts@.skip(t as int), 'T') {
                Some(j) => Some(j + t),
                None => None,
            },
        decreases n - t,
    {
        assert(ts@.skip(t as int)[0] == ts@[t as int]);
        assert(ts@.skip(t as int).drop_first() =~= ts@.skip(t + 1));
        t = t + 1;
    }
    if t == n {
        assert(ts@.skip(t as int) =~= Seq::<char>::empty());
        return ts;
    }
    assert(ts@.skip(t as int)[0] == ts@[t as int]);
    let ghost rest = ts@.skip(t + 1);
    let mut e: usize = t + 1;
    assert(rest.skip(0) =~= rest);
    while e < n && !(ts.get_char(e) == '.' || ts.get_char(e) == 'Z' || ts.get_char(e) == '+'
        || ts.get_char(e) == '-')
        invariant
            n == ts@.len(),
            t < n,
            t + 1 <= e <= n,
            rest == ts@.skip(t + 1),
            time_end(rest) == time_end(rest.skip(e - t - 1)) + (e - t - 1),
        decreases n - e,
    {
        assert(rest.skip(e - t - 1)[0] == ts@[e as int]);
        assert(rest.skip(e - t - 1).drop_first() =~= rest.skip(e - t));
        e = e + 1;
    }
    proof {
        if e < n {
            assert(rest.skip(e - t - 1)[0] == ts@[e as int]);
        } else {
            assert(rest.skip(e - t - 1) =~= Seq::<char>::empty());
        }
        assert(ts@.subrange(t + 1, e as int) =~= rest.take(time_end(rest)));
    }
    ts.substring_char(t + 1, e)
}

proof fn lemma_time_end(time: Seq<char>, rest: Seq<char>)
    requires
        forall|i: int| 0 <= i < time.len() ==> !ends_time(#[trigger] time[i]),
        rest.len() == 0 || ends_time(rest[0]),
    ensures
        time_end(time + rest) == time.len(),
    decreases time.len(),
{
    if time.len() == 0 {
        assert(time + rest =~= rest);
    } else {
        assert((time + rest)[0] == time[0]);
        assert((time + rest).drop_first() =~= time.drop_first() + rest);
        assert forall|i: int| 0 <= i < time.drop_first().len() implies !ends_time(
            #[trigger] time.drop_first()[i]) by {
            assert(time.drop_first()[i] == time[i + 1]);
        }
        lemma_time_end(time.drop_first(), rest);
    }
}

/// The time-of-day part of a timestamp made of a date without 'T', a 'T',
/// a time holding none of '.', 'Z', '+' and '-', and a rest that is empty
/// or starts with one of them, is the time; a text without 'T' is kept
/// whole.
pub proof fn short_timestamp_is_time_of_day(date: Seq<char>, time: Seq<char>, rest: Seq<char>)
    requires
        !date.contains('T'),
        forall|i: int| 0 <= i < time.len() ==> !ends_time(#[trigger] time[i]),
        rest.len() == 0 || ends_time(rest[0]),
    ensures
        short_timestamp_of(date + seq!['T'] + time + rest) == time,
        short_timestamp_of(date) == date,
{
    let ts = date + seq!['T'] + time + rest;
    assert(ts =~= date + seq!['T'] + (time + rest));
    lemma_position_after(date, 'T', time + rest);
    assert(ts.skip(date.len() as int + 1) =~= time + rest);
    lemma_time_end(time, rest);
    assert((time + rest).take(time.len() as int) =~= time);
    lemma_position_absent(date, 'T');
}

/// Connected is drawn as up and a failure as down; idle and stopped are
/// quiet; starting, connecting, reconnecting and stopping are pending.
pub proof fn tones(s: StateView)
    ensures
        (tone_of(s) == Tone::Up) == (s is Connected),
        (tone_of(s) == Tone::Down) == (s is Failed),
        (tone_of(s) == Tone::Quiet) == (s is Idle || s is Stopped),
        (tone_of(s) == Tone::Pending) == (s is Starting || s is Connecting || s is Reconnecting
            || s is Stopping),
{
}

/// The part of the log a pane shows: the first and one-past-last line,
/// and how far the view is scrolled up once clamped to the log.
pub struct LogWindow {
    pub start: usize,
    pub end: usize,
    pub scroll_up: usize,
}

/// `a - b`, or zero when that is negative.
pub open spec fn minus(a: int, b: int) -> int {
    if a < b { 0 } else { a - b }
}

/// The lines shown by a log pane `area_height` rows high (two of them are
/// borders) over a log of `total` lines, scrolled up by `scroll_up` lines.
/// The pane never shows more lines than it has rows, is full whenever the
/// log has enough lines, and when not scrolled ends at the newest line.
pub fn log_window(total: usize, area_height: u16, scroll_up: usize) -> (w: LogWindow)
    ensures
        ({
            let inner = minus(area_height as int, 2);
            let scroll = if scroll_up <= minus(total as int, inner) { scroll_up as int } else { minus(total as int, inner) };
            &&& w.scroll_up == scroll
            &&& w.end == total - scroll
            &&& w.start == minus(total - scroll, inner)
        }),
        w.start <= w.end <= total,
        w.end - w.start <= minus(area_height as int, 2),
        total >= minus(area_height as int, 2) ==> w.end - w.start == minus(area_height as int, 2),
        scroll_up == 0 ==> w.end == total,
{
    let inner_height = area_height.saturating_sub(2) as usize;
    let max_scroll = total.saturating_sub(inner_height);
    let scroll = if scroll_up <= max_scroll { scroll_up } else { max_scroll };
    let end = total - scroll;
    let start = end.saturating_sub(inner_height);
    LogWindow { start, end, scroll_up: scroll }
}

/// The title of the log pane for a view scrolled up by `scroll_up` lines.
pub open spec fn log_title_of(scroll_up: usize) -> Seq<char> {
    if scroll_up > 0 {
        " Log (scrolled, "@ + decimal(scroll_up as nat) + " from bottom — End to jump to live) "@
    } else {
        " Log (live) "@
    }
}

/// The title of the log pane for a view scrolled up by `scroll_up` lines.
pub fn log_title(scroll_up: usize) -> (s: String)
    ensures
        s@ == log_title_of(scroll_up),
{
    if scroll_up > 0 {
        let mut s = String::from_str(" Log (scrolled, ");
        let n = format_u64(scroll_up as u64);
        s.append(n.as_str());
        s.append(" from bottom — End to jump to live) ");
        s
    } else {
        String::from_str(" Log (live) ")
    }
}

/// A rectangle of terminal cells.
#[derive(Debug, Clone, Copy, PartialEq, Eq, Structural)]
pub struct Area {
    pub x: u16,
    pub y: u16,
    pub width: u16,
    pub height: u16,
}

/// The smaller of two numbers.
pub open spec fn least(a: u16, b: u16) -> u16 {
    if a <= b { a } else { b }
}

/// Whether a `width` x `height` box can be centred in `area` without the
/// coordinates leaving `u16`.
pub open spec fn centering_fits(width: u16, height: u16, area: Area) -> bool {
    &&& area.x + (area.width - least(width, area.width)) / 2 <= u16::MAX
    &&& area.y + (area.height - least(height, area.height)) / 2 <= u16::MAX
}

/// A `width` x `height` box (clipped to `area`) centred within `area`:
/// it lies within the area, with the space left over split evenly on both
/// sides (the odd cell going right or below).
pub fn centered_rect(width: u16, height: u16, area: Area) -> (r: Area)
    requires
        centering_fits(width, height, area),
    ensures
        r.width == least(width, area.width),
        r.height == least(height, area.height),
        r.x == area.x + (area.width - r.width) / 2,
        r.y == area.y + (area.height - r.height) / 2,
        area.x <= r.x && r.x + r.width <= area.x + area.width,
        area.y <= r.y && r.y + r.height <= area.y + area.height,
        ({
            let left = r.x - area.x;
            let right = area.x + area.width - (r.x + r.width);
            left <= right <= left + 1
        }),
        ({
            let top = r.y - area.y;
            let bottom = area.y + area.height - (r.y + r.height);
            top <= bottom <= top + 1
        }),
{
    let width = if width <= area.width { width } else { area.width };
    let height = if height <= area.height { height } else { area.height };
    let x = area.x + (area.width - width) / 2;
    let y = area.y + (area.height - height) / 2;
    Area { x, y, width, height }
}

/// The height of the region picker popup for `items` entries: four rows
/// of frame and title around the entries, at most 20 rows. The entry
/// count is taken modulo 2^16, as a `u16`.
pub fn picker_height(items: usize) -> (h: u16)
    requires
        (items as u16) + 4 <= u16::MAX,
    ensures
        h == least(((items as u16) + 4) as u16, 20),
{
    let h = items as u16 + 4;
    if h <= 20 { h } else { 20 }
}

impl App {
    /// Whether a picker entry is the applied region filter ("Any" stands
    /// for no filter).
    pub fn is_current_region(&self, code: &str) -> (b: bool)
        ensures
            b == (opt_text(self.selected_region) == Some(code@)
                || (code@ == "Any"@ && self.selected_region is None)),
    {
        match &self.selected_region {
            Some(r) => text_is(r.as_str(), code),
            None => text_is(code, "Any"),
        }
    }
}

} // verus!
