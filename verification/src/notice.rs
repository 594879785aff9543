//! Psiphon "notices": the JSON event stream every Psiphon client uses to
//! report progress, as the library holds them, their severity and the one
//! line of text each one is shown as. A handful of `Bridge*` notice types
//! come from the engine bridge itself and are handled like the others.

use vstd::prelude::*;
use crate::json::{JsonValue, str_member, i64_member, is_blank};
use crate::text::{text_is, format_i64, signed_decimal};

verus! {

/// One notice: its type, its RFC 3339 timestamp (empty when the notice had
/// none), its data, and the data as the compact JSON text that the decoder
/// renders for it (`null` when the notice had no data).
#[derive(Debug)]
pub struct Notice {
    pub notice_type: String,
    pub timestamp: String,
    pub data: JsonValue,
    pub data_json: String,
}

/// How a notice is presented.
#[derive(Debug, Clone, Copy, PartialEq, Eq, Structural)]
pub enum Severity {
    Info,
    Warning,
    Error,
}

/// The severity of a notice of type `t`.
pub open spec fn severity_of(t: Seq<char>) -> Severity {
    if t == "Error"@ || t == "BridgeError"@ || t == "UpstreamProxyError"@
        || t == "LocalProxyError"@ || t == "InproxyMustUpgrade"@ {
        Severity::Error
    } else if t == "Warning"@ || t == "SocksProxyPortInUse"@ || t == "HttpProxyPortInUse"@
        || t == "EstablishTunnelTimeout"@ || t == "PruneServerEntry"@ || t == "SkipServerEntry"@ {
        Severity::Warning
    } else {
        Severity::Info
    }
}

/// The text of `o`, or `d` when there is none.
pub open spec fn text_or(o: Option<Seq<char>>, d: Seq<char>) -> Seq<char> {
    match o {
        Some(s) => s,
        None => d,
    }
}

/// The decimal text of `o`, or of zero when there is none.
pub open spec fn count_text(o: Option<i64>) -> Seq<char> {
    match o {
        Some(n) => signed_decimal(n as int),
        None => signed_decimal(0),
    }
}

/// The one-line text a notice is shown as in the log.
pub open spec fn summary_of(n: Notice) -> Seq<char> {
    let t = n.notice_type@;
    let d = n.data;
    if t == "Info"@ || t == "Warning"@ || t == "Error"@ || t == "UserLog"@ {
        text_or(str_member(d, "message"@), Seq::empty())
    } else if t == "ConnectingServer"@ {
        "connecting to a candidate server…"@
    } else if t == "ConnectedServer"@ {
        "connected to a candidate server"@
    } else if t == "ActiveTunnel"@ {
        "active tunnel established (protocol: "@ + text_or(str_member(d, "protocol"@), "?"@) + ")"@
    } else if t == "ConnectedServerRegion"@ {
        "connected server region: "@ + text_or(str_member(d, "serverRegion"@), "?"@)
    } else if t == "ClientRegion"@ {
        "client region: "@ + text_or(str_member(d, "region"@), "?"@)
    } else if t == "ClientAddress"@ {
        "client public address determined"@
    } else if t == "Tunnels"@ {
        "active tunnel count: "@ + count_text(i64_member(d, "count"@))
    } else if t == "ListeningSocksProxyPort"@ {
        "local SOCKS proxy listening on 127.0.0.1:"@ + count_text(i64_member(d, "port"@))
    } else if t == "ListeningHttpProxyPort"@ {
        "local HTTP proxy listening on 127.0.0.1:"@ + count_text(i64_member(d, "port"@))
    } else if t == "SocksProxyPortInUse"@ {
        "requested SOCKS proxy port "@ + count_text(i64_member(d, "port"@)) + " is already in use"@
    } else if t == "HttpProxyPortInUse"@ {
        "requested HTTP proxy port "@ + count_text(i64_member(d, "port"@)) + " is already in use"@
    } else if t == "Homepage"@ {
        "sponsor homepage: "@ + text_or(str_member(d, "url"@), "?"@)
    } else if t == "ClientUpgradeAvailable"@ {
        "client upgrade available: "@ + text_or(str_member(d, "version"@), "?"@)
    } else if t == "EstablishTunnelTimeout"@ {
        "timed out trying to establish a tunnel"@
    } else if t == "UpstreamProxyError"@ {
        "upstream proxy error: "@ + text_or(str_member(d, "message"@), "?"@)
    } else if t == "LocalProxyError"@ {
        "local proxy error: "@ + text_or(str_member(d, "message"@), "?"@)
    } else if t == "Untunneled"@ {
        "an address was accessed directly (untunneled)"@
    } else if t == "BytesTransferred"@ {
        "transferred: +"@ + count_text(i64_member(d, "sent"@)) + " sent / +"@
            + count_text(i64_member(d, "received"@)) + " received bytes"@
    } else if t == "TotalBytesTransferred"@ {
        "total transferred: "@ + count_text(i64_member(d, "sent"@)) + " sent / "@
            + count_text(i64_member(d, "received"@)) + " received bytes"@
    } else if t == "Exiting"@ {
        "shutting down"@
    } else if t == "BridgeStarting"@ {
        "starting tunnel…"@
    } else if t == "BridgeStopped"@ {
        "tunnel stopped"@
    } else if t == "BridgeError"@ {
        text_or(str_member(d, "message"@), "unknown bridge error"@)
    } else if is_blank(d) {
        t
    } else {
        t + ": "@ + n.data_json@
    }
}

/// `a`, `b` and `c` joined.
fn join3(a: &str, b: &str, c: &str) -> (s: String)
    ensures
        s@ == a@ + b@ + c@,
{
    let mut s = String::from_str(a);
    s.append(b);
    s.append(c);
    s
}

impl Notice {
    /// The severity the notice is presented with.
    pub fn severity(&self) -> (s: Severity)
        ensures
            s == severity_of(self.notice_type@),
    {
        let t = self.notice_type.as_str();
        if text_is(t, "Error") || text_is(t, "BridgeError") || text_is(t, "UpstreamProxyError")
            || text_is(t, "LocalProxyError") || text_is(t, "InproxyMustUpgrade") {
            Severity::Error
        } else if text_is(t, "Warning") || text_is(t, "SocksProxyPortInUse")
            || text_is(t, "HttpProxyPortInUse") || text_is(t, "EstablishTunnelTimeout")
            || text_is(t, "PruneServerEntry") || text_is(t, "SkipServerEntry") {
            Severity::Warning
        } else {
            Severity::Info
        }
    }

    /// The string member `key` of the data, or `default`.
    fn str_or(&self, key: &str, default: &str) -> (s: String)
        ensures
            s@ == text_or(str_member(self.data, key@), default@),
    {
        match self.data.str_member(key) {
            Some(s) => s,
            None => String::from_str(default),
        }
    }

    /// The decimal text of the integer member `key` of the data, or "0".
    fn count_or_zero(&self, key: &str) -> (s: String)
        ensures
            s@ == count_text(i64_member(self.data, key@)),
    {
        match self.data.i64_member(key) {
            Some(n) => format_i64(n),
            None => format_i64(0),
        }
    }

    /// `prefix`, the string member `key` (or "?"), then `suffix`.
    fn framed_str(&self, prefix: &str, key: &str, suffix: &str) -> (s: String)
        ensures
            s@ == prefix@ + text_or(str_member(self.data, key@), "?"@) + suffix@,
    {
        let v = self.str_or(key, "?");
        join3(prefix, v.as_str(), suffix)
    }

    /// `prefix`, the decimal member `key` (or "0"), then `suffix`.
    fn framed_count(&self, prefix: &str, key: &str, suffix: &str) -> (s: String)
        ensures
            s@ == prefix@ + count_text(i64_member(self.data, key@)) + suffix@,
    {
        let v = self.count_or_zero(key);
        join3(prefix, v.as_str(), suffix)
    }

    /// A single human-readable line for the live log. Notice types without
    /// a text of their own are shown as "<type>: <data>", or as the bare
    /// type when the data is null or an empty object.
    pub fn summary(&self) -> (s: String)
        ensures
            s@ == summary_of(*self),
    {
        proof { reveal_strlit(""); }
        let t = self.notice_type.as_str();
        if text_is(t, "Info") || text_is(t, "Warning") || text_is(t, "Error") || text_is(t, "UserLog") {
            let s = self.str_or("message", "");
            s
        } else if text_is(t, "ConnectingServer") {
            String::from_str("connecting to a candidate server…")
        } else if text_is(t, "ConnectedServer") {
            String::from_str("connected to a candidate server")
        } else if text_is(t, "ActiveTunnel") {
            self.framed_str("active tunnel established (protocol: ", "protocol", ")")
        } else if text_is(t, "ConnectedServerRegion") {
            let s = self.framed_str("connected server region: ", "serverRegion", "");
            assert(s@ =~= "connected server region: "@ + text_or(str_member(self.data, "serverRegion"@), "?"@));
            s
        } else if text_is(t, "ClientRegion") {
            let s = self.framed_str("client region: ", "region", "");
            assert(s@ =~= "client region: "@ + text_or(str_member(self.data, "region"@), "?"@));
            s
        } else if text_is(t, "ClientAddress") {
            String::from_str("client public address determined")
        } else if text_is(t, "Tunnels") {
            let s = self.framed_count("active tunnel count: ", "count", "");
            assert(s@ =~= "active tunnel count: "@ + count_text(i64_member(self.data, "count"@)));
            s
        } else if text_is(t, "ListeningSocksProxyPort") {
            let s = self.framed_count("local SOCKS proxy listening on 127.0.0.1:", "port", "");
            assert(s@ =~= "local SOCKS proxy listening on 127.0.0.1:"@ + count_text(i64_member(self.data, "port"@)));
            s
        } else if text_is(t, "ListeningHttpProxyPort") {
            let s = self.framed_count("local HTTP proxy listening on 127.0.0.1:", "port", "");
            assert(s@ =~= "local HTTP proxy listening on 127.0.0.1:"@ + count_text(i64_member(self.data, "port"@)));
            s
        } else if text_is(t, "SocksProxyPortInUse") {
            self.framed_count("requested SOCKS proxy port ", "port", " is already in use")
        } else if text_is(t, "HttpProxyPortInUse") {
            self.framed_count("requested HTTP proxy port ", "port", " is already in use")
        } else if text_is(t, "Homepage") {
            let s = self.framed_str("sponsor homepage: ", "url", "");
            assert(s@ =~= "sponsor homepage: "@ + text_or(str_member(self.data, "url"@), "?"@));
            s
        } else if text_is(t, "ClientUpgradeAvailable") {
            let s = self.framed_str("client upgrade available: ", "version", "");
            assert(s@ =~= "client upgrade available: "@ + text_or(str_member(self.data, "version"@), "?"@));
            s
        } else if text_is(t, "EstablishTunnelTimeout") {
            String::from_str("timed out trying to establish a tunnel")
        } else if text_is(t, "UpstreamProxyError") {
            let s = self.framed_str("upstream proxy error: ", "message", "");
            assert(s@ =~= "upstream proxy error: "@ + text_or(str_member(self.data, "message"@), "?"@));
            s
        } else if text_is(t, "LocalProxyError") {
            let s = self.framed_str("local proxy error: ", "message", "");
            assert(s@ =~= "local proxy error: "@ + text_or(str_member(self.data, "message"@), "?"@));
            s
        } else if text_is(t, "Untunneled") {
            String::from_str("an address was accessed directly (untunneled)")
        } else if text_is(t, "BytesTransferred") {
            let mut s = self.framed_count("transferred: +", "sent", " sent / +");
            let r = self.framed_count("", "received", " received bytes");
            s.append(r.as_str());
            assert(s@ =~= "transferred: +"@ + count_text(i64_member(self.data, "sent"@)) + " sent / +"@
                + count_text(i64_member(self.data, "received"@)) + " received bytes"@);
            s
        } else if text_is(t, "TotalBytesTransferred") {
            let mut s = self.framed_count("total transferred: ", "sent", " sent / ");
            let r = self.framed_count("", "received", " received bytes");
            s.append(r.as_str());
            assert(s@ =~= "total transferred: "@ + count_text(i64_member(self.data, "sent"@)) + " sent / "@
                + count_text(i64_member(self.data, "received"@)) + " received bytes"@);
            s
        } else if text_is(t, "Exiting") {
            String::from_str("shutting down")
        } else if text_is(t, "BridgeStarting") {
            String::from_str("starting tunnel…")
        } else if text_is(t, "BridgeStopped") {
            String::from_str("tunnel stopped")
        } else if text_is(t, "BridgeError") {
            self.str_or("message", "unknown bridge error")
        } else if self.data.is_blank() {
            self.notice_type.clone()
        } else {
            join3(t, ": ", self.data_json.as_str())
        }
    }
}

/// The notice types the library tells apart, by length and, where two
/// have the same length, by the first character in which they differ.
pub proof fn lemma_notice_type_texts()
    ensures
        "ActiveTunnel"@.len() == 12,
        "AvailableEgressRegions"@.len() == 22,
        "BridgeError"@.len() == 11,
        "BridgeStarting"@.len() == 14,
        "BridgeStopped"@.len() == 13,
        "BytesTransferred"@.len() == 16,
        "ClientAddress"@.len() == 13,
        "ClientRegion"@.len() == 12,
        "ClientUpgradeAvailable"@.len() == 22,
        "ConnectedServer"@.len() == 15,
        "ConnectedServerRegion"@.len() == 21,
        "ConnectingServer"@.len() == 16,
        "Error"@.len() == 5,
        "EstablishTunnelTimeout"@.len() == 22,
        "Exiting"@.len() == 7,
        "Homepage"@.len() == 8,
        "HttpProxyPortInUse"@.len() == 18,
        "Info"@.len() == 4,
        "InproxyMustUpgrade"@.len() == 18,
        "ListeningHttpProxyPort"@.len() == 22,
        "ListeningSocksProxyPort"@.len() == 23,
        "LocalProxyError"@.len() == 15,
        "PruneServerEntry"@.len() == 16,
        "RequestingTactics"@.len() == 17,
        "SessionId"@.len() == 9,
        "SkipServerEntry"@.len() == 15,
        "SocksProxyPortInUse"@.len() == 19,
        "TotalBytesTransferred"@.len() == 21,
        "Tunnels"@.len() == 7,
        "Untunneled"@.len() == 10,
        "UpstreamProxyError"@.len() == 18,
        "UserLog"@.len() == 7,
        "Warning"@.len() == 7,
        "ActiveTunnel"@[0] == 'A',
        "AvailableEgressRegions"@[0] == 'A',
        "BridgeStopped"@[0] == 'B',
        "BytesTransferred"@[0] == 'B',
        "ClientAddress"@[0] == 'C',
        "ClientRegion"@[0] == 'C',
        "ClientUpgradeAvailable"@[0] == 'C',
        "ConnectedServer"@[0] == 'C',
        "ConnectedServerRegion"@[0] == 'C',
        "ConnectingServer"@[0] == 'C',
        "EstablishTunnelTimeout"@[0] == 'E',
        "Exiting"@[0] == 'E',
        "HttpProxyPortInUse"@[0] == 'H',
        "InproxyMustUpgrade"@[0] == 'I',
        "ListeningHttpProxyPort"@[0] == 'L',
        "LocalProxyError"@[0] == 'L',
        "PruneServerEntry"@[0] == 'P',
        "SkipServerEntry"@[0] == 'S',
        "TotalBytesTransferred"@[0] == 'T',
        "Tunnels"@[0] == 'T',
        "UpstreamProxyError"@[0] == 'U',
        "UserLog"@[0] == 'U',
        "Warning"@[0] == 'W',
{
    reveal_strlit("ActiveTunnel");
    reveal_strlit("AvailableEgressRegions");
    reveal_strlit("BridgeError");
    reveal_strlit("BridgeStarting");
    reveal_strlit("BridgeStopped");
    reveal_strlit("BytesTransferred");
    reveal_strlit("ClientAddress");
    reveal_strlit("ClientRegion");
    reveal_strlit("ClientUpgradeAvailable");
    reveal_strlit("ConnectedServer");
    reveal_strlit("ConnectedServerRegion");
    reveal_strlit("ConnectingServer");
    reveal_strlit("Error");
    reveal_strlit("EstablishTunnelTimeout");
    reveal_strlit("Exiting");
    reveal_strlit("Homepage");
    reveal_strlit("HttpProxyPortInUse");
    reveal_strlit("Info");
    reveal_strlit("InproxyMustUpgrade");
    reveal_strlit("ListeningHttpProxyPort");
    reveal_strlit("ListeningSocksProxyPort");
    reveal_strlit("LocalProxyError");
    reveal_strlit("PruneServerEntry");
    reveal_strlit("RequestingTactics");
    reveal_strlit("SessionId");
    reveal_strlit("SkipServerEntry");
    reveal_strlit("SocksProxyPortInUse");
    reveal_strlit("TotalBytesTransferred");
    reveal_strlit("Tunnels");
    reveal_strlit("Untunneled");
    reveal_strlit("UpstreamProxyError");
    reveal_strlit("UserLog");
    reveal_strlit("Warning");
}

/// The five error types are shown as errors, the six warning types as
/// warnings, and every other notice type as information.
pub proof fn severity_classes(t: Seq<char>)
    ensures
        (t == "Error"@ || t == "BridgeError"@ || t == "UpstreamProxyError"@ || t == "LocalProxyError"@
            || t == "InproxyMustUpgrade"@) <==> severity_of(t) == Severity::Error,
        (t == "Warning"@ || t == "SocksProxyPortInUse"@ || t == "HttpProxyPortInUse"@
            || t == "EstablishTunnelTimeout"@ || t == "PruneServerEntry"@ || t == "SkipServerEntry"@)
            <==> severity_of(t) == Severity::Warning,
        t == "Info"@ || t == "UserLog"@ || t == "Tunnels"@ ==> severity_of(t) == Severity::Info,
{
    lemma_notice_type_texts();
}

/// The text of a string member, or `d` when the member is missing or not
/// a string.
pub open spec fn member_or(data: JsonValue, key: Seq<char>, d: Seq<char>) -> Seq<char> {
    match str_member(data, key) {
        Some(s) => s,
        None => d,
    }
}

/// The decimal text of an integer member, or "0" when the member is
/// missing or not an integer that fits in `i64`.
pub open spec fn number_or_zero(data: JsonValue, key: Seq<char>) -> Seq<char> {
    match i64_member(data, key) {
        Some(v) => signed_decimal(v as int),
        None => "0"@,
    }
}

proof fn lemma_number_or_zero(data: JsonValue, key: Seq<char>)
    ensures
        count_text(i64_member(data, key)) == number_or_zero(data, key),
{
    reveal_strlit("0");
    assert(signed_decimal(0) =~= "0"@);
}

/// The summaries that read a member of the notice's data show that member
/// (a "?" or "0" when it is missing or of another kind).
pub proof fn summaries_show_members(n: Notice)
    ensures
        ({
            let t = n.notice_type@;
            let d = n.data;
            &&& t == "Info"@ || t == "Warning"@ || t == "Error"@ || t == "UserLog"@
                ==> summary_of(n) == member_or(d, "message"@, Seq::empty())
            &&& t == "ActiveTunnel"@ ==> summary_of(n) == "active tunnel established (protocol: "@
                + member_or(d, "protocol"@, "?"@) + ")"@
            &&& t == "ConnectedServerRegion"@ ==> summary_of(n) == "connected server region: "@
                + member_or(d, "serverRegion"@, "?"@)
            &&& t == "ClientRegion"@ ==> summary_of(n) == "client region: "@ + member_or(d, "region"@, "?"@)
            &&& t == "Homepage"@ ==> summary_of(n) == "sponsor homepage: "@ + member_or(d, "url"@, "?"@)
            &&& t == "ClientUpgradeAvailable"@ ==> summary_of(n) == "client upgrade available: "@
                + member_or(d, "version"@, "?"@)
            &&& t == "UpstreamProxyError"@ ==> summary_of(n) == "upstream proxy error: "@
                + member_or(d, "message"@, "?"@)
            &&& t == "LocalProxyError"@ ==> summary_of(n) == "local proxy error: "@
                + member_or(d, "message"@, "?"@)
            &&& t == "BridgeError"@ ==> summary_of(n) == member_or(d, "message"@, "unknown bridge error"@)
        }),
{
    lemma_notice_type_texts();
}

/// The summaries that count show the counted member in decimal.
pub proof fn summaries_show_counts(n: Notice)
    ensures
        ({
            let t = n.notice_type@;
            let d = n.data;
            &&& t == "Tunnels"@ ==> summary_of(n) == "active tunnel count: "@ + number_or_zero(d, "count"@)
            &&& t == "ListeningSocksProxyPort"@ ==> summary_of(n) == "local SOCKS proxy listening on 127.0.0.1:"@
                + number_or_zero(d, "port"@)
            &&& t == "ListeningHttpProxyPort"@ ==> summary_of(n) == "local HTTP proxy listening on 127.0.0.1:"@
                + number_or_zero(d, "port"@)
            &&& t == "SocksProxyPortInUse"@ ==> summary_of(n) == "requested SOCKS proxy port "@
                + number_or_zero(d, "port"@) + " is already in use"@
            &&& t == "HttpProxyPortInUse"@ ==> summary_of(n) == "requested HTTP proxy port "@
                + number_or_zero(d, "port"@) + " is already in use"@
            &&& t == "BytesTransferred"@ ==> summary_of(n) == "transferred: +"@ + number_or_zero(d, "sent"@)
                + " sent / +"@ + number_or_zero(d, "received"@) + " received bytes"@
            &&& t == "TotalBytesTransferred"@ ==> summary_of(n) == "total transferred: "@
                + number_or_zero(d, "sent"@) + " sent / "@ + number_or_zero(d, "received"@) + " received bytes"@
        }),
{
    lemma_notice_type_texts();
    lemma_number_or_zero(n.data, "count"@);
    lemma_number_or_zero(n.data, "port"@);
    lemma_number_or_zero(n.data, "sent"@);
    lemma_number_or_zero(n.data, "received"@);
}

/// The notices with a fixed text show it, whatever their data.
pub proof fn summaries_fixed(n: Notice)
    ensures
        ({
            let t = n.notice_type@;
            &&& t == "ConnectingServer"@ ==> summary_of(n) == "connecting to a candidate server…"@
            &&& t == "ConnectedServer"@ ==> summary_of(n) == "connected to a candidate server"@
            &&& t == "ClientAddress"@ ==> summary_of(n) == "client public address determined"@
            &&& t == "EstablishTunnelTimeout"@ ==> summary_of(n) == "timed out trying to establish a tunnel"@
            &&& t == "Untunneled"@ ==> summary_of(n) == "an address was accessed directly (untunneled)"@
            &&& t == "Exiting"@ ==> summary_of(n) == "shutting down"@
            &&& t == "BridgeStarting"@ ==> summary_of(n) == "starting tunnel…"@
            &&& t == "BridgeStopped"@ ==> summary_of(n) == "tunnel stopped"@
        }),
{
    lemma_notice_type_texts();
}

/// A notice type with no text of its own is shown as its name, followed
/// by ": " and its data unless the data is null or an empty object.
pub proof fn summaries_of_other_types(n: Notice)
    requires
        !(n.notice_type@ == "Info"@ || n.notice_type@ == "Warning"@ || n.notice_type@ == "Error"@
            || n.notice_type@ == "UserLog"@ || n.notice_type@ == "ConnectingServer"@
            || n.notice_type@ == "ConnectedServer"@ || n.notice_type@ == "ActiveTunnel"@
            || n.notice_type@ == "ConnectedServerRegion"@ || n.notice_type@ == "ClientRegion"@
            || n.notice_type@ == "ClientAddress"@ || n.notice_type@ == "Tunnels"@
            || n.notice_type@ == "ListeningSocksProxyPort"@ || n.notice_type@ == "ListeningHttpProxyPort"@
            || n.notice_type@ == "SocksProxyPortInUse"@ || n.notice_type@ == "HttpProxyPortInUse"@
            || n.notice_type@ == "Homepage"@ || n.notice_type@ == "ClientUpgradeAvailable"@
            || n.notice_type@ == "EstablishTunnelTimeout"@ || n.notice_type@ == "UpstreamProxyError"@
            || n.notice_type@ == "LocalProxyError"@ || n.notice_type@ == "Untunneled"@
            || n.notice_type@ == "BytesTransferred"@ || n.notice_type@ == "TotalBytesTransferred"@
            || n.notice_type@ == "Exiting"@ || n.notice_type@ == "BridgeStarting"@
            || n.notice_type@ == "BridgeStopped"@ || n.notice_type@ == "BridgeError"@),
    ensures
        (n.data is Null || (n.data is Object && crate::json::members(n.data).len() == 0))
            ==> summary_of(n) == n.notice_type@,
        !(n.data is Null || (n.data is Object && crate::json::members(n.data).len() == 0))
            ==> summary_of(n) == n.notice_type@ + ": "@ + n.data_json@,
{
}

} // verus!
