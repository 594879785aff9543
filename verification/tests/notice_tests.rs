use psiphon_tui::json::{JsonNumber, JsonValue};
use psiphon_tui::notice::{Notice, Severity};

fn obj(members: Vec<(&str, JsonValue)>) -> JsonValue {
    JsonValue::Object(members.into_iter().map(|(k, v)| (k.to_string(), v)).collect())
}

fn s(text: &str) -> JsonValue {
    JsonValue::Str(text.to_string())
}

fn num(n: u64) -> JsonValue {
    JsonValue::Number(JsonNumber::PosInt(n))
}

fn notice(t: &str, data: JsonValue, data_json: &str) -> Notice {
    Notice {
        notice_type: t.to_string(),
        timestamp: "2024-05-01T10:20:30.123Z".to_string(),
        data,
        data_json: data_json.to_string(),
    }
}

#[test]
fn severity_of_error_types() {
    for t in ["Error", "BridgeError", "UpstreamProxyError", "LocalProxyError", "InproxyMustUpgrade"] {
        assert_eq!(notice(t, JsonValue::Null, "null").severity(), Severity::Error);
    }
}

#[test]
fn severity_of_warning_types() {
    for t in [
        "Warning",
        "SocksProxyPortInUse",
        "HttpProxyPortInUse",
        "EstablishTunnelTimeout",
        "PruneServerEntry",
        "SkipServerEntry",
    ] {
        assert_eq!(notice(t, JsonValue::Null, "null").severity(), Severity::Warning);
    }
}

#[test]
fn severity_of_other_types_is_info() {
    assert_eq!(notice("Tunnels", JsonValue::Null, "null").severity(), Severity::Info);
    assert_eq!(notice("error", JsonValue::Null, "null").severity(), Severity::Info);
}

#[test]
fn summary_of_message_types() {
    let n = notice("Info", obj(vec![("message", s("hello"))]), "{\"message\":\"hello\"}");
    assert_eq!(n.summary(), "hello");
    let n = notice("UserLog", obj(vec![]), "{}");
    assert_eq!(n.summary(), "");
    let n = notice("Error", obj(vec![("message", num(3))]), "{\"message\":3}");
    assert_eq!(n.summary(), "");
}

#[test]
fn summary_of_active_tunnel() {
    let n = notice("ActiveTunnel", obj(vec![("protocol", s("TLS-OSSH"))]), "");
    assert_eq!(n.summary(), "active tunnel established (protocol: TLS-OSSH)");
    let n = notice("ActiveTunnel", JsonValue::Null, "null");
    assert_eq!(n.summary(), "active tunnel established (protocol: ?)");
}

#[test]
fn summary_of_counts() {
    let n = notice("Tunnels", obj(vec![("count", num(2))]), "");
    assert_eq!(n.summary(), "active tunnel count: 2");
    let n = notice("Tunnels", obj(vec![("count", JsonValue::Number(JsonNumber::NegInt(-5)))]), "");
    assert_eq!(n.summary(), "active tunnel count: -5");
    let n = notice("Tunnels", obj(vec![("count", s("2"))]), "");
    assert_eq!(n.summary(), "active tunnel count: 0");
    let n = notice("Tunnels", obj(vec![("count", num(u64::MAX))]), "");
    assert_eq!(n.summary(), "active tunnel count: 0");
    let n = notice("ListeningSocksProxyPort", obj(vec![("port", num(1080))]), "");
    assert_eq!(n.summary(), "local SOCKS proxy listening on 127.0.0.1:1080");
    let n = notice("ListeningHttpProxyPort", obj(vec![("port", num(8080))]), "");
    assert_eq!(n.summary(), "local HTTP proxy listening on 127.0.0.1:8080");
    let n = notice("SocksProxyPortInUse", obj(vec![("port", num(1080))]), "");
    assert_eq!(n.summary(), "requested SOCKS proxy port 1080 is already in use");
    let n = notice("HttpProxyPortInUse", obj(vec![]), "{}");
    assert_eq!(n.summary(), "requested HTTP proxy port 0 is already in use");
}

#[test]
fn summary_of_bytes() {
    let n = notice("BytesTransferred", obj(vec![("sent", num(10)), ("received", num(20))]), "");
    assert_eq!(n.summary(), "transferred: +10 sent / +20 received bytes");
    let n = notice(
        "TotalBytesTransferred",
        obj(vec![("sent", JsonValue::Number(JsonNumber::NegInt(i64::MIN))), ("received", num(9))]),
        "",
    );
    assert_eq!(
        n.summary(),
        "total transferred: -9223372036854775808 sent / 9 received bytes"
    );
}

#[test]
fn summary_of_fixed_texts() {
    let cases = [
        ("ConnectingServer", "connecting to a candidate server…"),
        ("ConnectedServer", "connected to a candidate server"),
        ("ClientAddress", "client public address determined"),
        ("EstablishTunnelTimeout", "timed out trying to establish a tunnel"),
        ("Untunneled", "an address was accessed directly (untunneled)"),
        ("Exiting", "shutting down"),
        ("BridgeStarting", "starting tunnel…"),
        ("BridgeStopped", "tunnel stopped"),
    ];
    for (t, text) in cases {
        assert_eq!(notice(t, JsonValue::Null, "null").summary(), text);
    }
}

#[test]
fn summary_of_named_fields() {
    let n = notice("ConnectedServerRegion", obj(vec![("serverRegion", s("DE"))]), "");
    assert_eq!(n.summary(), "connected server region: DE");
    let n = notice("ClientRegion", obj(vec![("region", s("IR"))]), "");
    assert_eq!(n.summary(), "client region: IR");
    let n = notice("Homepage", obj(vec![("url", s("https://example.org/"))]), "");
    assert_eq!(n.summary(), "sponsor homepage: https://example.org/");
    let n = notice("ClientUpgradeAvailable", obj(vec![]), "{}");
    assert_eq!(n.summary(), "client upgrade available: ?");
    let n = notice("UpstreamProxyError", obj(vec![("message", s("refused"))]), "");
    assert_eq!(n.summary(), "upstream proxy error: refused");
    let n = notice("LocalProxyError", obj(vec![]), "{}");
    assert_eq!(n.summary(), "local proxy error: ?");
}

#[test]
fn summary_of_bridge_error() {
    let n = notice("BridgeError", obj(vec![("message", s("bad config"))]), "");
    assert_eq!(n.summary(), "bad config");
    let n = notice("BridgeError", JsonValue::Null, "null");
    assert_eq!(n.summary(), "unknown bridge error");
}

#[test]
fn summary_of_other_types() {
    let n = notice("SomethingNew", JsonValue::Null, "null");
    assert_eq!(n.summary(), "SomethingNew");
    let n = notice("SomethingNew", obj(vec![]), "{}");
    assert_eq!(n.summary(), "SomethingNew");
    let n = notice("SomethingNew", obj(vec![("a", num(1))]), "{\"a\":1}");
    assert_eq!(n.summary(), "SomethingNew: {\"a\":1}");
    let n = notice("SomethingNew", JsonValue::Array(vec![]), "[]");
    assert_eq!(n.summary(), "SomethingNew: []");
}

#[test]
fn first_member_wins() {
    let n = notice("ClientRegion", obj(vec![("region", s("US")), ("region", s("CA"))]), "");
    assert_eq!(n.summary(), "client region: US");
}
