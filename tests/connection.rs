use unrealircd_rpc::connection::{Incoming, Phase, REPLY_TIMEOUT_SECS};
use unrealircd_rpc::{Connection, Error, Json, Options};

fn open_connection() -> Connection {
    let mut conn = Connection::new("wss://127.0.0.1:8600/".to_string(), "user:pass".to_string(), None);
    assert_eq!(conn.opened(), None);
    conn
}

fn reply(conn: &mut Connection, method: &str, text: &str) -> Result<Json, Error> {
    let request = conn.start_query(method, Json::Null, false);
    assert!(request.is_ok());
    assert!(conn.on_write(Ok(())).is_none());
    conn.on_read(Incoming::Text(text.to_string()))
}

#[test]
fn test_connection_creation() {
    let conn = Connection::new("wss://127.0.0.1:8600/".to_string(), "user:pass".to_string(), None);
    assert_eq!(conn.uri(), "wss://127.0.0.1:8600/");
    assert_eq!(conn.auth_header(), "Basic dXNlcjpwYXNz");
}

#[test]
fn test_options_default() {
    let options = Options::default();
    assert_eq!(options.tls_verify, true);
    assert_eq!(options.issuer, None);
}

#[test]
fn new_connection_starts_closed_and_clean() {
    let conn = Connection::new("wss://h/".to_string(), "a:b".to_string(), None);
    assert!(!conn.is_open());
    assert_eq!(conn.next_id(), 1);
    assert_eq!(conn.errno(), 0);
    assert_eq!(conn.error(), None);
    assert_eq!(conn.phase(), Phase::Idle);
    assert!(conn.tls_verify());
}

#[test]
fn options_are_kept() {
    let options = Options { tls_verify: false, issuer: Some("admin".to_string()) };
    let mut conn = Connection::new("wss://h/".to_string(), "a:b".to_string(), Some(options));
    assert!(!conn.tls_verify());
    assert_eq!(conn.opened(), Some("admin".to_string()));
    assert!(conn.is_open());
}

#[test]
fn query_without_handle_fails_closed() {
    let mut conn = Connection::new("wss://h/".to_string(), "a:b".to_string(), None);
    assert_eq!(conn.start_query("rpc.info", Json::Null, false), Err(Error::ConnectionClosed));
    assert_eq!(conn.start_query("rpc.info", Json::Null, true), Err(Error::ConnectionClosed));
    assert_eq!(conn.next_id(), 1);
    assert_eq!(conn.phase(), Phase::Idle);
}

#[test]
fn ids_increase_from_one() {
    let mut conn = open_connection();
    for expected in 1..=3i64 {
        let text = conn.start_query("rpc.info", Json::Null, true).unwrap();
        assert_eq!(text, format!("{{\"jsonrpc\":\"2.0\",\"method\":\"rpc.info\",\"params\":null,\"id\":{}}}", expected));
        assert_eq!(conn.phase(), Phase::Writing { id: expected, no_wait: true });
        assert!(conn.on_write(Ok(())).is_some());
    }
    assert_eq!(conn.next_id(), 4);
    // a failed exchange still uses up its id
    conn.start_query("rpc.info", Json::Null, false).unwrap();
    assert!(matches!(conn.on_write(Err("reset".to_string())), Some(Err(Error::Transport(ref m))) if m == "reset"));
    let text = conn.start_query("rpc.info", Json::Null, true).unwrap();
    assert!(text.ends_with("\"id\":5}"));
}

#[test]
fn no_wait_resolves_to_true_without_read() {
    let mut conn = open_connection();
    conn.start_query("rpc.set_issuer", Json::Null, true).unwrap();
    match conn.on_write(Ok(())) {
        Some(Ok(Json::Bool(true))) => {}
        other => panic!("unexpected {:?}", other),
    }
    assert_eq!(conn.phase(), Phase::Idle);
}

#[test]
fn waiting_query_asks_for_a_read() {
    let mut conn = open_connection();
    conn.start_query("rpc.info", Json::Null, false).unwrap();
    assert!(conn.on_write(Ok(())).is_none());
    assert_eq!(conn.phase(), Phase::AwaitingReply { id: 1 });
    assert_eq!(REPLY_TIMEOUT_SECS, 10);
}

#[test]
fn write_failure_keeps_handle() {
    let mut conn = open_connection();
    conn.start_query("rpc.info", Json::Null, false).unwrap();
    assert!(matches!(conn.on_write(Err("broken pipe".to_string())), Some(Err(Error::Transport(ref m))) if m == "broken pipe"));
    assert!(conn.is_open());
    assert_eq!(conn.phase(), Phase::Idle);
}

#[test]
fn error_cache_follows_replies() {
    let mut conn = open_connection();
    let r = reply(&mut conn, "user.get", r#"{"jsonrpc":"2.0","error":{"code":-1000,"message":"Nickname not found"},"id":1}"#);
    assert_eq!(r.unwrap_err(), Error::Rpc { code: -1000, message: "Nickname not found".to_string() });
    assert_eq!(conn.errno(), -1000);
    assert_eq!(conn.error(), Some("Nickname not found".to_string()));
    let r = reply(&mut conn, "rpc.info", r#"{"jsonrpc":"2.0","result":true,"id":2}"#);
    assert!(matches!(r, Ok(Json::Bool(true))));
    assert_eq!(conn.errno(), 0);
    assert_eq!(conn.error(), None);
}

#[test]
fn decode_failures_leave_cache() {
    let mut conn = open_connection();
    reply(&mut conn, "x", r#"{"error":{"code":5,"message":"m"}}"#).unwrap_err();
    let r = reply(&mut conn, "x", "not json");
    assert_eq!(r.unwrap_err(), Error::MalformedPayload);
    let r = reply(&mut conn, "x", r#"{"id":3}"#);
    assert_eq!(r.unwrap_err(), Error::ProtocolViolation);
    assert_eq!(conn.errno(), 5);
    assert_eq!(conn.error(), Some("m".to_string()));
}

#[test]
fn timeout_keeps_handle_usable() {
    let mut conn = open_connection();
    conn.start_query("rpc.info", Json::Null, false).unwrap();
    conn.on_write(Ok(())).unwrap_or(Ok(Json::Null)).unwrap();
    assert_eq!(conn.on_read(Incoming::TimedOut).unwrap_err(), Error::Timeout);
    assert!(conn.is_open());
    assert_eq!(conn.phase(), Phase::Idle);
    assert!(conn.start_query("rpc.info", Json::Null, false).is_ok());
}

#[test]
fn close_frame_releases_handle() {
    let mut conn = open_connection();
    conn.start_query("rpc.info", Json::Null, false).unwrap();
    assert!(conn.on_write(Ok(())).is_none());
    assert_eq!(conn.on_read(Incoming::Close).unwrap_err(), Error::ConnectionClosed);
    assert!(!conn.is_open());
    assert_eq!(conn.start_query("rpc.info", Json::Null, false), Err(Error::ConnectionClosed));
}

#[test]
fn end_of_stream_releases_handle() {
    let mut conn = open_connection();
    conn.start_query("rpc.info", Json::Null, false).unwrap();
    assert!(conn.on_write(Ok(())).is_none());
    assert_eq!(conn.on_read(Incoming::Ended).unwrap_err(), Error::ConnectionClosed);
    assert!(!conn.is_open());
}

#[test]
fn other_frames_and_read_errors() {
    let mut conn = open_connection();
    conn.start_query("rpc.info", Json::Null, false).unwrap();
    assert!(conn.on_write(Ok(())).is_none());
    assert_eq!(conn.on_read(Incoming::NonText).unwrap_err(), Error::InvalidResponse);
    assert!(conn.is_open());
    conn.start_query("rpc.info", Json::Null, false).unwrap();
    assert!(conn.on_write(Ok(())).is_none());
    assert_eq!(conn.on_read(Incoming::Failed("eof".to_string())).unwrap_err(), Error::Transport("eof".to_string()));
    assert!(conn.is_open());
}

#[test]
fn close_is_idempotent() {
    let mut conn = open_connection();
    assert!(conn.close());
    assert!(!conn.is_open());
    assert!(!conn.close());
}
