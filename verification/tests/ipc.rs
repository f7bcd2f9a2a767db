use daedalusd::ipc::control::{ack_error, check_permission_answer, rejoin_after_seq, route_action, RouteAction};
use daedalusd::ipc::decode::{decode_message, encode_message};
use daedalusd::ipc::peer::{feed_line, line_at_end, line_text, LineFeed, MAX_LINE_LEN};
use daedalusd::ipc::protocol::{make_event_id, parse_event_id, parse_message, validate_timestamp};
use daedalusd::ipc::session::PermissionTable;
use daedalusd::types::{Message, PermissionDecision, SystemAck, SystemPing, TaskStream};

#[test]
fn lines_are_cut_at_newlines() {
    let mut buf = Vec::new();
    let (used, f) = feed_line(&mut buf, b"abc");
    assert_eq!((used, f), (3, LineFeed::NeedMore));
    let (used, f) = feed_line(&mut buf, b"def\r\nnext");
    assert_eq!((used, f), (5, LineFeed::Line));
    assert_eq!(line_text(&buf), "abcdef");
    let mut big = vec![b'x'; MAX_LINE_LEN];
    let (_, f) = feed_line(&mut big, b"y");
    assert_eq!(f, LineFeed::TooLong);
    assert_eq!(line_text(&[0xff, 0xfe]), "");
    assert_eq!(line_at_end(&[]), None);
    assert_eq!(line_at_end(b"tail"), Some("tail".to_string()));
}

#[test]
fn event_ids_round_trip() {
    let id = make_event_id("task-1", 42);
    assert_eq!(id, "task-1:42");
    assert_eq!(parse_event_id(&id), Ok(("task-1".to_string(), 42)));
    let with_colon = make_event_id("a:b", 7);
    assert_eq!(parse_event_id(&with_colon), Ok(("a:b".to_string(), 7)));
    assert_eq!(parse_event_id(&make_event_id("t", u32::MAX)), Ok(("t".to_string(), u32::MAX)));
    assert!(parse_event_id("no-colon").is_err());
    assert!(parse_event_id("t:").is_err());
    assert!(parse_event_id("t:4294967296").is_err());
}

#[test]
fn encoding_then_decoding_gives_the_message_back() {
    let ping = Message::SystemPing(SystemPing { ts: "2026-06-15T10:00:00Z".into(), req_id: "r1".into() });
    match decode_message(encode_message(ping)).unwrap() {
        Message::SystemPing(p) => assert_eq!((p.ts.as_str(), p.req_id.as_str()), ("2026-06-15T10:00:00Z", "r1")),
        _ => panic!("expected a ping"),
    }
    let stream = Message::TaskStream(TaskStream {
        ts: "2026-06-15T10:00:00Z".into(),
        event_id: Some("t1:3".into()),
        req_id: "r1".into(),
        agent_id: "coder".into(),
        task_id: "t1".into(),
        chunk: "partial".into(),
    });
    match decode_message(encode_message(stream)).unwrap() {
        Message::TaskStream(s) => {
            assert_eq!(s.event_id.as_deref(), Some("t1:3"));
            assert_eq!(s.chunk, "partial");
        }
        _ => panic!("expected a task stream"),
    }
}

#[test]
fn timestamps_follow_rfc3339() {
    assert!(validate_timestamp("2026-06-15T10:00:00Z"));
    assert!(validate_timestamp("2026-06-15T18:30:00.123+08:00"));
    assert!(!validate_timestamp("2026-06-15 10:00:00"));
    assert!(!validate_timestamp(""));
}

#[test]
fn control_messages_route_to_actions() {
    let ping = parse_message(r#"{"type":"system.ping","ts":"2026-06-15T10:00:00Z","req_id":"r1"}"#).unwrap();
    assert!(matches!(route_action(&ping), RouteAction::Pong { req_id } if req_id == "r1"));
    let resp = parse_message(r#"{"type":"permission.response","ts":"2026-06-15T10:00:00Z","permission_id":"perm-1","req_id":"r2","decision":"denied"}"#).unwrap();
    assert!(matches!(route_action(&resp), RouteAction::ResolvePermission { decision: PermissionDecision::Denied, .. }));
    let ack = Message::SystemAck(SystemAck { ts: "2026-06-15T10:00:00Z".into(), req_id: "r3".into(), event_id: "t:1".into() });
    assert!(matches!(route_action(&ack), RouteAction::Ack { event_id, .. } if event_id == "t:1"));
    assert_eq!(check_permission_answer("perm-1", "r1", None).unwrap_err(), "unknown permission id 'perm-1'");
    assert_eq!(check_permission_answer("perm-1", "r1", Some("r0")).unwrap_err(), "req_id mismatch for permission 'perm-1': expected 'r0', got 'r1'");
    assert!(check_permission_answer("perm-1", "r1", Some("r1")).is_ok());
    assert_eq!(rejoin_after_seq("t1", None), Ok(None));
    assert_eq!(rejoin_after_seq("t1", Some("t1:5")), Ok(Some(5)));
    assert!(rejoin_after_seq("t1", Some("t2:5")).is_err());
    assert_eq!(ack_error("e", Ok(true)), None);
    assert_eq!(ack_error("e", Ok(false)), Some("unknown event_id: e".to_string()));
    assert_eq!(ack_error("e", Err("db".into())), Some("system.ack failed: db".to_string()));
}

#[test]
fn permission_table_hands_out_fresh_ids_and_matches_answers() {
    let mut t = PermissionTable::new();
    let a = t.next_perm_id();
    let b = t.next_perm_id();
    assert_eq!(a, "perm-1");
    assert_eq!(b, "perm-2");
    assert_ne!(a, b);
    t.insert(a.clone(), "r1".into());
    t.insert(b.clone(), "r2".into());
    assert_eq!(t.answer(&a, "wrong"), Err("req_id mismatch for permission 'perm-1': expected 'r1', got 'wrong'".to_string()));
    assert_eq!(t.answer(&a, "r1"), Ok(()));
    assert_eq!(t.answer(&a, "r1"), Err("unknown permission id 'perm-1'".to_string()));
    assert!(t.remove(&b));
    assert!(!t.remove(&b));
    t.insert("x".into(), "y".into());
    t.drain();
    assert!(!t.remove("x"));
}
