use sitestat::websocket::{MessageToClient, Server};

#[test]
fn register_assigns_fresh_ids() {
    let mut srv = Server::new();
    let a = srv.register();
    let b = srv.register();
    let c = srv.register();
    assert_ne!(a, b);
    assert_ne!(b, c);
    assert_ne!(a, c);
    assert_eq!(srv.connections.len(), 3);
}

#[test]
fn broadcast_with_no_connections_is_a_noop() {
    let mut srv = Server::new();
    let msg = MessageToClient::new("end_page_view", 1, String::from("0"));
    srv.broadcast(&msg);
    assert_eq!(srv.connections.len(), 0);
}

#[test]
fn broadcast_reaches_every_connection() {
    let mut srv = Server::new();
    let a = srv.register();
    let b = srv.register();
    let msg = MessageToClient::new("end_object_view", 5, String::from("2"));
    srv.broadcast(&msg);
    let fa = srv.drain_outbox(a);
    let fb = srv.drain_outbox(b);
    assert_eq!(fa.len(), 1);
    assert_eq!(fa, fb);
}

#[test]
fn unregister_twice_is_idempotent() {
    let mut srv = Server::new();
    let a = srv.register();
    let b = srv.register();
    srv.unregister(a);
    assert_eq!(srv.connections.len(), 1);
    srv.unregister(a);
    assert_eq!(srv.connections.len(), 1);
    assert_eq!(srv.connections[0].id, b);
}

#[test]
fn unregister_unknown_id_is_a_noop() {
    let mut srv = Server::new();
    srv.register();
    srv.unregister(999);
    assert_eq!(srv.connections.len(), 1);
}

#[test]
fn unregistered_connection_misses_later_broadcasts() {
    let mut srv = Server::new();
    let a = srv.register();
    let b = srv.register();
    srv.unregister(a);
    let msg = MessageToClient::new("end_page_view", 1, String::from("0"));
    srv.broadcast(&msg);
    assert_eq!(srv.drain_outbox(a).len(), 0);
    assert_eq!(srv.drain_outbox(b).len(), 1);
}

#[test]
fn send_to_reaches_exactly_one_connection() {
    let mut srv = Server::new();
    let a = srv.register();
    let b = srv.register();
    srv.send_to(a, String::from("your id"));
    assert_eq!(srv.drain_outbox(a), vec![String::from("your id")]);
    assert_eq!(srv.drain_outbox(b).len(), 0);
}

#[test]
fn send_to_unknown_id_is_a_noop() {
    let mut srv = Server::new();
    let a = srv.register();
    srv.send_to(a + 1, String::from("lost"));
    assert_eq!(srv.drain_outbox(a).len(), 0);
}

#[test]
fn drain_outbox_empties_the_queue() {
    let mut srv = Server::new();
    let a = srv.register();
    srv.send_to(a, String::from("one"));
    srv.send_to(a, String::from("two"));
    let first = srv.drain_outbox(a);
    assert_eq!(first, vec![String::from("one"), String::from("two")]);
    assert_eq!(srv.drain_outbox(a).len(), 0);
}

#[test]
fn rooms_are_joined_once_and_left() {
    let mut srv = Server::new();
    let a = srv.register();
    srv.join_room(a, String::from("admins"));
    srv.join_room(a, String::from("admins"));
    srv.join_room(a, String::from("stats"));
    assert_eq!(srv.connections[0].rooms.len(), 2);
    srv.leave_room(a, &String::from("admins"));
    assert_eq!(srv.connections[0].rooms, vec![String::from("stats")]);
    srv.leave_room(a, &String::from("admins"));
    assert_eq!(srv.connections[0].rooms.len(), 1);
}

#[test]
fn event_json_is_the_expected_object() {
    let msg = MessageToClient::new("end_page_view", 43, String::from("7"));
    assert_eq!(
        msg.to_json(),
        "{\"event\":\"end_page_view\",\"subject_id\":43,\"payload\":\"7\"}"
    );
    let v: serde_json::Value = serde_json::from_str(&msg.to_json()).unwrap();
    assert_eq!(v["event"].as_str(), Some("end_page_view"));
    assert_eq!(v["subject_id"].as_i64(), Some(43));
    assert_eq!(v["payload"].as_str(), Some("7"));
}

#[test]
fn event_json_handles_negative_subjects() {
    let msg = MessageToClient::new("end_object_view", -12, String::from("0"));
    let v: serde_json::Value = serde_json::from_str(&msg.to_json()).unwrap();
    assert_eq!(v["subject_id"].as_i64(), Some(-12));
}

#[test]
fn event_json_escapes_payloads() {
    let tricky = "a\"b\\c\nd\re\tf\u{1}g";
    let msg = MessageToClient::new("end_object_view", 1, String::from(tricky));
    let v: serde_json::Value = serde_json::from_str(&msg.to_json()).unwrap();
    assert_eq!(v["payload"].as_str(), Some(tricky));
}

#[test]
fn event_json_escapes_event_names() {
    let msg = MessageToClient::new("odd\"name", 1, String::from("0"));
    let v: serde_json::Value = serde_json::from_str(&msg.to_json()).unwrap();
    assert_eq!(v["event"].as_str(), Some("odd\"name"));
}
