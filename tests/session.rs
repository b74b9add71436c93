use signaling::message::SendingMessage;
use signaling::room::Room;
use signaling::session::{CloseReason, Delivery, Frame, Lifecycle, Reaction, WebSocket};

fn text(s: &str) -> Frame {
    Frame::Text(s.to_string())
}

fn to(id: u64, message: SendingMessage) -> Delivery {
    Delivery { to: id, message }
}

fn room_with(ids: &[u64]) -> (Room, Vec<WebSocket>) {
    let mut room = Room::new();
    let mut sessions = Vec::new();
    for &id in ids {
        let mut s = WebSocket::new(id);
        s.started(&mut room);
        sessions.push(s);
    }
    (room, sessions)
}

#[test]
fn open_with_one_peer() {
    let (room, s) = room_with(&[1, 2]);
    let r = s[0].handle(&room, text(r#"{"action":"open"}"#));
    assert_eq!(
        r,
        Reaction::Deliver(vec![to(2, SendingMessage::Answer), to(1, SendingMessage::Offer)])
    );
}

#[test]
fn sdp_relayed_to_every_peer() {
    let (room, s) = room_with(&[1, 2, 3]);
    let r = s[0].handle(&room, text(r#"{"action":"sdp","sdp":"X"}"#));
    let x = || SendingMessage::Sdp { sdp: "X".to_string() };
    assert_eq!(r, Reaction::Deliver(vec![to(2, x()), to(3, x())]));
}

#[test]
fn ice_relayed_to_every_peer() {
    let (room, s) = room_with(&[1, 2, 3]);
    let r = s[1].handle(&room, text(r#"{"action":"ice","candidate":"c"}"#));
    let c = || SendingMessage::Ice { candidate: "c".to_string() };
    assert_eq!(r, Reaction::Deliver(vec![to(1, c()), to(3, c())]));
}

#[test]
fn ping_answered_to_sender_only() {
    let (room, s) = room_with(&[1, 2, 3]);
    let r = s[0].handle(&room, text(r#"{"action":"ping"}"#));
    assert_eq!(r, Reaction::Deliver(vec![to(1, SendingMessage::Pong)]));
}

#[test]
fn disconnect_notifies_each_peer_once() {
    let (mut room, mut s) = room_with(&[1, 2, 3]);
    let r = s[0].stopped(&mut room);
    assert_eq!(r, vec![to(2, SendingMessage::Close), to(3, SendingMessage::Close)]);
    assert_eq!(s[0].state, Lifecycle::Stopped);
    for t in 0..5 {
        assert!(!room.get_peers(t).contains(&1));
    }
    assert_eq!(room.get_peers(2), vec![3]);
}

#[test]
fn stopping_twice_notifies_once() {
    let (mut room, mut s) = room_with(&[1, 2]);
    assert_eq!(s[0].stopped(&mut room).len(), 1);
    assert!(s[0].stopped(&mut room).is_empty());
}

#[test]
fn unknown_action_gets_no_reply() {
    let (room, s) = room_with(&[1, 2]);
    assert_eq!(s[0].handle(&room, text(r#"{"action":"hello"}"#)), Reaction::Nothing);
}

#[test]
fn malformed_text_gets_no_reply() {
    let (room, s) = room_with(&[1, 2]);
    assert_eq!(s[0].handle(&room, text("{oops")), Reaction::Nothing);
    assert_eq!(s[0].state, Lifecycle::Active);
}

#[test]
fn open_alone_gets_offer_only() {
    let (room, s) = room_with(&[1]);
    let r = s[0].handle(&room, text(r#"{"action":"open"}"#));
    assert_eq!(r, Reaction::Deliver(vec![to(1, SendingMessage::Offer)]));
}

#[test]
fn transport_ping_gets_pong() {
    let (room, s) = room_with(&[1]);
    assert_eq!(s[0].handle(&room, Frame::Ping(vec![7, 8])), Reaction::Pong(vec![7, 8]));
}

#[test]
fn transport_pong_gets_nothing() {
    let (room, s) = room_with(&[1]);
    assert_eq!(s[0].handle(&room, Frame::Pong(vec![1])), Reaction::Nothing);
    assert_eq!(s[0].handle(&room, Frame::Other), Reaction::Nothing);
}

#[test]
fn binary_is_echoed() {
    let (room, s) = room_with(&[1]);
    assert_eq!(s[0].handle(&room, Frame::Binary(vec![0, 255])), Reaction::Binary(vec![0, 255]));
}

#[test]
fn close_is_echoed() {
    let (room, s) = room_with(&[1]);
    let reason = CloseReason { code: 1000, description: Some("bye".to_string()) };
    assert_eq!(
        s[0].handle(&room, Frame::Close(Some(reason.clone()))),
        Reaction::Close(Some(reason))
    );
}

#[test]
fn protocol_error_closes() {
    let (room, s) = room_with(&[1]);
    assert_eq!(s[0].handle(&room, Frame::ProtocolError), Reaction::Close(None));
}

#[test]
fn stopped_session_ignores_frames() {
    let (mut room, mut s) = room_with(&[1, 2]);
    s[0].stopped(&mut room);
    assert_eq!(s[0].handle(&room, text(r#"{"action":"ping"}"#)), Reaction::Nothing);
}

#[test]
fn start_registers_once() {
    let mut room = Room::new();
    let mut s = WebSocket::new(4);
    assert_eq!(s.state, Lifecycle::Starting);
    s.started(&mut room);
    s.started(&mut room);
    assert_eq!(s.state, Lifecycle::Active);
    assert_eq!(room.get_peers(0), vec![4]);
}

#[test]
fn relayed_message_encodes_for_the_wire() {
    let (room, s) = room_with(&[1, 2]);
    match s[0].handle(&room, text(r#"{"action":"ice","candidate":"a\"b"}"#)) {
        Reaction::Deliver(d) => {
            assert_eq!(d.len(), 1);
            assert_eq!(d[0].to, 2);
            assert_eq!(d[0].message.encode(), r#"{"action":"ice","candidate":"a\"b"}"#);
        }
        other => panic!("unexpected reaction {:?}", other),
    }
}
