//! One client's session: its lifecycle in the room, the transport frames it
//! reacts to and the protocol messages it relays to its peers. The session
//! decides; the connection layer carries out what it decides.
use vstd::prelude::*;
use crate::message::{
    decode, decode_view, json_object_fields, Inbound, Outbound, ReceivedMessage, SendingMessage,
};
use crate::room::{others, Room, SessionId};

verus! {

/// Where a session stands: registered on start, deregistered on stop for good.
#[derive(Debug, Clone, Copy, PartialEq, Eq, Structural)]
pub enum Lifecycle {
    Starting,
    Active,
    Stopped,
}

/// The code and text of a transport close frame.
#[derive(Debug, Clone, PartialEq, Eq)]
pub struct CloseReason {
    pub code: u16,
    pub description: Option<String>,
}

/// A transport event on one connection.
#[derive(Debug, Clone, PartialEq, Eq)]
pub enum Frame {
    Ping(Vec<u8>),
    Pong(Vec<u8>),
    Text(String),
    Binary(Vec<u8>),
    Close(Option<CloseReason>),
    /// The transport could not frame what the client sent.
    ProtocolError,
    /// A frame with no meaning to the session (a continuation, a no-op).
    Other,
}

/// A protocol message addressed to one session.
#[derive(Debug, Clone, PartialEq, Eq)]
pub struct Delivery {
    pub to: SessionId,
    pub message: SendingMessage,
}

impl View for Delivery {
    type V = (SessionId, Outbound);

    open spec fn view(&self) -> (SessionId, Outbound) {
        (self.to, self.message@)
    }
}

/// What the connection layer does in answer to a frame.
#[derive(Debug, Clone, PartialEq, Eq)]
pub enum Reaction {
    Nothing,
    /// Answer with a transport pong carrying these bytes.
    Pong(Vec<u8>),
    /// Send these bytes back as a binary frame.
    Binary(Vec<u8>),
    /// Send each protocol message to its session.
    Deliver(Vec<Delivery>),
    /// Close the connection with this reason and stop the session.
    Close(Option<CloseReason>),
}

/// The values of a list of deliveries.
pub open spec fn deliveries_view(d: Seq<Delivery>) -> Seq<(SessionId, Outbound)> {
    d.map_values(|x: Delivery| x@)
}

/// `m` addressed to each of `peers`, in order.
pub open spec fn fan_out(peers: Seq<SessionId>, m: Outbound) -> Seq<(SessionId, Outbound)> {
    peers.map_values(|p: SessionId| (p, m))
}

/// What session `me` sends when its client sends `msg` while the room holds
/// `users`: an open makes every peer answer and the sender offer; a ping is
/// answered to the sender alone; negotiation payloads go to every peer as
/// they came.
pub open spec fn replies(users: Seq<SessionId>, me: SessionId, msg: Inbound) -> Seq<
    (SessionId, Outbound),
> {
    match msg {
        Inbound::Open => fan_out(others(users, me), Outbound::Answer).push((me, Outbound::Offer)),
        Inbound::Ping => seq![(me, Outbound::Pong)],
        Inbound::Ice(c) => fan_out(others(users, me), Outbound::Ice(c)),
        Inbound::Sdp(s) => fan_out(others(users, me), Outbound::Sdp(s)),
    }
}

impl SendingMessage {
    /// A copy of this message.
    pub fn duplicate(&self) -> (r: SendingMessage)
        ensures
            r@ == self@,
    {
        match self {
            SendingMessage::Offer => SendingMessage::Offer,
            SendingMessage::Answer => SendingMessage::Answer,
            SendingMessage::Pong => SendingMessage::Pong,
            SendingMessage::Ice { candidate } => SendingMessage::Ice { candidate: candidate.clone() },
            SendingMessage::Sdp { sdp } => SendingMessage::Sdp { sdp: sdp.clone() },
            SendingMessage::Close => SendingMessage::Close,
        }
    }
}

/// Appends `message` addressed to each of `peers`.
fn broadcast(peers: &Vec<SessionId>, message: &SendingMessage, out: &mut Vec<Delivery>)
    ensures
        deliveries_view(final(out)@) == deliveries_view(old(out)@) + fan_out(peers@, message@),
{
    let ghost start = deliveries_view(out@);
    let mut i: usize = 0;
    while i < peers.len()
        invariant
            i <= peers@.len(),
            deliveries_view(out@) == start + fan_out(peers@.subrange(0, i as int), message@),
        decreases peers@.len() - i,
    {
        let ghost prev = out@;
        out.push(Delivery { to: peers[i], message: message.duplicate() });
        assert(deliveries_view(out@) =~= deliveries_view(prev).push((peers@[i as int], message@)));
        assert(peers@.subrange(0, i as int + 1) =~= peers@.subrange(0, i as int).push(peers@[i as int]));
        assert(deliveries_view(out@) =~= start + fan_out(peers@.subrange(0, i as int + 1), message@));
        i = i + 1;
    }
    assert(peers@.subrange(0, i as int) =~= peers@);
}

/// A session: its address in the room and where it stands.
pub struct WebSocket {
    pub id: SessionId,
    pub state: Lifecycle,
}

impl WebSocket {
    /// A session at address `id`, not yet registered.
    pub fn new(id: SessionId) -> (r: Self)
        ensures
            r.id == id,
            r.state == Lifecycle::Starting,
    {
        WebSocket { id, state: Lifecycle::Starting }
    }

    /// Starts the session: a starting session registers in the room and
    /// becomes active; any other is left as it is.
    pub fn started(&mut self, room: &mut Room)
        ensures
            final(self).id == old(self).id,
            old(self).state == Lifecycle::Starting ==> final(self).state == Lifecycle::Active
                && final(room)@ == old(room)@.push(old(self).id),
            old(self).state != Lifecycle::Starting ==> final(self).state == old(self).state
                && final(room)@ == old(room)@,
    {
        if self.state == Lifecycle::Starting {
            room.add_user(self.id);
            self.state = Lifecycle::Active;
        }
    }

    /// Stops the session: every current peer is told that it closes, then it
    /// leaves the room. A session that has stopped already does nothing.
    pub fn stopped(&mut self, room: &mut Room) -> (r: Vec<Delivery>)
        ensures
            final(self).id == old(self).id,
            final(self).state == Lifecycle::Stopped,
            old(self).state == Lifecycle::Stopped ==> r@.len() == 0 && final(room)@ == old(room)@,
            old(self).state != Lifecycle::Stopped ==> deliveries_view(r@) == fan_out(
                others(old(room)@, old(self).id),
                Outbound::Close,
            ) && final(room)@ == others(old(room)@, old(self).id),
            !final(room)@.contains(old(self).id) || old(self).state == Lifecycle::Stopped,
    {
        let mut r: Vec<Delivery> = Vec::new();
        if self.state != Lifecycle::Stopped {
            let peers = room.get_peers(self.id);
            broadcast(&peers, &SendingMessage::Close, &mut r);
            assert(deliveries_view(Seq::<Delivery>::empty()) =~= Seq::empty());
            assert(Seq::<(SessionId, Outbound)>::empty() + fan_out(peers@, Outbound::Close)
                =~= fan_out(peers@, Outbound::Close));
            room.remove_user(self.id);
            self.state = Lifecycle::Stopped;
        }
        r
    }

    /// The messages this session sends when its client sends `msg`.
    pub fn handle_message(&self, room: &Room, msg: ReceivedMessage) -> (r: Vec<Delivery>)
        ensures
            deliveries_view(r@) == replies(room@, self.id, msg@),
    {
        let mut r: Vec<Delivery> = Vec::new();
        assert(deliveries_view(r@) =~= Seq::empty());
        match msg {
            ReceivedMessage::Open => {
                let peers = room.get_peers(self.id);
                broadcast(&peers, &SendingMessage::Answer, &mut r);
                r.push(Delivery { to: self.id, message: SendingMessage::Offer });
                assert(deliveries_view(r@) =~= replies(room@, self.id, msg@));
            },
            ReceivedMessage::Ping => {
                r.push(Delivery { to: self.id, message: SendingMessage::Pong });
                assert(deliveries_view(r@) =~= replies(room@, self.id, msg@));
            },
            ReceivedMessage::Ice { candidate } => {
                let peers = room.get_peers(self.id);
                broadcast(&peers, &SendingMessage::Ice { candidate }, &mut r);
                assert(deliveries_view(r@) =~= replies(room@, self.id, msg@));
            },
            ReceivedMessage::Sdp { sdp } => {
                let peers = room.get_peers(self.id);
                broadcast(&peers, &SendingMessage::Sdp { sdp }, &mut r);
                assert(deliveries_view(r@) =~= replies(room@, self.id, msg@));
            },
        }
        r
    }

    /// The reaction to a transport frame. A stopped session ignores frames.
    /// A ping is answered with a pong, binary data is echoed, a close is
    /// echoed and stops the session, as does a framing error. Text is decoded
    /// as a protocol message and relayed; text that is no message is dropped.
    pub fn handle(&self, room: &Room, frame: Frame) -> (r: Reaction)
        ensures
            self.state == Lifecycle::Stopped ==> r == Reaction::Nothing,
            self.state != Lifecycle::Stopped ==> match frame {
                Frame::Ping(b) => r == Reaction::Pong(b),
                Frame::Pong(_) => r == Reaction::Nothing,
                Frame::Text(t) => match json_object_fields(t@) {
                    Some(f) => match decode_view(f) {
                        Some(m) => r matches Reaction::Deliver(d) && deliveries_view(d@)
                            == replies(room@, self.id, m),
                        None => r == Reaction::Nothing,
                    },
                    None => r == Reaction::Nothing,
                },
                Frame::Binary(b) => r == Reaction::Binary(b),
                Frame::Close(c) => r == Reaction::Close(c),
                Frame::ProtocolError => r == Reaction::Close(None),
                Frame::Other => r == Reaction::Nothing,
            },
    {
        if self.state == Lifecycle::Stopped {
            return Reaction::Nothing;
        }
        match frame {
            Frame::Ping(b) => Reaction::Pong(b),
            Frame::Pong(_) => Reaction::Nothing,
            Frame::Text(t) => match decode(t.as_str()) {
                Some(m) => Reaction::Deliver(self.handle_message(room, m)),
                None => Reaction::Nothing,
            },
            Frame::Binary(b) => Reaction::Binary(b),
            Frame::Close(c) => Reaction::Close(c),
            Frame::ProtocolError => Reaction::Close(None),
            Frame::Other => Reaction::Nothing,
        }
    }
}

} // verus!
