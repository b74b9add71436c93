//! The wire protocol: inbound and outbound messages, each a JSON object whose
//! `action` field names the variant.
use vstd::prelude::*;
use vstd::string::StringExecFns;

verus! {

/// The fields of a JSON object in the order the parser hands them out: each
/// key with its value when that value is a JSON string, `None` otherwise.
pub type FieldsView = Seq<(Seq<char>, Option<Seq<char>>)>;

/// The fields of `text` read as one JSON object, or `None` when `text` is not
/// a JSON object.
pub uninterp spec fn json_object_fields(text: Seq<char>) -> Option<FieldsView>;

/// The JSON string literal that stands for `s`: quoted, with the characters
/// that JSON requires escaped.
pub uninterp spec fn json_string_of(s: Seq<char>) -> Seq<char>;

/// A message a client sends to its session.
#[derive(Debug, Clone, PartialEq, Eq)]
pub enum ReceivedMessage {
    Open,
    Ice { candidate: String },
    Sdp { sdp: String },
    Ping,
}

/// The value of a `ReceivedMessage`, with its text as characters.
pub enum Inbound {
    Open,
    Ice(Seq<char>),
    Sdp(Seq<char>),
    Ping,
}

impl View for ReceivedMessage {
    type V = Inbound;

    open spec fn view(&self) -> Inbound {
        match self {
            ReceivedMessage::Open => Inbound::Open,
            ReceivedMessage::Ice { candidate } => Inbound::Ice(candidate@),
            ReceivedMessage::Sdp { sdp } => Inbound::Sdp(sdp@),
            ReceivedMessage::Ping => Inbound::Ping,
        }
    }
}

/// A message a session sends to its client.
#[derive(Debug, Clone, PartialEq, Eq)]
pub enum SendingMessage {
    Offer,
    Answer,
    Pong,
    Ice { candidate: String },
    Sdp { sdp: String },
    Close,
}

/// The value of a `SendingMessage`, with its text as characters.
pub enum Outbound {
    Offer,
    Answer,
    Pong,
    Ice(Seq<char>),
    Sdp(Seq<char>),
    Close,
}

impl View for SendingMessage {
    type V = Outbound;

    open spec fn view(&self) -> Outbound {
        match self {
            SendingMessage::Offer => Outbound::Offer,
            SendingMessage::Answer => Outbound::Answer,
            SendingMessage::Pong => Outbound::Pong,
            SendingMessage::Ice { candidate } => Outbound::Ice(candidate@),
            SendingMessage::Sdp { sdp } => Outbound::Sdp(sdp@),
            SendingMessage::Close => Outbound::Close,
        }
    }
}

/// The value of the first field named `key`, where there is one.
pub open spec fn field(fields: FieldsView, key: Seq<char>) -> Option<Option<Seq<char>>>
    decreases fields.len(),
{
    if fields.len() == 0 {
        None
    } else if fields[0].0 == key {
        Some(fields[0].1)
    } else {
        field(fields.drop_first(), key)
    }
}

/// The string value of the field named `key`; `None` when the field is
/// missing or holds something other than a string.
pub open spec fn str_field(fields: FieldsView, key: Seq<char>) -> Option<Seq<char>> {
    match field(fields, key) {
        Some(v) => v,
        None => None,
    }
}

/// The inbound message that the fields of an object stand for: its `action`
/// picks the variant, which reads the fields it carries. Anything else is
/// not a message.
pub open spec fn decode_view(fields: FieldsView) -> Option<Inbound> {
    match str_field(fields, "action"@) {
        Some(a) => if a == "open"@ {
            Some(Inbound::Open)
        } else if a == "ping"@ {
            Some(Inbound::Ping)
        } else if a == "ice"@ {
            match str_field(fields, "candidate"@) {
                Some(c) => Some(Inbound::Ice(c)),
                None => None,
            }
        } else if a == "sdp"@ {
            match str_field(fields, "sdp"@) {
                Some(s) => Some(Inbound::Sdp(s)),
                None => None,
            }
        } else {
            None
        },
        None => None,
    }
}

/// The JSON text of an outbound message.
pub open spec fn encode_view(m: Outbound) -> Seq<char> {
    match m {
        Outbound::Offer => "{\"action\":\"offer\"}"@,
        Outbound::Answer => "{\"action\":\"answer\"}"@,
        Outbound::Pong => "{\"action\":\"pong\"}"@,
        Outbound::Ice(c) => "{\"action\":\"ice\",\"candidate\":"@ + json_string_of(c) + "}"@,
        Outbound::Sdp(s) => "{\"action\":\"sdp\",\"sdp\":"@ + json_string_of(s) + "}"@,
        Outbound::Close => "{\"action\":\"close\"}"@,
    }
}

/// Relies on `serde_json::from_str` into a `serde_json::Map`: parses `text` as
/// one JSON object and hands out its fields, string values kept.
#[verifier::external_body]
fn parse_object(text: &str) -> (r: Option<Vec<(String, Option<String>)>>)
    ensures
        match r {
            Some(f) => json_object_fields(text@) == Some(f.deep_view()),
            None => json_object_fields(text@) is None,
        },
{
    match serde_json::from_str::<serde_json::Map<String, serde_json::Value>>(text) {
        Ok(map) => Some(
            map.into_iter().map(|(k, v)| match v {
                serde_json::Value::String(s) => (k, Some(s)),
                _ => (k, None),
            }).collect(),
        ),
        Err(_) => None,
    }
}

/// Relies on `serde_json::to_string` on a string slice: the quoted, escaped
/// JSON literal. Serializing a `str` does not fail.
#[verifier::external_body]
fn json_string(s: &str) -> (r: String)
    ensures
        r@ == json_string_of(s@),
{
    serde_json::to_string(s).unwrap_or_default()
}

/// The string value of the field named `key`, as `str_field` states it.
fn find_str_field(fields: &Vec<(String, Option<String>)>, key: &String) -> (r: Option<String>)
    ensures
        r.deep_view() == str_field(fields.deep_view(), key@),
{
    let ghost fv = fields.deep_view();
    assert(fv.subrange(0, fv.len() as int) =~= fv);
    let mut i: usize = 0;
    while i < fields.len()
        invariant
            i <= fields@.len(),
            fv == fields.deep_view(),
            fv.len() == fields@.len(),
            field(fv, key@) == field(fv.subrange(i as int, fv.len() as int), key@),
        decreases fields@.len() - i,
    {
        let ghost rest = fv.subrange(i as int, fv.len() as int);
        assert(rest.drop_first() =~= fv.subrange(i as int + 1, fv.len() as int));
        assert(rest[0] == fv[i as int]);
        if fields[i].0 == *key {
            return match &fields[i].1 {
                Some(v) => Some(v.clone()),
                None => None,
            };
        }
        i = i + 1;
    }
    None
}

/// Reads the fields of a JSON object as an inbound message.
pub fn decode_fields(fields: &Vec<(String, Option<String>)>) -> (r: Option<ReceivedMessage>)
    ensures
        match r {
            Some(m) => decode_view(fields.deep_view()) == Some(m@),
            None => decode_view(fields.deep_view()) is None,
        },
{
    let action = match find_str_field(fields, &"action".to_owned()) {
        Some(a) => a,
        None => return None,
    };
    if action == "open".to_owned() {
        Some(ReceivedMessage::Open)
    } else if action == "ping".to_owned() {
        Some(ReceivedMessage::Ping)
    } else if action == "ice".to_owned() {
        match find_str_field(fields, &"candidate".to_owned()) {
            Some(candidate) => Some(ReceivedMessage::Ice { candidate }),
            None => None,
        }
    } else if action == "sdp".to_owned() {
        match find_str_field(fields, &"sdp".to_owned()) {
            Some(sdp) => Some(ReceivedMessage::Sdp { sdp }),
            None => None,
        }
    } else {
        None
    }
}

/// Decodes the text of an inbound message; `None` for text that is not a JSON
/// object or whose fields name no message.
pub fn decode(text: &str) -> (r: Option<ReceivedMessage>)
    ensures
        match r {
            Some(m) => json_object_fields(text@) matches Some(f) && decode_view(f) == Some(m@),
            None => json_object_fields(text@) matches Some(f) ==> decode_view(f) is None,
        },
{
    match parse_object(text) {
        Some(fields) => decode_fields(&fields),
        None => None,
    }
}

impl SendingMessage {
    /// The JSON text of this message.
    pub fn encode(&self) -> (r: String)
        ensures
            r@ == encode_view(self@),
    {
        match self {
            SendingMessage::Offer => "{\"action\":\"offer\"}".to_owned(),
            SendingMessage::Answer => "{\"action\":\"answer\"}".to_owned(),
            SendingMessage::Pong => "{\"action\":\"pong\"}".to_owned(),
            SendingMessage::Ice { candidate } => {
                let mut r = "{\"action\":\"ice\",\"candidate\":".to_owned();
                r.append(json_string(candidate.as_str()).as_str());
                r.append("}");
                r
            },
            SendingMessage::Sdp { sdp } => {
                let mut r = "{\"action\":\"sdp\",\"sdp\":".to_owned();
                r.append(json_string(sdp.as_str()).as_str());
                r.append("}");
                r
            },
            SendingMessage::Close => "{\"action\":\"close\"}".to_owned(),
        }
    }
}

} // verus!
