//! The JSON-RPC 2.0 envelope: requests out, replies in.

use vstd::prelude::*;
use crate::error::Error;
use crate::json::{Json, JsonView, field_of, json_view, json_parse, json_text, parse_json, print_json};

verus! {

/// What a reply carries: the method's result, or the server's error record.
#[derive(Debug)]
pub enum Reply {
    Value(Json),
    Failure { code: i64, message: String },
}

/// A decoded reply envelope.
#[derive(Debug)]
pub struct Envelope {
    /// The request id that the server echoed, if it sent one.
    pub id: Option<i64>,
    pub reply: Reply,
}

pub enum ReplyView {
    Value(JsonView),
    Failure { code: int, message: Seq<char> },
}

pub struct EnvelopeView {
    pub id: Option<int>,
    pub reply: ReplyView,
}

impl View for Reply {
    type V = ReplyView;

    open spec fn view(&self) -> ReplyView {
        match self {
            Reply::Value(v) => ReplyView::Value(v@),
            Reply::Failure { code, message } => ReplyView::Failure { code: *code as int, message: message@ },
        }
    }
}

impl View for Envelope {
    type V = EnvelopeView;

    open spec fn view(&self) -> EnvelopeView {
        EnvelopeView {
            id: match self.id {
                Some(n) => Some(n as int),
                None => None,
            },
            reply: self.reply@,
        }
    }
}

/// The protocol version tag that every request carries.
pub open spec fn version_tag() -> Seq<char> {
    "2.0"@
}

/// The request envelope for `method`, `params` and `id`: an object with the
/// members `jsonrpc`, `method`, `params` and `id`, in that order.
pub open spec fn request_view(method: Seq<char>, params: JsonView, id: int) -> JsonView {
    JsonView::Object(
        seq![
            ("jsonrpc"@, JsonView::Str(version_tag())),
            ("method"@, JsonView::Str(method)),
            ("params"@, params),
            ("id"@, JsonView::Int(id)),
        ],
    )
}

/// The code and message of an error record: an object whose `code` is an
/// integer and whose `message` is a string.
pub open spec fn error_record_of(e: JsonView) -> Option<(int, Seq<char>)> {
    match (field_of(e, "code"@), field_of(e, "message"@)) {
        (Some(JsonView::Int(code)), Some(JsonView::Str(message))) => Some((code, message)),
        _ => None,
    }
}

/// The echoed id, when it is an integer; any other `id` is ignored.
pub open spec fn id_of(id: Option<JsonView>) -> Option<int> {
    match id {
        Some(JsonView::Int(n)) => Some(n),
        _ => None,
    }
}

/// How a parsed reply is classified.
///
/// A value with both or neither of the members `result` and `error` (a
/// value that is no object has neither) violates the protocol. An `error`
/// that is no error record is malformed. Otherwise the reply is the
/// `result` value or the error record, with the echoed id. The `jsonrpc`
/// member is not checked.
pub open spec fn envelope_of(v: JsonView) -> Result<EnvelopeView, Error> {
    let id = id_of(field_of(v, "id"@));
    let result = field_of(v, "result"@);
    let error = field_of(v, "error"@);
    if result is Some == error is Some {
        Err(Error::ProtocolViolation)
    } else if error is Some {
        match error_record_of(error->0) {
            Some((code, message)) => Ok(EnvelopeView { id, reply: ReplyView::Failure { code, message } }),
            None => Err(Error::MalformedPayload),
        }
    } else {
        Ok(EnvelopeView { id, reply: ReplyView::Value(result->0) })
    }
}

/// How a reply text is classified: text that is not JSON is malformed.
pub open spec fn decoded_of(text: Seq<char>) -> Result<EnvelopeView, Error> {
    match json_parse(text) {
        Some(v) => envelope_of(v),
        None => Err(Error::MalformedPayload),
    }
}

/// Whether an executable outcome agrees with a modelled one.
pub open spec fn outcome_is(r: Result<Envelope, Error>, o: Result<EnvelopeView, Error>) -> bool {
    match r {
        Ok(e) => o == Ok::<EnvelopeView, Error>(e@),
        Err(x) => o == Err::<EnvelopeView, Error>(x),
    }
}

/// Builds the request envelope for `method`, `params` and `id`.
pub fn request_envelope(method: &str, params: Json, id: i64) -> (r: Json)
    ensures
        r@ == request_view(method@, params@, id as int),
{
    let mut members: Vec<(String, Json)> = Vec::new();
    members.push((String::from_str("jsonrpc"), Json::Str(String::from_str("2.0"))));
    members.push((String::from_str("method"), Json::Str(String::from_str(method))));
    members.push((String::from_str("params"), params));
    members.push((String::from_str("id"), Json::Int(id)));
    let ghost m = members@;
    let r = Json::Object(members);
    proof {
        assert(json_view(m[0].1) == JsonView::Str(version_tag()));
        assert(json_view(m[1].1) == JsonView::Str(method@));
        assert(json_view(m[3].1) == JsonView::Int(id as int));
        let s = r@->Object_0;
        let t = request_view(method@, params@, id as int)->Object_0;
        assert(s.len() == 4);
        assert(s[0] == t[0]);
        assert(s[1] == t[1]);
        assert(s[2] == t[2]);
        assert(s[3] == t[3]);
        assert(s =~= t);
    }
    r
}

/// The JSON text of the request envelope for `method`, `params` and `id`.
pub fn encode_request(method: &str, params: Json, id: i64) -> (r: String)
    ensures
        r@ == json_text(request_view(method@, params@, id as int)),
{
    let envelope = request_envelope(method, params, id);
    print_json(&envelope)
}

/// Classifies a parsed reply (see `envelope_of`).
pub fn read_envelope(v: &Json) -> (r: Result<Envelope, Error>)
    ensures
        outcome_is(r, envelope_of(v@)),
{
    let id = match v.field(&String::from_str("id")) {
        Some(Json::Int(n)) => Some(*n),
        _ => None,
    };
    let result = v.field(&String::from_str("result"));
    let error = v.field(&String::from_str("error"));
    if result.is_some() == error.is_some() {
        return Err(Error::ProtocolViolation);
    }
    match error {
        Some(e) => {
            let code = e.field(&String::from_str("code"));
            let message = e.field(&String::from_str("message"));
            match (code, message) {
                (Some(Json::Int(c)), Some(Json::Str(m))) => Ok(
                    Envelope { id, reply: Reply::Failure { code: *c, message: m.clone() } },
                ),
                _ => Err(Error::MalformedPayload),
            }
        },
        None => match result {
            Some(x) => Ok(Envelope { id, reply: Reply::Value(x.deep_copy()) }),
            None => Err(Error::ProtocolViolation),
        },
    }
}

/// Decodes the text of a reply frame (see `decoded_of`).
pub fn decode(text: &str) -> (r: Result<Envelope, Error>)
    ensures
        outcome_is(r, decoded_of(text@)),
{
    match parse_json(text) {
        Some(v) => read_envelope(&v),
        None => Err(Error::MalformedPayload),
    }
}

/// A reply that carries both or neither of `result` and `error` is refused
/// as a protocol violation, whatever else it holds.
pub proof fn lemma_result_xor_error(text: Seq<char>)
    requires
        json_parse(text) is Some,
        field_of(json_parse(text)->0, "result"@) is Some == field_of(json_parse(text)->0, "error"@) is Some,
    ensures
        decoded_of(text) == Err::<EnvelopeView, Error>(Error::ProtocolViolation),
{
}

} // verus!
