//! The protocol's messages: the `{"op": .., "d": ..}` envelope, the payload
//! of each opcode, and how they are read from and written to JSON text.
//!
//! Payloads that the protocol does not interpret (event data, request and
//! response data) are carried as JSON text.
pub mod event;
pub mod hello;
pub mod raw;
pub mod request_batch;
pub mod response;
pub mod response_batch;

use crate::json::{
    bool_member, decimal_of, int_member, json_null_of, json_object_of, json_quote_of, member_of,
    opt_string_member, push_decimal, push_quoted, raw_member, string_member, JsonObject,
};
use vstd::prelude::*;
use vstd::string::StringExecFns;

verus! {

/// A frame as the transport delivers it: text, or anything else.
#[derive(Debug, Clone)]
pub enum Frame {
    Text(String),
    Other,
}

/// Why a frame could not be read as the message that was expected.
#[derive(Debug, Clone, Copy, PartialEq, Eq, Structural)]
pub enum DecodeError {
    /// The frame is a well-formed message with another opcode.
    OpCodeMismatch(i32),
    /// The frame is not a text frame.
    NotText,
    /// The text is not a message of the expected shape.
    Json,
}

/// A payload type and the opcode it travels under.
pub trait MessageData: Sized {
    spec fn spec_op() -> i32;

    fn op() -> (r: i32)
        ensures
            r == Self::spec_op(),
    ;
}

/// A payload type that is a whole message, not a part of one.
pub trait MessageDataFull: MessageData {
    fn into_raw_message(self) -> (r: Raw<Self>)
        ensures
            r.op == Self::spec_op(),
            r.d == self,
    ;
}

/// The Hello message (opcode 0).
#[derive(Debug, Clone)]
pub struct Hello {
    pub authentication: Option<hello::Authentication>,
}

impl View for Hello {
    type V = Option<(Seq<char>, Seq<char>)>;

    open spec fn view(&self) -> Option<(Seq<char>, Seq<char>)> {
        match self.authentication {
            Some(a) => Some(a@),
            None => None,
        }
    }
}

/// The Identify message (opcode 1).
#[derive(Debug, Clone)]
pub struct Identify {
    pub rpc_version: u32,
    pub authentication: Option<String>,
    pub event_subscriptions: Option<u32>,
}

/// The Identified message (opcode 2).
#[derive(Debug, Clone, Copy)]
pub struct Identified {
    pub negotiated_rpc_version: u32,
}

/// The Reidentify message (opcode 3).
#[derive(Debug, Clone, Copy)]
pub struct Reidentify {
    pub event_subscriptions: Option<u32>,
}

/// The Event message (opcode 5).
#[derive(Debug, Clone)]
pub struct Event<T> {
    pub event_type: String,
    pub event_intent: u32,
    pub event_data: Option<T>,
}

/// The Request message (opcode 6).
#[derive(Debug, Clone)]
pub struct Request<T> {
    pub request_type: String,
    pub request_id: String,
    pub request_data: Option<T>,
}

/// The RequestResponse message (opcode 7).
#[derive(Debug, Clone)]
pub struct Response<T> {
    pub request_type: String,
    pub request_id: String,
    pub request_status: response::RequestStatus,
    pub response_data: Option<T>,
}

/// The RequestBatch message (opcode 8).
#[derive(Debug, Clone)]
pub struct RequestBatch<T> {
    pub request_id: String,
    pub halt_on_failure: Option<bool>,
    pub execution_type: Option<i32>,
    pub requests: T,
}

/// The RequestBatchResponse message (opcode 9).
#[derive(Debug, Clone)]
pub struct ResponseBatch<T> {
    pub request_id: String,
    pub results: T,
}

/// A whole message: its opcode and its payload.
#[derive(Debug, Clone)]
pub struct Raw<T> {
    pub op: i32,
    pub d: T,
}

/// Any message that the server sends, with the parts that the protocol reads.
#[derive(Debug, Clone)]
pub enum ServerMessage {
    Hello(Hello),
    Identified(Identified),
    Event(event::InfoPart),
    Response(response::InfoPart),
    ResponseBatch(response_batch::InfoPart),
}

/// What a server message holds, as plain values.
pub enum ServerMessageView {
    Hello(Option<(Seq<char>, Seq<char>)>),
    Identified(u32),
    Event((Seq<char>, u32)),
    Response((Seq<char>, Seq<char>, (bool, i32, Option<Seq<char>>))),
    ResponseBatch(Seq<char>),
}

impl View for ServerMessage {
    type V = ServerMessageView;

    open spec fn view(&self) -> ServerMessageView {
        match self {
            ServerMessage::Hello(h) => ServerMessageView::Hello(h@),
            ServerMessage::Identified(i) => ServerMessageView::Identified(i.negotiated_rpc_version),
            ServerMessage::Event(e) => ServerMessageView::Event(e@),
            ServerMessage::Response(r) => ServerMessageView::Response(r@),
            ServerMessage::ResponseBatch(b) => ServerMessageView::ResponseBatch(b@),
        }
    }
}

pub open spec fn opt_view(o: Option<String>) -> Option<Seq<char>> {
    match o {
        Some(s) => Some(s@),
        None => None,
    }
}

// ---------------------------------------------------------------------------
// Reading messages

/// The opcode and the payload object of the message written in `s`.
pub open spec fn envelope_of(s: Seq<char>) -> Option<(i32, Map<Seq<char>, Seq<char>>)> {
    match json_object_of(s) {
        None => None,
        Some(top) => match int_member(top, "op"@, i32::MIN as int, i32::MAX as int) {
            None => None,
            Some(op) => match member_of(top, "d"@) {
                None => None,
                Some(d) => match json_object_of(d) {
                    None => None,
                    Some(dm) => Some((op as i32, dm)),
                },
            },
        },
    }
}

/// A Hello payload: the challenge and salt, if the server asks for authentication.
pub open spec fn hello_of(d: Map<Seq<char>, Seq<char>>) -> Option<Option<(Seq<char>, Seq<char>)>> {
    match member_of(d, "authentication"@) {
        None => Some(None),
        Some(t) => if json_null_of(t) {
            Some(None)
        } else {
            match json_object_of(t) {
                None => None,
                Some(a) => match (string_member(a, "challenge"@), string_member(a, "salt"@)) {
                    (Some(c), Some(s)) => Some(Some((c, s))),
                    _ => None,
                },
            }
        },
    }
}

/// An Identified payload: the negotiated protocol version.
pub open spec fn identified_of(d: Map<Seq<char>, Seq<char>>) -> Option<u32> {
    match int_member(d, "negotiatedRpcVersion"@, 0, u32::MAX as int) {
        Some(n) => Some(n as u32),
        None => None,
    }
}

/// The type and intent of an Event payload.
pub open spec fn event_info_of(d: Map<Seq<char>, Seq<char>>) -> Option<(Seq<char>, u32)> {
    match (string_member(d, "eventType"@), int_member(d, "eventIntent"@, 0, u32::MAX as int)) {
        (Some(t), Some(i)) => Some((t, i as u32)),
        _ => None,
    }
}

/// A request status object.
pub open spec fn status_of(t: Seq<char>) -> Option<(bool, i32, Option<Seq<char>>)> {
    match json_object_of(t) {
        None => None,
        Some(s) => match (
            bool_member(s, "result"@),
            int_member(s, "code"@, i32::MIN as int, i32::MAX as int),
            opt_string_member(s, "comment"@),
        ) {
            (Some(r), Some(c), Some(m)) => Some((r, c as i32, m)),
            _ => None,
        },
    }
}

/// The type, id and status of a RequestResponse payload.
pub open spec fn response_info_of(d: Map<Seq<char>, Seq<char>>) -> Option<
    (Seq<char>, Seq<char>, (bool, i32, Option<Seq<char>>)),
> {
    match (string_member(d, "requestType"@), string_member(d, "requestId"@)) {
        (Some(ty), Some(id)) => match member_of(d, "requestStatus"@) {
            Some(t) => match status_of(t) {
                Some(st) => Some((ty, id, st)),
                None => None,
            },
            None => None,
        },
        _ => None,
    }
}

/// The id of a RequestBatchResponse payload.
pub open spec fn response_batch_info_of(d: Map<Seq<char>, Seq<char>>) -> Option<Seq<char>> {
    string_member(d, "requestId"@)
}

/// The server message written in `s`; `None` when `s` is no message the
/// server sends, or is malformed.
pub open spec fn server_message_of(s: Seq<char>) -> Option<ServerMessageView> {
    match envelope_of(s) {
        None => None,
        Some((op, d)) => if op == 0 {
            match hello_of(d) {
                Some(h) => Some(ServerMessageView::Hello(h)),
                None => None,
            }
        } else if op == 2 {
            match identified_of(d) {
                Some(v) => Some(ServerMessageView::Identified(v)),
                None => None,
            }
        } else if op == 5 {
            match event_info_of(d) {
                Some(e) => Some(ServerMessageView::Event(e)),
                None => None,
            }
        } else if op == 7 {
            match response_info_of(d) {
                Some(r) => Some(ServerMessageView::Response(r)),
                None => None,
            }
        } else if op == 9 {
            match response_batch_info_of(d) {
                Some(b) => Some(ServerMessageView::ResponseBatch(b)),
                None => None,
            }
        } else {
            None
        },
    }
}

/// Reading the frame `f` as a message with opcode `op` whose payload `data` reads.
/// The payload is read first: a frame of another opcode whose payload also
/// reads is a mismatch, one whose payload does not is malformed.
pub open spec fn decode_as<V>(
    f: Frame,
    op: i32,
    data: spec_fn(Map<Seq<char>, Seq<char>>) -> Option<V>,
) -> Result<V, DecodeError> {
    match f {
        Frame::Other => Err(DecodeError::NotText),
        Frame::Text(t) => match envelope_of(t@) {
            None => Err(DecodeError::Json),
            Some((o, d)) => match data(d) {
                None => Err(DecodeError::Json),
                Some(v) => if o == op {
                    Ok(v)
                } else {
                    Err(DecodeError::OpCodeMismatch(o))
                },
            },
        },
    }
}

/// Splits a message into its opcode and payload object.
fn envelope(text: &str) -> (r: Option<(i32, JsonObject)>)
    ensures
        r is Some <==> envelope_of(text@) is Some,
        r matches Some((op, d)) ==> d.wf() && envelope_of(text@) == Some((op, d@)),
{
    let top = match JsonObject::parse(text) {
        Some(o) => o,
        None => return None,
    };
    let op = match top.int_member("op", i32::MIN as i64, i32::MAX as i64) {
        Some(n) => n as i32,
        None => return None,
    };
    let d = match top.member("d") {
        Some(t) => t,
        None => return None,
    };
    match JsonObject::parse(d.as_str()) {
        Some(dm) => Some((op, dm)),
        None => None,
    }
}

impl Hello {
    /// Reads a Hello payload.
    pub fn from_data(d: &JsonObject) -> (r: Option<Hello>)
        requires
            d.wf(),
        ensures
            r is Some <==> hello_of(d@) is Some,
            r matches Some(h) ==> hello_of(d@) == Some(h@),
    {
        let t = match d.raw_member("authentication") {
            None => return Some(Hello { authentication: None }),
            Some(t) => t,
        };
        let a = match JsonObject::parse(t.as_str()) {
            Some(a) => a,
            None => return None,
        };
        match (a.string_member("challenge"), a.string_member("salt")) {
            (Some(challenge), Some(salt)) => Some(
                Hello { authentication: Some(hello::Authentication { challenge, salt }) },
            ),
            _ => None,
        }
    }

    /// Reads a frame as a Hello message.
    pub fn from_ws_message_json(f: &Frame) -> (r: Result<Hello, DecodeError>)
        ensures
            match r {
                Ok(h) => decode_as(*f, 0, |d| hello_of(d)) == Ok::<_, DecodeError>(h@),
                Err(e) => decode_as(*f, 0, |d| hello_of(d)) == Err::<
                    Option<(Seq<char>, Seq<char>)>,
                    _,
                >(e),
            },
    {
        let t = match f {
            Frame::Text(t) => t,
            Frame::Other => return Err(DecodeError::NotText),
        };
        let (op, d) = match envelope(t.as_str()) {
            Some(e) => e,
            None => return Err(DecodeError::Json),
        };
        match Hello::from_data(&d) {
            None => Err(DecodeError::Json),
            Some(h) => if op == 0 {
                Ok(h)
            } else {
                Err(DecodeError::OpCodeMismatch(op))
            },
        }
    }
}

impl Identified {
    /// Reads an Identified payload.
    pub fn from_data(d: &JsonObject) -> (r: Option<Identified>)
        requires
            d.wf(),
        ensures
            r is Some <==> identified_of(d@) is Some,
            r matches Some(i) ==> identified_of(d@) == Some(i.negotiated_rpc_version),
    {
        match d.int_member("negotiatedRpcVersion", 0, u32::MAX as i64) {
            Some(n) => Some(Identified { negotiated_rpc_version: n as u32 }),
            None => None,
        }
    }

    /// Reads a frame as an Identified message.
    pub fn from_ws_message_json(f: &Frame) -> (r: Result<Identified, DecodeError>)
        ensures
            match r {
                Ok(i) => decode_as(*f, 2, |d| identified_of(d)) == Ok::<_, DecodeError>(
                    i.negotiated_rpc_version,
                ),
                Err(e) => decode_as(*f, 2, |d| identified_of(d)) == Err::<u32, _>(e),
            },
    {
        let t = match f {
            Frame::Text(t) => t,
            Frame::Other => return Err(DecodeError::NotText),
        };
        let (op, d) = match envelope(t.as_str()) {
            Some(e) => e,
            None => return Err(DecodeError::Json),
        };
        match Identified::from_data(&d) {
            None => Err(DecodeError::Json),
            Some(i) => if op == 2 {
                Ok(i)
            } else {
                Err(DecodeError::OpCodeMismatch(op))
            },
        }
    }
}

impl event::InfoPart {
    /// Reads the type and intent of an Event payload.
    pub fn from_data(d: &JsonObject) -> (r: Option<event::InfoPart>)
        requires
            d.wf(),
        ensures
            r is Some <==> event_info_of(d@) is Some,
            r matches Some(e) ==> event_info_of(d@) == Some(e@),
    {
        match (d.string_member("eventType"), d.int_member("eventIntent", 0, u32::MAX as i64)) {
            (Some(event_type), Some(i)) => Some(event::InfoPart { event_type, event_intent: i as u32 }),
            _ => None,
        }
    }
}

impl response::RequestStatus {
    /// Reads a request status object.
    pub fn from_json_str(t: &str) -> (r: Option<response::RequestStatus>)
        ensures
            r is Some <==> status_of(t@) is Some,
            r matches Some(s) ==> status_of(t@) == Some(s@),
    {
        let s = match JsonObject::parse(t) {
            Some(s) => s,
            None => return None,
        };
        match (
            s.bool_member("result"),
            s.int_member("code", i32::MIN as i64, i32::MAX as i64),
            s.opt_string_member("comment"),
        ) {
            (Some(result), Some(code), Some(comment)) => Some(
                response::RequestStatus { result, code: code as i32, comment },
            ),
            _ => None,
        }
    }
}

impl response::InfoPart {
    /// Reads the type, id and status of a RequestResponse payload.
    pub fn from_data(d: &JsonObject) -> (r: Option<response::InfoPart>)
        requires
            d.wf(),
        ensures
            r is Some <==> response_info_of(d@) is Some,
            r matches Some(i) ==> response_info_of(d@) == Some(i@),
    {
        let (request_type, request_id) = match (
            d.string_member("requestType"),
            d.string_member("requestId"),
        ) {
            (Some(ty), Some(id)) => (ty, id),
            _ => return None,
        };
        let t = match d.member("requestStatus") {
            Some(t) => t,
            None => return None,
        };
        match response::RequestStatus::from_json_str(t.as_str()) {
            Some(request_status) => Some(
                response::InfoPart { request_type, request_id, request_status },
            ),
            None => None,
        }
    }
}

impl response_batch::InfoPart {
    /// Reads the id of a RequestBatchResponse payload.
    pub fn from_data(d: &JsonObject) -> (r: Option<response_batch::InfoPart>)
        requires
            d.wf(),
        ensures
            r is Some <==> response_batch_info_of(d@) is Some,
            r matches Some(i) ==> response_batch_info_of(d@) == Some(i@),
    {
        match d.string_member("requestId") {
            Some(request_id) => Some(response_batch::InfoPart { request_id }),
            None => None,
        }
    }
}

impl ServerMessage {
    /// Reads any message that the server sends.
    pub fn from_json_str(text: &str) -> (r: Result<ServerMessage, DecodeError>)
        ensures
            match r {
                Ok(m) => server_message_of(text@) == Some(m@),
                Err(e) => server_message_of(text@) is None && e == DecodeError::Json,
            },
    {
        let (op, d) = match envelope(text) {
            Some(e) => e,
            None => return Err(DecodeError::Json),
        };
        let m = if op == 0 {
            match Hello::from_data(&d) {
                Some(h) => Some(ServerMessage::Hello(h)),
                None => None,
            }
        } else if op == 2 {
            match Identified::from_data(&d) {
                Some(i) => Some(ServerMessage::Identified(i)),
                None => None,
            }
        } else if op == 5 {
            match event::InfoPart::from_data(&d) {
                Some(e) => Some(ServerMessage::Event(e)),
                None => None,
            }
        } else if op == 7 {
            match response::InfoPart::from_data(&d) {
                Some(i) => Some(ServerMessage::Response(i)),
                None => None,
            }
        } else if op == 9 {
            match response_batch::InfoPart::from_data(&d) {
                Some(i) => Some(ServerMessage::ResponseBatch(i)),
                None => None,
            }
        } else {
            None
        };
        match m {
            Some(m) => Ok(m),
            None => Err(DecodeError::Json),
        }
    }

    /// Reads a frame as any message that the server sends.
    pub fn from_frame(f: &Frame) -> (r: Result<ServerMessage, DecodeError>)
        ensures
            match r {
                Ok(m) => f matches Frame::Text(t) && server_message_of(t@) == Some(m@),
                Err(e) => match f {
                    Frame::Other => e == DecodeError::NotText,
                    Frame::Text(t) => server_message_of(t@) is None && e == DecodeError::Json,
                },
            },
    {
        match f {
            Frame::Text(t) => ServerMessage::from_json_str(t.as_str()),
            Frame::Other => Err(DecodeError::NotText),
        }
    }

    /// The opcode this message travels under.
    pub fn opcode(&self) -> (r: i32)
        ensures
            r == match self {
                ServerMessage::Hello(_) => 0i32,
                ServerMessage::Identified(_) => 2i32,
                ServerMessage::Event(_) => 5i32,
                ServerMessage::Response(_) => 7i32,
                ServerMessage::ResponseBatch(_) => 9i32,
            },
    {
        match self {
            ServerMessage::Hello(_) => Hello::op(),
            ServerMessage::Identified(_) => Identified::op(),
            ServerMessage::Event(_) => event::InfoPart::op(),
            ServerMessage::Response(_) => response::InfoPart::op(),
            ServerMessage::ResponseBatch(_) => response_batch::InfoPart::op(),
        }
    }
}


// ---------------------------------------------------------------------------
// Writing messages

/// The JSON text of a whole message: `{"op":<op>,"d":<d>}`.
pub open spec fn envelope_json(op: int, d: Seq<char>) -> Seq<char> {
    "{\"op\":"@ + decimal_of(op) + ",\"d\":"@ + d + "}"@
}

/// `prefix` followed by `value`, or nothing when there is no value.
pub open spec fn opt_json(prefix: Seq<char>, value: Option<Seq<char>>) -> Seq<char> {
    match value {
        Some(v) => prefix + v,
        None => Seq::empty(),
    }
}

pub open spec fn opt_quoted(o: Option<String>) -> Option<Seq<char>> {
    match o {
        Some(s) => Some(json_quote_of(s@)),
        None => None,
    }
}

pub open spec fn opt_decimal(o: Option<int>) -> Option<Seq<char>> {
    match o {
        Some(n) => Some(decimal_of(n)),
        None => None,
    }
}

pub open spec fn bool_json(b: bool) -> Seq<char> {
    if b {
        "true"@
    } else {
        "false"@
    }
}

/// The payload text of an Identify message; absent fields are left out.
pub open spec fn identify_json(rpc_version: u32, authentication: Option<Seq<char>>, event_subscriptions: Option<u32>) -> Seq<char> {
    "{\"rpcVersion\":"@ + decimal_of(rpc_version as int) + opt_json(
        ",\"authentication\":"@,
        match authentication {
            Some(a) => Some(json_quote_of(a)),
            None => None,
        },
    ) + opt_json(
        ",\"eventSubscriptions\":"@,
        opt_decimal(
            match event_subscriptions {
                Some(e) => Some(e as int),
                None => None,
            },
        ),
    ) + "}"@
}

/// The payload text of a Reidentify message.
pub open spec fn reidentify_json(m: Reidentify) -> Seq<char> {
    "{"@ + opt_json(
        "\"eventSubscriptions\":"@,
        opt_decimal(
            match m.event_subscriptions {
                Some(e) => Some(e as int),
                None => None,
            },
        ),
    ) + "}"@
}

/// The payload text of a Request message whose data is JSON text.
pub open spec fn request_json(m: Request<String>) -> Seq<char> {
    "{\"requestType\":"@ + json_quote_of(m.request_type@) + ",\"requestId\":"@ + json_quote_of(
        m.request_id@,
    ) + opt_json(",\"requestData\":"@, opt_view(m.request_data)) + "}"@
}

/// The text of one request of a batch.
pub open spec fn requests_item_json(m: request_batch::RequestsItem<String>) -> Seq<char> {
    "{\"requestType\":"@ + json_quote_of(m.request_type@) + opt_json(
        ",\"requestId\":"@,
        opt_quoted(m.request_id),
    ) + opt_json(",\"requestData\":"@, opt_view(m.request_data)) + "}"@
}

/// The requests of a batch, separated by commas.
pub open spec fn requests_json(items: Seq<request_batch::RequestsItem<String>>) -> Seq<char>
    decreases items.len(),
{
    if items.len() == 0 {
        Seq::empty()
    } else if items.len() == 1 {
        requests_item_json(items[0])
    } else {
        requests_json(items.drop_last()) + ","@ + requests_item_json(items.last())
    }
}

/// The payload text of a RequestBatch message.
pub open spec fn request_batch_json(m: RequestBatch<Vec<request_batch::RequestsItem<String>>>) -> Seq<
    char,
> {
    "{\"requestId\":"@ + json_quote_of(m.request_id@) + opt_json(
        ",\"haltOnFailure\":"@,
        match m.halt_on_failure {
            Some(b) => Some(bool_json(b)),
            None => None,
        },
    ) + opt_json(
        ",\"executionType\":"@,
        opt_decimal(
            match m.execution_type {
                Some(e) => Some(e as int),
                None => None,
            },
        ),
    ) + ",\"requests\":["@ + requests_json(m.requests@) + "]}"@
}

fn push_opt_quoted(out: &mut String, prefix: &str, value: &Option<String>)
    ensures
        final(out)@ == old(out)@ + opt_json(prefix@, opt_quoted(*value)),
{
    if let Some(v) = value {
        out.append(prefix);
        push_quoted(out, v.as_str());
        proof {
            assert(final(out)@ =~= old(out)@ + opt_json(prefix@, opt_quoted(*value)));
        }
    } else {
        proof {
            assert(final(out)@ =~= old(out)@ + opt_json(prefix@, opt_quoted(*value)));
        }
    }
}

fn push_opt_decimal(out: &mut String, prefix: &str, value: Option<i64>)
    ensures
        final(out)@ == old(out)@ + opt_json(
            prefix@,
            opt_decimal(
                match value {
                    Some(e) => Some(e as int),
                    None => None,
                },
            ),
        ),
{
    if let Some(v) = value {
        out.append(prefix);
        push_decimal(out, v);
        proof {
            assert(final(out)@ =~= old(out)@ + prefix@ + decimal_of(v as int));
        }
    } else {
        proof {
            assert(final(out)@ =~= old(out)@);
        }
    }
}

fn push_opt_raw(out: &mut String, prefix: &str, value: &Option<String>)
    ensures
        final(out)@ == old(out)@ + opt_json(prefix@, opt_view(*value)),
{
    if let Some(v) = value {
        out.append(prefix);
        out.append(v.as_str());
        proof {
            assert(final(out)@ =~= old(out)@ + opt_json(prefix@, opt_view(*value)));
        }
    } else {
        proof {
            assert(final(out)@ =~= old(out)@ + opt_json(prefix@, opt_view(*value)));
        }
    }
}

fn opt_u32_as_i64(o: Option<u32>) -> (r: Option<i64>)
    ensures
        match o {
            Some(e) => r == Some(e as i64),
            None => r is None,
        },
{
    match o {
        Some(e) => Some(e as i64),
        None => None,
    }
}

impl Raw<String> {
    /// The JSON text of this message, whose payload is JSON text.
    pub fn to_ws_message_json(&self) -> (r: String)
        ensures
            r@ == envelope_json(self.op as int, self.d@),
    {
        let mut out = "{\"op\":".to_owned();
        push_decimal(&mut out, self.op as i64);
        out.append(",\"d\":");
        out.append(self.d.as_str());
        out.append("}");
        out
    }
}

impl Identify {
    /// The payload text of this message.
    pub fn to_json(&self) -> (r: String)
        ensures
            r@ == identify_json(self.rpc_version, opt_view(self.authentication), self.event_subscriptions),
    {
        let mut out = "{\"rpcVersion\":".to_owned();
        push_decimal(&mut out, self.rpc_version as i64);
        push_opt_quoted(&mut out, ",\"authentication\":", &self.authentication);
        push_opt_decimal(&mut out, ",\"eventSubscriptions\":", opt_u32_as_i64(self.event_subscriptions));
        out.append("}");
        out
    }

    /// The JSON text of the whole message.
    pub fn into_ws_message_json(self) -> (r: String)
        ensures
            r@ == envelope_json(1, identify_json(self.rpc_version, opt_view(self.authentication), self.event_subscriptions)),
    {
        let d = self.to_json();
        Raw { op: Identify::op(), d }.to_ws_message_json()
    }
}

impl Reidentify {
    /// The payload text of this message.
    pub fn to_json(&self) -> (r: String)
        ensures
            r@ == reidentify_json(*self),
    {
        let mut out = "{".to_owned();
        push_opt_decimal(&mut out, "\"eventSubscriptions\":", opt_u32_as_i64(self.event_subscriptions));
        out.append("}");
        out
    }

    /// The JSON text of the whole message.
    pub fn into_ws_message_json(self) -> (r: String)
        ensures
            r@ == envelope_json(3, reidentify_json(self)),
    {
        let d = self.to_json();
        Raw { op: Reidentify::op(), d }.to_ws_message_json()
    }
}

impl Request<String> {
    /// The payload text of this message; the request data is JSON text.
    pub fn to_json(&self) -> (r: String)
        ensures
            r@ == request_json(*self),
    {
        let mut out = "{\"requestType\":".to_owned();
        push_quoted(&mut out, self.request_type.as_str());
        out.append(",\"requestId\":");
        push_quoted(&mut out, self.request_id.as_str());
        push_opt_raw(&mut out, ",\"requestData\":", &self.request_data);
        out.append("}");
        out
    }

    /// The JSON text of the whole message.
    pub fn into_ws_message_json(self) -> (r: String)
        ensures
            r@ == envelope_json(6, request_json(self)),
    {
        let d = self.to_json();
        Raw { op: Request::<String>::op(), d }.to_ws_message_json()
    }
}

impl request_batch::RequestsItem<String> {
    /// The text of this request of a batch.
    pub fn to_json(&self) -> (r: String)
        ensures
            r@ == requests_item_json(*self),
    {
        let mut out = "{\"requestType\":".to_owned();
        push_quoted(&mut out, self.request_type.as_str());
        push_opt_quoted(&mut out, ",\"requestId\":", &self.request_id);
        push_opt_raw(&mut out, ",\"requestData\":", &self.request_data);
        out.append("}");
        out
    }
}

impl RequestBatch<Vec<request_batch::RequestsItem<String>>> {
    /// The payload text of this message.
    pub fn to_json(&self) -> (r: String)
        ensures
            r@ == request_batch_json(*self),
    {
        let mut out = "{\"requestId\":".to_owned();
        push_quoted(&mut out, self.request_id.as_str());
        match self.halt_on_failure {
            Some(b) => {
                out.append(",\"haltOnFailure\":");
                out.append(if b { "true" } else { "false" });
            },
            None => {},
        }
        let ghost head = out@;
        push_opt_decimal(&mut out, ",\"executionType\":", match self.execution_type {
            Some(e) => Some(e as i64),
            None => None,
        });
        out.append(",\"requests\":[");
        let ghost start = out@;
        let mut i: usize = 0;
        while i < self.requests.len()
            invariant
                i <= self.requests@.len(),
                out@ == start + requests_json(self.requests@.subrange(0, i as int)),
            decreases self.requests@.len() - i,
        {
            if i > 0 {
                out.append(",");
            }
            let item = self.requests[i].to_json();
            out.append(item.as_str());
            proof {
                let s = self.requests@.subrange(0, i as int + 1);
                assert(s.drop_last() =~= self.requests@.subrange(0, i as int));
                assert(out@ =~= start + requests_json(s));
            }
            i = i + 1;
        }
        out.append("]}");
        proof {
            assert(self.requests@.subrange(0, self.requests@.len() as int) =~= self.requests@);
            assert(out@ =~= request_batch_json(*self));
        }
        out
    }

    /// The JSON text of the whole message.
    pub fn into_ws_message_json(self) -> (r: String)
        ensures
            r@ == envelope_json(8, request_batch_json(self)),
    {
        let d = self.to_json();
        Raw { op: RequestBatch::<Vec<request_batch::RequestsItem<String>>>::op(), d }.to_ws_message_json()
    }
}

// ---------------------------------------------------------------------------
// Putting messages together from their parts

impl<T> Event<T> {
    pub fn from_parts(info: event::InfoPart, data: event::DataPart<T>) -> (r: Self)
        ensures
            r.event_type == info.event_type,
            r.event_intent == info.event_intent,
            r.event_data == data.event_data,
    {
        Event { event_type: info.event_type, event_intent: info.event_intent, event_data: data.event_data }
    }

    pub fn from_info_w_data(info: event::InfoPart, data: Option<T>) -> (r: Self)
        ensures
            r.event_type == info.event_type,
            r.event_intent == info.event_intent,
            r.event_data == data,
    {
        Self::from_parts(info, event::DataPart { event_data: data })
    }
}

impl<T> Response<T> {
    pub fn from_parts(info: response::InfoPart, data: response::DataPart<T>) -> (r: Self)
        ensures
            r.request_type == info.request_type,
            r.request_id == info.request_id,
            r.request_status == info.request_status,
            r.response_data == data.response_data,
    {
        Response {
            request_type: info.request_type,
            request_id: info.request_id,
            request_status: info.request_status,
            response_data: data.response_data,
        }
    }

    pub fn from_info_w_data(info: response::InfoPart, data: Option<T>) -> (r: Self)
        ensures
            r.request_type == info.request_type,
            r.request_id == info.request_id,
            r.request_status == info.request_status,
            r.response_data == data,
    {
        Self::from_parts(info, response::DataPart { response_data: data })
    }
}

impl<T> ResponseBatch<T> {
    pub fn from_parts(info: response_batch::InfoPart, results: response_batch::ResultsPart<T>) -> (r: Self)
        ensures
            r.request_id == info.request_id,
            r.results == results.results,
    {
        ResponseBatch { request_id: info.request_id, results: results.results }
    }
}

/// The payload of the message written in `s`, when it has opcode `op`.
pub open spec fn payload_of(s: Seq<char>, op: i32) -> Option<Map<Seq<char>, Seq<char>>> {
    match envelope_of(s) {
        Some((o, d)) => if o == op {
            Some(d)
        } else {
            None
        },
        None => None,
    }
}

/// Reads the payload object of a message with opcode `op`.
fn payload(text: &str, op: i32) -> (r: Option<JsonObject>)
    ensures
        r is Some <==> payload_of(text@, op) is Some,
        r matches Some(d) ==> d.wf() && payload_of(text@, op) == Some(d@),
{
    match envelope(text) {
        Some((o, d)) => if o == op {
            Some(d)
        } else {
            None
        },
        None => None,
    }
}

impl event::DataPart<String> {
    /// The event data of an Event message, as JSON text. `None` when `text` is no Event message.
    pub fn from_json_str(text: &str) -> (r: Option<event::DataPart<String>>)
        ensures
            r is Some <==> payload_of(text@, 5) is Some,
            r matches Some(p) ==> opt_view(p.event_data) == raw_member(
                payload_of(text@, 5)->0,
                "eventData"@,
            ),
    {
        match payload(text, 5) {
            Some(d) => Some(event::DataPart { event_data: d.raw_member("eventData") }),
            None => None,
        }
    }
}

impl response::DataPart<String> {
    /// The response data of a RequestResponse message, as JSON text. `None` when `text` is no
    /// RequestResponse message.
    pub fn from_json_str(text: &str) -> (r: Option<response::DataPart<String>>)
        ensures
            r is Some <==> payload_of(text@, 7) is Some,
            r matches Some(p) ==> opt_view(p.response_data) == raw_member(
                payload_of(text@, 7)->0,
                "responseData"@,
            ),
    {
        match payload(text, 7) {
            Some(d) => Some(response::DataPart { response_data: d.raw_member("responseData") }),
            None => None,
        }
    }
}

impl response_batch::ResultsPart<String> {
    /// The results of a RequestBatchResponse message, as the JSON text of an array. `None`
    /// when `text` is no such message or has no results.
    pub fn from_json_str(text: &str) -> (r: Option<response_batch::ResultsPart<String>>)
        ensures
            r is Some <==> payload_of(text@, 9) is Some && raw_member(payload_of(text@, 9)->0, "results"@) is Some,
            r matches Some(p) ==> raw_member(payload_of(text@, 9)->0, "results"@) == Some(p.results@),
    {
        match payload(text, 9) {
            Some(d) => match d.raw_member("results") {
                Some(results) => Some(response_batch::ResultsPart { results }),
                None => None,
            },
            None => None,
        }
    }
}

// ---------------------------------------------------------------------------
// Opcodes

impl MessageData for Hello {
    open spec fn spec_op() -> i32 {
        0
    }

    fn op() -> (r: i32) {
        0
    }
}

impl MessageDataFull for Hello {
    fn into_raw_message(self) -> (r: Raw<Self>) {
        Raw { op: Self::op(), d: self }
    }
}

impl MessageData for Identify {
    open spec fn spec_op() -> i32 {
        1
    }

    fn op() -> (r: i32) {
        1
    }
}

impl MessageDataFull for Identify {
    fn into_raw_message(self) -> (r: Raw<Self>) {
        Raw { op: Self::op(), d: self }
    }
}

impl MessageData for Identified {
    open spec fn spec_op() -> i32 {
        2
    }

    fn op() -> (r: i32) {
        2
    }
}

impl MessageDataFull for Identified {
    fn into_raw_message(self) -> (r: Raw<Self>) {
        Raw { op: Self::op(), d: self }
    }
}

impl MessageData for Reidentify {
    open spec fn spec_op() -> i32 {
        3
    }

    fn op() -> (r: i32) {
        3
    }
}

impl MessageDataFull for Reidentify {
    fn into_raw_message(self) -> (r: Raw<Self>) {
        Raw { op: Self::op(), d: self }
    }
}

impl MessageData for event::InfoPart {
    open spec fn spec_op() -> i32 {
        5
    }

    fn op() -> (r: i32) {
        5
    }
}

impl<T> MessageData for event::DataPart<T> {
    open spec fn spec_op() -> i32 {
        5
    }

    fn op() -> (r: i32) {
        5
    }
}

impl<T> MessageData for Event<T> {
    open spec fn spec_op() -> i32 {
        5
    }

    fn op() -> (r: i32) {
        5
    }
}

impl<T> MessageDataFull for Event<T> {
    fn into_raw_message(self) -> (r: Raw<Self>) {
        Raw { op: Self::op(), d: self }
    }
}

impl<T> MessageData for Request<T> {
    open spec fn spec_op() -> i32 {
        6
    }

    fn op() -> (r: i32) {
        6
    }
}

impl<T> MessageDataFull for Request<T> {
    fn into_raw_message(self) -> (r: Raw<Self>) {
        Raw { op: Self::op(), d: self }
    }
}

impl MessageData for response::InfoPart {
    open spec fn spec_op() -> i32 {
        7
    }

    fn op() -> (r: i32) {
        7
    }
}

impl<T> MessageData for response::DataPart<T> {
    open spec fn spec_op() -> i32 {
        7
    }

    fn op() -> (r: i32) {
        7
    }
}

impl<T> MessageData for Response<T> {
    open spec fn spec_op() -> i32 {
        7
    }

    fn op() -> (r: i32) {
        7
    }
}

impl<T> MessageDataFull for Response<T> {
    fn into_raw_message(self) -> (r: Raw<Self>) {
        Raw { op: Self::op(), d: self }
    }
}

impl<T> MessageData for RequestBatch<T> {
    open spec fn spec_op() -> i32 {
        8
    }

    fn op() -> (r: i32) {
        8
    }
}

impl<T> MessageDataFull for RequestBatch<T> {
    fn into_raw_message(self) -> (r: Raw<Self>) {
        Raw { op: Self::op(), d: self }
    }
}

impl MessageData for response_batch::InfoPart {
    open spec fn spec_op() -> i32 {
        9
    }

    fn op() -> (r: i32) {
        9
    }
}

impl<T> MessageData for response_batch::ResultsPart<T> {
    open spec fn spec_op() -> i32 {
        9
    }

    fn op() -> (r: i32) {
        9
    }
}

impl<T> MessageData for ResponseBatch<T> {
    open spec fn spec_op() -> i32 {
        9
    }

    fn op() -> (r: i32) {
        9
    }
}

impl<T> MessageDataFull for ResponseBatch<T> {
    fn into_raw_message(self) -> (r: Raw<Self>) {
        Raw { op: Self::op(), d: self }
    }
}

} // verus!
