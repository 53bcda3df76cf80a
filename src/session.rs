//! The protocol session: one inbound frame buffer shared by several cursors,
//! request ids, the flush that writes owe, and the handshake driven through
//! the buffer.
//!
//! The session holds no transport. Each operation that needs I/O says so in
//! its result (read a frame, write one, flush); the caller performs it and
//! reports back, so one transport can be blocking or not.
use crate::auth::{identify_frame, identify_frame_of};
use crate::json::{hex_of, push_hex};
use crate::json::raw_member;
use crate::message::{
    hello, opt_view, payload_of, response, server_message_of, Frame, ServerMessage, ServerMessageView,
};
use crate::subscriber_queue::SubscriberQueue;
use vstd::prelude::*;

verus! {

/// How far the handshake of a session has come.
#[derive(Debug, Clone, Copy, PartialEq, Eq, Structural)]
pub enum Readyness {
    Connected,
    GotHello,
    SentIdentify,
    Ready,
}

/// The handshake state of a session.
#[derive(Debug, Clone)]
pub enum AuthState {
    Connected,
    HelloReceived(Option<hello::Authentication>),
    IdentifySent,
    Identified,
}

impl AuthState {
    pub open spec fn spec_readyness(&self) -> Readyness {
        match self {
            AuthState::Connected => Readyness::Connected,
            AuthState::HelloReceived(_) => Readyness::GotHello,
            AuthState::IdentifySent => Readyness::SentIdentify,
            AuthState::Identified => Readyness::Ready,
        }
    }

    pub fn to_readyness(&self) -> (r: Readyness)
        ensures
            r == self.spec_readyness(),
    {
        match self {
            AuthState::Connected => Readyness::Connected,
            AuthState::HelloReceived(_) => Readyness::GotHello,
            AuthState::IdentifySent => Readyness::SentIdentify,
            AuthState::Identified => Readyness::Ready,
        }
    }
}

/// Which inbound messages a read is waiting for.
#[derive(Debug, Clone)]
pub enum Filter {
    /// Any message the server sends.
    AnyValid,
    Hello,
    Identified,
    Event,
    /// The response to the request with this id.
    Response(String),
    /// The response to the batch with this id.
    ResponseBatch(String),
}

/// The server message that a frame holds, if any.
pub open spec fn frame_message(f: Frame) -> Option<ServerMessageView> {
    match f {
        Frame::Text(t) => server_message_of(t@),
        Frame::Other => None,
    }
}

/// The challenge that a `HelloReceived` state holds, as plain values.
pub open spec fn challenge_view(s: AuthState) -> Option<(Seq<char>, Seq<char>)> {
    match s {
        AuthState::HelloReceived(Some(a)) => Some(a@),
        _ => None,
    }
}

/// Whether a message passes a filter.
pub open spec fn accepts(filter: Filter, m: ServerMessageView) -> bool {
    match filter {
        Filter::AnyValid => true,
        Filter::Hello => m is Hello,
        Filter::Identified => m is Identified,
        Filter::Event => m is Event,
        Filter::Response(id) => match m {
            ServerMessageView::Response((_, rid, _)) => rid == id@,
            _ => false,
        },
        Filter::ResponseBatch(id) => match m {
            ServerMessageView::ResponseBatch(rid) => rid == id@,
            _ => false,
        },
    }
}

/// Whether a frame holds a server message that passes a filter.
/// Frames that are not text or not a valid message pass none.
pub open spec fn frame_matches(f: Frame, filter: Filter) -> bool {
    match f {
        Frame::Text(t) => match server_message_of(t@) {
            Some(m) => accepts(filter, m),
            None => false,
        },
        Frame::Other => false,
    }
}

/// How many frames come before the first one that passes the filter
/// (all of them when none does).
pub open spec fn first_match(frames: Seq<Frame>, filter: Filter) -> nat
    decreases frames.len(),
{
    if frames.len() == 0 {
        0
    } else if frame_matches(frames[0], filter) {
        0
    } else {
        1 + first_match(frames.drop_first(), filter)
    }
}

/// Skipping to the first match skips no frame that matches, and stops at one
/// that does unless it runs out.
pub proof fn lemma_first_match(frames: Seq<Frame>, filter: Filter)
    ensures
        first_match(frames, filter) <= frames.len(),
        forall|j: int| 0 <= j < first_match(frames, filter) ==> !frame_matches(#[trigger] frames[j], filter),
        first_match(frames, filter) < frames.len() ==> frame_matches(frames[first_match(frames, filter) as int], filter),
    decreases frames.len(),
{
    if frames.len() > 0 && !frame_matches(frames[0], filter) {
        lemma_first_match(frames.drop_first(), filter);
        assert forall|j: int| 0 <= j < first_match(frames, filter) implies !frame_matches(#[trigger] frames[j], filter) by {
            if j > 0 {
                assert(frames[j] == frames.drop_first()[j - 1]);
            }
        }
    }
}

/// Waiting for a match twice in a row does nothing the second time: the
/// frames left after the first wait already start with the match.
pub proof fn lemma_next_matching_idempotent(frames: Seq<Frame>, filter: Filter)
    ensures
        ({
            let rest = frames.skip(first_match(frames, filter) as int);
            rest.skip(first_match(rest, filter) as int) == rest
        }),
{
    lemma_first_match(frames, filter);
    let k = first_match(frames, filter) as int;
    let rest = frames.skip(k);
    if rest.len() > 0 {
        assert(rest[0] == frames[k]);
    }
    assert(first_match(rest, filter) == 0);
    assert(rest.skip(0) =~= rest);
}

/// What a step of the handshake needs from the caller.
#[derive(Debug, Clone)]
pub enum AuthStep {
    /// The step completed without I/O; the handshake is now here.
    Done(Readyness),
    /// Flush the transport, then call `flushed`.
    Flush,
    /// Read one frame, hand it to `receive`, and step again.
    Read,
    /// Write this text frame, then call `identify_written`.
    Write(String),
}

/// A protocol session without its transport.
#[derive(Debug)]
pub struct Session {
    msgs: SubscriberQueue<Frame>,
    auth_state: AuthState,
    unflushed: bool,
    next_req_id: u64,
}

impl Session {
    /// The invariant of the session.
    pub closed spec fn wf(&self) -> bool {
        self.msgs.wf()
    }

    /// For each cursor, the frames it has not acknowledged yet.
    pub closed spec fn pending(&self) -> Map<usize, Seq<Frame>> {
        self.msgs@
    }

    /// The id that the next `subscribe` hands out.
    pub closed spec fn next_cursor(&self) -> usize {
        self.msgs.next_id()
    }

    pub closed spec fn spec_auth_state(&self) -> AuthState {
        self.auth_state
    }

    /// Whether a write has not been flushed yet.
    pub closed spec fn spec_unflushed(&self) -> bool {
        self.unflushed
    }

    /// The counter behind the next request id.
    pub closed spec fn spec_next_req_id(&self) -> u64 {
        self.next_req_id
    }

    /// Everything but the frame buffer is as in `other`.
    pub open spec fn same_but_frames(&self, other: &Session) -> bool {
        &&& self.spec_auth_state() == other.spec_auth_state()
        &&& self.spec_unflushed() == other.spec_unflushed()
        &&& self.spec_next_req_id() == other.spec_next_req_id()
        &&& self.next_cursor() == other.next_cursor()
    }

    /// A fresh session: no cursors, handshake not started.
    pub fn new() -> (r: Session)
        ensures
            r.wf(),
            r.pending() == Map::<usize, Seq<Frame>>::empty(),
            r.next_cursor() == 0,
            r.spec_auth_state() is Connected,
            !r.spec_unflushed(),
            r.spec_next_req_id() == 0,
    {
        Session { msgs: SubscriberQueue::new(), auth_state: AuthState::Connected, unflushed: false, next_req_id: 0 }
    }

    /// A fresh request id: the counter as 16 lower-case hexadecimal digits,
    /// so that ids sort as their numbers do.
    pub fn generate_id(&mut self) -> (r: String)
        requires
            old(self).spec_next_req_id() < u64::MAX,
        ensures
            r@ == hex_of(old(self).spec_next_req_id() as nat, 16),
            final(self).spec_next_req_id() == old(self).spec_next_req_id() + 1,
            final(self).wf() == old(self).wf(),
            final(self).pending() == old(self).pending(),
            final(self).next_cursor() == old(self).next_cursor(),
            final(self).spec_auth_state() == old(self).spec_auth_state(),
            final(self).spec_unflushed() == old(self).spec_unflushed(),
    {
        let req_id = self.next_req_id;
        self.next_req_id = self.next_req_id + 1;
        let mut out = String::new();
        push_hex(&mut out, req_id, 16);
        out
    }

    /// Registers a cursor that sees the frames received from now on.
    pub fn subscribe(&mut self) -> (r: usize)
        requires
            old(self).wf(),
            old(self).next_cursor() < usize::MAX,
        ensures
            final(self).wf(),
            r == old(self).next_cursor(),
            !old(self).pending().contains_key(r),
            final(self).pending() == old(self).pending().insert(r, Seq::<Frame>::empty()),
            final(self).next_cursor() == old(self).next_cursor() + 1,
            final(self).spec_auth_state() == old(self).spec_auth_state(),
            final(self).spec_unflushed() == old(self).spec_unflushed(),
            final(self).spec_next_req_id() == old(self).spec_next_req_id(),
    {
        self.msgs.subscribe()
    }

    /// Removes a cursor; frames kept only for it are dropped.
    pub fn unsubscribe(&mut self, cursor_id: usize)
        requires
            old(self).wf(),
            old(self).pending().contains_key(cursor_id),
        ensures
            final(self).wf(),
            final(self).pending() == old(self).pending().remove(cursor_id),
            final(self).same_but_frames(old(self)),
    {
        self.msgs.unsubscribe(cursor_id);
    }

    /// Hands a frame read from the transport to every cursor.
    pub fn receive(&mut self, f: Frame)
        requires
            old(self).wf(),
        ensures
            final(self).wf(),
            final(self).pending() == old(self).pending().map_values(|s: Seq<Frame>| s.push(f)),
            final(self).same_but_frames(old(self)),
    {
        self.msgs.write(f);
    }

    /// The next frame this cursor has not acknowledged, if one is buffered.
    pub fn get_buffered_message_raw(&self, cursor_id: usize) -> (r: Option<&Frame>)
        requires
            self.wf(),
            self.pending().contains_key(cursor_id),
        ensures
            r is None <==> self.pending()[cursor_id].len() == 0,
            r matches Some(f) ==> *f == self.pending()[cursor_id][0],
    {
        self.msgs.peek(cursor_id)
    }

    /// The text of the next buffered frame, if there is one and it is text.
    pub fn get_buffered_text_message(&self, cursor_id: usize) -> (r: Option<&String>)
        requires
            self.wf(),
            self.pending().contains_key(cursor_id),
        ensures
            r matches Some(t) ==> self.pending()[cursor_id].len() > 0
                && self.pending()[cursor_id][0] == Frame::Text(*t),
            r is None ==> self.pending()[cursor_id].len() == 0
                || self.pending()[cursor_id][0] is Other,
    {
        match self.msgs.peek(cursor_id) {
            Some(Frame::Text(t)) => Some(t),
            _ => None,
        }
    }

    /// The next buffered frame read as a server message, if it is one.
    pub fn get_buffered_valid_message(&self, cursor_id: usize) -> (r: Option<ServerMessage>)
        requires
            self.wf(),
            self.pending().contains_key(cursor_id),
        ensures
            match r {
                Some(m) => self.pending()[cursor_id].len() > 0 && frame_message(self.pending()[cursor_id][0]) == Some(m@),
                None => self.pending()[cursor_id].len() == 0 || !frame_matches(
                    self.pending()[cursor_id][0],
                    Filter::AnyValid,
                ),
            },
    {
        match self.msgs.peek(cursor_id) {
            Some(f) => match ServerMessage::from_frame(f) {
                Ok(m) => Some(m),
                Err(_) => None,
            },
            None => None,
        }
    }

    /// The next buffered frame read as a response: its type, id and status,
    /// and its response data as JSON text (`None` when absent or `null`).
    pub fn get_buffered_response(&self, cursor_id: usize) -> (r: Option<(response::InfoPart, Option<String>)>)
        requires
            self.wf(),
            self.pending().contains_key(cursor_id),
        ensures
            match r {
                Some((info, data)) => self.pending()[cursor_id].len() > 0
                    && frame_message(self.pending()[cursor_id][0]) == Some(ServerMessageView::Response(info@))
                    && (self.pending()[cursor_id][0] matches Frame::Text(t) && opt_view(data) == raw_member(
                    payload_of(t@, 7)->0,
                    "responseData"@,
                )),
                None => self.pending()[cursor_id].len() == 0 || !(frame_message(self.pending()[cursor_id][0]) is Some
                    && frame_message(self.pending()[cursor_id][0])->0 is Response),
            },
    {
        let t = match self.msgs.peek(cursor_id) {
            Some(Frame::Text(t)) => t,
            _ => return None,
        };
        let info = match ServerMessage::from_json_str(t.as_str()) {
            Ok(ServerMessage::Response(info)) => info,
            _ => return None,
        };
        match response::DataPart::<String>::from_json_str(t.as_str()) {
            Some(data) => Some((info, data.response_data)),
            None => None,
        }
    }

    /// Acknowledges the cursor's next frame. Returns whether there was one.
    pub fn ack_message(&mut self, cursor_id: usize) -> (r: bool)
        requires
            old(self).wf(),
            old(self).pending().contains_key(cursor_id),
        ensures
            final(self).wf(),
            r == (old(self).pending()[cursor_id].len() > 0),
            final(self).pending() == (if r {
                old(self).pending().insert(cursor_id, old(self).pending()[cursor_id].drop_first())
            } else {
                old(self).pending()
            }),
            final(self).same_but_frames(old(self)),
    {
        self.msgs.ack(cursor_id)
    }

    /// Whether a frame passes a filter.
    pub fn frame_passes(f: &Frame, filter: &Filter) -> (r: bool)
        ensures
            r == frame_matches(*f, *filter),
    {
        match ServerMessage::from_frame(f) {
            Ok(m) => match (filter, m) {
                (Filter::AnyValid, _) => true,
                (Filter::Hello, ServerMessage::Hello(_)) => true,
                (Filter::Identified, ServerMessage::Identified(_)) => true,
                (Filter::Event, ServerMessage::Event(_)) => true,
                (Filter::Response(id), ServerMessage::Response(info)) => info.request_id == *id,
                (Filter::ResponseBatch(id), ServerMessage::ResponseBatch(info)) => info.request_id
                    == *id,
                _ => false,
            },
            Err(_) => false,
        }
    }

    /// Acknowledges the cursor's buffered frames up to the first one that
    /// passes the filter, and leaves that one unacknowledged. Returns whether
    /// it found one; if not, every buffered frame was skipped and the caller
    /// reads another frame, hands it to `receive` and tries again.
    /// Other cursors are untouched.
    pub fn next_matching(&mut self, cursor_id: usize, filter: &Filter) -> (r: bool)
        requires
            old(self).wf(),
            old(self).pending().contains_key(cursor_id),
        ensures
            final(self).wf(),
            final(self).pending() == old(self).pending().insert(
                cursor_id,
                old(self).pending()[cursor_id].skip(first_match(old(self).pending()[cursor_id], *filter) as int),
            ),
            r == (first_match(old(self).pending()[cursor_id], *filter) < old(self).pending()[cursor_id].len()),
            final(self).same_but_frames(old(self)),
    {
        let ghost frames = self.pending()[cursor_id];
        let ghost start = *self;
        proof {
            assert(frames.skip(0) =~= frames);
            assert(self.pending() =~= start.pending().insert(cursor_id, frames.skip(0)));
        }
        let ghost mut k: int = 0;
        loop
            invariant
                start == *old(self),
                frames == old(self).pending()[cursor_id],
                old(self).pending().contains_key(cursor_id),
                self.wf(),
                self.same_but_frames(&start),
                0 <= k <= frames.len(),
                first_match(frames, *filter) == k + first_match(frames.skip(k), *filter),
                self.pending() == start.pending().insert(cursor_id, frames.skip(k)),
            decreases frames.len() - k,
        {
            let passes = match self.msgs.peek(cursor_id) {
                None => {
                    proof {
                        assert(frames.skip(k).len() == 0);
                        assert(k == frames.len());
                    }
                    return false;
                },
                Some(f) => Session::frame_passes(f, filter),
            };
            if passes {
                proof {
                    let rest = frames.skip(k);
                    assert(rest.len() > 0);
                    assert(frame_matches(rest[0], *filter));
                    assert(first_match(rest, *filter) == 0);
                }
                return true;
            }
            self.msgs.ack(cursor_id);
            proof {
                assert(frames.skip(k).drop_first() =~= frames.skip(k + 1));
                k = k + 1;
                assert(self.pending() =~= start.pending().insert(cursor_id, frames.skip(k)));
            }
        }
    }

    /// Whether writes are waiting for a flush.
    pub fn needs_flush(&self) -> (r: bool)
        ensures
            r == self.spec_unflushed(),
    {
        self.unflushed
    }

    /// A frame was written to the transport: a flush is now owed.
    pub fn written(&mut self)
        ensures
            final(self).spec_unflushed(),
            final(self).wf() == old(self).wf(),
            final(self).pending() == old(self).pending(),
            final(self).next_cursor() == old(self).next_cursor(),
            final(self).spec_auth_state() == old(self).spec_auth_state(),
            final(self).spec_next_req_id() == old(self).spec_next_req_id(),
    {
        self.unflushed = true;
    }

    /// The transport was flushed.
    pub fn flushed(&mut self)
        ensures
            !final(self).spec_unflushed(),
            final(self).wf() == old(self).wf(),
            final(self).pending() == old(self).pending(),
            final(self).next_cursor() == old(self).next_cursor(),
            final(self).spec_auth_state() == old(self).spec_auth_state(),
            final(self).spec_next_req_id() == old(self).spec_next_req_id(),
    {
        self.unflushed = false;
    }

    /// The id that the next `subscribe` hands out.
    pub fn next_cursor_id(&self) -> (r: usize)
        ensures
            r == self.next_cursor(),
    {
        self.msgs.next_cursor_id()
    }

    /// The counter behind the next request id.
    pub fn next_request_number(&self) -> (r: u64)
        ensures
            r == self.spec_next_req_id(),
    {
        self.next_req_id
    }

    /// How far the handshake has come.
    pub fn readyness(&self) -> (r: Readyness)
        ensures
            r == self.spec_auth_state().spec_readyness(),
    {
        self.auth_state.to_readyness()
    }

    /// One step of the handshake, reading through the cursor `cursor_id`.
    ///
    /// Once ready, it reports so. An owed flush comes first. Waiting for Hello
    /// or Identified skips other frames on this cursor (other cursors still
    /// see them) and asks for a read when none is buffered. After Hello it
    /// asks to write the Identify frame, whose `authentication` answers the
    /// challenge with `password` (empty if missing) and is left out when
    /// there is no challenge.
    pub fn step_auth(
        &mut self,
        cursor_id: usize,
        password: Option<&str>,
        event_subscriptions: Option<u32>,
    ) -> (r: AuthStep)
        requires
            old(self).wf(),
            old(self).pending().contains_key(cursor_id),
        ensures
            final(self).wf(),
            final(self).spec_unflushed() == old(self).spec_unflushed(),
            final(self).spec_next_req_id() == old(self).spec_next_req_id(),
            final(self).next_cursor() == old(self).next_cursor(),
            forall|c: usize| #[trigger] old(self).pending().contains_key(c) && c != cursor_id
                ==> final(self).pending().contains_key(c) && final(self).pending()[c] == old(self).pending()[c],
            final(self).pending().dom() == old(self).pending().dom(),
            ({
                let frames = old(self).pending()[cursor_id];
                let k = first_match(frames, Filter::Hello) as int;
                let k2 = first_match(frames, Filter::Identified) as int;
                match old(self).spec_auth_state() {
                    AuthState::Identified => r == AuthStep::Done(Readyness::Ready)
                        && final(self).pending() == old(self).pending()
                        && final(self).spec_auth_state() == old(self).spec_auth_state(),
                    _ => if old(self).spec_unflushed() {
                        r is Flush && final(self).pending() == old(self).pending()
                            && final(self).spec_auth_state() == old(self).spec_auth_state()
                    } else {
                        match old(self).spec_auth_state() {
                            AuthState::Connected => final(self).pending()[cursor_id] == frames.skip(k) && if k < frames.len() {
                                r == AuthStep::Done(Readyness::GotHello)
                                    && final(self).spec_auth_state() is HelloReceived
                                    && frame_message(frames[k]) == Some(ServerMessageView::Hello(challenge_view(final(self).spec_auth_state())))
                            } else {
                                r is Read && final(self).spec_auth_state() == old(self).spec_auth_state()
                            },
                            AuthState::HelloReceived(c) => final(self).pending() == old(self).pending()
                                && final(self).spec_auth_state() == old(self).spec_auth_state()
                                && r == AuthStep::Write(r->Write_0) && r->Write_0@ == identify_frame_of(
                                match password {
                                    Some(p) => Some(p@),
                                    None => None,
                                },
                                match c {
                                    Some(a) => Some(a@),
                                    None => None,
                                },
                                event_subscriptions,
                            ),
                            _ => final(self).pending()[cursor_id] == frames.skip(k2) && if k2 < frames.len() {
                                r == AuthStep::Done(Readyness::Ready) && final(self).spec_auth_state() is Identified
                            } else {
                                r is Read && final(self).spec_auth_state() == old(self).spec_auth_state()
                            },
                        }
                    },
                }
            }),
    {
        if let AuthState::Identified = self.auth_state {
            return AuthStep::Done(Readyness::Ready);
        }
        if self.unflushed {
            return AuthStep::Flush;
        }
        match &self.auth_state {
            AuthState::HelloReceived(challenge) => {
                return AuthStep::Write(identify_frame(password, challenge, event_subscriptions));
            },
            _ => {},
        }
        if let AuthState::Connected = self.auth_state {
            let ghost frames = self.pending()[cursor_id];
            if !self.next_matching(cursor_id, &Filter::Hello) {
                return AuthStep::Read;
            }
            proof {
                lemma_first_match(frames, Filter::Hello);
            }
            match self.get_buffered_valid_message(cursor_id) {
                Some(ServerMessage::Hello(h)) => {
                    self.auth_state = AuthState::HelloReceived(h.authentication);
                    AuthStep::Done(Readyness::GotHello)
                },
                _ => {
                    // The head frame passed the Hello filter, so this arm is dead.
                    proof {
                        assert(false);
                    }
                    AuthStep::Read
                },
            }
        } else {
            if !self.next_matching(cursor_id, &Filter::Identified) {
                return AuthStep::Read;
            }
            self.auth_state = AuthState::Identified;
            AuthStep::Done(Readyness::Ready)
        }
    }

    /// The Identify frame that `step_auth` asked for was written.
    pub fn identify_written(&mut self)
        requires
            old(self).spec_auth_state() is HelloReceived,
        ensures
            final(self).spec_auth_state() is IdentifySent,
            final(self).spec_unflushed(),
            final(self).wf() == old(self).wf(),
            final(self).pending() == old(self).pending(),
            final(self).next_cursor() == old(self).next_cursor(),
            final(self).spec_next_req_id() == old(self).spec_next_req_id(),
    {
        self.auth_state = AuthState::IdentifySent;
        self.unflushed = true;
    }
}

} // verus!
