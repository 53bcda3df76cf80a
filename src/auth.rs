//! The authentication handshake: Hello, Identify, Identified.
//!
//! The handshake is a state machine that names the one I/O action its next
//! step needs (read a frame, write a frame or flush) and advances only when
//! told that the action completed. An action that would block is simply
//! retried later: the machine has not moved.
use crate::json::decimal_of;
use crate::message::{
    decode_as, envelope_json, opt_decimal, opt_json, hello, hello_of, identified_of, identify_json, DecodeError, Frame,
    Hello, Identified, Identify,
};
use base64ct::Encoding;
use sha2::Digest;
use vstd::prelude::*;
use vstd::utf8::encode_utf8;

verus! {

/// The SHA-256 digest of `b`.
pub uninterp spec fn sha256_of(b: Seq<u8>) -> Seq<u8>;

/// The standard, padded Base64 text of `b`.
pub uninterp spec fn base64_of(b: Seq<u8>) -> Seq<char>;

/// Relies on sha2::Sha256::digest: the 32-byte SHA-256 digest of `b`.
#[verifier::external_body]
fn sha256(b: &[u8]) -> (r: Vec<u8>)
    ensures
        r@ == sha256_of(b@),
        r@.len() == 32,
{
    sha2::Sha256::digest(b).to_vec()
}

/// Relies on base64ct's `Base64::encode_string`: standard alphabet, padded.
/// It panics only when four times the length overflows `usize`.
#[verifier::external_body]
fn base64(b: &[u8]) -> (r: String)
    requires
        b@.len() <= usize::MAX / 4,
    ensures
        r@ == base64_of(b@),
{
    base64ct::Base64::encode_string(b)
}

/// The answer to a challenge:
/// `base64(sha256(base64(sha256(password ++ salt)) ++ challenge))`, over UTF-8 bytes.
pub open spec fn auth_response_of(password: Seq<char>, salt: Seq<char>, challenge: Seq<char>) -> Seq<
    char,
> {
    base64_of(
        sha256_of(
            encode_utf8(base64_of(sha256_of(encode_utf8(password) + encode_utf8(salt))))
                + encode_utf8(challenge),
        ),
    )
}

fn push_bytes(out: &mut Vec<u8>, b: &[u8])
    ensures
        final(out)@ == old(out)@ + b@,
{
    let mut i: usize = 0;
    while i < b.len()
        invariant
            i <= b@.len(),
            out@ == old(out)@ + b@.subrange(0, i as int),
        decreases b@.len() - i,
    {
        out.push(b[i]);
        proof {
            assert(b@.subrange(0, i as int + 1) =~= b@.subrange(0, i as int).push(b@[i as int]));
        }
        i = i + 1;
    }
    proof {
        assert(b@.subrange(0, b@.len() as int) =~= b@);
    }
}

/// Computes the answer to the server's challenge.
pub fn auth_response(password: &str, salt: &str, challenge: &str) -> (r: String)
    ensures
        r@ == auth_response_of(password@, salt@, challenge@),
{
    let mut first: Vec<u8> = Vec::new();
    push_bytes(&mut first, password.as_bytes());
    push_bytes(&mut first, salt.as_bytes());
    let first_digest = sha256(first.as_slice());
    let secret = base64(first_digest.as_slice());
    let mut second: Vec<u8> = Vec::new();
    push_bytes(&mut second, secret.as_str().as_bytes());
    push_bytes(&mut second, challenge.as_bytes());
    proof {
        assert(first@ =~= encode_utf8(password@) + encode_utf8(salt@));
        assert(second@ =~= encode_utf8(secret@) + encode_utf8(challenge@));
    }
    let second_digest = sha256(second.as_slice());
    base64(second_digest.as_slice())
}

/// The `authentication` field of Identify for a Hello's challenge, if any.
pub open spec fn authentication_of(
    password: Option<Seq<char>>,
    challenge: Option<(Seq<char>, Seq<char>)>,
) -> Option<Seq<char>> {
    match challenge {
        Some((c, s)) => Some(
            auth_response_of(
                match password {
                    Some(p) => p,
                    None => Seq::empty(),
                },
                s,
                c,
            ),
        ),
        None => None,
    }
}

/// The Identify message, as JSON text, that answers a Hello.
pub open spec fn identify_frame_of(
    password: Option<Seq<char>>,
    challenge: Option<(Seq<char>, Seq<char>)>,
    event_subscriptions: Option<u32>,
) -> Seq<char> {
    envelope_json(1, identify_json(1, authentication_of(password, challenge), event_subscriptions))
}

/// A Hello without a challenge is answered by an Identify without an
/// `authentication` member, whatever the password.
pub proof fn lemma_no_challenge_no_authentication(
    password: Option<Seq<char>>,
    event_subscriptions: Option<u32>,
)
    ensures
        identify_frame_of(password, None, event_subscriptions) == envelope_json(
            1,
            "{\"rpcVersion\":"@ + decimal_of(1) + opt_json(
                ",\"eventSubscriptions\":"@,
                opt_decimal(
                    match event_subscriptions {
                        Some(e) => Some(e as int),
                        None => None,
                    },
                ),
            ) + "}"@,
        ),
{
    assert(opt_json(",\"authentication\":"@, None) =~= Seq::<char>::empty());
    assert(identify_json(1, None, event_subscriptions) =~= "{\"rpcVersion\":"@ + decimal_of(1) + opt_json(
        ",\"eventSubscriptions\":"@,
        opt_decimal(
            match event_subscriptions {
                Some(e) => Some(e as int),
                None => None,
            },
        ),
    ) + "}"@);
}

/// Builds the Identify message that answers a Hello. A missing password counts as empty.
pub fn identify_frame(
    password: Option<&str>,
    challenge: &Option<hello::Authentication>,
    event_subscriptions: Option<u32>,
) -> (r: String)
    ensures
        r@ == identify_frame_of(
            match password {
                Some(p) => Some(p@),
                None => None,
            },
            match challenge {
                Some(a) => Some(a@),
                None => None,
            },
            event_subscriptions,
        ),
{
    let authentication = match challenge {
        Some(a) => {
            let p = match password {
                Some(p) => p,
                None => "",
            };
            proof {
                reveal_strlit("");
            }
            Some(auth_response(p, a.salt.as_str(), a.challenge.as_str()))
        },
        None => None,
    };
    let data = Identify { rpc_version: 1, authentication, event_subscriptions };
    data.into_ws_message_json()
}

/// Where the handshake stands.
#[derive(Debug, Clone)]
pub enum State {
    /// Waiting for Hello.
    Connected,
    /// Hello arrived, with the challenge if the server asks for one.
    GotHello(Option<hello::Authentication>),
    /// Identify is written; waiting for Identified.
    SentIdentify,
    /// Done, with the negotiated protocol version.
    Ready(u32),
}

/// The challenge held by a `GotHello` state, as plain values.
pub open spec fn got_hello_view(s: State) -> Option<Option<(Seq<char>, Seq<char>)>> {
    match s {
        State::GotHello(c) => Some(
            match c {
                Some(a) => Some(a@),
                None => None,
            },
        ),
        _ => None,
    }
}

/// The one I/O action that the next step of a handshake performs.
#[derive(Debug, Clone)]
pub enum AuthIo {
    /// Flush what was written.
    Flush,
    /// Read one frame and hand it to `on_read`.
    Read,
    /// Write this text frame and report it with `on_written`.
    Write(String),
}

/// The authentication handshake, without its transport.
#[derive(Debug, Clone)]
pub struct Handshake {
    password: Option<String>,
    event_subscriptions: Option<u32>,
    needs_flush: bool,
    state: State,
}

impl Handshake {
    pub closed spec fn spec_state(&self) -> State {
        self.state
    }

    pub closed spec fn spec_needs_flush(&self) -> bool {
        self.needs_flush
    }

    pub closed spec fn spec_password(&self) -> Option<Seq<char>> {
        match self.password {
            Some(p) => Some(p@),
            None => None,
        }
    }

    pub closed spec fn spec_event_subscriptions(&self) -> Option<u32> {
        self.event_subscriptions
    }

    /// Same password and subscriptions as `other`.
    pub open spec fn same_settings(&self, other: &Handshake) -> bool {
        &&& self.spec_password() == other.spec_password()
        &&& self.spec_event_subscriptions() == other.spec_event_subscriptions()
    }

    /// Starts a handshake that will answer with `password` and ask for `event_subscriptions`.
    pub fn new(password: Option<String>, event_subscriptions: Option<u32>) -> (r: Handshake)
        ensures
            r.spec_state() is Connected,
            !r.spec_needs_flush(),
            r.spec_password() == match password {
                Some(p) => Some(p@),
                None => None::<Seq<char>>,
            },
            r.spec_event_subscriptions() == event_subscriptions,
    {
        Handshake { password, event_subscriptions, needs_flush: false, state: State::Connected }
    }

    /// The state the handshake is in.
    pub fn state(&self) -> (r: &State)
        ensures
            *r == self.spec_state(),
    {
        &self.state
    }

    /// The negotiated protocol version, once the handshake is done.
    pub fn rpc_version(&self) -> (r: Option<u32>)
        ensures
            match self.spec_state() {
                State::Ready(v) => r == Some(v),
                _ => r is None,
            },
    {
        match self.state {
            State::Ready(v) => Some(v),
            _ => None,
        }
    }

    /// The I/O action that the next step performs; `None` once the handshake is done.
    /// A flush that is owed comes first.
    pub fn next_io(&self) -> (r: Option<AuthIo>)
        ensures
            match self.spec_state() {
                State::Ready(_) => r is None,
                State::GotHello(challenge) => if self.spec_needs_flush() {
                    r matches Some(AuthIo::Flush)
                } else {
                    r matches Some(AuthIo::Write(t)) && t@ == identify_frame_of(
                        self.spec_password(),
                        match challenge {
                            Some(a) => Some(a@),
                            None => None,
                        },
                        self.spec_event_subscriptions(),
                    )
                },
                _ => if self.spec_needs_flush() {
                    r matches Some(AuthIo::Flush)
                } else {
                    r matches Some(AuthIo::Read)
                },
            },
    {
        if let State::Ready(_) = self.state {
            return None;
        }
        if self.needs_flush {
            return Some(AuthIo::Flush);
        }
        match &self.state {
            State::GotHello(challenge) => {
                let password = match &self.password {
                    Some(p) => Some(p.as_str()),
                    None => None,
                };
                Some(AuthIo::Write(identify_frame(password, challenge, self.event_subscriptions)))
            },
            _ => Some(AuthIo::Read),
        }
    }

    /// The owed flush completed.
    pub fn on_flushed(&mut self)
        requires
            old(self).spec_needs_flush(),
        ensures
            !final(self).spec_needs_flush(),
            final(self).spec_state() == old(self).spec_state(),
            final(self).same_settings(old(self)),
    {
        self.needs_flush = false;
    }

    /// The Identify frame that `next_io` asked for was written.
    pub fn on_written(&mut self)
        requires
            old(self).spec_state() is GotHello,
            !old(self).spec_needs_flush(),
        ensures
            final(self).spec_state() is SentIdentify,
            final(self).spec_needs_flush(),
            final(self).same_settings(old(self)),
    {
        self.state = State::SentIdentify;
        self.needs_flush = true;
    }

    /// The frame that `next_io` asked for arrived. Anything but the expected
    /// message is fatal: the error comes back and the handshake cannot go on.
    pub fn on_read(&mut self, f: &Frame) -> (r: Result<(), DecodeError>)
        requires
            old(self).spec_state() is Connected || old(self).spec_state() is SentIdentify,
            !old(self).spec_needs_flush(),
        ensures
            !final(self).spec_needs_flush(),
            final(self).same_settings(old(self)),
            old(self).spec_state() is Connected ==> match decode_as(*f, 0, |d| hello_of(d)) {
                Ok(h) => r is Ok && got_hello_view(final(self).spec_state()) == Some(h),
                Err(e) => r == Err::<(), _>(e) && final(self).spec_state() == old(self).spec_state(),
            },
            old(self).spec_state() is SentIdentify ==> match decode_as(
                *f,
                2,
                |d| identified_of(d),
            ) {
                Ok(v) => r is Ok && final(self).spec_state() == State::Ready(v),
                Err(e) => r == Err::<(), _>(e) && final(self).spec_state() == old(self).spec_state(),
            },
    {
        match self.state {
            State::Connected => match Hello::from_ws_message_json(f) {
                Ok(h) => {
                    self.state = State::GotHello(h.authentication);
                    Ok(())
                },
                Err(e) => Err(e),
            },
            _ => match Identified::from_ws_message_json(f) {
                Ok(i) => {
                    self.state = State::Ready(i.negotiated_rpc_version);
                    Ok(())
                },
                Err(e) => Err(e),
            },
        }
    }
}

} // verus!
