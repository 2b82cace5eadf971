use vstd::prelude::*;
use vstd::string::StringExecFns;

verus! {

/// The literal that every acknowledgment starts with.
pub const RESPONSE_PREFIX: &'static str = "Message reçu : ";

/// The acknowledgment sent back for a text payload: the fixed prefix
/// followed by the payload itself.
pub open spec fn acknowledgment(payload: Seq<char>) -> Seq<char> {
    RESPONSE_PREFIX@ + payload
}

/// Builds the acknowledgment for one text payload.
pub fn response_for(payload: &str) -> (r: String)
    ensures
        r@ == acknowledgment(payload@),
{
    String::from_str(RESPONSE_PREFIX).concat(payload)
}

/// What a session reads from its connection.
#[derive(Debug)]
pub enum Incoming {
    /// A text frame with its payload.
    Text(String),
    /// A close frame.
    Close,
    /// A transport or protocol error.
    Error,
    /// Any other frame (binary, ping, pong, ...).
    Other,
}

/// Where a session stands.
#[derive(Clone, Copy, Debug, PartialEq, Eq, Structural)]
pub enum SessionState {
    AwaitingMessage,
    Closed,
}

/// What the session asks its driver to do next.
#[derive(Debug, PartialEq, Eq)]
pub enum Reply {
    /// Send this text frame back, then read again.
    Send(String),
    /// Read the next frame.
    Wait,
    /// Stop: drop both halves of the connection.
    Stop,
}

/// The state a session moves to on one incoming frame.
pub open spec fn next_state(state: SessionState, event: Incoming) -> SessionState {
    match state {
        SessionState::Closed => SessionState::Closed,
        SessionState::AwaitingMessage => match event {
            Incoming::Text(_) | Incoming::Other => SessionState::AwaitingMessage,
            Incoming::Close | Incoming::Error => SessionState::Closed,
        },
    }
}

/// The text a session sends on one incoming frame, if any.
pub open spec fn sent_on(state: SessionState, event: Incoming) -> Option<Seq<char>> {
    match state {
        SessionState::AwaitingMessage => match event {
            Incoming::Text(p) => Some(acknowledgment(p@)),
            _ => None,
        },
        SessionState::Closed => None,
    }
}

/// The state reached and the texts sent, in order, when a session in
/// `state` reads `events` one after the other (every send succeeding).
pub open spec fn run(state: SessionState, events: Seq<Incoming>) -> (SessionState, Seq<Seq<char>>)
    decreases events.len(),
{
    if events.len() == 0 {
        (state, Seq::empty())
    } else {
        let (s, out) = run(state, events.drop_last());
        let sent = match sent_on(s, events.last()) {
            Some(t) => out.push(t),
            None => out,
        };
        (next_state(s, events.last()), sent)
    }
}

/// The texts a fresh session sends back for `events`.
pub open spec fn responses(events: Seq<Incoming>) -> Seq<Seq<char>> {
    run(SessionState::AwaitingMessage, events).1
}

/// One connection's session, from a completed handshake until it closes.
pub struct Session {
    state: SessionState,
}

impl Session {
    pub closed spec fn spec_state(&self) -> SessionState {
        self.state
    }

    /// A session that has just completed its handshake.
    pub fn new() -> (r: Session)
        ensures
            r.spec_state() == SessionState::AwaitingMessage,
    {
        Session { state: SessionState::AwaitingMessage }
    }

    pub fn state(&self) -> (r: SessionState)
        ensures
            r == self.spec_state(),
    {
        self.state
    }

    pub fn is_closed(&self) -> (r: bool)
        ensures
            r == (self.spec_state() == SessionState::Closed),
    {
        self.state == SessionState::Closed
    }

    /// Handles one frame read from the connection: a text frame is
    /// acknowledged, a close frame or an error ends the session, anything
    /// else is ignored. A closed session stays closed and sends nothing.
    pub fn handle(&mut self, event: Incoming) -> (r: Reply)
        ensures
            final(self).spec_state() == next_state(old(self).spec_state(), event),
            match r {
                Reply::Send(t) => sent_on(old(self).spec_state(), event) == Some(t@),
                Reply::Wait => sent_on(old(self).spec_state(), event) is None
                    && final(self).spec_state() == SessionState::AwaitingMessage,
                Reply::Stop => sent_on(old(self).spec_state(), event) is None
                    && final(self).spec_state() == SessionState::Closed,
            },
    {
        match self.state {
            SessionState::Closed => Reply::Stop,
            SessionState::AwaitingMessage => match event {
                Incoming::Text(payload) => Reply::Send(response_for(payload.as_str())),
                Incoming::Other => Reply::Wait,
                Incoming::Close | Incoming::Error => {
                    self.state = SessionState::Closed;
                    Reply::Stop
                },
            },
        }
    }

    /// Takes the outcome of sending an acknowledgment: a failed send ends the
    /// session, without retrying; after a successful one the session reads on.
    pub fn on_sent(&mut self, delivered: bool) -> (r: Reply)
        ensures
            final(self).spec_state() == (if delivered {
                old(self).spec_state()
            } else {
                SessionState::Closed
            }),
            r is Wait <==> final(self).spec_state() == SessionState::AwaitingMessage,
            r is Stop <==> final(self).spec_state() == SessionState::Closed,
    {
        if !delivered {
            self.state = SessionState::Closed;
        }
        match self.state {
            SessionState::AwaitingMessage => Reply::Wait,
            SessionState::Closed => Reply::Stop,
        }
    }
}

} // verus!
