//! The session controller: the state of one session, the calls that it has
//! outstanding, and what each transport event and inbound message does to
//! them.

use crate::digest::password_digest;
use crate::frame::Framing;
use crate::handshake::{
    after_hello, after_login, hello_nonce, is_failure, is_login_params, Credentials, SessionState,
};
use crate::message::{Message, Payload, Value};
use crate::registry::{Completion, Outcome, Registry};
use vstd::prelude::*;

verus! {

/// Why a call is refused at once, with nothing sent.
#[derive(Clone, Copy, Debug, PartialEq, Eq, Structural)]
pub enum CallError {
    /// The session is not in the state `Authenticated`.
    NotAuthenticated,
    /// The method name is empty.
    EmptyMethod,
    /// The id that the call would get belongs to a call still outstanding.
    IdInUse,
}

/// A notable transition, recorded for display.
#[derive(Clone, Copy, Debug, PartialEq, Eq, Structural)]
pub enum LogEvent {
    Connecting,
    HelloSent,
    LoginSent,
    Authenticated,
    Error,
    Dropped,
    Disconnected,
}

/// What came in from the transport.
#[derive(Debug, PartialEq)]
pub enum Inbound {
    /// A frame that decoded to a message.
    Message(Message),
    /// A frame whose content did not decode.
    Malformed,
    /// Bytes whose frame length could not be read.
    BadLength,
}

impl Inbound {
    /// What a chunk of bytes is to the session, given how it was framed
    /// and, for a whole frame, the message that its content decoded to. A
    /// chunk without a readable length is `BadLength`; a truncated frame, and
    /// a frame whose content did not decode, is `Malformed`.
    pub fn of_chunk(framing: &Framing, decoded: Option<Message>) -> (r: Inbound)
        ensures
            r == match *framing {
                Framing::BadLength => Inbound::BadLength,
                Framing::Truncated => Inbound::Malformed,
                Framing::Content(_) => match decoded {
                    Some(msg) => Inbound::Message(msg),
                    None => Inbound::Malformed,
                },
            },
    {
        match framing {
            Framing::BadLength => Inbound::BadLength,
            Framing::Truncated => Inbound::Malformed,
            Framing::Content(_) => match decoded {
                Some(msg) => Inbound::Message(msg),
                None => Inbound::Malformed,
            },
        }
    }
}

/// What the owner of the transport is to do after an inbound event.
#[derive(Debug, PartialEq)]
pub enum Reaction {
    /// Nothing.
    Ignore,
    /// Encode and send this message.
    Send(Message),
    /// Hand the outcome to the caller that waits on this call.
    Complete(Completion),
    /// The session is over: hand each of these to its caller.
    Abandon(Vec<Completion>),
}

/// One session: its state, its credentials, the calls outstanding, the id
/// that the next request gets, and the log of its transitions.
pub struct Session {
    state: SessionState,
    credentials: Credentials,
    registry: Registry,
    next_id: u64,
    log: Vec<LogEvent>,
}

/// The id after `id`: one more, and zero after the largest.
pub open spec fn succ(id: u64) -> u64 {
    if id == u64::MAX {
        0
    } else {
        (id + 1) as u64
    }
}

/// The transitions that a session can make in one step.
pub open spec fn may_follow(pre: SessionState, post: SessionState) -> bool {
    pre == post || match post {
        SessionState::Disconnected => false,
        SessionState::Connecting => pre is Disconnected || pre is Closed || pre is LoginFailed,
        SessionState::AwaitingHelloResponse => pre is Connecting,
        SessionState::AwaitingLoginResponse => pre is AwaitingHelloResponse,
        SessionState::Authenticated => pre is AwaitingLoginResponse,
        SessionState::LoginFailed(_) => pre is Connecting || pre is AwaitingHelloResponse
            || pre is AwaitingLoginResponse,
        SessionState::Closed => true,
    }
}

/// The state after the transport has closed: a session that never connected
/// or whose login failed stays as it is, any other is `Closed`.
pub open spec fn after_close(pre: SessionState) -> SessionState {
    match pre {
        SessionState::Disconnected => SessionState::Disconnected,
        SessionState::LoginFailed(reason) => SessionState::LoginFailed(reason),
        _ => SessionState::Closed,
    }
}

/// `done` ends each call of `ids`, in that order, as disconnected.
pub open spec fn abandons(done: Seq<Completion>, ids: Seq<u64>) -> bool {
    &&& done.len() == ids.len()
    &&& forall|i: int|
        0 <= i < done.len() ==> #[trigger] done[i] == (Completion {
            id: ids[i],
            outcome: Outcome::Disconnected,
        })
}

/// The outcome that a response's payload stands for.
pub open spec fn outcome_of(payload: Payload) -> Outcome {
    match payload {
        Payload::Success(value) => Outcome::Success(value),
        Payload::Failure(error) => Outcome::Failure(error),
        _ => Outcome::Malformed,
    }
}

/// `msg` is the request `method` at the empty path under the id `id`.
pub open spec fn is_root_request(msg: Message, id: u64, method: Seq<char>) -> bool {
    &&& msg.request_id == Some(id)
    &&& msg.payload matches Payload::Request { path, method: name, params: _ } && path@.len() == 0
        && name@ == method
}

/// `msg` is the `hello` request under the id `id`: it has no parameters.
pub open spec fn is_hello_request(msg: Message, id: u64) -> bool {
    &&& is_root_request(msg, id, "hello"@)
    &&& msg.payload matches Payload::Request { path: _, method: _, params } && params.is_none()
}

/// `msg` is the `login` request under the id `id` for `user` with the
/// password digest `digest`.
pub open spec fn is_login_request(msg: Message, id: u64, user: Seq<char>, digest: Seq<char>) -> bool {
    &&& is_root_request(msg, id, "login"@)
    &&& msg.payload matches Payload::Request { path: _, method: _, params: Some(params) }
        && is_login_params(params, user, digest)
}

impl Session {
    /// The state of the session.
    pub closed spec fn phase(&self) -> SessionState {
        self.state
    }

    /// The ids of the outstanding calls, oldest first.
    pub closed spec fn pending(&self) -> Seq<u64> {
        self.registry@
    }

    /// The id that the next request gets.
    pub closed spec fn fresh_id(&self) -> u64 {
        self.next_id
    }

    /// The credentials that the session was made with.
    pub closed spec fn who(&self) -> Credentials {
        self.credentials
    }

    /// The transitions recorded so far.
    pub closed spec fn events(&self) -> Seq<LogEvent> {
        self.log@
    }

    /// No id is outstanding twice; during each step of the handshake exactly
    /// its own request is outstanding; and only an authenticated session has
    /// calls outstanding otherwise.
    pub open spec fn wf(&self) -> bool {
        &&& self.pending().no_duplicates()
        &&& match self.phase() {
            SessionState::AwaitingHelloResponse | SessionState::AwaitingLoginResponse =>
                self.pending().len() == 1,
            SessionState::Authenticated => true,
            _ => self.pending().len() == 0,
        }
    }

    /// Whether `msg` is the response to an outstanding call.
    pub open spec fn answers(&self, msg: Message) -> bool {
        &&& msg.request_id matches Some(id) && self.pending().contains(id)
        &&& !(msg.payload is Request)
    }

    /// `post` differs from `self` in its log at most.
    pub open spec fn kept_by(&self, post: Session) -> bool {
        &&& post.phase() == self.phase()
        &&& post.pending() == self.pending()
        &&& post.fresh_id() == self.fresh_id()
        &&& post.who() == self.who()
    }

    /// What `call` returns in this state.
    pub open spec fn call_result(&self, path: String, method: String, params: Option<Value>) -> Result<
        Message,
        CallError,
    > {
        if self.phase() != SessionState::Authenticated {
            Err(CallError::NotAuthenticated)
        } else if method@.len() == 0 {
            Err(CallError::EmptyMethod)
        } else if self.pending().contains(self.fresh_id()) {
            Err(CallError::IdInUse)
        } else {
            Ok(
                Message {
                    request_id: Some(self.fresh_id()),
                    payload: Payload::Request { path, method, params },
                },
            )
        }
    }

    /// What the end of the transport does: every outstanding call is
    /// abandoned, `event` is recorded and the state is `state`.
    pub open spec fn ended_by(
        &self,
        post: Session,
        done: Seq<Completion>,
        event: LogEvent,
    ) -> bool {
        &&& abandons(done, self.pending())
        &&& post.pending() == Seq::<u64>::empty()
        &&& post.fresh_id() == self.fresh_id()
        &&& post.who() == self.who()
        &&& post.events() == self.events().push(event)
    }

    /// What an inbound message does. One that answers no outstanding call
    /// is dropped. In the state `Authenticated` a response ends its call.
    /// During the handshake the response to `hello` leads to the login
    /// request or to a failed login, and the response to `login` to
    /// `Authenticated` or to a failed login.
    pub open spec fn message_step(&self, msg: Message, post: Session, r: Reaction) -> bool {
        &&& post.who() == self.who()
        &&& if !self.answers(msg) {
            &&& r == Reaction::Ignore
            &&& self.kept_by(post)
            &&& post.events() == self.events().push(LogEvent::Dropped)
        } else {
            let id = msg.request_id.unwrap();
            let outcome = outcome_of(msg.payload);
            match self.phase() {
                SessionState::Authenticated => {
                    &&& r == Reaction::Complete((Completion { id, outcome }))
                    &&& post.phase() == SessionState::Authenticated
                    &&& post.pending() == self.pending().remove(self.pending().index_of(id))
                    &&& post.fresh_id() == self.fresh_id()
                    &&& post.events() == self.events()
                },
                SessionState::AwaitingHelloResponse => match hello_nonce(outcome) {
                    Some(nonce) => {
                        &&& r matches Reaction::Send(login) && is_login_request(
                            login,
                            self.fresh_id(),
                            self.who().user@,
                            password_digest(self.who().password@, nonce),
                        )
                        &&& post.phase() == SessionState::AwaitingLoginResponse
                        &&& post.pending() == seq![self.fresh_id()]
                        &&& post.fresh_id() == succ(self.fresh_id())
                        &&& post.events() == self.events().push(LogEvent::LoginSent)
                    },
                    None => {
                        &&& r == Reaction::Ignore
                        &&& is_failure(post.phase(), "bad hello response"@)
                        &&& post.pending() == Seq::<u64>::empty()
                        &&& post.fresh_id() == self.fresh_id()
                        &&& post.events() == self.events().push(LogEvent::Error)
                    },
                },
                SessionState::AwaitingLoginResponse => {
                    &&& r == Reaction::Ignore
                    &&& post.pending() == Seq::<u64>::empty()
                    &&& post.fresh_id() == self.fresh_id()
                    &&& match outcome {
                        Outcome::Success(_) => {
                            &&& post.phase() == SessionState::Authenticated
                            &&& post.events() == self.events().push(LogEvent::Authenticated)
                        },
                        Outcome::Failure(error) => {
                            &&& is_failure(post.phase(), error.message@)
                            &&& post.events() == self.events().push(LogEvent::Error)
                        },
                        _ => {
                            &&& is_failure(post.phase(), "bad login response"@)
                            &&& post.events() == self.events().push(LogEvent::Error)
                        },
                    }
                },
                _ => false,
            }
        }
    }

    /// A session that has not connected yet. Its first request gets the id 1.
    pub fn new(credentials: Credentials) -> (s: Session)
        ensures
            s.wf(),
            s.phase() == SessionState::Disconnected,
            s.pending() == Seq::<u64>::empty(),
            s.fresh_id() == 1,
            s.who() == credentials,
            s.events() == Seq::<LogEvent>::empty(),
    {
        Session {
            state: SessionState::Disconnected,
            credentials,
            registry: Registry::new(),
            next_id: 1,
            log: Vec::new(),
        }
    }

    /// The state of the session.
    pub fn state(&self) -> (r: &SessionState)
        ensures
            *r == self.phase(),
    {
        &self.state
    }

    /// The transitions recorded so far.
    pub fn log(&self) -> (r: &Vec<LogEvent>)
        ensures
            r@ == self.events(),
    {
        &self.log
    }

    /// The number of outstanding calls.
    pub fn pending_calls(&self) -> (n: usize)
        ensures
            n == self.pending().len(),
    {
        self.registry.len()
    }

    /// Whether the call `id` is outstanding.
    pub fn is_pending(&self, id: u64) -> (r: bool)
        ensures
            r == self.pending().contains(id),
    {
        self.registry.contains(id)
    }

    fn take_id(&mut self) -> (id: u64)
        ensures
            id == old(self).next_id,
            final(self).next_id == succ(id),
            final(self).state == old(self).state,
            final(self).credentials == old(self).credentials,
            final(self).registry == old(self).registry,
            final(self).log == old(self).log,
    {
        let id = self.next_id;
        self.next_id = if id == u64::MAX {
            0
        } else {
            id + 1
        };
        id
    }

    fn drain(&mut self, event: LogEvent) -> (done: Vec<Completion>)
        ensures
            old(self).ended_by(*final(self), done@, event),
            final(self).state == old(self).state,
            final(self).pending().no_duplicates(),
    {
        let done = self.registry.abandon_all();
        self.log.push(event);
        done
    }

    /// Starts a session: from `Disconnected`, `Closed` or a failed login the
    /// state becomes `Connecting`, and the caller opens the transport. In
    /// any other state nothing happens.
    pub fn connect(&mut self) -> (started: bool)
        requires
            old(self).wf(),
        ensures
            final(self).wf(),
            may_follow(old(self).phase(), final(self).phase()),
            started == (old(self).phase() is Disconnected || old(self).phase() is Closed || old(
                self,
            ).phase() is LoginFailed),
            started ==> final(self).phase() == SessionState::Connecting && final(self).events()
                == old(self).events().push(LogEvent::Connecting),
            !started ==> final(self).phase() == old(self).phase() && final(self).events() == old(
                self,
            ).events(),
            final(self).pending() == old(self).pending(),
            final(self).fresh_id() == old(self).fresh_id(),
            final(self).who() == old(self).who(),
    {
        let idle = match &self.state {
            SessionState::Disconnected | SessionState::Closed | SessionState::LoginFailed(_) => true,
            _ => false,
        };
        if idle {
            self.state = SessionState::Connecting;
            self.log.push(LogEvent::Connecting);
        }
        idle
    }

    /// The transport is open. A connecting session registers and returns
    /// the `hello` request and awaits its response; in any other state
    /// nothing happens.
    pub fn transport_opened(&mut self) -> (r: Option<Message>)
        requires
            old(self).wf(),
        ensures
            final(self).wf(),
            may_follow(old(self).phase(), final(self).phase()),
            final(self).who() == old(self).who(),
            old(self).phase() is Connecting ==> {
                &&& r matches Some(hello) && is_hello_request(hello, old(self).fresh_id())
                &&& final(self).phase() == SessionState::AwaitingHelloResponse
                &&& final(self).pending() == seq![old(self).fresh_id()]
                &&& final(self).pending().contains(old(self).fresh_id())
                &&& final(self).fresh_id() == succ(old(self).fresh_id())
                &&& final(self).events() == old(self).events().push(LogEvent::HelloSent)
            },
            !(old(self).phase() is Connecting) ==> {
                &&& r.is_none()
                &&& old(self).kept_by(*final(self))
                &&& final(self).events() == old(self).events()
            },
    {
        let connecting = match &self.state {
            SessionState::Connecting => true,
            _ => false,
        };
        if !connecting {
            return None;
        }
        let id = self.take_id();
        let registered = self.registry.register(id);
        assert(registered.is_ok());
        assert(self.registry@ =~= seq![id]);
        assert(self.registry@[0] == id);
        self.state = SessionState::AwaitingHelloResponse;
        self.log.push(LogEvent::HelloSent);
        Some(
            Message {
                request_id: Some(id),
                payload: Payload::Request {
                    path: String::new(),
                    method: "hello".to_owned(),
                    params: None,
                },
            },
        )
    }

    /// The transport has closed. Every outstanding call is abandoned; the
    /// state becomes `Closed`, but a session that never connected or whose
    /// login failed keeps its state.
    pub fn transport_closed(&mut self) -> (done: Vec<Completion>)
        requires
            old(self).wf(),
        ensures
            final(self).wf(),
            may_follow(old(self).phase(), final(self).phase()),
            old(self).ended_by(*final(self), done@, LogEvent::Disconnected),
            final(self).phase() == after_close(old(self).phase()),
    {
        let stays = match &self.state {
            SessionState::Disconnected | SessionState::LoginFailed(_) => true,
            _ => false,
        };
        if !stays {
            self.state = SessionState::Closed;
        }
        self.drain(LogEvent::Disconnected)
    }

    /// The transport has failed. Every outstanding call is abandoned. A
    /// transport that failed to open leaves `LoginFailed` with the reason
    /// "transport error"; otherwise the state is as after a close.
    pub fn transport_failed(&mut self) -> (done: Vec<Completion>)
        requires
            old(self).wf(),
        ensures
            final(self).wf(),
            may_follow(old(self).phase(), final(self).phase()),
            old(self).ended_by(*final(self), done@, LogEvent::Error),
            old(self).phase() is Connecting ==> is_failure(
                final(self).phase(),
                "transport error"@,
            ),
            !(old(self).phase() is Connecting) ==> final(self).phase() == after_close(
                old(self).phase(),
            ),
    {
        let connecting = match &self.state {
            SessionState::Connecting => true,
            _ => false,
        };
        let stays = match &self.state {
            SessionState::Disconnected | SessionState::LoginFailed(_) => true,
            _ => false,
        };
        if connecting {
            self.state = SessionState::LoginFailed("transport error".to_owned());
        } else if !stays {
            self.state = SessionState::Closed;
        }
        self.drain(LogEvent::Error)
    }

    /// Ends the session: every outstanding call is abandoned and the state
    /// is `Closed`. The caller closes the transport.
    pub fn disconnect(&mut self) -> (done: Vec<Completion>)
        requires
            old(self).wf(),
        ensures
            final(self).wf(),
            may_follow(old(self).phase(), final(self).phase()),
            old(self).ended_by(*final(self), done@, LogEvent::Disconnected),
            final(self).phase() == SessionState::Closed,
    {
        self.state = SessionState::Closed;
        self.drain(LogEvent::Disconnected)
    }

    /// Issues a call. In the state `Authenticated`, for a method with a
    /// name, the request gets the next id, is registered as outstanding and
    /// is returned for sending. Otherwise the call is refused and nothing is
    /// registered. The id advances when a request was made and when the id
    /// was found in use.
    pub fn call(&mut self, path: String, method: String, params: Option<Value>) -> (r: Result<
        Message,
        CallError,
    >)
        requires
            old(self).wf(),
        ensures
            final(self).wf(),
            r == old(self).call_result(path, method, params),
            final(self).phase() == old(self).phase(),
            final(self).who() == old(self).who(),
            final(self).events() == old(self).events(),
            final(self).pending() == if r.is_ok() {
                old(self).pending().push(old(self).fresh_id())
            } else {
                old(self).pending()
            },
            final(self).fresh_id() == if r.is_ok() || r == Err::<Message, CallError>(
                CallError::IdInUse,
            ) {
                succ(old(self).fresh_id())
            } else {
                old(self).fresh_id()
            },
            r.is_ok() ==> final(self).pending().contains(old(self).fresh_id()),
            forall|other: u64|
                other != old(self).fresh_id() ==> final(self).pending().contains(other) == old(
                    self,
                ).pending().contains(other),
    {
        let authenticated = match &self.state {
            SessionState::Authenticated => true,
            _ => false,
        };
        if !authenticated {
            return Err(CallError::NotAuthenticated);
        }
        if method.as_str().is_empty() {
            return Err(CallError::EmptyMethod);
        }
        let id = self.take_id();
        let ghost before = self.registry;
        let registered = self.registry.register(id);
        proof {
            assert forall|other: u64| other != id implies self.registry@.contains(other)
                == before@.contains(other) by {
                assert(self.registry.is_pending(other) == before.is_pending(other));
            }
        }
        match registered {
            Err(_) => Err(CallError::IdInUse),
            Ok(()) => Ok(
                Message { request_id: Some(id), payload: Payload::Request { path, method, params } },
            ),
        }
    }

    /// Takes one inbound message. See `message_step`.
    pub fn on_message(&mut self, msg: Message) -> (r: Reaction)
        requires
            old(self).wf(),
        ensures
            final(self).wf(),
            may_follow(old(self).phase(), final(self).phase()),
            old(self).message_step(msg, *final(self), r),
            r matches Reaction::Send(login) ==> final(self).pending().contains(
                old(self).fresh_id(),
            ),
    {
        let id = match msg.request_id {
            Some(id) => id,
            None => {
                self.log.push(LogEvent::Dropped);
                return Reaction::Ignore;
            },
        };
        if msg.is_request() || !self.registry.contains(id) {
            self.log.push(LogEvent::Dropped);
            return Reaction::Ignore;
        }
        let outcome = match msg.into_outcome() {
            Ok(Ok(value)) => Outcome::Success(value),
            Ok(Err(error)) => Outcome::Failure(error),
            Err(_) => Outcome::Malformed,
        };
        let done = match self.registry.resolve(id, outcome) {
            Some(done) => done,
            None => {
                return Reaction::Ignore;
            },
        };
        let authenticated = match &self.state {
            SessionState::Authenticated => true,
            _ => false,
        };
        if authenticated {
            return Reaction::Complete(done);
        }
        assert(self.registry@ =~= Seq::<u64>::empty());
        let in_hello = match &self.state {
            SessionState::AwaitingHelloResponse => true,
            _ => false,
        };
        if in_hello {
            match after_hello(&self.credentials, &done.outcome) {
                Some(params) => {
                    let login_id = self.take_id();
                    let registered = self.registry.register(login_id);
                    assert(registered.is_ok());
                    assert(self.registry@ =~= seq![login_id]);
                    assert(self.registry@[0] == login_id);
                    self.state = SessionState::AwaitingLoginResponse;
                    self.log.push(LogEvent::LoginSent);
                    Reaction::Send(
                        Message {
                            request_id: Some(login_id),
                            payload: Payload::Request {
                                path: String::new(),
                                method: "login".to_owned(),
                                params: Some(params),
                            },
                        },
                    )
                },
                None => {
                    self.state = SessionState::LoginFailed("bad hello response".to_owned());
                    self.log.push(LogEvent::Error);
                    Reaction::Ignore
                },
            }
        } else {
            let next = after_login(done.outcome);
            let event = match &next {
                SessionState::Authenticated => LogEvent::Authenticated,
                _ => LogEvent::Error,
            };
            self.state = next;
            self.log.push(event);
            Reaction::Ignore
        }
    }

    /// Takes one inbound event. A message goes to `on_message`. A frame
    /// that did not decode is recorded and otherwise ignored. A frame
    /// length that could not be read ends the session as a failed transport
    /// does.
    pub fn receive(&mut self, inbound: Inbound) -> (r: Reaction)
        requires
            old(self).wf(),
        ensures
            final(self).wf(),
            may_follow(old(self).phase(), final(self).phase()),
            match inbound {
                Inbound::Message(msg) => old(self).message_step(msg, *final(self), r),
                Inbound::Malformed => {
                    &&& r == Reaction::Ignore
                    &&& old(self).kept_by(*final(self))
                    &&& final(self).events() == old(self).events().push(LogEvent::Error)
                },
                Inbound::BadLength => {
                    &&& r matches Reaction::Abandon(done) && old(self).ended_by(
                        *final(self),
                        done@,
                        LogEvent::Error,
                    )
                    &&& old(self).phase() is Connecting ==> is_failure(
                        final(self).phase(),
                        "transport error"@,
                    )
                    &&& !(old(self).phase() is Connecting) ==> final(self).phase() == after_close(
                        old(self).phase(),
                    )
                },
            },
    {
        match inbound {
            Inbound::Message(msg) => self.on_message(msg),
            Inbound::Malformed => {
                self.log.push(LogEvent::Error);
                Reaction::Ignore
            },
            Inbound::BadLength => Reaction::Abandon(self.transport_failed()),
        }
    }
}

} // verus!
