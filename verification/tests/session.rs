use rpc_session::frame::{split_frame, Framing};
use rpc_session::handshake::{Credentials, SessionState};
use rpc_session::message::{Message, Payload, RpcError, Value};
use rpc_session::registry::{Completion, Outcome};
use rpc_session::session::{CallError, Inbound, LogEvent, Reaction, Session};

fn credentials(user: &str, password: &str) -> Credentials {
    Credentials { user: user.to_string(), password: password.to_string() }
}

fn nonce_reply(id: u64, nonce: &str) -> Message {
    Message {
        request_id: Some(id),
        payload: Payload::Success(Value::Dict(vec![(
            "nonce".to_string(),
            Value::Text(nonce.to_string()),
        )])),
    }
}

fn success(id: u64, value: Value) -> Message {
    Message { request_id: Some(id), payload: Payload::Success(value) }
}

fn failure(id: u64, message: &str) -> Message {
    Message {
        request_id: Some(id),
        payload: Payload::Failure(RpcError { code: 8, message: message.to_string() }),
    }
}

fn request_id(msg: &Message) -> u64 {
    msg.request_id.expect("a request carries an id")
}

fn authenticated(user: &str, password: &str) -> Session {
    let mut session = Session::new(credentials(user, password));
    assert!(session.connect());
    let hello = session.transport_opened().expect("hello");
    let login = match session.on_message(nonce_reply(request_id(&hello), "n1")) {
        Reaction::Send(login) => login,
        other => panic!("expected the login request, got {:?}", other),
    };
    assert_eq!(session.on_message(success(request_id(&login), Value::Null)), Reaction::Ignore);
    assert_eq!(*session.state(), SessionState::Authenticated);
    session
}

fn login_dict(user: &str, digest: &str) -> Value {
    Value::Dict(vec![
        ("user".to_string(), Value::Text(user.to_string())),
        ("password".to_string(), Value::Text(digest.to_string())),
        ("resetSession".to_string(), Value::Bool(false)),
    ])
}

#[test]
fn new_session_is_disconnected() {
    let session = Session::new(credentials("u", "p"));
    assert_eq!(*session.state(), SessionState::Disconnected);
    assert_eq!(session.pending_calls(), 0);
    assert!(session.log().is_empty());
}

#[test]
fn connect_then_open_sends_hello_without_params() {
    let mut session = Session::new(credentials("u", "p"));
    assert!(session.connect());
    assert_eq!(*session.state(), SessionState::Connecting);
    let hello = session.transport_opened().expect("hello");
    assert_eq!(
        hello,
        Message {
            request_id: Some(1),
            payload: Payload::Request {
                path: String::new(),
                method: "hello".to_string(),
                params: None,
            },
        }
    );
    assert_eq!(*session.state(), SessionState::AwaitingHelloResponse);
    assert!(session.is_pending(1));
    assert_eq!(session.log(), &vec![LogEvent::Connecting, LogEvent::HelloSent]);
}

#[test]
fn connect_twice_is_refused() {
    let mut session = Session::new(credentials("u", "p"));
    assert!(session.connect());
    assert!(!session.connect());
    assert_eq!(*session.state(), SessionState::Connecting);
}

#[test]
fn transport_opened_without_connect_does_nothing() {
    let mut session = Session::new(credentials("u", "p"));
    assert_eq!(session.transport_opened(), None);
    assert_eq!(*session.state(), SessionState::Disconnected);
}

#[test]
fn login_carries_the_digest_of_password_and_nonce() {
    let mut session = Session::new(credentials("test", "test"));
    assert!(session.connect());
    let hello = session.transport_opened().expect("hello");
    let reaction = session.on_message(nonce_reply(request_id(&hello), "abc123"));
    let expected = shvrpc::util::sha1_password_hash(b"test", b"abc123");
    assert_eq!(expected, "0e4f69b57956e67c2a09300a6bb8364aeb441fbd");
    assert_eq!(
        reaction,
        Reaction::Send(Message {
            request_id: Some(2),
            payload: Payload::Request {
                path: String::new(),
                method: "login".to_string(),
                params: Some(login_dict("test", "0e4f69b57956e67c2a09300a6bb8364aeb441fbd")),
            },
        })
    );
    assert_eq!(*session.state(), SessionState::AwaitingLoginResponse);
    assert!(!session.is_pending(1));
    assert!(session.is_pending(2));
}

#[test]
fn full_handshake_then_dir_call_resolves() {
    let mut session = Session::new(credentials("alice", "secret"));
    assert!(session.connect());
    let hello = session.transport_opened().expect("hello");
    let login = match session.on_message(nonce_reply(request_id(&hello), "n1")) {
        Reaction::Send(login) => login,
        other => panic!("expected the login request, got {:?}", other),
    };
    match &login.payload {
        Payload::Request { path, method, params } => {
            assert_eq!(path, "");
            assert_eq!(method, "login");
            assert_eq!(
                *params,
                Some(login_dict("alice", "5cd8c08dd01a2fd3f58ea291e07cf6d14268ae3e"))
            );
        }
        other => panic!("expected a request, got {:?}", other),
    }
    assert_eq!(session.on_message(success(request_id(&login), Value::Null)), Reaction::Ignore);
    assert_eq!(*session.state(), SessionState::Authenticated);
    assert_eq!(
        session.log(),
        &vec![
            LogEvent::Connecting,
            LogEvent::HelloSent,
            LogEvent::LoginSent,
            LogEvent::Authenticated
        ]
    );

    let call = session.call(String::new(), "dir".to_string(), None).expect("call");
    assert_eq!(
        call,
        Message {
            request_id: Some(3),
            payload: Payload::Request {
                path: String::new(),
                method: "dir".to_string(),
                params: None,
            },
        }
    );
    let listing = || Value::List(vec![Value::Text("dir".to_string()), Value::Text("ls".to_string())]);
    assert_eq!(
        session.on_message(success(3, listing())),
        Reaction::Complete(Completion { id: 3, outcome: Outcome::Success(listing()) })
    );
    assert_eq!(session.pending_calls(), 0);
}

#[test]
fn login_error_fails_the_login_and_calls_are_refused() {
    let mut session = Session::new(credentials("alice", "wrong"));
    assert!(session.connect());
    let hello = session.transport_opened().expect("hello");
    let login = match session.on_message(nonce_reply(request_id(&hello), "n1")) {
        Reaction::Send(login) => login,
        other => panic!("expected the login request, got {:?}", other),
    };
    assert_eq!(
        session.on_message(failure(request_id(&login), "invalid credentials")),
        Reaction::Ignore
    );
    assert_eq!(*session.state(), SessionState::LoginFailed("invalid credentials".to_string()));
    assert_eq!(
        session.call(String::new(), "dir".to_string(), None),
        Err(CallError::NotAuthenticated)
    );
    assert_eq!(session.pending_calls(), 0);
}

#[test]
fn two_calls_answered_in_reverse_order() {
    let mut session = authenticated("alice", "secret");
    let first = session.call("a".to_string(), "get".to_string(), None).expect("first");
    let second =
        session.call("b".to_string(), "get".to_string(), Some(Value::Int(7))).expect("second");
    let (first_id, second_id) = (request_id(&first), request_id(&second));
    assert_ne!(first_id, second_id);
    assert_eq!(session.pending_calls(), 2);

    assert_eq!(
        session.on_message(success(second_id, Value::Text("two".to_string()))),
        Reaction::Complete(Completion {
            id: second_id,
            outcome: Outcome::Success(Value::Text("two".to_string())),
        })
    );
    assert!(session.is_pending(first_id));
    assert!(!session.is_pending(second_id));
    assert_eq!(
        session.on_message(success(first_id, Value::Text("one".to_string()))),
        Reaction::Complete(Completion {
            id: first_id,
            outcome: Outcome::Success(Value::Text("one".to_string())),
        })
    );
    assert_eq!(session.pending_calls(), 0);
}

#[test]
fn response_ends_its_own_call_only() {
    let mut session = authenticated("alice", "secret");
    let a = request_id(&session.call(String::new(), "a".to_string(), None).expect("a"));
    let b = request_id(&session.call(String::new(), "b".to_string(), None).expect("b"));
    let c = request_id(&session.call(String::new(), "c".to_string(), None).expect("c"));
    assert_eq!(
        session.on_message(failure(b, "no such method")),
        Reaction::Complete(Completion {
            id: b,
            outcome: Outcome::Failure(RpcError { code: 8, message: "no such method".to_string() }),
        })
    );
    assert!(session.is_pending(a));
    assert!(!session.is_pending(b));
    assert!(session.is_pending(c));
    assert_eq!(session.pending_calls(), 2);
}

#[test]
fn unmatched_response_is_dropped() {
    let mut session = authenticated("alice", "secret");
    let a = request_id(&session.call(String::new(), "a".to_string(), None).expect("a"));
    let before = session.log().len();
    assert_eq!(session.on_message(success(999, Value::Null)), Reaction::Ignore);
    assert_eq!(session.on_message(success(999, Value::Null)), Reaction::Ignore);
    assert!(session.is_pending(a));
    assert_eq!(session.pending_calls(), 1);
    assert_eq!(*session.state(), SessionState::Authenticated);
    assert_eq!(session.log().len(), before + 2);
    assert_eq!(session.log().last(), Some(&LogEvent::Dropped));
}

#[test]
fn second_response_to_one_call_is_dropped() {
    let mut session = authenticated("alice", "secret");
    let a = request_id(&session.call(String::new(), "a".to_string(), None).expect("a"));
    assert_eq!(
        session.on_message(success(a, Value::Int(1))),
        Reaction::Complete(Completion { id: a, outcome: Outcome::Success(Value::Int(1)) })
    );
    assert_eq!(session.on_message(success(a, Value::Int(2))), Reaction::Ignore);
}

#[test]
fn notification_and_inbound_request_are_dropped() {
    let mut session = authenticated("alice", "secret");
    let a = request_id(&session.call(String::new(), "a".to_string(), None).expect("a"));
    let notification = Message { request_id: None, payload: Payload::Success(Value::Null) };
    assert_eq!(session.on_message(notification), Reaction::Ignore);
    let inbound = Message {
        request_id: Some(a),
        payload: Payload::Request {
            path: String::new(),
            method: "ping".to_string(),
            params: None,
        },
    };
    assert_eq!(session.on_message(inbound), Reaction::Ignore);
    assert!(session.is_pending(a));
}

#[test]
fn response_without_result_or_error_completes_as_malformed() {
    let mut session = authenticated("alice", "secret");
    let a = request_id(&session.call(String::new(), "a".to_string(), None).expect("a"));
    assert_eq!(
        session.on_message(Message { request_id: Some(a), payload: Payload::Empty }),
        Reaction::Complete(Completion { id: a, outcome: Outcome::Malformed })
    );
}

#[test]
fn disconnect_abandons_every_pending_call() {
    let mut session = authenticated("alice", "secret");
    let a = request_id(&session.call(String::new(), "a".to_string(), None).expect("a"));
    let b = request_id(&session.call(String::new(), "b".to_string(), None).expect("b"));
    let done = session.disconnect();
    assert_eq!(
        done,
        vec![
            Completion { id: a, outcome: Outcome::Disconnected },
            Completion { id: b, outcome: Outcome::Disconnected },
        ]
    );
    assert_eq!(*session.state(), SessionState::Closed);
    assert_eq!(session.pending_calls(), 0);
    assert_eq!(
        session.call(String::new(), "dir".to_string(), None),
        Err(CallError::NotAuthenticated)
    );
    assert_eq!(session.on_message(success(a, Value::Null)), Reaction::Ignore);
}

#[test]
fn no_call_succeeds_after_disconnect_until_authenticated_again() {
    let mut session = authenticated("alice", "secret");
    session.disconnect();
    assert_eq!(session.call(String::new(), "dir".to_string(), None), Err(CallError::NotAuthenticated));
    assert!(session.connect());
    assert_eq!(session.call(String::new(), "dir".to_string(), None), Err(CallError::NotAuthenticated));
    let hello = session.transport_opened().expect("hello");
    assert_eq!(session.call(String::new(), "dir".to_string(), None), Err(CallError::NotAuthenticated));
    let login = match session.on_message(nonce_reply(request_id(&hello), "n2")) {
        Reaction::Send(login) => login,
        other => panic!("expected the login request, got {:?}", other),
    };
    assert_eq!(session.call(String::new(), "dir".to_string(), None), Err(CallError::NotAuthenticated));
    assert_eq!(session.on_message(success(request_id(&login), Value::Null)), Reaction::Ignore);
    assert!(session.call(String::new(), "dir".to_string(), None).is_ok());
}

#[test]
fn call_with_empty_method_is_refused() {
    let mut session = authenticated("alice", "secret");
    assert_eq!(session.call("x".to_string(), String::new(), None), Err(CallError::EmptyMethod));
    assert_eq!(session.pending_calls(), 0);
    let next = session.call("x".to_string(), "get".to_string(), None).expect("call");
    assert_eq!(next.request_id, Some(3));
}

#[test]
fn call_before_connect_is_refused() {
    let mut session = Session::new(credentials("u", "p"));
    assert_eq!(
        session.call(String::new(), "dir".to_string(), None),
        Err(CallError::NotAuthenticated)
    );
    assert_eq!(session.call(String::new(), String::new(), None), Err(CallError::NotAuthenticated));
}

#[test]
fn hello_response_without_nonce_fails_the_login() {
    let mut session = Session::new(credentials("u", "p"));
    assert!(session.connect());
    let hello = session.transport_opened().expect("hello");
    let reply = success(request_id(&hello), Value::Dict(vec![]));
    assert_eq!(session.on_message(reply), Reaction::Ignore);
    assert_eq!(*session.state(), SessionState::LoginFailed("bad hello response".to_string()));
    assert_eq!(session.pending_calls(), 0);
}

#[test]
fn hello_error_fails_the_login() {
    let mut session = Session::new(credentials("u", "p"));
    assert!(session.connect());
    let hello = session.transport_opened().expect("hello");
    assert_eq!(session.on_message(failure(request_id(&hello), "busy")), Reaction::Ignore);
    assert_eq!(*session.state(), SessionState::LoginFailed("bad hello response".to_string()));
}

#[test]
fn hello_state_ignores_other_ids() {
    let mut session = Session::new(credentials("u", "p"));
    assert!(session.connect());
    let hello = session.transport_opened().expect("hello");
    assert_eq!(session.on_message(nonce_reply(request_id(&hello) + 5, "n")), Reaction::Ignore);
    assert_eq!(*session.state(), SessionState::AwaitingHelloResponse);
    assert!(session.is_pending(request_id(&hello)));
}

#[test]
fn login_response_without_outcome_fails_the_login() {
    let mut session = Session::new(credentials("u", "p"));
    assert!(session.connect());
    let hello = session.transport_opened().expect("hello");
    let login = match session.on_message(nonce_reply(request_id(&hello), "n1")) {
        Reaction::Send(login) => login,
        other => panic!("expected the login request, got {:?}", other),
    };
    let reply = Message { request_id: login.request_id, payload: Payload::Empty };
    assert_eq!(session.on_message(reply), Reaction::Ignore);
    assert_eq!(*session.state(), SessionState::LoginFailed("bad login response".to_string()));
}

#[test]
fn failure_to_open_the_transport_fails_the_login() {
    let mut session = Session::new(credentials("u", "p"));
    assert!(session.connect());
    assert!(session.transport_failed().is_empty());
    assert_eq!(*session.state(), SessionState::LoginFailed("transport error".to_string()));
    assert_eq!(session.log(), &vec![LogEvent::Connecting, LogEvent::Error]);
    assert!(session.connect());
}

#[test]
fn transport_failure_after_login_closes_and_abandons() {
    let mut session = authenticated("alice", "secret");
    let a = request_id(&session.call(String::new(), "a".to_string(), None).expect("a"));
    assert_eq!(
        session.transport_failed(),
        vec![Completion { id: a, outcome: Outcome::Disconnected }]
    );
    assert_eq!(*session.state(), SessionState::Closed);
}

#[test]
fn transport_close_during_handshake_abandons_hello() {
    let mut session = Session::new(credentials("u", "p"));
    assert!(session.connect());
    let hello = session.transport_opened().expect("hello");
    assert_eq!(
        session.transport_closed(),
        vec![Completion { id: request_id(&hello), outcome: Outcome::Disconnected }]
    );
    assert_eq!(*session.state(), SessionState::Closed);
    assert_eq!(session.log().last(), Some(&LogEvent::Disconnected));
}

#[test]
fn transport_close_keeps_a_failed_login_visible() {
    let mut session = Session::new(credentials("u", "p"));
    assert!(session.connect());
    session.transport_failed();
    assert!(session.transport_closed().is_empty());
    assert_eq!(*session.state(), SessionState::LoginFailed("transport error".to_string()));
    let mut fresh = Session::new(credentials("u", "p"));
    assert!(fresh.transport_closed().is_empty());
    assert_eq!(*fresh.state(), SessionState::Disconnected);
}

#[test]
fn malformed_frame_is_not_fatal() {
    let mut session = authenticated("alice", "secret");
    let a = request_id(&session.call(String::new(), "a".to_string(), None).expect("a"));
    assert_eq!(session.receive(Inbound::Malformed), Reaction::Ignore);
    assert_eq!(*session.state(), SessionState::Authenticated);
    assert!(session.is_pending(a));
    assert_eq!(session.log().last(), Some(&LogEvent::Error));
    assert_eq!(
        session.receive(Inbound::Message(success(a, Value::Bool(true)))),
        Reaction::Complete(Completion { id: a, outcome: Outcome::Success(Value::Bool(true)) })
    );
}

#[test]
fn unreadable_frame_length_is_fatal() {
    let mut session = authenticated("alice", "secret");
    let a = request_id(&session.call(String::new(), "a".to_string(), None).expect("a"));
    assert_eq!(
        session.receive(Inbound::BadLength),
        Reaction::Abandon(vec![Completion { id: a, outcome: Outcome::Disconnected }])
    );
    assert_eq!(*session.state(), SessionState::Closed);
    assert_eq!(session.pending_calls(), 0);
}

#[test]
fn request_ids_increase_by_one() {
    let mut session = authenticated("alice", "secret");
    let ids: Vec<u64> = (0..4)
        .map(|_| request_id(&session.call(String::new(), "m".to_string(), None).expect("call")))
        .collect();
    assert_eq!(ids, vec![3, 4, 5, 6]);
}

#[test]
fn chunk_becomes_an_inbound_event() {
    assert_eq!(Inbound::of_chunk(&Framing::BadLength, None), Inbound::BadLength);
    assert_eq!(
        Inbound::of_chunk(&Framing::BadLength, Some(success(1, Value::Null))),
        Inbound::BadLength
    );
    assert_eq!(Inbound::of_chunk(&Framing::Truncated, None), Inbound::Malformed);
    assert_eq!(Inbound::of_chunk(&Framing::Content(vec![1]), None), Inbound::Malformed);
    assert_eq!(
        Inbound::of_chunk(&Framing::Content(vec![1]), Some(success(1, Value::Null))),
        Inbound::Message(success(1, Value::Null))
    );
    assert_eq!(Inbound::of_chunk(&split_frame(&[]), None), Inbound::BadLength);
    assert_eq!(Inbound::of_chunk(&split_frame(&[4, 1]), None), Inbound::Malformed);
}
