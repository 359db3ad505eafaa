//! What holds of every session, proved from the contracts of its steps.

use crate::digest::password_digest;
use crate::handshake::{text_field, SessionState};
use crate::message::{Message, Payload, Value};
use crate::registry::{lemma_remove_unique, Completion, Outcome};
use crate::session::{
    is_login_request, may_follow, outcome_of, CallError, LogEvent, Reaction, Session,
};
use vstd::prelude::*;

verus! {

/// In an authenticated session a response that carries the id of an
/// outstanding call ends that call with the response's outcome, and ends no
/// other: the call is outstanding no longer, and every other id is
/// outstanding exactly if it was before.
pub proof fn law_response_ends_its_call_only(
    pre: Session,
    msg: Message,
    post: Session,
    r: Reaction,
)
    requires
        pre.wf(),
        pre.phase() == SessionState::Authenticated,
        pre.answers(msg),
        pre.message_step(msg, post, r),
    ensures
        r == Reaction::Complete(
            (Completion { id: msg.request_id.unwrap(), outcome: outcome_of(msg.payload) }),
        ),
        !post.pending().contains(msg.request_id.unwrap()),
        forall|other: u64|
            other != msg.request_id.unwrap() ==> post.pending().contains(other)
                == pre.pending().contains(other),
        post.pending().len() + 1 == pre.pending().len(),
        post.pending().no_duplicates(),
        post.phase() == SessionState::Authenticated,
{
    let id = msg.request_id.unwrap();
    let at = pre.pending().index_of(id);
    assert(0 <= at < pre.pending().len() && pre.pending()[at] == id);
    lemma_remove_unique(pre.pending(), at);
}

/// A message that answers no outstanding call is dropped: nothing is sent
/// or completed, and the state and the outstanding calls stay as they were.
/// A second delivery of it does the same.
pub proof fn law_unmatched_message_is_dropped(
    pre: Session,
    msg: Message,
    post: Session,
    r: Reaction,
)
    requires
        !pre.answers(msg),
        pre.message_step(msg, post, r),
    ensures
        r == Reaction::Ignore,
        post.phase() == pre.phase(),
        post.pending() == pre.pending(),
        post.fresh_id() == pre.fresh_id(),
        !post.answers(msg),
{
}

/// A call is completed once: after the response that ended it, the same
/// response answers no outstanding call.
pub proof fn law_call_is_completed_once(pre: Session, msg: Message, post: Session, r: Reaction)
    requires
        pre.wf(),
        pre.phase() == SessionState::Authenticated,
        pre.answers(msg),
        pre.message_step(msg, post, r),
    ensures
        !post.answers(msg),
{
    law_response_ends_its_call_only(pre, msg, post, r);
}

/// When a session ends, each call that was outstanding is completed as
/// disconnected, and none is outstanding afterwards.
pub proof fn law_end_abandons_every_call(
    pre: Session,
    post: Session,
    done: Seq<Completion>,
    event: LogEvent,
    id: u64,
)
    requires
        pre.ended_by(post, done, event),
        pre.pending().contains(id),
    ensures
        done.contains((Completion { id, outcome: Outcome::Disconnected })),
        !post.pending().contains(id),
{
    let at = pre.pending().index_of(id);
    assert(0 <= at < pre.pending().len() && pre.pending()[at] == id);
    assert(done[at] == (Completion { id, outcome: Outcome::Disconnected }));
}

/// A session that is not authenticated refuses every call.
pub proof fn law_call_needs_authentication(
    s: Session,
    path: String,
    method: String,
    params: Option<Value>,
)
    requires
        s.phase() != SessionState::Authenticated,
    ensures
        s.call_result(path, method, params) == Err::<Message, CallError>(
            CallError::NotAuthenticated,
        ),
{
}

/// After a disconnect every call that was outstanding has been completed
/// as disconnected, none is outstanding, and every further call is refused
/// for as long as the session is not authenticated again.
pub proof fn law_disconnect_ends_calls_and_refuses_new_ones(
    pre: Session,
    post: Session,
    done: Seq<Completion>,
    path: String,
    method: String,
    params: Option<Value>,
)
    requires
        pre.ended_by(post, done, LogEvent::Disconnected),
        post.phase() == SessionState::Closed,
    ensures
        forall|id: u64| #[trigger]
            pre.pending().contains(id) ==> done.contains(
                (Completion { id, outcome: Outcome::Disconnected }),
            ),
        done.len() == pre.pending().len(),
        post.pending().len() == 0,
        post.call_result(path, method, params) == Err::<Message, CallError>(
            CallError::NotAuthenticated,
        ),
{
    assert forall|id: u64| #[trigger] pre.pending().contains(id) implies done.contains(
        (Completion { id, outcome: Outcome::Disconnected }),
    ) by {
        law_end_abandons_every_call(pre, post, done, LogEvent::Disconnected, id);
    }
}

/// The login request that follows a `hello` response with the challenge
/// `nonce` carries the digest of the session's password under that
/// challenge, and the session's user.
pub proof fn law_login_carries_the_digest(
    pre: Session,
    msg: Message,
    value: Value,
    nonce: Seq<char>,
    post: Session,
    r: Reaction,
)
    requires
        pre.phase() == SessionState::AwaitingHelloResponse,
        pre.answers(msg),
        msg.payload == Payload::Success(value),
        text_field(value, "nonce"@) == Some(nonce),
        pre.message_step(msg, post, r),
    ensures
        r matches Reaction::Send(login) && is_login_request(
            login,
            pre.fresh_id(),
            pre.who().user@,
            password_digest(pre.who().password@, nonce),
        ),
        post.phase() == SessionState::AwaitingLoginResponse,
{
}

/// A call that was issued and then answered: the response with the
/// request's id completes that call with its own outcome, and leaves
/// outstanding exactly the calls that were so before the call was issued.
pub proof fn law_call_then_response(
    pre: Session,
    path: String,
    method: String,
    params: Option<Value>,
    request: Message,
    mid: Session,
    response: Message,
    post: Session,
    r: Reaction,
)
    requires
        pre.wf(),
        pre.call_result(path, method, params) == Ok::<Message, CallError>(request),
        mid.phase() == pre.phase(),
        mid.pending() == pre.pending().push(pre.fresh_id()),
        response.request_id == request.request_id,
        !(response.payload is Request),
        mid.message_step(response, post, r),
    ensures
        r == Reaction::Complete(
            (Completion { id: pre.fresh_id(), outcome: outcome_of(response.payload) }),
        ),
        post.pending() == pre.pending(),
        post.phase() == SessionState::Authenticated,
{
    let id = pre.fresh_id();
    let before = pre.pending();
    let held = mid.pending();
    assert(held[before.len() as int] == id);
    assert(held.contains(id));
    let at = held.index_of(id);
    assert(0 <= at < held.len() && held[at] == id);
    if at < before.len() {
        assert(before[at] == id);
        assert(before.contains(id));
    }
    assert(held.remove(at) =~= before);
}

/// A step leads into `Authenticated` only from `AwaitingLoginResponse`,
/// into `AwaitingLoginResponse` only from `AwaitingHelloResponse`, and into
/// `AwaitingHelloResponse` only from `Connecting`.
pub proof fn law_handshake_steps_in_order(pre: SessionState, post: SessionState)
    requires
        may_follow(pre, post),
        pre != post,
    ensures
        post is Authenticated ==> pre is AwaitingLoginResponse,
        post is AwaitingLoginResponse ==> pre is AwaitingHelloResponse,
        post is AwaitingHelloResponse ==> pre is Connecting,
{
}

/// A run of a session: it starts at rest, and each state follows the one
/// before it by one step.
pub open spec fn is_run(trace: Seq<SessionState>) -> bool {
    &&& trace.len() > 0
    &&& trace[0] is Disconnected || trace[0] is Closed || trace[0] is LoginFailed
    &&& forall|i: int| 0 <= i < trace.len() - 1 ==> may_follow(#[trigger] trace[i], trace[i + 1])
}

proof fn login_before(trace: Seq<SessionState>, n: int) -> (j: int)
    requires
        is_run(trace),
        0 <= n < trace.len(),
        trace[n] is Authenticated,
    ensures
        0 <= j < n,
        trace[j] is AwaitingLoginResponse,
        forall|k: int| j < k <= n ==> trace[k] is Authenticated,
    decreases n,
{
    assert(may_follow(trace[n - 1], trace[n]));
    if trace[n - 1] is Authenticated {
        login_before(trace, n - 1)
    } else {
        n - 1
    }
}

proof fn hello_before(trace: Seq<SessionState>, n: int) -> (i: int)
    requires
        is_run(trace),
        0 <= n < trace.len(),
        trace[n] is AwaitingLoginResponse,
    ensures
        0 <= i < n,
        trace[i] is AwaitingHelloResponse,
        forall|k: int| i < k <= n ==> trace[k] is AwaitingLoginResponse,
    decreases n,
{
    assert(may_follow(trace[n - 1], trace[n]));
    if trace[n - 1] is AwaitingLoginResponse {
        hello_before(trace, n - 1)
    } else {
        n - 1
    }
}

/// No run skips the handshake. A run that ends in `Authenticated` has
/// passed `AwaitingHelloResponse` at some step `i` and
/// `AwaitingLoginResponse` at a later step `j`, has stayed in
/// `AwaitingLoginResponse` between the two, and has been `Authenticated`
/// ever since.
pub proof fn law_authenticated_only_through_handshake(trace: Seq<SessionState>) -> (steps: (
    int,
    int,
))
    requires
        is_run(trace),
        trace.last() is Authenticated,
    ensures
        0 <= steps.0 < steps.1 < trace.len() - 1,
        trace[steps.0] is AwaitingHelloResponse,
        forall|k: int| steps.0 < k <= steps.1 ==> trace[k] is AwaitingLoginResponse,
        forall|k: int| steps.1 < k < trace.len() ==> trace[k] is Authenticated,
{
    let j = login_before(trace, trace.len() - 1);
    let i = hello_before(trace, j);
    (i, j)
}

} // verus!
