//! The login handshake: what follows the response to `hello` and the
//! response to `login`.

use crate::digest::{hash_password, password_digest};
use crate::message::Value;
use crate::registry::Outcome;
use vstd::prelude::*;

verus! {

/// Who logs in. Given once, when the session is made.
#[derive(Clone, Debug, PartialEq)]
pub struct Credentials {
    pub user: String,
    pub password: String,
}

/// Where a session stands.
#[derive(Clone, Debug, PartialEq)]
pub enum SessionState {
    Disconnected,
    Connecting,
    AwaitingHelloResponse,
    AwaitingLoginResponse,
    Authenticated,
    LoginFailed(String),
    Closed,
}

/// The index of the first field at or after `from` whose name is `key`.
pub open spec fn first_named(fields: Seq<(String, Value)>, key: Seq<char>, from: int) -> Option<int>
    decreases fields.len() - from,
{
    if from < 0 || from >= fields.len() {
        None
    } else if fields[from].0@ == key {
        Some(from)
    } else {
        first_named(fields, key, from + 1)
    }
}

/// The text under `key` in a dictionary: that of the first field of that
/// name, where there is one and it holds text.
pub open spec fn text_field(value: Value, key: Seq<char>) -> Option<Seq<char>> {
    match value {
        Value::Dict(fields) => match first_named(fields@, key, 0) {
            Some(i) => match fields@[i].1 {
                Value::Text(text) => Some(text@),
                _ => None,
            },
            None => None,
        },
        _ => None,
    }
}

/// The challenge that a response to `hello` carries.
pub open spec fn hello_nonce(outcome: Outcome) -> Option<Seq<char>> {
    match outcome {
        Outcome::Success(value) => text_field(value, "nonce"@),
        _ => None,
    }
}

/// Whether `params` is the dictionary of a login request for `user` with
/// the password digest `digest`: the fields `user`, `password` and
/// `resetSession`, in this order, the last one false.
pub open spec fn is_login_params(params: Value, user: Seq<char>, digest: Seq<char>) -> bool {
    match params {
        Value::Dict(fields) => {
            &&& fields@.len() == 3
            &&& fields@[0].0@ == "user"@
            &&& fields@[0].1 matches Value::Text(text) && text@ == user
            &&& fields@[1].0@ == "password"@
            &&& fields@[1].1 matches Value::Text(text) && text@ == digest
            &&& fields@[2].0@ == "resetSession"@
            &&& fields@[2].1 == Value::Bool(false)
        },
        _ => false,
    }
}

/// The state that a failed login leaves, by the error's message.
pub open spec fn is_failure(state: SessionState, reason: Seq<char>) -> bool {
    state matches SessionState::LoginFailed(text) && text@ == reason
}

/// Reads the text under `key` in a dictionary.
pub fn find_text(value: &Value, key: &str) -> (r: Option<String>)
    ensures
        match text_field(*value, key@) {
            Some(text) => r matches Some(found) && found@ == text,
            None => r.is_none(),
        },
{
    match value {
        Value::Dict(fields) => {
            let wanted = key.to_owned();
            let mut i: usize = 0;
            while i < fields.len()
                invariant
                    i <= fields@.len(),
                    wanted@ == key@,
                    *value == Value::Dict(*fields),
                    first_named(fields@, key@, 0) == first_named(fields@, key@, i as int),
                decreases fields@.len() - i,
            {
                let field = &fields[i];
                if field.0 == wanted {
                    assert(first_named(fields@, key@, i as int) == Some(i as int));
                    match &field.1 {
                        Value::Text(text) => {
                            return Some(text.clone());
                        },
                        _ => {
                            return None;
                        },
                    }
                }
                i += 1;
            }
            None
        },
        _ => None,
    }
}

/// The parameters of the login request for `user` with the digest `digest`.
pub fn login_params(user: &str, digest: String) -> (params: Value)
    ensures
        is_login_params(params, user@, digest@),
{
    let mut fields: Vec<(String, Value)> = Vec::new();
    fields.push(("user".to_owned(), Value::Text(user.to_owned())));
    fields.push(("password".to_owned(), Value::Text(digest)));
    fields.push(("resetSession".to_owned(), Value::Bool(false)));
    Value::Dict(fields)
}

/// What follows the response to `hello`: where it carries a challenge, the
/// parameters of the login request, in which the password is the digest of
/// the credentials' password under that challenge; else nothing, and the
/// login has failed.
pub fn after_hello(credentials: &Credentials, outcome: &Outcome) -> (r: Option<Value>)
    ensures
        match hello_nonce(*outcome) {
            Some(nonce) => r matches Some(params) && is_login_params(
                params,
                credentials.user@,
                password_digest(credentials.password@, nonce),
            ),
            None => r.is_none(),
        },
{
    match outcome {
        Outcome::Success(value) => match find_text(value, "nonce") {
            Some(nonce) => {
                let digest = hash_password(credentials.password.as_str(), nonce.as_str());
                Some(login_params(credentials.user.as_str(), digest))
            },
            None => None,
        },
        _ => None,
    }
}

/// The state that the response to `login` leads to: `Authenticated` on a
/// result, `LoginFailed` with the error's message on an error, and
/// `LoginFailed` with "bad login response" on anything else.
pub fn after_login(outcome: Outcome) -> (state: SessionState)
    ensures
        match outcome {
            Outcome::Success(_) => state == SessionState::Authenticated,
            Outcome::Failure(error) => is_failure(state, error.message@),
            _ => is_failure(state, "bad login response"@),
        },
{
    match outcome {
        Outcome::Success(_) => SessionState::Authenticated,
        Outcome::Failure(error) => SessionState::LoginFailed(error.message),
        _ => SessionState::LoginFailed("bad login response".to_owned()),
    }
}

} // verus!
