//! The message model: structured values, requests and responses.

use vstd::prelude::*;

verus! {

/// The protocol's structured payload: scalars, lists and string-keyed dictionaries.
/// A dictionary keeps its fields in the order in which they were written.
#[derive(Debug, PartialEq)]
pub enum Value {
    Null,
    Bool(bool),
    Int(i64),
    Text(String),
    List(Vec<Value>),
    Dict(Vec<(String, Value)>),
}

/// The error branch of a response.
#[derive(Debug, PartialEq)]
pub struct RpcError {
    pub code: i64,
    pub message: String,
}

/// What a message carries besides its request id.
#[derive(Debug, PartialEq)]
pub enum Payload {
    /// A method call.
    Request { path: String, method: String, params: Option<Value> },
    /// A response with a result.
    Success(Value),
    /// A response with an error.
    Failure(RpcError),
    /// A response that has neither a result nor an error.
    Empty,
}

/// One unit of the exchange. A request that expects a reply and the reply
/// to it carry the same request id; a notification carries none.
#[derive(Debug, PartialEq)]
pub struct Message {
    pub request_id: Option<u64>,
    pub payload: Payload,
}

/// Why a message cannot be built or read.
#[derive(Clone, Copy, Debug, PartialEq, Eq, Structural)]
pub enum MessageError {
    /// A request must name a method.
    EmptyMethod,
    /// The message is a request and has no outcome.
    NotAResponse,
    /// The response has neither a result nor an error.
    MissingOutcome,
}

impl Message {
    /// Builds the request for `method` at `path` under the id `id`.
    pub fn new_request(id: u64, path: String, method: String, params: Option<Value>) -> (r: Result<
        Message,
        MessageError,
    >)
        ensures
            method@.len() == 0 ==> r == Err::<Message, MessageError>(MessageError::EmptyMethod),
            method@.len() > 0 ==> r == Ok::<Message, MessageError>(
                (Message {
                    request_id: Some(id),
                    payload: Payload::Request { path, method, params },
                }),
            ),
    {
        if method.as_str().is_empty() {
            Err(MessageError::EmptyMethod)
        } else {
            Ok(Message { request_id: Some(id), payload: Payload::Request { path, method, params } })
        }
    }

    /// Whether the message is a request.
    pub fn is_request(&self) -> (r: bool)
        ensures
            r == (self.payload is Request),
    {
        match &self.payload {
            Payload::Request { .. } => true,
            _ => false,
        }
    }

    /// The outcome that a response carries: its result or its error.
    pub fn into_outcome(self) -> (r: Result<Result<Value, RpcError>, MessageError>)
        ensures
            r == Self::outcome_of(self.payload),
    {
        match self.payload {
            Payload::Success(value) => Ok(Ok(value)),
            Payload::Failure(error) => Ok(Err(error)),
            Payload::Empty => Err(MessageError::MissingOutcome),
            Payload::Request { .. } => Err(MessageError::NotAResponse),
        }
    }

    /// The outcome carried by a payload.
    pub open spec fn outcome_of(payload: Payload) -> Result<Result<Value, RpcError>, MessageError> {
        match payload {
            Payload::Success(value) => Ok(Ok(value)),
            Payload::Failure(error) => Ok(Err(error)),
            Payload::Empty => Err(MessageError::MissingOutcome),
            Payload::Request { .. } => Err(MessageError::NotAResponse),
        }
    }
}

} // verus!
