//! Abstract domain messages, independent of any wire protocol. Parameters and
//! results are JSON values that the domain carries without looking into them.
use vstd::prelude::*;
use crate::error::Error;

verus! {

/// A JSON value of `serde_json`, carried opaquely.
#[verifier::external_type_specification]
#[verifier::external_body]
pub struct ExJsonValue(serde_json::Value);

/// Cloning a JSON value gives an equal value: `Value` derives `Clone` over
/// its variants, copying each of them.
pub assume_specification[ <serde_json::Value as Clone>::clone ](v: &serde_json::Value) -> (r: serde_json::Value)
    ensures
        r == *v,
;

/// Abstract domain message types, independent of specific protocol
#[derive(Debug)]
pub enum Message {
    /// Tool execution request
    Request(Request),
    /// Response to a request
    Response(Response),
    /// Notification (message without expected response)
    Notification(Notification),
}

/// Tool execution request
#[derive(Debug)]
pub struct Request {
    /// Unique request identifier
    pub id: String,
    /// Name of the tool to execute
    pub tool_name: String,
    /// Tool parameters (content depends on the tool)
    pub params: serde_json::Value,
}

/// Response to a request
#[derive(Debug)]
pub struct Response {
    /// Identifier corresponding to the request
    pub id: String,
    /// Execution result or error
    pub result: Result<serde_json::Value, Error>,
}

/// Notification (message without expected response)
#[derive(Debug)]
pub struct Notification {
    /// Event name
    pub event: String,
    /// Data associated with the notification
    pub params: serde_json::Value,
}

impl Clone for Request {
    fn clone(&self) -> (r: Self)
        ensures
            r == *self,
    {
        Request { id: self.id.clone(), tool_name: self.tool_name.clone(), params: self.params.clone() }
    }
}

impl Clone for Response {
    fn clone(&self) -> (r: Self)
        ensures
            r == *self,
    {
        let result = match &self.result {
            Ok(v) => Ok(v.clone()),
            Err(e) => Err(e.clone()),
        };
        Response { id: self.id.clone(), result }
    }
}

impl Clone for Notification {
    fn clone(&self) -> (r: Self)
        ensures
            r == *self,
    {
        Notification { event: self.event.clone(), params: self.params.clone() }
    }
}

impl Clone for Message {
    fn clone(&self) -> (r: Self)
        ensures
            r == *self,
    {
        match self {
            Message::Request(m) => Message::Request(m.clone()),
            Message::Response(m) => Message::Response(m.clone()),
            Message::Notification(m) => Message::Notification(m.clone()),
        }
    }
}

} // verus!
