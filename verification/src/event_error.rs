//! The errors of event processing, and their messages.
use vstd::prelude::*;

use crate::prefixed;

verus! {

/// An error raised while processing an event.
#[derive(Debug)]
pub struct EventProcessorError(pub String);

impl EventProcessorError {
    /// The message of the error.
    pub fn to_string(&self) -> (r: String)
        ensures
            r@ == "Event Processor Error: "@ + self.0@,
    {
        prefixed("Event Processor Error: ", self.0.as_str())
    }
}

/// An error in an event.
#[derive(Debug)]
pub struct EventError(pub String);

impl EventError {
    /// The message of the error.
    pub fn to_string(&self) -> (r: String)
        ensures
            r@ == "Event Error: "@ + self.0@,
    {
        prefixed("Event Error: ", self.0.as_str())
    }
}

/// An error on the connection that events arrive on.
#[derive(Debug)]
pub enum EventIoError {
    ConnectionError(String),
    InvalidMessage(String),
}

impl EventIoError {
    /// The message of the error.
    pub fn to_string(&self) -> (r: String)
        ensures
            r@ == match self {
                EventIoError::ConnectionError(err) => "event connection encountered an error: "@ + err@,
                EventIoError::InvalidMessage(err) => "connection received invalid message: "@ + err@,
            },
    {
        match self {
            EventIoError::ConnectionError(err) => prefixed(
                "event connection encountered an error: ",
                err.as_str(),
            ),
            EventIoError::InvalidMessage(err) => prefixed("connection received invalid message: ", err.as_str()),
        }
    }
}

} // verus!
