//! The events that a session sends to the host.

use vstd::prelude::*;
use vstd::string::StringExecFns;

verus! {

/// What precedes the session identifier in the name of a session's event
/// stream.
pub const EVENT_PREFIX: &'static str = "terminal://";

/// The name of the event stream of the session `session_id`.
pub fn event_name(session_id: &str) -> (name: String)
    ensures
        name@ == EVENT_PREFIX@ + session_id@,
{
    String::from_str(EVENT_PREFIX).concat(session_id)
}

/// One message on a session's event stream.
#[derive(Debug, Clone, PartialEq, Eq)]
pub enum TerminalEvent {
    /// A batch of decoded terminal output.
    Data { data: String },
    /// The child has ended. This is the last event of a session.
    Exit { exit_code: i32, signal: Option<String> },
}

impl TerminalEvent {
    /// The value of the message's `type` field.
    pub fn kind(&self) -> (kind: &'static str)
        ensures
            kind@ == match self {
                TerminalEvent::Data { .. } => "data"@,
                TerminalEvent::Exit { .. } => "exit"@,
            },
    {
        match self {
            TerminalEvent::Data { .. } => "data",
            TerminalEvent::Exit { .. } => "exit",
        }
    }
}

} // verus!
