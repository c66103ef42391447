//! The agent side of the control-plane connection.

use vstd::prelude::*;

pub mod session;
pub mod tls;
pub mod transport;
pub mod websocket;

verus! {

/// A command envelope.
#[derive(Debug, Default)]
pub struct AgentCommand {
    /// Names the command in its response.
    pub id: String,
    /// The module that is to act.
    pub module: String,
    /// The action of the module.
    pub action: String,
    /// What the action works on.
    pub payload: serde_json::Value,
}

/// The response to a command.
#[derive(Debug, Default)]
pub struct AgentResponse {
    /// What the module answered.
    pub body: serde_json::Value,
}

/// Why a command did not get to the modules.
#[derive(Debug, Clone, Copy, PartialEq, Eq, Structural)]
pub enum QueueError {
    /// Too many commands are waiting.
    Full,
    /// Nothing takes commands any more.
    Closed,
}

} // verus!
