//! A platform for building programs out of cooperating agents, following the
//! agent-management model of the Foundation for Intelligent Physical Agents (FIPA).
//!
//! This crate holds the platform's bookkeeping and decision logic: agent
//! identifiers, the life cycle of every agent, the platform directory (deck),
//! contact lists, messages and the Agent Management System (AMS) protocol.
//! Threads, channels and thread priorities are driven by the runtime that
//! embeds it.
use vstd::prelude::*;

pub mod deck;
pub mod entity;
pub mod platform;

pub use entity::agent::behavior;
pub use entity::{agent, messaging, service, Description};
pub use platform::Platform;

use entity::agent::{state_text, AgentState};

verus! {

/// Stack size of a thread, in bytes.
pub type StackSize = usize;

/// Default stack value for any given platform.
pub const DEFAULT_STACK: usize = 30000;

/// Maximum priority across all entities.
///  This value is reserved for platform service entities such as the AMS and cannot be used for user defined agents.
pub const MAX_PRIORITY: u8 = 99;

/// Largest number of entries in an agent's contact list.
pub const MAX_SUBSCRIBERS: usize = 64;

/// The error type of the `thread_priority` crate, carried opaquely inside [`ErrorCode::AgentStart`].
#[verifier::external_type_specification]
#[verifier::external_body]
pub struct ExPriorityError(thread_priority::Error);

/// The error returned by `Receiver::recv` when every sender is gone, carried inside [`ErrorCode::MpscRecv`].
#[verifier::external_type_specification]
#[verifier::external_body]
pub struct ExRecvError(std::sync::mpsc::RecvError);

/// Different error codes associated with possible platform failures provided to support error handling functionality.
#[derive(PartialEq, Debug, Default)]
pub enum ErrorCode {
    /// Could not spawn the AMS agent.
    AmsBoot,
    /// Could not spawn agent.
    AgentPanic,
    /// Could not start the agent due to a priority error.
    AgentStart(thread_priority::Error),
    /// Could not create agent with the given priority.
    InvalidPriority(&'static str),
    /// The sending half of the channel may have disconnected.
    MpscRecv(std::sync::mpsc::RecvError),
    /// The receiving half of the channel may have disconnected.
    Disconnected,
    /// The receiving channel is currently full.
    ChannelFull,
    /// The directory has reached the maximum number of agents.
    ListFull,
    /// The agent is already present.
    Duplicated,
    /// The agent could not be found.
    NotFound,
    /// Invalid content in message.
    InvalidContent,
    /// Unexpected message for a given protocol.
    InvalidMessageType,
    /// The agent cannot have a reserved name.
    InvalidName,
    /// Unexpected request.
    #[default]
    InvalidRequest,
    /// State change not possible.
    InvalidStateChange(AgentState, AgentState),
    /// Target is not registered.
    NotRegistered,
    /// There is a platform already running.
    PlatformPresent,
}

/// The displayed text of an error; for [`ErrorCode::AgentStart`] only its beginning, which
///  the `thread_priority` error's debug text follows.
pub open spec fn error_text(error: ErrorCode) -> Seq<char> {
    match error {
        ErrorCode::AmsBoot => "Could not spawn AMS agent"@,
        ErrorCode::AgentPanic => " Could not spawn agent"@,
        ErrorCode::AgentStart(_) => " Could not start agent: "@,
        ErrorCode::InvalidPriority(reason) => "Could not create agent with this priority:"@ + reason@,
        ErrorCode::MpscRecv(_) => "SyncSender was disconnected from this Receiver"@,
        ErrorCode::Disconnected => "Receiver was disconnected from this SyncSender"@,
        ErrorCode::ChannelFull => "Target agent channel was full"@,
        ErrorCode::ListFull => "Max number of agents reached"@,
        ErrorCode::Duplicated => "Agent is already present"@,
        ErrorCode::NotFound => "Agent could not be found"@,
        ErrorCode::InvalidContent => "Invalid content in message"@,
        ErrorCode::InvalidMessageType => "Unexpected message received"@,
        ErrorCode::InvalidName => "The agent cannot have a reserved name"@,
        ErrorCode::InvalidRequest => "Unexpected request received"@,
        ErrorCode::InvalidStateChange(current, next) => "Transtion from "@ + state_text(current) + " to "@
            + state_text(next) + " is not possible"@,
        ErrorCode::NotRegistered => "Target agent is not registered"@,
        ErrorCode::PlatformPresent => "There is another platform running already"@,
    }
}

/// Formats a `thread_priority` error with its `Debug` implementation (`format!("{:?}")`).
///  Nothing is claimed of the text.
#[verifier::external_body]
fn debug_text(error: &thread_priority::Error) -> (text: String) {
    format!("{:?}", error)
}

impl ErrorCode {
    /// The error as it is displayed.
    pub fn to_string(&self) -> (text: String)
        ensures
            !(*self is AgentStart) ==> text@ == error_text(*self),
            *self is AgentStart ==> exists|detail: Seq<char>| text@ == error_text(*self) + detail,
    {
        match self {
            ErrorCode::AmsBoot => String::from_str("Could not spawn AMS agent"),
            ErrorCode::AgentPanic => String::from_str(" Could not spawn agent"),
            ErrorCode::AgentStart(error) => {
                let mut text = String::from_str(" Could not start agent: ");
                let detail = debug_text(error);
                text.append(detail.as_str());
                assert(text@ == error_text(*self) + detail@);
                text
            },
            ErrorCode::InvalidPriority(reason) => {
                let mut text = String::from_str("Could not create agent with this priority:");
                text.append(reason);
                text
            },
            ErrorCode::MpscRecv(_) => String::from_str("SyncSender was disconnected from this Receiver"),
            ErrorCode::Disconnected => String::from_str("Receiver was disconnected from this SyncSender"),
            ErrorCode::ChannelFull => String::from_str("Target agent channel was full"),
            ErrorCode::ListFull => String::from_str("Max number of agents reached"),
            ErrorCode::Duplicated => String::from_str("Agent is already present"),
            ErrorCode::NotFound => String::from_str("Agent could not be found"),
            ErrorCode::InvalidContent => String::from_str("Invalid content in message"),
            ErrorCode::InvalidMessageType => String::from_str("Unexpected message received"),
            ErrorCode::InvalidName => String::from_str("The agent cannot have a reserved name"),
            ErrorCode::InvalidRequest => String::from_str("Unexpected request received"),
            ErrorCode::InvalidStateChange(current, next) => {
                let mut text = String::from_str("Transtion from ");
                text.append(current.to_string().as_str());
                text.append(" to ");
                text.append(next.to_string().as_str());
                text.append(" is not possible");
                text
            },
            ErrorCode::NotRegistered => String::from_str("Target agent is not registered"),
            ErrorCode::PlatformPresent => String::from_str("There is another platform running already"),
        }
    }
}

} // verus!
