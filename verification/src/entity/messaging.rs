use crate::entity::{AidView, Description};
use crate::ErrorCode;
use vstd::prelude::*;

verus! {

/// Whether a send waits for room in the receiver's channel.
#[derive(Debug, PartialEq, Eq, Structural, Clone, Copy)]
pub enum SyncType {
    /// Wait until the message can be delivered.
    Blocking,
    /// Give up at once when the receiver's channel is full.
    NonBlocking,
}

/// Why a message could not be handed to its receiver's channel.
#[derive(Debug, PartialEq, Eq, Structural, Clone, Copy)]
pub enum SendFailure {
    /// The receiving half of the channel is gone.
    Disconnected,
    /// The channel is full (only a non-blocking send reports it).
    Full,
}

/// What a send on a receiver's channel came to.
#[derive(Debug, PartialEq, Eq, Clone, Copy)]
pub enum SendResult {
    /// Outcome of a blocking send.
    Blocking(Result<(), SendFailure>),
    /// Outcome of a non-blocking send.
    NonBlocking(Result<(), SendFailure>),
}

impl SendResult {
    /// The platform's answer to a send: a blocking send can only fail by disconnection;
    ///  a non-blocking one reports a full channel as [`ErrorCode::ChannelFull`].
    pub fn into_result(self) -> (res: Result<(), ErrorCode>)
        ensures
            self matches SendResult::Blocking(Ok(())) ==> res == Ok::<(), ErrorCode>(()),
            self matches SendResult::NonBlocking(Ok(())) ==> res == Ok::<(), ErrorCode>(()),
            self matches SendResult::Blocking(Err(_)) ==> res == Err::<(), ErrorCode>(ErrorCode::Disconnected),
            self matches SendResult::NonBlocking(Err(SendFailure::Disconnected)) ==> res == Err::<(), ErrorCode>(
                ErrorCode::Disconnected,
            ),
            self matches SendResult::NonBlocking(Err(SendFailure::Full)) ==> res == Err::<(), ErrorCode>(
                ErrorCode::ChannelFull,
            ),
    {
        match self {
            SendResult::Blocking(Ok(())) => Ok(()),
            SendResult::NonBlocking(Ok(())) => Ok(()),
            SendResult::Blocking(Err(_)) => Err(ErrorCode::Disconnected),
            SendResult::NonBlocking(Err(SendFailure::Disconnected)) => Err(ErrorCode::Disconnected),
            SendResult::NonBlocking(Err(SendFailure::Full)) => Err(ErrorCode::ChannelFull),
        }
    }
}

/// All communicative acts allowed between agents.
///
/// These are defined by the FIPA00037 standard and are meant to be used with a formal logic language model included in the standard.
#[derive(Clone, Copy, PartialEq, Eq, Structural, Debug, Default)]
pub enum MessageType {
    /// Accept a previously presented proposal to perform some action.
    AcceptProposal,
    /// Agree to perform some action.
    Agree,
    /// Inform than the sender no longer wants the receiver to perform some action.
    Cancel,
    /// Asking for proposal for some action.
    CallForProposal,
    /// Inform the receiver that a proposition that it knowns but its uncertain about is true.
    Confirm,
    /// Inform the receiver that a proposition that it knowns but its uncertain about is false.
    Disconfirm,
    /// Inform the receiver that some action was tried and failed.
    Failure,
    /// Inform the receiver than a proposition is true.
    Inform,
    /// Macro action inform based on what the sender believes.
    InformIf,
    /// Macro action inform to send a descriptor.
    InformRef,
    /// Inform that the content of a message was not understood.
    NotUnderstood,
    /// Request the receiver to resend the message to another agent.
    Propagate,
    /// Present a proposal to the receiver.
    Propose,
    /// Ask the receiver if a proposition is true.
    QueryIf,
    /// Ask the receiver for a descriptor of a reference.
    QueryRef,
    /// Refuse to perform an action.
    Refuse,
    /// Request the receiver to perform some action.
    Request,
    /// Request the receiver to perform some action when a proposition becomes true.
    RequestWhen,
    /// Request the receiver to perform some action when a proposition becomes true and each time after it becomes true again.
    RequestWhenever,
    /// Ask a receiver for a descriptor of a refence and each time the reference changes.
    Subscribe,
    /// No message type set. Default value.
    #[default]
    Unset,
}

/// The displayed name of a communicative act.
pub open spec fn message_type_text(message_type: MessageType) -> Seq<char> {
    match message_type {
        MessageType::AcceptProposal => "Accept Proposal Message"@,
        MessageType::Agree => "Agree Message"@,
        MessageType::Cancel => "Cancel Message"@,
        MessageType::CallForProposal => "CFP Message"@,
        MessageType::Confirm => "Confirm Message"@,
        MessageType::Disconfirm => "Disconfirm Message"@,
        MessageType::Failure => "Failure Message"@,
        MessageType::Inform => "Inform Message"@,
        MessageType::InformIf => "InformIf Message"@,
        MessageType::InformRef => "InformRef Message"@,
        MessageType::NotUnderstood => "NotUnderstood Message"@,
        MessageType::Propagate => "Propagate Message"@,
        MessageType::Propose => "Propose Message"@,
        MessageType::QueryIf => "QueryIf Message"@,
        MessageType::QueryRef => "QueryRef Message"@,
        MessageType::Refuse => "Refuse Message"@,
        MessageType::Request => "Request Message"@,
        MessageType::RequestWhen => "RequestWhen Message"@,
        MessageType::RequestWhenever => "RequestWhenever Message"@,
        MessageType::Subscribe => "Subscribe Message"@,
        MessageType::Unset => "None"@,
    }
}

impl MessageType {
    /// The name of the communicative act, as it is displayed.
    pub fn to_string(&self) -> (text: String)
        ensures
            text@ == message_type_text(*self),
    {
        match self {
            MessageType::AcceptProposal => String::from_str("Accept Proposal Message"),
            MessageType::Agree => String::from_str("Agree Message"),
            MessageType::Cancel => String::from_str("Cancel Message"),
            MessageType::CallForProposal => String::from_str("CFP Message"),
            MessageType::Confirm => String::from_str("Confirm Message"),
            MessageType::Disconfirm => String::from_str("Disconfirm Message"),
            MessageType::Failure => String::from_str("Failure Message"),
            MessageType::Inform => String::from_str("Inform Message"),
            MessageType::InformIf => String::from_str("InformIf Message"),
            MessageType::InformRef => String::from_str("InformRef Message"),
            MessageType::NotUnderstood => String::from_str("NotUnderstood Message"),
            MessageType::Propagate => String::from_str("Propagate Message"),
            MessageType::Propose => String::from_str("Propose Message"),
            MessageType::QueryIf => String::from_str("QueryIf Message"),
            MessageType::QueryRef => String::from_str("QueryRef Message"),
            MessageType::Refuse => String::from_str("Refuse Message"),
            MessageType::Request => String::from_str("Request Message"),
            MessageType::RequestWhen => String::from_str("RequestWhen Message"),
            MessageType::RequestWhenever => String::from_str("RequestWhenever Message"),
            MessageType::Subscribe => String::from_str("Subscribe Message"),
            MessageType::Unset => String::from_str("None"),
        }
    }
}

/// The mathematical value of a request.
pub enum ActionView {
    /// Search for an agent.
    Search(AidView),
    /// Modify an agent with the given modifier.
    Modify(AidView, Seq<char>),
    /// Register an agent.
    Register(AidView),
    /// Deregister an agent.
    Deregister(AidView),
    /// A non-specific action.
    Other(Seq<char>),
}

///Request types supported by different services.
#[derive(Debug, PartialEq, Eq)]
pub enum ActionType {
    /// Request the target to search for an agent.
    Search(Description),
    /// Request the target to modify an agent.
    Modify(Description, String),
    /// Request the target to register an agent.
    Register(Description),
    /// Request the target to deregister an agent.
    Deregister(Description),
    /// Other non-specific action defined by the user.
    Other(String),
}

impl View for ActionType {
    type V = ActionView;

    open spec fn view(&self) -> ActionView {
        match self {
            ActionType::Search(aid) => ActionView::Search(aid@),
            ActionType::Modify(aid, modifier) => ActionView::Modify(aid@, modifier@),
            ActionType::Register(aid) => ActionView::Register(aid@),
            ActionType::Deregister(aid) => ActionView::Deregister(aid@),
            ActionType::Other(text) => ActionView::Other(text@),
        }
    }
}

impl Clone for ActionType {
    fn clone(&self) -> (res: Self)
        ensures
            res@ == self@,
    {
        match self {
            ActionType::Search(aid) => ActionType::Search(aid.clone()),
            ActionType::Modify(aid, modifier) => ActionType::Modify(aid.clone(), modifier.clone()),
            ActionType::Register(aid) => ActionType::Register(aid.clone()),
            ActionType::Deregister(aid) => ActionType::Deregister(aid.clone()),
            ActionType::Other(text) => ActionType::Other(text.clone()),
        }
    }
}

/// The displayed text of a request.
pub open spec fn action_text(action: ActionView) -> Seq<char> {
    match action {
        ActionView::Search(aid) => "Search Request ["@ + aid.name() + "]"@,
        ActionView::Modify(aid, _) => "Modify Request["@ + aid.name() + "]"@,
        ActionView::Register(aid) => "Registration Request ["@ + aid.name() + "]"@,
        ActionView::Deregister(aid) => "Deregistration Request ["@ + aid.name() + "]"@,
        ActionView::Other(text) => text,
    }
}

fn bracketed(prefix: &str, aid: &Description) -> (text: String)
    ensures
        text@ == prefix@ + aid@.name() + "]"@,
{
    let mut text = prefix.to_owned();
    text.append(aid.name().as_str());
    text.append("]");
    text
}

impl ActionType {
    /// The request as it is displayed.
    pub fn to_string(&self) -> (text: String)
        ensures
            text@ == action_text(self@),
    {
        match self {
            ActionType::Search(aid) => bracketed("Search Request [", aid),
            ActionType::Modify(aid, _) => bracketed("Modify Request[", aid),
            ActionType::Register(aid) => bracketed("Registration Request [", aid),
            ActionType::Deregister(aid) => bracketed("Deregistration Request [", aid),
            ActionType::Other(text) => text.clone(),
        }
    }
}

/// The mathematical value of a message's content.
pub enum ContentView {
    /// A proposition with no specific format.
    Expression(Seq<char>),
    /// A request.
    Action(ActionView),
}

/// Different types of content allowed for messaging.
#[derive(Debug, PartialEq, Eq)]
pub enum Content {
    /// Propositions with no specific format.
    Expression(String),
    /// A request to be done.
    Action(ActionType),
}

impl View for Content {
    type V = ContentView;

    open spec fn view(&self) -> ContentView {
        match self {
            Content::Expression(text) => ContentView::Expression(text@),
            Content::Action(action) => ContentView::Action(action@),
        }
    }
}

impl Clone for Content {
    fn clone(&self) -> (res: Self)
        ensures
            res@ == self@,
    {
        match self {
            Content::Expression(text) => Content::Expression(text.clone()),
            Content::Action(action) => Content::Action(action.clone()),
        }
    }
}

/// The mathematical value of a message.
pub struct MessageView {
    /// Who sends the message.
    pub sender: AidView,
    /// Who the message is for.
    pub receiver: AidView,
    /// The communicative act.
    pub message_type: MessageType,
    /// The payload.
    pub content: ContentView,
}

/// Message object with a payload ([`MessageType`] and [`Content`]) and sender/receiver infromation.
#[derive(Debug, PartialEq, Eq)]
pub struct Message {
    sender: Description,
    receiver: Description,
    message_type: MessageType,
    content: Content,
}

impl View for Message {
    type V = MessageView;

    closed spec fn view(&self) -> MessageView {
        MessageView {
            sender: self.sender@,
            receiver: self.receiver@,
            message_type: self.message_type,
            content: self.content@,
        }
    }
}

impl Clone for Message {
    fn clone(&self) -> (res: Self)
        ensures
            res@ == self@,
    {
        Message {
            sender: self.sender.clone(),
            receiver: self.receiver.clone(),
            message_type: self.message_type,
            content: self.content.clone(),
        }
    }
}

impl Message {
    /// A message from `sender` to `receiver`.
    pub fn new(sender: Description, receiver: Description, message_type: MessageType, content: Content) -> (msg: Self)
        ensures
            msg@ == (MessageView {
                sender: sender@,
                receiver: receiver@,
                message_type,
                content: content@,
            }),
    {
        Message { sender, receiver, message_type, content }
    }

    /// Retrieve a message's communicative act type.
    pub fn message_type(&self) -> (message_type: &MessageType)
        ensures
            *message_type == self@.message_type,
    {
        &self.message_type
    }

    /// Retrieve a message's contents.
    pub fn content(&self) -> (content: &Content)
        ensures
            content@ == self@.content,
    {
        &self.content
    }

    /// Get a reference to the sender's [`Description`]
    pub fn sender(&self) -> (sender: &Description)
        ensures
            sender@ == self@.sender,
    {
        &self.sender
    }

    /// Get a reference to the receiver's [`Description`]
    pub fn receiver(&self) -> (receiver: &Description)
        ensures
            receiver@ == self@.receiver,
    {
        &self.receiver
    }
}

} // verus!
