use caravela::messaging::{
    ActionType, Content, Message, MessageType, SendFailure, SendResult, SyncType,
};
use caravela::{Description, ErrorCode};

#[test]
fn message_accessors() {
    let msg = Message::new(
        Description::new("a", "hap"),
        Description::new("b", "hap"),
        MessageType::Inform,
        Content::Expression("hello".to_string()),
    );
    assert_eq!(*msg.message_type(), MessageType::Inform);
    assert_eq!(msg.sender().name(), "a@hap");
    assert_eq!(msg.receiver().name(), "b@hap");
    assert_eq!(*msg.content(), Content::Expression("hello".to_string()));
    assert_eq!(msg.clone(), msg);
}

#[test]
fn message_type_texts() {
    assert_eq!(MessageType::AcceptProposal.to_string(), "Accept Proposal Message");
    assert_eq!(MessageType::CallForProposal.to_string(), "CFP Message");
    assert_eq!(MessageType::Request.to_string(), "Request Message");
    assert_eq!(MessageType::Subscribe.to_string(), "Subscribe Message");
    assert_eq!(MessageType::Unset.to_string(), "None");
    assert_eq!(MessageType::default(), MessageType::Unset);
}

#[test]
fn action_texts() {
    let aid = Description::new("a", "hap");
    assert_eq!(ActionType::Search(aid.clone()).to_string(), "Search Request [a@hap]");
    assert_eq!(
        ActionType::Modify(aid.clone(), "suspend".to_string()).to_string(),
        "Modify Request[a@hap]"
    );
    assert_eq!(ActionType::Register(aid.clone()).to_string(), "Registration Request [a@hap]");
    assert_eq!(ActionType::Deregister(aid).to_string(), "Deregistration Request [a@hap]");
    assert_eq!(ActionType::Other("custom".to_string()).to_string(), "custom");
}

#[test]
fn send_results() {
    assert_eq!(SendResult::Blocking(Ok(())).into_result(), Ok(()));
    assert_eq!(SendResult::NonBlocking(Ok(())).into_result(), Ok(()));
    assert_eq!(
        SendResult::Blocking(Err(SendFailure::Disconnected)).into_result(),
        Err(ErrorCode::Disconnected)
    );
    assert_eq!(
        SendResult::NonBlocking(Err(SendFailure::Disconnected)).into_result(),
        Err(ErrorCode::Disconnected)
    );
    assert_eq!(
        SendResult::NonBlocking(Err(SendFailure::Full)).into_result(),
        Err(ErrorCode::ChannelFull)
    );
    assert_ne!(SyncType::Blocking, SyncType::NonBlocking);
}
