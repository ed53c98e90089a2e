use caravela::agent::AgentState;
use caravela::ErrorCode;

#[test]
fn default_error() {
    assert_eq!(ErrorCode::default(), ErrorCode::InvalidRequest);
}

#[test]
fn error_texts() {
    assert_eq!(ErrorCode::AmsBoot.to_string(), "Could not spawn AMS agent");
    assert_eq!(ErrorCode::AgentPanic.to_string(), " Could not spawn agent");
    assert_eq!(
        ErrorCode::InvalidPriority("too high").to_string(),
        "Could not create agent with this priority:too high"
    );
    assert_eq!(
        ErrorCode::MpscRecv(std::sync::mpsc::RecvError).to_string(),
        "SyncSender was disconnected from this Receiver"
    );
    assert_eq!(ErrorCode::ListFull.to_string(), "Max number of agents reached");
    assert_eq!(
        ErrorCode::InvalidStateChange(AgentState::Active, AgentState::Initiated).to_string(),
        "Transtion from Active to Initiated is not possible"
    );
    assert_eq!(
        ErrorCode::PlatformPresent.to_string(),
        "There is another platform running already"
    );
    let start = ErrorCode::AgentStart(thread_priority::Error::OS(1)).to_string();
    assert_eq!(start, " Could not start agent: OS(1)");
}
