use caravela::agent::{Agent, AgentState, ControlBlock};
use caravela::deck::Deck;
use caravela::messaging::{ActionType, Content, MessageType};
use caravela::{Description, ErrorCode, MAX_SUBSCRIBERS};
use thread_priority::ThreadPriority;

#[test]
fn agent_names() {
    let agent = Agent::new("sender", "hap");
    assert_eq!(agent.name(), "sender@hap");
    assert_eq!(agent.fmt_local_agent("receiver"), "receiver@hap");
    assert!(agent.contact_list().is_empty());
}

#[test]
fn add_contact_aid_and_duplicates() {
    let mut agent = Agent::new("sender", "hap");
    assert_eq!(agent.add_contact_aid("r", Description::new("receiver", "hap")), Ok(()));
    assert_eq!(
        agent.add_contact_aid("r", Description::new("other", "hap")),
        Err(ErrorCode::Duplicated)
    );
    let contacts = agent.contact_list();
    assert_eq!(contacts.len(), 1);
    assert_eq!(contacts[0].name(), "receiver@hap");
}

#[test]
fn contact_list_is_bounded() {
    let mut agent = Agent::new("sender", "hap");
    for i in 0..MAX_SUBSCRIBERS {
        let nickname = format!("agent{}", i);
        assert_eq!(agent.add_contact_aid(&nickname, Description::new("x", "hap")), Ok(()));
    }
    assert_eq!(
        agent.add_contact_aid("one-more", Description::new("x", "hap")),
        Err(ErrorCode::ListFull)
    );
    assert_eq!(
        agent.add_contact_aid("agent0", Description::new("x", "hap")),
        Err(ErrorCode::ListFull)
    );
    assert_eq!(agent.contact_list().len(), MAX_SUBSCRIBERS);
}

#[test]
fn add_contact_through_the_deck() {
    let mut deck = Deck::new();
    let mut receiver = Description::new("receiver", "hap");
    receiver.set_id(3);
    deck.add_agent(receiver, ThreadPriority::Min, ControlBlock::new()).unwrap();
    let mut agent = Agent::new("sender", "hap");
    assert_eq!(agent.add_contact(&deck, "receiver"), Ok(()));
    assert_eq!(agent.add_contact(&deck, "absent"), Err(ErrorCode::NotFound));
    assert_eq!(agent.contact_list()[0].id(), Some(3));
}

#[test]
fn recipient_prefers_contacts() {
    let mut deck = Deck::new();
    deck.add_agent(Description::new("receiver", "hap"), ThreadPriority::Min, ControlBlock::new())
        .unwrap();
    let mut agent = Agent::new("sender", "hap");
    agent.add_contact_aid("receiver", Description::new("remote", "far")).unwrap();
    assert_eq!(agent.recipient(&deck, "receiver").unwrap().name(), "remote@far");
    let plain = Agent::new("sender", "hap");
    assert_eq!(plain.recipient(&deck, "receiver").unwrap().name(), "receiver@hap");
    assert_eq!(plain.recipient(&deck, "nobody"), Err(ErrorCode::NotFound));
}

#[test]
fn control_block_transitions() {
    let mut block = ControlBlock::new();
    assert_eq!(block.agent_state(), AgentState::Initiated);
    assert_eq!(
        block.quit(),
        Err(ErrorCode::InvalidStateChange(AgentState::Initiated, AgentState::Terminated))
    );
    assert_eq!(block.active(), Ok(()));
    assert_eq!(
        block.active(),
        Err(ErrorCode::InvalidStateChange(AgentState::Active, AgentState::Active))
    );
    assert_eq!(block.suspend(), Ok(()));
    assert_eq!(block.agent_state(), AgentState::Suspended);
    assert_eq!(block.active(), Ok(()));
    block.wait();
    assert_eq!(block.agent_state(), AgentState::Waiting);
    assert_eq!(block.active(), Ok(()));
    assert_eq!(block.quit(), Ok(()));
    assert_eq!(block.agent_state(), AgentState::Terminated);
    assert_eq!(
        block.suspend(),
        Err(ErrorCode::InvalidStateChange(AgentState::Terminated, AgentState::Suspended))
    );
}

#[test]
fn agent_state_numbering_and_text() {
    assert_eq!(AgentState::from(0), AgentState::Initiated);
    assert_eq!(AgentState::from(1), AgentState::Active);
    assert_eq!(AgentState::from(2), AgentState::Waiting);
    assert_eq!(AgentState::from(3), AgentState::Suspended);
    assert_eq!(AgentState::from(4), AgentState::Terminated);
    assert_eq!(AgentState::default(), AgentState::Initiated);
    assert_eq!(AgentState::Suspended.to_string(), "Suspended");
    assert_eq!(AgentState::Initiated.to_string(), "Initiated");
}

#[test]
fn description_identity() {
    let mut a = Description::new("a", "hap");
    let b = Description::new("a", "hap");
    a.set_id(5);
    assert_eq!(a, b);
    assert!(a.same_agent(&b));
    assert_ne!(a, Description::new("a", "other"));
    assert_eq!(a.nickname(), "a");
    assert_eq!(a.hap(), "hap");
    assert_eq!(a.id(), Some(5));
    assert_eq!(b.id(), None);
    assert_eq!(a.to_string(), "a@hap");
    assert_eq!(a.clone().id(), Some(5));
}

#[test]
fn takedown_request_goes_to_the_ams() {
    let mut deck = Deck::new();
    deck.add_ams(Description::new("ams", "hap"));
    let agent = Agent::new("a", "hap");
    let msg = agent.takedown_request(&deck, Description::new("a", "hap"));
    assert_eq!(msg.receiver().name(), "ams@hap");
    assert_eq!(msg.sender().name(), "a@hap");
    assert_eq!(*msg.message_type(), MessageType::Request);
    assert_eq!(
        *msg.content(),
        Content::Action(ActionType::Deregister(Description::new("a", "hap")))
    );
}

#[test]
fn terminated_block_ignores_wait() {
    let mut block = ControlBlock::new();
    block.active().unwrap();
    block.quit().unwrap();
    block.wait();
    assert_eq!(block.agent_state(), AgentState::Terminated);
    assert!(block.active().is_err());
}
