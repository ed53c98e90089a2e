use caravela::agent::{AgentState, ControlBlock};
use caravela::deck::Deck;
use caravela::messaging::{ActionType, Content, Message, MessageType};
use caravela::service::ams::{required_conditions, Ams, AmsEffect, Condition, RequestPlan};
use caravela::service::{AmsConditions, DefaultConditions, ServiceConditions};
use caravela::{Description, ErrorCode};
use thread_priority::ThreadPriority;

struct NoSuspension;
impl ServiceConditions for NoSuspension {}
impl AmsConditions for NoSuspension {
    fn suspension_condition(&self) -> bool {
        false
    }
}

fn aid(nickname: &str) -> Description {
    Description::new(nickname, "hap")
}

fn booted_deck() -> Deck {
    let mut deck = Deck::new();
    deck.add_ams(aid("ams"));
    deck.add_agent(aid("a"), ThreadPriority::Min, ControlBlock::new()).unwrap();
    deck
}

fn request(action: ActionType) -> Message {
    Message::new(aid("a"), aid("ams"), MessageType::Request, Content::Action(action))
}

#[test]
fn ams_name() {
    let ams = Ams::new("hap", DefaultConditions);
    assert_eq!(ams.name(), "ams@hap");
}

#[test]
fn requests_are_accepted_under_default_conditions() {
    let ams = Ams::new("hap", DefaultConditions);
    let plan = ams.process_request(&request(ActionType::Search(aid("a"))));
    assert!(matches!(plan, RequestPlan::Accept(ActionType::Search(_))));
    let plan = ams.process_request(&request(ActionType::Modify(aid("a"), "RESUME".to_string())));
    assert!(matches!(plan, RequestPlan::Accept(ActionType::Modify(_, _))));
}

#[test]
fn unknown_modifier_is_declined() {
    let ams = Ams::new("hap", DefaultConditions);
    let plan = ams.process_request(&request(ActionType::Modify(aid("a"), "restart".to_string())));
    assert!(matches!(plan, RequestPlan::Decline));
}

#[test]
fn conditions_can_decline() {
    let ams = Ams::new("hap", NoSuspension);
    let plan = ams.process_request(&request(ActionType::Modify(aid("a"), "suspend".to_string())));
    assert!(matches!(plan, RequestPlan::Decline));
    assert!(ams.check_modification_conditions("resume"));
    assert!(!ams.check_modification_conditions("suspend"));
    assert!(!ams.check_modification_conditions("Resume"));
}

#[test]
fn other_messages_are_ignored() {
    let ams = Ams::new("hap", DefaultConditions);
    let inform = Message::new(
        aid("a"),
        aid("ams"),
        MessageType::Inform,
        Content::Action(ActionType::Search(aid("a"))),
    );
    assert!(matches!(ams.process_request(&inform), RequestPlan::Ignore));
    let text = Message::new(
        aid("a"),
        aid("ams"),
        MessageType::Request,
        Content::Expression("hi".to_string()),
    );
    assert!(matches!(ams.process_request(&text), RequestPlan::Ignore));
}

#[test]
fn search_and_register() {
    let ams = Ams::new("hap", DefaultConditions);
    let mut deck = booted_deck();
    assert!(matches!(
        ams.do_request(&mut deck, &ActionType::Search(aid("a"))),
        Ok(AmsEffect::Nothing)
    ));
    assert!(matches!(
        ams.do_request(&mut deck, &ActionType::Search(aid("b"))),
        Err(ErrorCode::NotRegistered)
    ));
    assert!(matches!(
        ams.do_request(&mut deck, &ActionType::Register(aid("a"))),
        Ok(AmsEffect::Nothing)
    ));
    assert!(matches!(
        ams.do_request(&mut deck, &ActionType::Other("x".to_string())),
        Err(ErrorCode::InvalidRequest)
    ));
}

#[test]
fn modification_requests() {
    let ams = Ams::new("hap", DefaultConditions);
    let mut deck = booted_deck();
    let a = aid("a");
    assert!(matches!(
        ams.do_request(&mut deck, &ActionType::Modify(a.clone(), "suspend".to_string())),
        Err(ErrorCode::InvalidStateChange(AgentState::Initiated, AgentState::Suspended))
    ));
    assert!(matches!(
        ams.do_request(&mut deck, &ActionType::Modify(a.clone(), "resume".to_string())),
        Ok(AmsEffect::Unpark(_))
    ));
    assert!(matches!(
        ams.do_request(&mut deck, &ActionType::Modify(a.clone(), "Suspend".to_string())),
        Err(ErrorCode::InvalidContent)
    ));
    assert!(matches!(
        ams.do_request(&mut deck, &ActionType::Modify(a.clone(), "suspend".to_string())),
        Ok(AmsEffect::Nothing)
    ));
    assert!(matches!(
        ams.do_request(&mut deck, &ActionType::Modify(a.clone(), "resume".to_string())),
        Ok(AmsEffect::Unpark(_))
    ));
    match ams.do_request(&mut deck, &ActionType::Modify(a.clone(), "terminate".to_string())) {
        Ok(AmsEffect::Join(joined, block)) => {
            assert_eq!(joined.name(), "a@hap");
            assert_eq!(block.agent_state(), AgentState::Terminated);
        }
        _ => panic!("terminate should join the agent"),
    }
    assert_eq!(deck.search_agent(&a), Err(ErrorCode::NotRegistered));
}

#[test]
fn deregistration() {
    let ams = Ams::new("hap", DefaultConditions);
    let mut deck = booted_deck();
    match ams.do_request(&mut deck, &ActionType::Deregister(aid("a"))) {
        Ok(AmsEffect::Join(joined, block)) => {
            assert_eq!(joined.name(), "a@hap");
            assert_eq!(block.agent_state(), AgentState::Initiated);
        }
        _ => panic!("deregister should join the agent"),
    }
    assert!(matches!(
        ams.do_request(&mut deck, &ActionType::Deregister(aid("a"))),
        Err(ErrorCode::NotRegistered)
    ));
}

#[test]
fn replies() {
    let ams = Ams::new("hap", DefaultConditions);
    let deck = booted_deck();
    let accepted = RequestPlan::Accept(ActionType::Search(aid("a")));
    assert_eq!(accepted.first_reply(), Some(MessageType::Agree));
    assert_eq!(accepted.action(), Some(&ActionType::Search(aid("a"))));
    assert_eq!(accepted.final_reply(&Ok(())), Some(MessageType::Inform));
    assert_eq!(accepted.final_reply(&Err(ErrorCode::NotRegistered)), Some(MessageType::Refuse));
    assert_eq!(RequestPlan::Decline.first_reply(), Some(MessageType::NotUnderstood));
    assert_eq!(RequestPlan::Decline.action(), None);
    assert_eq!(RequestPlan::Decline.final_reply(&Ok(())), None);
    assert_eq!(RequestPlan::Ignore.first_reply(), None);
    assert_eq!(RequestPlan::Ignore.final_reply(&Err(ErrorCode::NotRegistered)), None);
    let reply = ams.request_reply(
        &deck,
        aid("a"),
        MessageType::Agree,
        Content::Expression("ok".to_string()),
    );
    assert_eq!(reply.sender().name(), "ams@hap");
    assert_eq!(reply.receiver().name(), "a@hap");
    assert_eq!(*reply.message_type(), MessageType::Agree);
}

#[test]
fn conditions_governing_requests() {
    assert_eq!(required_conditions(&ActionType::Search(aid("a"))), vec![Condition::Search]);
    assert_eq!(
        required_conditions(&ActionType::Modify(aid("a"), "Terminate".to_string())),
        vec![Condition::Modification, Condition::Termination]
    );
    assert_eq!(
        required_conditions(&ActionType::Modify(aid("a"), "pause".to_string())),
        vec![Condition::Modification, Condition::Unsatisfiable]
    );
    assert_eq!(
        required_conditions(&ActionType::Deregister(aid("a"))),
        vec![Condition::Deregistration]
    );
    assert_eq!(
        required_conditions(&ActionType::Register(aid("a"))),
        vec![Condition::Registration]
    );
    let strict = Ams::new("hap", NoSuspension);
    assert!(!strict.holds(Condition::Suspension));
    assert!(strict.holds(Condition::Resumption));
    assert!(!strict.holds(Condition::Unsatisfiable));
    assert!(!strict.check_conditions(&ActionType::Modify(aid("a"), "SUSPEND".to_string())));
    assert!(strict.check_conditions(&ActionType::Modify(aid("a"), "Resume".to_string())));
}

#[test]
fn first_replies() {
    assert_eq!(RequestPlan::Ignore.first_reply(), None);
    assert_eq!(RequestPlan::Decline.first_reply(), Some(MessageType::NotUnderstood));
    assert_eq!(
        RequestPlan::Accept(ActionType::Search(aid("a"))).first_reply(),
        Some(MessageType::Agree)
    );
}
