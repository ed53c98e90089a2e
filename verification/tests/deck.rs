use caravela::agent::{AgentState, ControlBlock};
use caravela::deck::Deck;
use caravela::{Description, ErrorCode};
use thread_priority::ThreadPriority;

fn aid(nickname: &str) -> Description {
    Description::new(nickname, "hap")
}

fn deck_with(nicknames: &[&str]) -> Deck {
    let mut deck = Deck::new();
    for nickname in nicknames {
        deck.add_agent(aid(nickname), ThreadPriority::Min, ControlBlock::new()).unwrap();
    }
    deck
}

#[test]
fn new_deck_is_empty_and_not_booted() {
    let deck = Deck::new();
    assert!(!deck.is_booted());
    assert_eq!(deck.search_agent(&aid("a")), Err(ErrorCode::NotRegistered));
}

#[test]
fn add_ams_boots_the_deck() {
    let mut deck = Deck::new();
    deck.add_ams(Description::new("ams", "hap"));
    assert!(deck.is_booted());
    assert_eq!(deck.ams_aid().name(), "ams@hap");
}

#[test]
fn added_agent_is_found() {
    let deck = deck_with(&["a"]);
    assert_eq!(deck.search_agent(&aid("a")), Ok(()));
    let entry = deck.get_agent(&aid("a")).unwrap();
    assert_eq!(entry.aid().name(), "a@hap");
    assert_eq!(entry.control_block().agent_state(), AgentState::Initiated);
    assert_eq!(entry.priority(), ThreadPriority::Min);
}

#[test]
fn agent_on_another_platform_is_not_found() {
    let deck = deck_with(&["a"]);
    assert_eq!(deck.search_agent(&Description::new("a", "other")), Err(ErrorCode::NotRegistered));
    assert!(matches!(deck.get_agent(&Description::new("a", "other")), Err(ErrorCode::NotRegistered)));
}

#[test]
fn adding_an_agent_twice_is_refused() {
    let mut deck = deck_with(&["a"]);
    let mut again = aid("a");
    again.set_id(7);
    assert_eq!(
        deck.add_agent(again, ThreadPriority::Min, ControlBlock::new()),
        Err(ErrorCode::Duplicated)
    );
}

#[test]
fn removed_agent_is_no_longer_found() {
    let mut deck = deck_with(&["a", "b"]);
    let entry = deck.remove_agent(&aid("a")).unwrap();
    assert_eq!(entry.aid().nickname(), "a");
    assert_eq!(deck.search_agent(&aid("a")), Err(ErrorCode::NotRegistered));
    assert_eq!(deck.search_agent(&aid("b")), Ok(()));
    assert!(matches!(deck.remove_agent(&aid("a")), Err(ErrorCode::NotRegistered)));
}

#[test]
fn start_suspend_resume_terminate() {
    let mut deck = deck_with(&["a"]);
    let a = aid("a");
    assert_eq!(deck.modify_agent(&a, AgentState::Active), Ok(()));
    assert_eq!(deck.modify_agent(&a, AgentState::Suspended), Ok(()));
    assert_eq!(
        deck.get_agent(&a).unwrap().control_block().agent_state(),
        AgentState::Suspended
    );
    assert_eq!(deck.modify_agent(&a, AgentState::Active), Ok(()));
    assert_eq!(deck.modify_agent(&a, AgentState::Terminated), Ok(()));
    assert_eq!(
        deck.get_agent(&a).unwrap().control_block().agent_state(),
        AgentState::Terminated
    );
    assert_eq!(
        deck.modify_agent(&a, AgentState::Active),
        Err(ErrorCode::InvalidStateChange(AgentState::Terminated, AgentState::Active))
    );
}

#[test]
fn invalid_state_requests() {
    let mut deck = deck_with(&["a"]);
    let a = aid("a");
    assert_eq!(
        deck.modify_agent(&a, AgentState::Suspended),
        Err(ErrorCode::InvalidStateChange(AgentState::Initiated, AgentState::Suspended))
    );
    assert_eq!(
        deck.modify_agent(&a, AgentState::Waiting),
        Err(ErrorCode::InvalidStateChange(AgentState::Initiated, AgentState::Waiting))
    );
    assert_eq!(
        deck.modify_agent(&aid("z"), AgentState::Active),
        Err(ErrorCode::NotRegistered)
    );
}

#[test]
fn wait_and_wake() {
    let mut deck = deck_with(&["a"]);
    let a = aid("a");
    deck.modify_agent(&a, AgentState::Active).unwrap();
    assert_eq!(deck.wait_agent(&a), Ok(()));
    assert_eq!(deck.get_agent(&a).unwrap().control_block().agent_state(), AgentState::Waiting);
    assert_eq!(deck.wake_agent(&a), Ok(()));
    assert_eq!(deck.get_agent(&a).unwrap().control_block().agent_state(), AgentState::Active);
    deck.modify_agent(&a, AgentState::Terminated).unwrap();
    assert_eq!(deck.wake_agent(&a), Ok(()));
    assert_eq!(deck.get_agent(&a).unwrap().control_block().agent_state(), AgentState::Terminated);
    assert_eq!(deck.wait_agent(&aid("z")), Err(ErrorCode::NotRegistered));
    assert_eq!(deck.wake_agent(&aid("z")), Err(ErrorCode::NotRegistered));
}

#[test]
fn lookup_by_name_and_thread() {
    let mut deck = Deck::new();
    let mut a = aid("a");
    a.set_id(11);
    deck.add_agent(a, ThreadPriority::Min, ControlBlock::new()).unwrap();
    assert_eq!(deck.get_aid_from_name("a@hap").unwrap().id(), Some(11));
    assert_eq!(deck.get_aid_from_name("a"), Err(ErrorCode::NotFound));
    assert_eq!(deck.get_aid_from_thread(11).unwrap().nickname(), "a");
    assert_eq!(deck.get_aid_from_thread(12), Err(ErrorCode::NotFound));
}

#[test]
fn remove_undoes_add_on_values() {
    let mut deck = deck_with(&["a"]);
    deck.add_agent(aid("b"), ThreadPriority::Min, ControlBlock::new()).unwrap();
    deck.remove_agent(&aid("b")).unwrap();
    assert_eq!(deck.search_agent(&aid("a")), Ok(()));
    assert_eq!(deck.search_agent(&aid("b")), Err(ErrorCode::NotRegistered));
    assert_eq!(deck.get_aid_from_name("a@hap").unwrap().name(), "a@hap");
}

#[test]
fn terminated_agent_stays_terminated_through_wait() {
    let mut deck = deck_with(&["a"]);
    let a = aid("a");
    deck.modify_agent(&a, AgentState::Active).unwrap();
    deck.modify_agent(&a, AgentState::Terminated).unwrap();
    assert_eq!(deck.wait_agent(&a), Ok(()));
    assert_eq!(deck.get_agent(&a).unwrap().control_block().agent_state(), AgentState::Terminated);
    assert_eq!(deck.wake_agent(&a), Ok(()));
    assert_eq!(deck.get_agent(&a).unwrap().control_block().agent_state(), AgentState::Terminated);
    let removed = deck.remove_agent(&a).unwrap();
    assert_eq!(removed.control_block().agent_state(), AgentState::Terminated);
}

