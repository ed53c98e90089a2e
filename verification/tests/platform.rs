use caravela::agent::ControlBlock;
use caravela::deck::Deck;
use caravela::{ErrorCode, Platform, MAX_PRIORITY};
use thread_priority::ThreadPriority;

#[test]
fn only_one_platform() {
    let mut deck = Deck::new();
    let platform = Platform::new("p", &deck).unwrap();
    assert_eq!(platform.name(), "p");
    assert_eq!(platform.ams_aid().name(), "ams@p");
    assert_eq!(platform.agent_aid("a").name(), "a@p");
    deck.add_ams(platform.ams_aid());
    assert!(matches!(Platform::new("p", &deck), Err(ErrorCode::PlatformPresent)));
    assert!(matches!(Platform::new("q", &deck), Err(ErrorCode::PlatformPresent)));
}

#[test]
fn reserved_name_is_refused() {
    let deck = Deck::new();
    let platform = Platform::new("p", &deck).unwrap();
    assert_eq!(platform.admit_agent(&deck, "ams", 1), Err(ErrorCode::InvalidName));
    assert!(platform.admit_agent(&deck, "AMS", 1).is_ok());
}

#[test]
fn taken_name_is_refused() {
    let mut deck = Deck::new();
    let platform = Platform::new("p", &deck).unwrap();
    deck.add_agent(platform.agent_aid("a"), ThreadPriority::Min, ControlBlock::new()).unwrap();
    assert_eq!(platform.admit_agent(&deck, "a", 1), Err(ErrorCode::Duplicated));
    assert!(platform.admit_agent(&deck, "b", 1).is_ok());
}

#[test]
fn priorities() {
    let deck = Deck::new();
    let platform = Platform::new("p", &deck).unwrap();
    assert_eq!(
        platform.admit_agent(&deck, "a", MAX_PRIORITY),
        Err(ErrorCode::InvalidPriority("Max priority only allowed for Services"))
    );
    assert_eq!(
        platform.admit_agent(&deck, "a", 101),
        Err(ErrorCode::InvalidPriority("The thread priority value must be in range of [0; 100]."))
    );
    assert_eq!(
        platform.admit_agent(&deck, "a", 7),
        Ok(ThreadPriority::Crossplatform(7u8.try_into().unwrap()))
    );
    assert_eq!(
        platform.admit_agent(&deck, "a", 100),
        Ok(ThreadPriority::try_from(100u8).unwrap())
    );
    assert!(platform.admit_agent(&deck, "a", 0).is_ok());
}
