use crate::deck::{registered, Deck, DeckView};
use crate::entity::{AidView, Description};
use crate::{ErrorCode, MAX_PRIORITY};
use thread_priority::ThreadPriority;
use vstd::prelude::*;

verus! {

/// The thread priority type of the `thread_priority` crate, carried opaquely.
#[verifier::external_type_specification]
#[verifier::external_body]
pub struct ExThreadPriority(thread_priority::ThreadPriority);

/// What `ThreadPriority::try_from(value)` yields for a value it accepts
///  (a cross-platform priority holding `value`).
pub uninterp spec fn thread_priority_for(value: u8) -> ThreadPriority;

/// The values `ThreadPriority::try_from` accepts.
pub open spec fn accepted_priority(value: u8) -> bool {
    value <= 100
}

/// The message with which `ThreadPriority::try_from` refuses a value.
pub open spec fn priority_range_message() -> Seq<char> {
    "The thread priority value must be in range of [0; 100]."@
}

/// Calls `<ThreadPriority as TryFrom<u8>>::try_from` (Unix build of `thread_priority`):
///  values 0 to 100 are accepted and give [`thread_priority_for`] of the value; larger
///  values are refused with a fixed message.
#[verifier::external_body]
fn thread_priority_from(value: u8) -> (res: Result<ThreadPriority, &'static str>)
    ensures
        accepted_priority(value) ==> res is Ok && res->Ok_0 == thread_priority_for(value),
        !accepted_priority(value) ==> res is Err && res->Err_0@ == priority_range_message(),
{
    ThreadPriority::try_from(value)
}

/// The message with which a request for the services' priority is refused.
pub open spec fn reserved_priority_message() -> Seq<char> {
    "Max priority only allowed for Services"@
}

/// Nicknames that user agents cannot take.
pub open spec fn reserved_name(nickname: Seq<char>) -> bool {
    nickname == "ams"@
}

/// The agent `nickname` of the platform `hap` is registered in the directory.
pub open spec fn taken(deck_agents: Seq<crate::deck::EntryView>, hap: Seq<char>, nickname: Seq<char>) -> bool {
    registered(deck_agents, AidView { nickname, hap, id: None })
}

/// A new platform can start over the directory `deck`: no platform's AMS is recorded in it.
pub open spec fn admits_platform(deck: DeckView) -> bool {
    deck.ams is None
}

/// One platform per process: a new directory admits a platform, and once the AMS of a
///  platform has been recorded in the directory (as [`Deck::add_ams`] records it), every
///  further platform is refused, whatever its name.
pub proof fn one_platform_per_process(deck: DeckView, ams: AidView)
    ensures
        admits_platform(DeckView { ams: None, agents: Seq::empty() }),
        !admits_platform(DeckView { ams: Some(ams), ..deck }),
{
}

/// The only nickname kept from user agents is `ams`, the platform's own service: every
///  other nickname, of any length or case, is free unless an agent of the platform has it.
pub proof fn only_ams_is_reserved(nickname: Seq<char>)
    ensures
        reserved_name(nickname) <==> nickname == "ams"@,
        reserved_name("ams"@),
        !reserved_name("AMS"@),
        !reserved_name("AgentSender"@),
{
    reveal_strlit("ams");
    reveal_strlit("AMS");
    reveal_strlit("AgentSender");
    assert("ams"@ != "AMS"@) by {
        assert("ams"@[0] != "AMS"@[0]);
    }
    assert("ams"@.len() != "AgentSender"@.len());
}

/// Represents the Host Agent Platform (HAP): its name, and the checks it makes before
///  it admits an agent.
#[derive(Debug)]
pub struct Platform {
    name: String,
}

impl Platform {
    /// A platform named `name`, unless another platform is running in this process: the
    ///  process keeps one directory, and a platform is running once its AMS is recorded there.
    pub fn new(name: &str, deck: &Deck) -> (res: Result<Self, ErrorCode>)
        ensures
            !admits_platform(deck@) ==> (res matches Err(e) && e == ErrorCode::PlatformPresent),
            admits_platform(deck@) ==> (res matches Ok(platform) && platform.name_view() == name@),
    {
        if deck.is_booted() {
            Err(ErrorCode::PlatformPresent)
        } else {
            Ok(Platform { name: name.to_owned() })
        }
    }

    /// The name of the platform.
    pub closed spec fn name_view(&self) -> Seq<char> {
        self.name@
    }

    /// Returns the name of the platform.
    pub fn name(&self) -> (name: &str)
        ensures
            name@ == self.name_view(),
    {
        self.name.as_str()
    }

    /// The identifier of the platform's Agent Management System: `ams@name`.
    pub fn ams_aid(&self) -> (aid: Description)
        ensures
            aid@ == (AidView { nickname: "ams"@, hap: self.name_view(), id: None }),
    {
        Description::new("ams", self.name.as_str())
    }

    /// The identifier an agent of this platform addressed by `nickname` gets.
    pub fn agent_aid(&self, nickname: &str) -> (aid: Description)
        ensures
            aid@ == (AidView { nickname: nickname@, hap: self.name_view(), id: None }),
    {
        Description::new(nickname, self.name.as_str())
    }

    /// The checks made before an agent is created: its nickname must not be reserved nor
    ///  taken on this platform, and its priority must be below the services' priority and
    ///  accepted by `thread_priority`. On success, the thread priority the agent will run with.
    pub fn admit_agent(&self, deck: &Deck, nickname: &str, priority: u8) -> (res: Result<ThreadPriority, ErrorCode>)
        ensures
            reserved_name(nickname@) ==> res == Err::<ThreadPriority, ErrorCode>(ErrorCode::InvalidName),
            !reserved_name(nickname@) && taken(deck@.agents, self.name_view(), nickname@) ==> res == Err::<
                ThreadPriority,
                ErrorCode,
            >(ErrorCode::Duplicated),
            !reserved_name(nickname@) && !taken(deck@.agents, self.name_view(), nickname@) && priority
                == MAX_PRIORITY ==> res is Err && res->Err_0 is InvalidPriority && res->Err_0->InvalidPriority_0@
                == reserved_priority_message(),
            !reserved_name(nickname@) && !taken(deck@.agents, self.name_view(), nickname@) && priority
                != MAX_PRIORITY && accepted_priority(priority) ==> res == Ok::<ThreadPriority, ErrorCode>(
                thread_priority_for(priority),
            ),
            !reserved_name(nickname@) && !taken(deck@.agents, self.name_view(), nickname@) && priority
                != MAX_PRIORITY && !accepted_priority(priority) ==> res is Err && res->Err_0 is InvalidPriority
                && res->Err_0->InvalidPriority_0@ == priority_range_message(),
    {
        let reserved = String::from_str("ams");
        if nickname.to_owned() == reserved {
            return Err(ErrorCode::InvalidName);
        }
        let aid = self.agent_aid(nickname);
        if deck.search_agent(&aid).is_ok() {
            return Err(ErrorCode::Duplicated);
        }
        if priority == MAX_PRIORITY {
            let message = "Max priority only allowed for Services";
            proof {
                assert(message@ == reserved_priority_message());
            }
            return Err(ErrorCode::InvalidPriority(message));
        }
        match thread_priority_from(priority) {
            Ok(thread_priority) => Ok(thread_priority),
            Err(message) => Err(ErrorCode::InvalidPriority(message)),
        }
    }
}

} // verus!
