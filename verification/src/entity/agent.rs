/// A collection of traits that give agents their behavior and formally defines them as agents.
pub mod behavior;

use crate::deck::{first_named, named, Deck};
use crate::entity::messaging::{ActionType, ActionView, Content, ContentView, Message, MessageType};
use crate::entity::{AidView, Description};
use crate::{ErrorCode, MAX_SUBSCRIBERS};
use vstd::prelude::*;

verus! {

/// The different states in an Agent Lifecycle.
#[derive(PartialEq, Eq, Structural, Clone, Copy, Debug, Default)]
pub enum AgentState {
    /// The agent is present in the platform, but inactive.
    #[default]
    Initiated,
    /// The agent is running.
    Active,
    /// The agent is temporarily halted.
    Waiting,
    /// The agent is indifinately unavailable.
    Suspended,
    /// The agent is finished
    Terminated,
}

/// The state numbered `value` in the order in which [`AgentState`] lists its variants.
pub open spec fn state_numbered(value: nat) -> AgentState {
    if value == 0 {
        AgentState::Initiated
    } else if value == 1 {
        AgentState::Active
    } else if value == 2 {
        AgentState::Waiting
    } else if value == 3 {
        AgentState::Suspended
    } else {
        AgentState::Terminated
    }
}

/// The displayed name of a state.
pub open spec fn state_text(state: AgentState) -> Seq<char> {
    match state {
        AgentState::Initiated => "Initiated"@,
        AgentState::Active => "Active"@,
        AgentState::Waiting => "Waiting"@,
        AgentState::Suspended => "Suspended"@,
        AgentState::Terminated => "Terminated"@,
    }
}

impl AgentState {
    /// The name of the state, as it is displayed.
    pub fn to_string(&self) -> (text: String)
        ensures
            text@ == state_text(*self),
    {
        match self {
            AgentState::Initiated => String::from_str("Initiated"),
            AgentState::Active => String::from_str("Active"),
            AgentState::Waiting => String::from_str("Waiting"),
            AgentState::Suspended => String::from_str("Suspended"),
            AgentState::Terminated => String::from_str("Terminated"),
        }
    }

    /// The state numbered `value` (0 to 4) in the order in which the variants are listed.
    pub fn from(value: usize) -> (state: AgentState)
        requires
            value <= 4,
        ensures
            state == state_numbered(value as nat),
    {
        match value {
            0 => AgentState::Initiated,
            1 => AgentState::Active,
            2 => AgentState::Waiting,
            3 => AgentState::Suspended,
            _ => AgentState::Terminated,
        }
    }
}

/// The state an agent is in once it starts waiting: Waiting, unless it is terminated,
///  which is final.
pub open spec fn waiting_state(current: AgentState) -> AgentState {
    if current == AgentState::Terminated {
        AgentState::Terminated
    } else {
        AgentState::Waiting
    }
}

/// The operations that change a control block.
#[derive(Debug, Clone, Copy, PartialEq, Eq, Structural)]
pub enum ControlOp {
    /// [`ControlBlock::quit`].
    Quit,
    /// [`ControlBlock::suspend`].
    Suspend,
    /// [`ControlBlock::wait`].
    Wait,
    /// [`ControlBlock::active`].
    Active,
}

/// What the operation `op` does to a control block in the state `current`: whether it
///  succeeds and the state that follows.
pub open spec fn control_step(current: AgentState, op: ControlOp) -> (bool, AgentState) {
    match op {
        ControlOp::Quit => if current == AgentState::Active {
            (true, AgentState::Terminated)
        } else {
            (false, current)
        },
        ControlOp::Suspend => if current == AgentState::Active {
            (true, AgentState::Suspended)
        } else {
            (false, current)
        },
        ControlOp::Wait => (true, waiting_state(current)),
        ControlOp::Active => if current != AgentState::Active && current != AgentState::Terminated {
            (true, AgentState::Active)
        } else {
            (false, current)
        },
    }
}

/// The state a control block in the state `current` is in after the operations `ops`,
///  applied in order.
pub open spec fn control_run(current: AgentState, ops: Seq<ControlOp>) -> AgentState
    decreases ops.len(),
{
    if ops.len() == 0 {
        current
    } else {
        control_run(control_step(current, ops[0]).1, ops.subrange(1, ops.len() as int))
    }
}

/// A refused operation leaves the state as it is.
pub proof fn refused_operation_keeps_state(current: AgentState, op: ControlOp)
    ensures
        !control_step(current, op).0 ==> control_step(current, op).1 == current,
{
}

/// Termination is final: whatever operations follow, a terminated agent stays terminated.
pub proof fn terminated_block_stays_terminated(ops: Seq<ControlOp>)
    ensures
        control_run(AgentState::Terminated, ops) == AgentState::Terminated,
    decreases ops.len(),
{
    if ops.len() > 0 {
        terminated_block_stays_terminated(ops.subrange(1, ops.len() as int));
    }
}

/// An agent stays Initiated until an operation on it succeeds: a run of refused
///  operations from Initiated ends in Initiated.
pub proof fn initiated_until_first_change(ops: Seq<ControlOp>)
    requires
        forall|k: int| 0 <= k < ops.len() ==> !(#[trigger] control_step(AgentState::Initiated, ops[k])).0,
    ensures
        control_run(AgentState::Initiated, ops) == AgentState::Initiated,
    decreases ops.len(),
{
    if ops.len() > 0 {
        let rest = ops.subrange(1, ops.len() as int);
        assert(!control_step(AgentState::Initiated, ops[0]).0);
        assert forall|k: int| 0 <= k < rest.len() implies !(#[trigger] control_step(AgentState::Initiated, rest[k])).0 by {
            assert(rest[k] == ops[k + 1]);
            assert(!control_step(AgentState::Initiated, ops[k + 1]).0);
        }
        initiated_until_first_change(rest);
    }
}

/// Life cycle control of one agent: the state that the platform and the agent
///  itself read and change.
#[derive(Debug)]
pub struct ControlBlock {
    state: AgentState,
}

impl View for ControlBlock {
    type V = AgentState;

    closed spec fn view(&self) -> AgentState {
        self.state
    }
}

impl Clone for ControlBlock {
    fn clone(&self) -> (res: Self)
        ensures
            res@ == self@,
    {
        ControlBlock { state: self.state }
    }
}

impl Default for ControlBlock {
    fn default() -> (block: Self)
        ensures
            block@ == AgentState::Initiated,
    {
        ControlBlock { state: AgentState::Initiated }
    }
}

impl ControlBlock {
    /// A control block in the [`AgentState::Initiated`] state.
    pub fn new() -> (block: Self)
        ensures
            block@ == AgentState::Initiated,
    {
        ControlBlock { state: AgentState::Initiated }
    }

    /// The current state.
    pub fn agent_state(&self) -> (state: AgentState)
        ensures
            state == self@,
    {
        self.state
    }

    fn set_state(&mut self, state: AgentState)
        ensures
            final(self)@ == state,
    {
        self.state = state;
    }

    /// Active to Terminated; from any other state the request is refused and nothing changes.
    pub fn quit(&mut self) -> (res: Result<(), ErrorCode>)
        ensures
            (res is Ok, final(self)@) == control_step(old(self)@, ControlOp::Quit),
            old(self)@ == AgentState::Active ==> res == Ok::<(), ErrorCode>(()) && final(self)@ == AgentState::Terminated,
            old(self)@ != AgentState::Active ==> res == Err::<(), ErrorCode>(
                ErrorCode::InvalidStateChange(old(self)@, AgentState::Terminated),
            ) && final(self)@ == old(self)@,
    {
        let current = self.agent_state();
        let target = AgentState::Terminated;
        if current == AgentState::Active {
            self.set_state(target);
            Ok(())
        } else {
            Err(ErrorCode::InvalidStateChange(current, target))
        }
    }

    /// Active to Suspended; from any other state the request is refused and nothing changes.
    pub fn suspend(&mut self) -> (res: Result<(), ErrorCode>)
        ensures
            (res is Ok, final(self)@) == control_step(old(self)@, ControlOp::Suspend),
            old(self)@ == AgentState::Active ==> res == Ok::<(), ErrorCode>(()) && final(self)@ == AgentState::Suspended,
            old(self)@ != AgentState::Active ==> res == Err::<(), ErrorCode>(
                ErrorCode::InvalidStateChange(old(self)@, AgentState::Suspended),
            ) && final(self)@ == old(self)@,
    {
        let current = self.agent_state();
        let target = AgentState::Suspended;
        if current == AgentState::Active {
            self.set_state(target);
            Ok(())
        } else {
            Err(ErrorCode::InvalidStateChange(current, target))
        }
    }

    /// Marks the agent as waiting; a terminated agent is finished and stays terminated.
    pub fn wait(&mut self)
        ensures
            final(self)@ == waiting_state(old(self)@),
            final(self)@ == control_step(old(self)@, ControlOp::Wait).1,
            old(self)@ == AgentState::Terminated ==> final(self)@ == AgentState::Terminated,
            old(self)@ != AgentState::Terminated ==> final(self)@ == AgentState::Waiting,
    {
        if self.state != AgentState::Terminated {
            self.set_state(AgentState::Waiting);
        }
    }

    /// Any state but Active and Terminated to Active; from those two the request is refused
    ///  and nothing changes.
    pub fn active(&mut self) -> (res: Result<(), ErrorCode>)
        ensures
            (res is Ok, final(self)@) == control_step(old(self)@, ControlOp::Active),
            old(self)@ != AgentState::Active && old(self)@ != AgentState::Terminated ==> res == Ok::<(), ErrorCode>(())
                && final(self)@ == AgentState::Active,
            old(self)@ == AgentState::Active || old(self)@ == AgentState::Terminated ==> res
                == Err::<(), ErrorCode>(ErrorCode::InvalidStateChange(old(self)@, AgentState::Active))
                && final(self)@ == old(self)@,
    {
        let current = self.agent_state();
        let target = AgentState::Active;
        if current != AgentState::Active && current != AgentState::Terminated {
            self.set_state(target);
            Ok(())
        } else {
            Err(ErrorCode::InvalidStateChange(current, target))
        }
    }
}

/// The mathematical value of an agent: its name and its contact list.
pub struct AgentView {
    /// Left side of the agent's name `nickname@hap`.
    pub nickname: Seq<char>,
    /// Right side of the agent's name: its host agent platform.
    pub hap: Seq<char>,
    /// The contact list: for each contact, the nickname it is addressed by and its identifier,
    ///  oldest first.
    pub contacts: Seq<(Seq<char>, AidView)>,
}

/// Some contact is addressed by `nickname`.
pub open spec fn has_contact(contacts: Seq<(Seq<char>, AidView)>, nickname: Seq<char>) -> bool {
    exists|i: int| 0 <= i < contacts.len() && (#[trigger] contacts[i]).0 == nickname
}

/// The index of the contact addressed by `nickname`, where there is one.
pub open spec fn contact_index(contacts: Seq<(Seq<char>, AidView)>, nickname: Seq<char>) -> int {
    choose|i: int| 0 <= i < contacts.len() && (#[trigger] contacts[i]).0 == nickname
}

/// No two contacts share a nickname.
pub open spec fn unique_contacts(contacts: Seq<(Seq<char>, AidView)>) -> bool {
    forall|i: int, j: int|
        0 <= i < contacts.len() && 0 <= j < contacts.len() && i != j ==> (#[trigger] contacts[i]).0
            != (#[trigger] contacts[j]).0
}

/// The name `nickname@hap` of an agent addressed by `nickname` on the platform `hap`.
pub open spec fn local_name(nickname: Seq<char>, hap: Seq<char>) -> Seq<char> {
    nickname + seq!['@'] + hap
}

/// The base agent type with its name and contact list.
#[derive(Debug)]
pub struct Agent {
    nickname: String,
    hap: String,
    directory: Vec<(String, Description)>,
}

spec fn contact_views(directory: Seq<(String, Description)>) -> Seq<(Seq<char>, AidView)> {
    directory.map_values(|contact: (String, Description)| (contact.0@, contact.1@))
}

impl View for Agent {
    type V = AgentView;

    closed spec fn view(&self) -> AgentView {
        AgentView { nickname: self.nickname@, hap: self.hap@, contacts: contact_views(self.directory@) }
    }
}

proof fn lemma_contact_index(contacts: Seq<(Seq<char>, AidView)>, nickname: Seq<char>, i: int)
    requires
        unique_contacts(contacts),
        0 <= i < contacts.len(),
        contacts[i].0 == nickname,
    ensures
        has_contact(contacts, nickname),
        contact_index(contacts, nickname) == i,
{
    assert(has_contact(contacts, nickname));
    let k = contact_index(contacts, nickname);
    if k != i {
        assert(contacts[k].0 == contacts[i].0);
    }
}

impl Agent {
    #[verifier::type_invariant]
    closed spec fn contact_list_is_valid(&self) -> bool {
        &&& self.directory@.len() <= MAX_SUBSCRIBERS
        &&& unique_contacts(contact_views(self.directory@))
    }

    /// An agent named `nickname@hap` with an empty contact list.
    pub fn new(nickname: &str, hap: &str) -> (agent: Self)
        ensures
            agent@.nickname == nickname@,
            agent@.hap == hap@,
            agent@.contacts == Seq::<(Seq<char>, AidView)>::empty(),
            unique_contacts(agent@.contacts),
    {
        let agent = Agent {
            nickname: nickname.to_owned(),
            hap: hap.to_owned(),
            directory: Vec::with_capacity(MAX_SUBSCRIBERS),
        };
        assert(agent@.contacts =~= Seq::<(Seq<char>, AidView)>::empty());
        agent
    }

    /// Get the Agent's name as the formated string `nickname@hap`.
    pub fn name(&self) -> (name: String)
        ensures
            name@ == local_name(self@.nickname, self@.hap),
    {
        let mut name = self.nickname.clone();
        name.append("@");
        name.append(self.hap.as_str());
        proof {
            reveal_strlit("@");
            assert("@"@ =~= seq!['@']);
        }
        name
    }

    /// The name `nickname@hap` that an agent of this agent's platform addressed by `nickname` has.
    pub fn fmt_local_agent(&self, nickname: &str) -> (name: String)
        ensures
            name@ == local_name(nickname@, self@.hap),
    {
        let mut name = nickname.to_owned();
        name.append("@");
        name.append(self.hap.as_str());
        proof {
            reveal_strlit("@");
            assert("@"@ =~= seq!['@']);
        }
        name
    }

    fn find_contact(&self, nickname: &str) -> (index: Option<usize>)
        ensures
            match index {
                Some(i) => i < self@.contacts.len() && has_contact(self@.contacts, nickname@)
                    && contact_index(self@.contacts, nickname@) == i,
                None => !has_contact(self@.contacts, nickname@),
            },
    {
        proof {
            use_type_invariant(self);
        }
        let key = nickname.to_owned();
        let mut i: usize = 0;
        while i < self.directory.len()
            invariant
                i <= self.directory@.len(),
                key@ == nickname@,
                self@.contacts.len() == self.directory@.len(),
                unique_contacts(self@.contacts),
                forall|k: int| 0 <= k < i ==> (#[trigger] self@.contacts[k]).0 != nickname@,
            decreases self.directory@.len() - i,
        {
            assert(self@.contacts[i as int] == (self.directory@[i as int].0@, self.directory@[i as int].1@));
            if self.directory[i].0 == key {
                proof {
                    lemma_contact_index(self@.contacts, nickname@, i as int);
                }
                return Some(i);
            }
            i = i + 1;
        }
        None
    }

    /// Add a contact to the contact list. The target agent needs to be addressed by its [`Description`].
    pub fn add_contact_aid(&mut self, nickname: &str, description: Description) -> (res: Result<(), ErrorCode>)
        ensures
            unique_contacts(final(self)@.contacts),
            final(self)@.contacts.len() <= MAX_SUBSCRIBERS,
            old(self)@.contacts.len() == MAX_SUBSCRIBERS ==> res == Err::<(), ErrorCode>(ErrorCode::ListFull)
                && final(self)@ == old(self)@,
            old(self)@.contacts.len() < MAX_SUBSCRIBERS && has_contact(old(self)@.contacts, nickname@) ==> res
                == Err::<(), ErrorCode>(ErrorCode::Duplicated) && final(self)@ == old(self)@,
            old(self)@.contacts.len() < MAX_SUBSCRIBERS && !has_contact(old(self)@.contacts, nickname@) ==> res
                == Ok::<(), ErrorCode>(()) && final(self)@ == (AgentView {
                contacts: old(self)@.contacts.push((nickname@, description@)),
                ..old(self)@
            }),
    {
        proof {
            use_type_invariant(&*self);
        }
        if self.directory.len() == MAX_SUBSCRIBERS {
            Err(ErrorCode::ListFull)
        } else if self.find_contact(nickname).is_some() {
            Err(ErrorCode::Duplicated)
        } else {
            let ghost old_contacts = self@.contacts;
            let entry = (nickname.to_owned(), description);
            let mut directory: Vec<(String, Description)> = Vec::new();
            std::mem::swap(&mut directory, &mut self.directory);
            directory.push(entry);
            proof {
                let pushed = old_contacts.push((nickname@, entry.1@));
                assert(contact_views(directory@) =~= pushed);
                assert forall|i: int, j: int|
                    0 <= i < pushed.len() && 0 <= j < pushed.len() && i != j implies (
                    #[trigger] pushed[i]).0 != (#[trigger] pushed[j]).0 by {
                    if i == old_contacts.len() as int {
                        assert(old_contacts[j].0 != nickname@);
                    } else if j == old_contacts.len() as int {
                        assert(old_contacts[i].0 != nickname@);
                    } else {
                        assert(pushed[i] == old_contacts[i] && pushed[j] == old_contacts[j]);
                    }
                }
            }
            self.directory = directory;
            Ok(())
        }
    }

    /// Add an agent of this agent's platform to the contact list. The target agent is addressed
    ///  by its nickname and looked up in the platform directory.
    pub fn add_contact(&mut self, deck: &Deck, nickname: &str) -> (res: Result<(), ErrorCode>)
        ensures
            unique_contacts(final(self)@.contacts),
            final(self)@.contacts.len() <= MAX_SUBSCRIBERS,
            !named(deck@.agents, local_name(nickname@, old(self)@.hap)) ==> res == Err::<(), ErrorCode>(
                ErrorCode::NotFound,
            ) && final(self)@ == old(self)@,
            named(deck@.agents, local_name(nickname@, old(self)@.hap)) ==> ({
                let aid = deck@.agents[first_named(deck@.agents, local_name(nickname@, old(self)@.hap))].aid;
                &&& old(self)@.contacts.len() == MAX_SUBSCRIBERS ==> res == Err::<(), ErrorCode>(
                    ErrorCode::ListFull,
                ) && final(self)@ == old(self)@
                &&& old(self)@.contacts.len() < MAX_SUBSCRIBERS && has_contact(old(self)@.contacts, nickname@)
                    ==> res == Err::<(), ErrorCode>(ErrorCode::Duplicated) && final(self)@ == old(self)@
                &&& old(self)@.contacts.len() < MAX_SUBSCRIBERS && !has_contact(old(self)@.contacts, nickname@)
                    ==> res == Ok::<(), ErrorCode>(()) && final(self)@ == (AgentView {
                    contacts: old(self)@.contacts.push((nickname@, aid)),
                    ..old(self)@
                })
            }),
    {
        proof {
            use_type_invariant(&*self);
        }
        let name = self.fmt_local_agent(nickname);
        match deck.get_aid_from_name(name.as_str()) {
            Ok(agent) => self.add_contact_aid(nickname, agent),
            Err(e) => Err(e),
        }
    }

    /// The identifier of the agent addressed by `nickname`: the contact of that nickname if
    ///  there is one, else the agent of this platform named `nickname@hap` in the directory.
    pub fn recipient(&self, deck: &Deck, nickname: &str) -> (res: Result<Description, ErrorCode>)
        ensures
            unique_contacts(self@.contacts),
            self@.contacts.len() <= MAX_SUBSCRIBERS,
            has_contact(self@.contacts, nickname@) ==> (res matches Ok(aid) && aid@ == self@.contacts[contact_index(
                self@.contacts,
                nickname@,
            )].1),
            !has_contact(self@.contacts, nickname@) && named(deck@.agents, local_name(nickname@, self@.hap))
                ==> (res matches Ok(aid) && aid@ == deck@.agents[first_named(
                deck@.agents,
                local_name(nickname@, self@.hap),
            )].aid),
            !has_contact(self@.contacts, nickname@) && !named(deck@.agents, local_name(nickname@, self@.hap))
                ==> (res matches Err(e) && e == ErrorCode::NotFound),
    {
        proof {
            use_type_invariant(self);
        }
        match self.find_contact(nickname) {
            Some(i) => {
                let aid = self.directory[i].1.clone();
                proof {
                    assert(self@.contacts[i as int] == (self.directory@[i as int].0@, self.directory@[i as int].1@));
                }
                Ok(aid)
            },
            None => self.local_recipient(deck, nickname),
        }
    }

    fn local_recipient(&self, deck: &Deck, nickname: &str) -> (res: Result<Description, ErrorCode>)
        ensures
            named(deck@.agents, local_name(nickname@, self@.hap)) ==> (res matches Ok(aid) && aid@
                == deck@.agents[first_named(deck@.agents, local_name(nickname@, self@.hap))].aid),
            !named(deck@.agents, local_name(nickname@, self@.hap)) ==> (res matches Err(e) && e
                == ErrorCode::NotFound),
    {
        let name = self.fmt_local_agent(nickname);
        deck.get_aid_from_name(name.as_str())
    }

    /// The request with which the agent `aid` asks the platform's AMS to deregister it when
    ///  its behavior is done.
    pub fn takedown_request(&self, deck: &Deck, aid: Description) -> (msg: Message)
        requires
            deck@.ams is Some,
        ensures
            msg@.sender == aid@,
            msg@.receiver == deck@.ams->0,
            msg@.message_type == MessageType::Request,
            msg@.content == ContentView::Action(ActionView::Deregister(aid@)),
    {
        let ams = deck.ams_aid().clone();
        let content = Content::Action(ActionType::Deregister(aid.clone()));
        Message::new(aid, ams, MessageType::Request, content)
    }

    /// The identifiers of all contacts, oldest first.
    pub fn contact_list(&self) -> (aids: Vec<Description>)
        ensures
            unique_contacts(self@.contacts),
            self@.contacts.len() <= MAX_SUBSCRIBERS,
            aids@.len() == self@.contacts.len(),
            forall|i: int| 0 <= i < aids@.len() ==> (#[trigger] aids@[i])@ == self@.contacts[i].1,
    {
        proof {
            use_type_invariant(self);
        }
        let mut aids: Vec<Description> = Vec::new();
        let mut i: usize = 0;
        while i < self.directory.len()
            invariant
                i <= self.directory@.len(),
                self@.contacts.len() == self.directory@.len(),
                aids@.len() == i,
                forall|k: int| 0 <= k < i ==> (#[trigger] aids@[k])@ == self@.contacts[k].1,
            decreases self.directory@.len() - i,
        {
            assert(self@.contacts[i as int].1 == self.directory@[i as int].1@);
            aids.push(self.directory[i].1.clone());
            i = i + 1;
        }
        aids
    }
}

/// An agent's name is the name of its identifier: `nickname@hap` whatever thread runs it.
pub proof fn local_name_is_aid_name(aid: AidView)
    ensures
        local_name(aid.nickname, aid.hap) == aid.name(),
{
    reveal(AidView::name);
}

/// An agent registered on the platform can be found by its local name, so that it can
///  be added as a contact by its nickname.
pub proof fn registered_agent_is_named(agents: Seq<crate::deck::EntryView>, nickname: Seq<char>, hap: Seq<char>)
    requires
        crate::deck::registered(agents, AidView { nickname, hap, id: None }),
    ensures
        named(agents, local_name(nickname, hap)),
{
    let i = crate::deck::position(agents, AidView { nickname, hap, id: None });
    local_name_is_aid_name(agents[i].aid);
    assert(agents[i].aid.name() == local_name(nickname, hap));
}

/// A contact that has been added is addressed by its nickname: the contact list holds it
///  and the nickname leads to the identifier that was given.
pub proof fn added_contact_is_addressable(contacts: Seq<(Seq<char>, AidView)>, nickname: Seq<char>, aid: AidView)
    requires
        unique_contacts(contacts),
        !has_contact(contacts, nickname),
    ensures
        unique_contacts(contacts.push((nickname, aid))),
        has_contact(contacts.push((nickname, aid)), nickname),
        contacts.push((nickname, aid))[contact_index(contacts.push((nickname, aid)), nickname)].1 == aid,
{
    let pushed = contacts.push((nickname, aid));
    assert forall|i: int, j: int|
        0 <= i < pushed.len() && 0 <= j < pushed.len() && i != j implies (#[trigger] pushed[i]).0 != (
        #[trigger] pushed[j]).0 by {
        if i == contacts.len() as int {
            assert(contacts[j].0 != nickname);
        } else if j == contacts.len() as int {
            assert(contacts[i].0 != nickname);
        } else {
            assert(pushed[i] == contacts[i] && pushed[j] == contacts[j]);
        }
    }
    assert(pushed[contacts.len() as int] == (nickname, aid));
    lemma_contact_index(pushed, nickname, contacts.len() as int);
}

} // verus!
