//! The platform directory: every agent of the platform with its life cycle state.
use crate::entity::agent::{waiting_state, AgentState, ControlBlock};
use crate::entity::{AidView, Description};
use crate::ErrorCode;
use thread_priority::ThreadPriority;
use vstd::prelude::*;

verus! {

/// The mathematical value of one directory entry.
pub struct EntryView {
    /// The agent's identifier.
    pub aid: AidView,
    /// The priority the agent's thread runs with once started.
    pub priority: ThreadPriority,
    /// The agent's life cycle state.
    pub state: AgentState,
}

/// The mathematical value of the directory.
#[verifier::ext_equal]
pub struct DeckView {
    /// The identifier of the Agent Management System, once the platform is booted.
    pub ams: Option<AidView>,
    /// The registered agents, oldest first.
    pub agents: Seq<EntryView>,
}

/// No two entries identify the same agent.
pub open spec fn unique_agents(agents: Seq<EntryView>) -> bool {
    forall|i: int, j: int|
        0 <= i < agents.len() && 0 <= j < agents.len() && i != j ==> !(#[trigger] agents[i]).aid.same_agent(
            (#[trigger] agents[j]).aid,
        )
}

/// Some entry identifies the agent `aid`.
pub open spec fn registered(agents: Seq<EntryView>, aid: AidView) -> bool {
    exists|i: int| 0 <= i < agents.len() && (#[trigger] agents[i]).aid.same_agent(aid)
}

/// The index of the entry that identifies `aid`, where there is one.
pub open spec fn position(agents: Seq<EntryView>, aid: AidView) -> int {
    choose|i: int| 0 <= i < agents.len() && (#[trigger] agents[i]).aid.same_agent(aid)
}

/// Some entry's full name is `name`.
pub open spec fn named(agents: Seq<EntryView>, name: Seq<char>) -> bool {
    exists|i: int| 0 <= i < agents.len() && (#[trigger] agents[i]).aid.name() == name
}

/// The index of the first entry whose full name is `name`, where there is one.
pub open spec fn first_named(agents: Seq<EntryView>, name: Seq<char>) -> int {
    choose|i: int|
        0 <= i < agents.len() && (#[trigger] agents[i]).aid.name() == name && forall|j: int|
            0 <= j < i ==> (#[trigger] agents[j]).aid.name() != name
}

/// The index of the first entry that runs on the thread `id`, where there is one.
pub open spec fn first_on_thread(agents: Seq<EntryView>, id: u64) -> int {
    choose|i: int|
        0 <= i < agents.len() && (#[trigger] agents[i]).aid.id == Some(id) && forall|j: int|
            0 <= j < i ==> (#[trigger] agents[j]).aid.id != Some(id)
}

/// Some entry runs on the thread `id`.
pub open spec fn on_thread(agents: Seq<EntryView>, id: u64) -> bool {
    exists|i: int| 0 <= i < agents.len() && (#[trigger] agents[i]).aid.id == Some(id)
}

/// What a request to move an agent from `current` to `target` yields: the answer and the
///  state that follows. Only Active, Suspended and Terminated can be requested.
pub open spec fn state_change(current: AgentState, target: AgentState) -> (Result<(), ErrorCode>, AgentState) {
    match target {
        AgentState::Active => if current != AgentState::Active && current != AgentState::Terminated {
            (Ok(()), AgentState::Active)
        } else {
            (Err(ErrorCode::InvalidStateChange(current, target)), current)
        },
        AgentState::Suspended => if current == AgentState::Active {
            (Ok(()), AgentState::Suspended)
        } else {
            (Err(ErrorCode::InvalidStateChange(current, target)), current)
        },
        AgentState::Terminated => if current == AgentState::Active {
            (Ok(()), AgentState::Terminated)
        } else {
            (Err(ErrorCode::InvalidStateChange(current, target)), current)
        },
        _ => (Err(ErrorCode::InvalidStateChange(current, target)), current),
    }
}

/// The answer to a request to move the agent `aid` to `target`, and the directory that follows.
pub open spec fn modify_outcome(deck: DeckView, aid: AidView, target: AgentState) -> (Result<(), ErrorCode>, DeckView) {
    if !registered(deck.agents, aid) {
        (Err(ErrorCode::NotRegistered), deck)
    } else {
        let i = position(deck.agents, aid);
        let entry = deck.agents[i];
        let change = state_change(entry.state, target);
        (change.0, DeckView { agents: deck.agents.update(i, EntryView { state: change.1, ..entry }), ..deck })
    }
}

/// The entry that removing the agent `aid` hands back, where it is registered, and the
///  directory that follows.
pub open spec fn remove_outcome(deck: DeckView, aid: AidView) -> (Option<EntryView>, DeckView) {
    if !registered(deck.agents, aid) {
        (None, deck)
    } else {
        let i = position(deck.agents, aid);
        (Some(deck.agents[i]), DeckView { agents: deck.agents.remove(i), ..deck })
    }
}

/// The state an agent is in after it has waited: back to Active unless it was Active
///  already or has been terminated meanwhile.
pub open spec fn state_after_wait(current: AgentState) -> AgentState {
    if current != AgentState::Active && current != AgentState::Terminated {
        AgentState::Active
    } else {
        current
    }
}

proof fn lemma_position(agents: Seq<EntryView>, aid: AidView, i: int)
    requires
        unique_agents(agents),
        0 <= i < agents.len(),
        agents[i].aid.same_agent(aid),
    ensures
        registered(agents, aid),
        position(agents, aid) == i,
{
    assert(registered(agents, aid));
    let j = position(agents, aid);
    if j != i {
        assert(agents[i].aid.same_agent(agents[j].aid));
    }
}

/// The record the platform keeps of the Agent Management System.
#[derive(Debug)]
pub struct AmsEntry {
    aid: Description,
}

impl AmsEntry {
    /// The identifier of the Agent Management System.
    pub fn aid(&self) -> (aid: &Description)
        ensures
            aid@ == self@,
    {
        &self.aid
    }
}

impl View for AmsEntry {
    type V = AidView;

    closed spec fn view(&self) -> AidView {
        self.aid@
    }
}

/// The record the platform keeps of one agent.
#[derive(Debug)]
pub struct AgentEntry {
    aid: Description,
    priority: ThreadPriority,
    control_block: ControlBlock,
}

impl View for AgentEntry {
    type V = EntryView;

    closed spec fn view(&self) -> EntryView {
        EntryView { aid: self.aid@, priority: self.priority, state: self.control_block@ }
    }
}

impl AgentEntry {
    /// The agent's identifier.
    pub fn aid(&self) -> (aid: &Description)
        ensures
            aid@ == self@.aid,
    {
        &self.aid
    }

    /// The agent's life cycle control.
    pub fn control_block(&self) -> (block: &ControlBlock)
        ensures
            block@ == self@.state,
    {
        &self.control_block
    }

    /// The priority the agent's thread runs with once started.
    pub fn priority(&self) -> (priority: ThreadPriority)
        ensures
            priority == self@.priority,
    {
        self.priority
    }
}

/// The platform directory.
#[derive(Debug)]
pub struct Deck {
    ams_entry: Option<AmsEntry>,
    agent_directory: Vec<AgentEntry>,
}

impl View for Deck {
    type V = DeckView;

    closed spec fn view(&self) -> DeckView {
        DeckView {
            ams: match self.ams_entry {
                Some(entry) => Some(entry@),
                None => None,
            },
            agents: self.agent_directory@.map_values(|entry: AgentEntry| entry@),
        }
    }
}

impl Deck {
    #[verifier::type_invariant]
    closed spec fn keys_are_unique(&self) -> bool {
        unique_agents(self@.agents)
    }

    /// An empty directory of a platform that has not been booted.
    pub fn new() -> (deck: Self)
        ensures
            deck@.ams is None,
            deck@.agents == Seq::<EntryView>::empty(),
            unique_agents(deck@.agents),
    {
        let deck = Deck { ams_entry: None, agent_directory: Vec::with_capacity(crate::MAX_SUBSCRIBERS) };
        assert(deck@.agents =~= Seq::<EntryView>::empty());
        deck
    }

    /// Whether the Agent Management System has been recorded.
    pub fn is_booted(&self) -> (booted: bool)
        ensures
            booted == self@.ams is Some,
    {
        self.ams_entry.is_some()
    }

    /// The identifier of the Agent Management System.
    pub fn ams_aid(&self) -> (aid: &Description)
        requires
            self@.ams is Some,
        ensures
            aid@ == self@.ams->0,
    {
        self.ams_entry.as_ref().unwrap().aid()
    }

    /// Records the Agent Management System.
    pub fn add_ams(&mut self, aid: Description)
        ensures
            unique_agents(final(self)@.agents),
            final(self)@.ams == Some(aid@),
            final(self)@.agents == old(self)@.agents,
    {
        proof {
            use_type_invariant(&*self);
        }
        self.ams_entry = Some(AmsEntry { aid });
    }

    fn position_of(&self, aid: &Description) -> (index: Option<usize>)
        ensures
            match index {
                Some(i) => i < self@.agents.len() && registered(self@.agents, aid@) && position(
                    self@.agents,
                    aid@,
                ) == i,
                None => !registered(self@.agents, aid@),
            },
    {
        proof {
            use_type_invariant(self);
        }
        let mut i: usize = 0;
        while i < self.agent_directory.len()
            invariant
                i <= self.agent_directory@.len(),
                self@.agents.len() == self.agent_directory@.len(),
                unique_agents(self@.agents),
                forall|k: int| 0 <= k < i ==> !(#[trigger] self@.agents[k]).aid.same_agent(aid@),
            decreases self.agent_directory@.len() - i,
        {
            if self.agent_directory[i].aid.same_agent(aid) {
                proof {
                    assert(self@.agents[i as int] == self.agent_directory@[i as int]@);
                    lemma_position(self@.agents, aid@, i as int);
                }
                return Some(i);
            }
            assert(self@.agents[i as int] == self.agent_directory@[i as int]@);
            i = i + 1;
        }
        None
    }

    /// `Ok` when the agent is registered, `Err(NotRegistered)` when it is not.
    pub fn search_agent(&self, aid: &Description) -> (res: Result<(), ErrorCode>)
        ensures
            unique_agents(self@.agents),
            registered(self@.agents, aid@) ==> res is Ok,
            !registered(self@.agents, aid@) ==> res == Err::<(), ErrorCode>(ErrorCode::NotRegistered),
    {
        proof {
            use_type_invariant(self);
        }
        match self.position_of(aid) {
            Some(_) => Ok(()),
            None => Err(ErrorCode::NotRegistered),
        }
    }

    /// The entry of a registered agent.
    pub fn get_agent(&self, aid: &Description) -> (res: Result<&AgentEntry, ErrorCode>)
        ensures
            unique_agents(self@.agents),
            registered(self@.agents, aid@) ==> (res matches Ok(entry) && entry@ == self@.agents[position(
                self@.agents,
                aid@,
            )]),
            !registered(self@.agents, aid@) ==> (res matches Err(e) && e == ErrorCode::NotRegistered),
    {
        proof {
            use_type_invariant(self);
        }
        match self.position_of(aid) {
            Some(i) => Ok(&self.agent_directory[i]),
            None => Err(ErrorCode::NotRegistered),
        }
    }

    /// The identifier of the first registered agent whose full name is `name`.
    pub fn get_aid_from_name(&self, name: &str) -> (res: Result<Description, ErrorCode>)
        ensures
            named(self@.agents, name@) ==> (res matches Ok(aid) && aid@ == self@.agents[first_named(
                self@.agents,
                name@,
            )].aid),
            !named(self@.agents, name@) ==> (res matches Err(e) && e == ErrorCode::NotFound),
            res matches Ok(aid) ==> aid@.name() == name@,
    {
        let target = name.to_owned();
        let mut i: usize = 0;
        while i < self.agent_directory.len()
            invariant
                i <= self.agent_directory@.len(),
                self@.agents.len() == self.agent_directory@.len(),
                target@ == name@,
                forall|k: int| 0 <= k < i ==> (#[trigger] self@.agents[k]).aid.name() != name@,
            decreases self.agent_directory@.len() - i,
        {
            let candidate = self.agent_directory[i].aid.name();
            assert(self@.agents[i as int] == self.agent_directory@[i as int]@);
            if candidate == target {
                proof {
                    lemma_first_named(self@.agents, name@, i as int);
                }
                return Ok(self.agent_directory[i].aid.clone());
            }
            i = i + 1;
        }
        Err(ErrorCode::NotFound)
    }

    /// The identifier of the first registered agent that runs on the thread `id`.
    pub fn get_aid_from_thread(&self, id: u64) -> (res: Result<Description, ErrorCode>)
        ensures
            on_thread(self@.agents, id) ==> (res matches Ok(aid) && aid@ == self@.agents[first_on_thread(
                self@.agents,
                id,
            )].aid),
            !on_thread(self@.agents, id) ==> (res matches Err(e) && e == ErrorCode::NotFound),
            res matches Ok(aid) ==> aid@.id == Some(id),
    {
        let mut i: usize = 0;
        while i < self.agent_directory.len()
            invariant
                i <= self.agent_directory@.len(),
                self@.agents.len() == self.agent_directory@.len(),
                forall|k: int| 0 <= k < i ==> (#[trigger] self@.agents[k]).aid.id != Some(id),
            decreases self.agent_directory@.len() - i,
        {
            assert(self@.agents[i as int] == self.agent_directory@[i as int]@);
            if self.agent_directory[i].aid.id() == Some(id) {
                proof {
                    lemma_first_on_thread(self@.agents, id, i as int);
                }
                return Ok(self.agent_directory[i].aid.clone());
            }
            i = i + 1;
        }
        Err(ErrorCode::NotFound)
    }

    /// Registers an agent that is not registered yet.
    pub fn add_agent(
        &mut self,
        aid: Description,
        priority: ThreadPriority,
        control_block: ControlBlock,
    ) -> (res: Result<(), ErrorCode>)
        ensures
            unique_agents(final(self)@.agents),
            registered(old(self)@.agents, aid@) ==> res == Err::<(), ErrorCode>(ErrorCode::Duplicated)
                && final(self)@ == old(self)@,
            !registered(old(self)@.agents, aid@) ==> res is Ok && final(self)@.ams == old(self)@.ams
                && final(self)@.agents == old(self)@.agents.push(
                EntryView { aid: aid@, priority, state: control_block@ },
            ),
    {
        proof {
            use_type_invariant(&*self);
        }
        if self.search_agent(&aid).is_err() {
            let entry = AgentEntry { aid, priority, control_block };
            let ghost old_agents = self@.agents;
            let mut directory: Vec<AgentEntry> = Vec::new();
            std::mem::swap(&mut directory, &mut self.agent_directory);
            directory.push(entry);
            proof {
                assert(views(directory@) =~= old_agents.push(entry@));
                lemma_push_unique(old_agents, entry@);
            }
            self.agent_directory = directory;
            Ok(())
        } else {
            Err(ErrorCode::Duplicated)
        }
    }

    /// Requests a change of an agent's life cycle state: to Active (start or resume),
    ///  Suspended or Terminated.
    pub fn modify_agent(&mut self, aid: &Description, state: AgentState) -> (res: Result<(), ErrorCode>)
        ensures
            unique_agents(final(self)@.agents),
            !registered(old(self)@.agents, aid@) ==> res == Err::<(), ErrorCode>(ErrorCode::NotRegistered)
                && final(self)@ == old(self)@,
            registered(old(self)@.agents, aid@) ==> ({
                let i = position(old(self)@.agents, aid@);
                let entry = old(self)@.agents[i];
                let change = state_change(entry.state, state);
                &&& res == change.0
                &&& final(self)@.ams == old(self)@.ams
                &&& final(self)@.agents == old(self)@.agents.update(
                    i,
                    EntryView { state: change.1, ..entry },
                )
            }),
            (res, final(self)@) == modify_outcome(old(self)@, aid@, state),
            res is Err ==> final(self)@ == old(self)@,
    {
        proof {
            use_type_invariant(&*self);
        }
        match self.position_of(aid) {
            None => Err(ErrorCode::NotRegistered),
            Some(i) => {
                let ghost old_agents = self@.agents;
                let mut directory: Vec<AgentEntry> = Vec::new();
                std::mem::swap(&mut directory, &mut self.agent_directory);
                let mut block = directory[i].control_block.clone();
                let res = match state {
                    AgentState::Active => block.active(),
                    AgentState::Suspended => block.suspend(),
                    AgentState::Terminated => block.quit(),
                    _ => {
                        let current = block.agent_state();
                        Err(ErrorCode::InvalidStateChange(current, state))
                    },
                };
                let ghost new_entry = EntryView { state: block@, ..old_agents[i as int] };
                directory[i].control_block = block;
                proof {
                    assert(views(directory@) =~= old_agents.update(i as int, new_entry));
                    lemma_update_unique(old_agents, i as int, new_entry);
                    if res is Err {
                        assert(old_agents.update(i as int, new_entry) =~= old_agents);
                    }
                }
                self.agent_directory = directory;
                res
            },
        }
    }

    /// The agent itself starts waiting (a terminated agent stays terminated).
    pub fn wait_agent(&mut self, aid: &Description) -> (res: Result<(), ErrorCode>)
        ensures
            unique_agents(final(self)@.agents),
            !registered(old(self)@.agents, aid@) ==> res == Err::<(), ErrorCode>(ErrorCode::NotRegistered)
                && final(self)@ == old(self)@,
            registered(old(self)@.agents, aid@) ==> ({
                let i = position(old(self)@.agents, aid@);
                &&& res is Ok
                &&& final(self)@.ams == old(self)@.ams
                &&& final(self)@.agents == old(self)@.agents.update(
                    i,
                    EntryView { state: waiting_state(old(self)@.agents[i].state), ..old(self)@.agents[i] },
                )
            }),
    {
        proof {
            use_type_invariant(&*self);
        }
        match self.position_of(aid) {
            None => Err(ErrorCode::NotRegistered),
            Some(i) => {
                let ghost old_agents = self@.agents;
                let mut directory: Vec<AgentEntry> = Vec::new();
                std::mem::swap(&mut directory, &mut self.agent_directory);
                let mut block = directory[i].control_block.clone();
                block.wait();
                let ghost new_entry = EntryView { state: block@, ..old_agents[i as int] };
                directory[i].control_block = block;
                proof {
                    assert(views(directory@) =~= old_agents.update(i as int, new_entry));
                    lemma_update_unique(old_agents, i as int, new_entry);
                }
                self.agent_directory = directory;
                Ok(())
            },
        }
    }

    /// The agent has finished waiting: it becomes Active again unless it is Active already
    ///  or was terminated meanwhile.
    pub fn wake_agent(&mut self, aid: &Description) -> (res: Result<(), ErrorCode>)
        ensures
            unique_agents(final(self)@.agents),
            !registered(old(self)@.agents, aid@) ==> res == Err::<(), ErrorCode>(ErrorCode::NotRegistered)
                && final(self)@ == old(self)@,
            registered(old(self)@.agents, aid@) ==> ({
                let i = position(old(self)@.agents, aid@);
                &&& res is Ok
                &&& final(self)@.ams == old(self)@.ams
                &&& final(self)@.agents == old(self)@.agents.update(
                    i,
                    EntryView { state: state_after_wait(old(self)@.agents[i].state), ..old(self)@.agents[i] },
                )
            }),
    {
        proof {
            use_type_invariant(&*self);
        }
        match self.position_of(aid) {
            None => Err(ErrorCode::NotRegistered),
            Some(i) => {
                let ghost old_agents = self@.agents;
                let mut directory: Vec<AgentEntry> = Vec::new();
                std::mem::swap(&mut directory, &mut self.agent_directory);
                let mut block = directory[i].control_block.clone();
                if block.agent_state() != AgentState::Active {
                    let _ = block.active();
                }
                let ghost new_entry = EntryView { state: block@, ..old_agents[i as int] };
                directory[i].control_block = block;
                proof {
                    assert(views(directory@) =~= old_agents.update(i as int, new_entry));
                    lemma_update_unique(old_agents, i as int, new_entry);
                }
                self.agent_directory = directory;
                Ok(())
            },
        }
    }

    /// Removes a registered agent and hands back its entry.
    pub fn remove_agent(&mut self, aid: &Description) -> (res: Result<AgentEntry, ErrorCode>)
        ensures
            unique_agents(final(self)@.agents),
            !registered(old(self)@.agents, aid@) ==> (res matches Err(e) && e == ErrorCode::NotRegistered
                && final(self)@ == old(self)@),
            registered(old(self)@.agents, aid@) ==> ({
                let i = position(old(self)@.agents, aid@);
                &&& res matches Ok(entry) && entry@ == old(self)@.agents[i]
                &&& final(self)@.ams == old(self)@.ams
                &&& final(self)@.agents == old(self)@.agents.remove(i)
            }),
            final(self)@ == remove_outcome(old(self)@, aid@).1,
            res is Ok <==> remove_outcome(old(self)@, aid@).0 is Some,
            res matches Ok(entry) ==> remove_outcome(old(self)@, aid@).0 == Some(entry@),
    {
        proof {
            use_type_invariant(&*self);
        }
        match self.position_of(aid) {
            None => Err(ErrorCode::NotRegistered),
            Some(i) => {
                let ghost old_agents = self@.agents;
                let mut directory: Vec<AgentEntry> = Vec::new();
                std::mem::swap(&mut directory, &mut self.agent_directory);
                let entry = directory.remove(i);
                proof {
                    assert(views(directory@) =~= old_agents.remove(i as int));
                    lemma_remove_unique(old_agents, i as int);
                }
                self.agent_directory = directory;
                Ok(entry)
            },
        }
    }
}

proof fn lemma_first_named(agents: Seq<EntryView>, name: Seq<char>, i: int)
    requires
        0 <= i < agents.len(),
        agents[i].aid.name() == name,
        forall|j: int| 0 <= j < i ==> (#[trigger] agents[j]).aid.name() != name,
    ensures
        named(agents, name),
        first_named(agents, name) == i,
{
    assert(named(agents, name));
    let k = first_named(agents, name);
    if k < i {
        assert(agents[k].aid.name() != name);
    } else if k > i {
        assert(agents[i].aid.name() != name);
    }
}

proof fn lemma_first_on_thread(agents: Seq<EntryView>, id: u64, i: int)
    requires
        0 <= i < agents.len(),
        agents[i].aid.id == Some(id),
        forall|j: int| 0 <= j < i ==> (#[trigger] agents[j]).aid.id != Some(id),
    ensures
        on_thread(agents, id),
        first_on_thread(agents, id) == i,
{
    assert(on_thread(agents, id));
    let k = first_on_thread(agents, id);
    if k < i {
        assert(agents[k].aid.id != Some(id));
    } else if k > i {
        assert(agents[i].aid.id != Some(id));
    }
}

spec fn views(directory: Seq<AgentEntry>) -> Seq<EntryView> {
    directory.map_values(|entry: AgentEntry| entry@)
}

/// Once an agent has been added, a search finds it: adding an entry for `aid` to a
///  directory that does not hold the agent yields a directory that does.
pub proof fn added_agent_is_registered(agents: Seq<EntryView>, entry: EntryView)
    requires
        unique_agents(agents),
        !registered(agents, entry.aid),
    ensures
        registered(agents.push(entry), entry.aid),
        unique_agents(agents.push(entry)),
        position(agents.push(entry), entry.aid) == agents.len(),
{
    lemma_push_unique(agents, entry);
    let pushed = agents.push(entry);
    assert(pushed[agents.len() as int] == entry);
    lemma_position(pushed, entry.aid, agents.len() as int);
}

/// A newly added agent is not active: it is in the Initiated state until it is started,
///  and starting it succeeds.
pub proof fn added_agent_awaits_start(deck: DeckView, entry: EntryView)
    requires
        unique_agents(deck.agents),
        !registered(deck.agents, entry.aid),
        entry.state == AgentState::Initiated,
    ensures
        ({
            let added = DeckView { agents: deck.agents.push(entry), ..deck };
            let i = position(added.agents, entry.aid);
            &&& added.agents[i].state == AgentState::Initiated
            &&& modify_outcome(added, entry.aid, AgentState::Active).0 is Ok
            &&& modify_outcome(added, entry.aid, AgentState::Active).1.agents[i].state == AgentState::Active
        }),
{
    added_agent_is_registered(deck.agents, entry);
}

/// Removing an agent undoes adding it: the entry that was added comes back and the
///  directory is as it was before.
pub proof fn remove_undoes_add(deck: DeckView, entry: EntryView)
    requires
        unique_agents(deck.agents),
        !registered(deck.agents, entry.aid),
    ensures
        remove_outcome(DeckView { agents: deck.agents.push(entry), ..deck }, entry.aid) == (
        Some(entry), deck),
{
    added_agent_is_registered(deck.agents, entry);
    assert(deck.agents.push(entry).remove(deck.agents.len() as int) =~= deck.agents);
}

/// After an agent has been removed, a search no longer finds it.
pub proof fn removed_agent_is_not_registered(deck: DeckView, aid: AidView)
    requires
        unique_agents(deck.agents),
    ensures
        !registered(remove_outcome(deck, aid).1.agents, aid),
        unique_agents(remove_outcome(deck, aid).1.agents),
{
    if registered(deck.agents, aid) {
        let i = position(deck.agents, aid);
        let removed = deck.agents.remove(i);
        lemma_remove_unique(deck.agents, i);
        if registered(removed, aid) {
            let k = choose|k: int| 0 <= k < removed.len() && (#[trigger] removed[k]).aid.same_agent(aid);
            let ok = if k < i { k } else { k + 1 };
            assert(removed[k] == deck.agents[ok]);
            assert(deck.agents[ok].aid.same_agent(deck.agents[i].aid));
        }
    }
}

/// Resuming undoes suspending: an active agent that the AMS suspends and then resumes is
///  active again, and the directory is as it was before.
pub proof fn resume_undoes_suspend(deck: DeckView, aid: AidView)
    requires
        unique_agents(deck.agents),
        registered(deck.agents, aid),
        deck.agents[position(deck.agents, aid)].state == AgentState::Active,
    ensures
        modify_outcome(deck, aid, AgentState::Suspended).0 is Ok,
        modify_outcome(modify_outcome(deck, aid, AgentState::Suspended).1, aid, AgentState::Active) == (
        Ok::<(), ErrorCode>(()), deck),
{
    let i = position(deck.agents, aid);
    let suspended = modify_outcome(deck, aid, AgentState::Suspended).1;
    lemma_update_unique(deck.agents, i, EntryView { state: AgentState::Suspended, ..deck.agents[i] });
    assert(suspended.agents[i].aid.same_agent(aid));
    lemma_position(suspended.agents, aid, i);
    assert(suspended.agents.update(i, EntryView { state: AgentState::Active, ..suspended.agents[i] })
        =~= deck.agents);
}

/// Termination is final: the AMS can neither resume, suspend nor terminate again a
///  terminated agent, and the directory is left as it is.
pub proof fn terminated_agent_stays_terminated(deck: DeckView, aid: AidView, target: AgentState)
    requires
        registered(deck.agents, aid),
        deck.agents[position(deck.agents, aid)].state == AgentState::Terminated,
    ensures
        modify_outcome(deck, aid, target).0 is Err,
        modify_outcome(deck, aid, target).1 == deck,
{
    let i = position(deck.agents, aid);
    assert(deck.agents.update(i, deck.agents[i]) =~= deck.agents);
}

/// A terminated agent does not come back by waiting: it stays terminated when it starts
///  waiting and when it wakes up.
pub proof fn terminated_agent_does_not_wake()
    ensures
        waiting_state(AgentState::Terminated) == AgentState::Terminated,
        state_after_wait(waiting_state(AgentState::Terminated)) == AgentState::Terminated,
{
}

/// A terminated agent cannot be started again: only an agent that is neither active nor
///  terminated is made active.
pub proof fn only_idle_agents_start(current: AgentState)
    ensures
        state_change(current, AgentState::Active).0 is Ok <==> (current != AgentState::Active && current
            != AgentState::Terminated),
{
}

/// What the AMS may do to an agent's life cycle: it suspends or terminates only an active
///  agent, and resumes (or starts) only one that is neither active nor terminated; no other
///  target state is ever granted. A refused change answers `InvalidStateChange` with the
///  agent's state and the target, and leaves the agent as it was; a granted one puts the
///  agent in the target state.
pub proof fn life_cycle_changes(current: AgentState, target: AgentState)
    ensures
        target == AgentState::Terminated ==> (state_change(current, target).0 is Ok <==> current
            == AgentState::Active),
        target == AgentState::Suspended ==> (state_change(current, target).0 is Ok <==> current
            == AgentState::Active),
        target == AgentState::Active ==> (state_change(current, target).0 is Ok <==> (current
            != AgentState::Active && current != AgentState::Terminated)),
        (target == AgentState::Initiated || target == AgentState::Waiting) ==> state_change(
            current,
            target,
        ).0 is Err,
        state_change(current, target).0 is Ok ==> state_change(current, target).1 == target,
        state_change(current, target).0 is Err ==> state_change(current, target) == (
            Err::<(), ErrorCode>(ErrorCode::InvalidStateChange(current, target)),
            current,
        ),
{
}

/// The same rule on the directory: asking to move a registered agent to `target` succeeds
///  exactly when the rule above grants it from the agent's state; then that agent, and only
///  it, is in the target state; otherwise the answer is `InvalidStateChange` and the
///  directory is unchanged. An agent that is not registered is `NotRegistered`.
pub proof fn directory_life_cycle_changes(deck: DeckView, aid: AidView, target: AgentState)
    requires
        unique_agents(deck.agents),
    ensures
        !registered(deck.agents, aid) ==> modify_outcome(deck, aid, target) == (
            Err::<(), ErrorCode>(ErrorCode::NotRegistered),
            deck,
        ),
        registered(deck.agents, aid) ==> ({
            let i = position(deck.agents, aid);
            let current = deck.agents[i].state;
            let outcome = modify_outcome(deck, aid, target);
            &&& target == AgentState::Terminated ==> (outcome.0 is Ok <==> current == AgentState::Active)
            &&& target == AgentState::Suspended ==> (outcome.0 is Ok <==> current == AgentState::Active)
            &&& target == AgentState::Active ==> (outcome.0 is Ok <==> (current != AgentState::Active
                && current != AgentState::Terminated))
            &&& outcome.0 is Err ==> outcome == (
                Err::<(), ErrorCode>(ErrorCode::InvalidStateChange(current, target)),
                deck,
            )
            &&& outcome.0 is Ok ==> outcome.1.ams == deck.ams && outcome.1.agents.len() == deck.agents.len()
                && outcome.1.agents[i] == (EntryView { state: target, ..deck.agents[i] })
                && forall|j: int|
                0 <= j < deck.agents.len() && j != i ==> #[trigger] outcome.1.agents[j] == deck.agents[j]
            &&& registered(outcome.1.agents, aid) && position(outcome.1.agents, aid) == i
        }),
{
    if registered(deck.agents, aid) {
        let i = position(deck.agents, aid);
        let current = deck.agents[i].state;
        life_cycle_changes(current, target);
        assert(deck.agents.update(i, deck.agents[i]) =~= deck.agents);
        let outcome = modify_outcome(deck, aid, target);
        lemma_update_unique(deck.agents, i, EntryView { state: state_change(current, target).1, ..deck.agents[i] });
        assert(outcome.1.agents[i].aid.same_agent(aid));
        lemma_position(outcome.1.agents, aid, i);
    }
}

proof fn lemma_push_unique(agents: Seq<EntryView>, entry: EntryView)
    requires
        unique_agents(agents),
        !registered(agents, entry.aid),
    ensures
        unique_agents(agents.push(entry)),
{
    let pushed = agents.push(entry);
    assert forall|i: int, j: int|
        0 <= i < pushed.len() && 0 <= j < pushed.len() && i != j implies !(
        #[trigger] pushed[i]).aid.same_agent((#[trigger] pushed[j]).aid) by {
        if i == agents.len() as int {
            assert(!agents[j].aid.same_agent(entry.aid));
        } else if j == agents.len() as int {
            assert(!agents[i].aid.same_agent(entry.aid));
        } else {
            assert(pushed[i] == agents[i] && pushed[j] == agents[j]);
        }
    }
}

proof fn lemma_update_unique(agents: Seq<EntryView>, i: int, entry: EntryView)
    requires
        unique_agents(agents),
        0 <= i < agents.len(),
        entry.aid == agents[i].aid,
    ensures
        unique_agents(agents.update(i, entry)),
{
    let updated = agents.update(i, entry);
    assert forall|a: int, b: int|
        0 <= a < updated.len() && 0 <= b < updated.len() && a != b implies !(
        #[trigger] updated[a]).aid.same_agent((#[trigger] updated[b]).aid) by {
        assert(updated[a].aid == agents[a].aid);
        assert(updated[b].aid == agents[b].aid);
    }
}

proof fn lemma_remove_unique(agents: Seq<EntryView>, i: int)
    requires
        unique_agents(agents),
        0 <= i < agents.len(),
    ensures
        unique_agents(agents.remove(i)),
{
    let removed = agents.remove(i);
    assert forall|a: int, b: int|
        0 <= a < removed.len() && 0 <= b < removed.len() && a != b implies !(
        #[trigger] removed[a]).aid.same_agent((#[trigger] removed[b]).aid) by {
        let oa = if a < i { a } else { a + 1 };
        let ob = if b < i { b } else { b + 1 };
        assert(removed[a] == agents[oa]);
        assert(removed[b] == agents[ob]);
    }
}

} // verus!
