use crate::deck::{modify_outcome, registered, remove_outcome, Deck};
use crate::entity::agent::{AgentState, ControlBlock};
use crate::entity::messaging::{ActionType, ActionView, Content, ContentView, Message, MessageType};
use crate::entity::service::ServiceConditions;
use crate::entity::{AidView, Description};
use crate::ErrorCode;
use vstd::prelude::*;

verus! {

/// Conditions under which the Agent Management System changes an agent's life cycle,
///  on top of the conditions of any service.
pub trait AmsConditions: ServiceConditions {
    /// Whether or not it is possible to suspend an agent.
    fn suspension_condition(&self) -> (granted: bool)
        default_ensures
            granted,
    {
        true
    }

    /// Whether or not it is possible to resume an agent.
    fn resumption_condition(&self) -> (granted: bool)
        default_ensures
            granted,
    {
        true
    }

    /// Whether or not it is possible to terminate an agent.
    fn termination_condition(&self) -> (granted: bool)
        default_ensures
            granted,
    {
        true
    }
}

/// What `str::to_lowercase` returns for a string: its lowercase equivalent.
pub uninterp spec fn lowercase(text: Seq<char>) -> Seq<char>;

/// Every character of `text` is ASCII.
pub open spec fn ascii_text(text: Seq<char>) -> bool {
    forall|i: int| 0 <= i < text.len() ==> (#[trigger] text[i] as int) < 128
}

/// The lowercase of an ASCII character: `A` to `Z` become `a` to `z`, the others stay.
pub open spec fn ascii_lower_char(c: char) -> char {
    if 65 <= (c as int) <= 90 {
        ((c as int) + 32) as char
    } else {
        c
    }
}

/// `text` with each ASCII uppercase letter replaced by its lowercase.
pub open spec fn ascii_lowercase(text: Seq<char>) -> Seq<char> {
    text.map_values(|c: char| ascii_lower_char(c))
}

/// A modifier read in lowercase: letter by letter for ASCII text, and as
///  `str::to_lowercase` reads it otherwise.
pub open spec fn lowered_modifier(modifier: Seq<char>) -> Seq<char> {
    if ascii_text(modifier) {
        ascii_lowercase(modifier)
    } else {
        lowercase(modifier)
    }
}

/// Calls `str::to_lowercase`. Its result is named [`lowercase`]; of ASCII text it is claimed
///  what Unicode lowercasing does there: each letter `A` to `Z` becomes `a` to `z`, and every
///  other character stays as it is. Nothing is claimed of other text beyond the name.
#[verifier::external_body]
fn to_lowercase(text: &str) -> (lowered: String)
    ensures
        lowered@ == lowercase(text@),
        ascii_text(text@) ==> lowered@ == ascii_lowercase(text@),
{
    text.to_lowercase()
}

/// The life cycle state a modifier asks for: `resume`, `suspend` or `terminate`.
pub open spec fn modifier_state(modifier: Seq<char>) -> Option<AgentState> {
    if modifier == "resume"@ {
        Some(AgentState::Active)
    } else if modifier == "suspend"@ {
        Some(AgentState::Suspended)
    } else if modifier == "terminate"@ {
        Some(AgentState::Terminated)
    } else {
        None
    }
}

fn parse_modifier(modifier: &str) -> (state: Option<AgentState>)
    ensures
        state == modifier_state(modifier@),
{
    let text = modifier.to_owned();
    if text == String::from_str("resume") {
        Some(AgentState::Active)
    } else if text == String::from_str("suspend") {
        Some(AgentState::Suspended)
    } else if text == String::from_str("terminate") {
        Some(AgentState::Terminated)
    } else {
        None
    }
}

/// A condition on which the AMS grants a request.
#[derive(Debug, Clone, Copy, PartialEq, Eq, Structural)]
pub enum Condition {
    /// [`ServiceConditions::search_condition`].
    Search,
    /// [`ServiceConditions::modification_condition`].
    Modification,
    /// [`ServiceConditions::registration_condition`].
    Registration,
    /// [`ServiceConditions::deregistration_condition`].
    Deregistration,
    /// [`AmsConditions::suspension_condition`].
    Suspension,
    /// [`AmsConditions::resumption_condition`].
    Resumption,
    /// [`AmsConditions::termination_condition`].
    Termination,
    /// A condition that never holds: the request names no known modification.
    Unsatisfiable,
}

/// The condition that governs a life cycle modification named `modifier`.
pub open spec fn modifier_condition(modifier: Seq<char>) -> Condition {
    match modifier_state(modifier) {
        Some(AgentState::Active) => Condition::Resumption,
        Some(AgentState::Suspended) => Condition::Suspension,
        Some(AgentState::Terminated) => Condition::Termination,
        _ => Condition::Unsatisfiable,
    }
}

/// `answer` is an answer that `conditions` give when they are asked whether `condition` holds:
///  a result of the condition's method; never `true` for [`Condition::Unsatisfiable`].
pub open spec fn condition_answer<T: AmsConditions>(conditions: T, condition: Condition, answer: bool) -> bool {
    match condition {
        Condition::Search => call_ensures(T::search_condition, (&conditions,), answer),
        Condition::Modification => call_ensures(T::modification_condition, (&conditions,), answer),
        Condition::Registration => call_ensures(T::registration_condition, (&conditions,), answer),
        Condition::Deregistration => call_ensures(T::deregistration_condition, (&conditions,), answer),
        Condition::Suspension => call_ensures(T::suspension_condition, (&conditions,), answer),
        Condition::Resumption => call_ensures(T::resumption_condition, (&conditions,), answer),
        Condition::Termination => call_ensures(T::termination_condition, (&conditions,), answer),
        Condition::Unsatisfiable => !answer,
    }
}

/// `allowed` is a verdict that `conditions` can give on `action` when its
///  [`conditions_for`] are asked in order: granted when every one answered `true`;
///  refused when one answered `false` after all those before it answered `true`.
pub open spec fn condition_verdict<T: AmsConditions>(conditions: T, action: ActionView, allowed: bool) -> bool {
    let required = conditions_for(action);
    if allowed {
        forall|k: int| 0 <= k < required.len() ==> condition_answer(conditions, #[trigger] required[k], true)
    } else {
        exists|k: int|
            0 <= k < required.len() && condition_answer(conditions, #[trigger] required[k], false)
                && forall|j: int| 0 <= j < k ==> condition_answer(conditions, #[trigger] required[j], true)
    }
}

/// The conditions that must all hold, checked in this order, for the AMS to grant `action`.
///  A modification is governed by the modification condition and then by the condition of
///  its modifier, read in lowercase ([`lowered_modifier`]).
pub open spec fn conditions_for(action: ActionView) -> Seq<Condition> {
    match action {
        ActionView::Search(_) => seq![Condition::Search],
        ActionView::Modify(_, modifier) => seq![Condition::Modification, modifier_condition(lowered_modifier(modifier))],
        ActionView::Register(_) => seq![Condition::Registration],
        ActionView::Deregister(_) => seq![Condition::Deregistration],
        ActionView::Other(_) => seq![Condition::Unsatisfiable],
    }
}

fn condition_of_modifier(modifier: &str) -> (condition: Condition)
    ensures
        condition == modifier_condition(modifier@),
{
    match parse_modifier(modifier) {
        Some(AgentState::Active) => Condition::Resumption,
        Some(AgentState::Suspended) => Condition::Suspension,
        Some(AgentState::Terminated) => Condition::Termination,
        _ => Condition::Unsatisfiable,
    }
}

/// The conditions that must all hold, in order, for the AMS to grant `action`.
pub fn required_conditions(action: &ActionType) -> (conditions: Vec<Condition>)
    ensures
        conditions@ == conditions_for(action@),
{
    let mut conditions: Vec<Condition> = Vec::new();
    match action {
        ActionType::Search(_) => conditions.push(Condition::Search),
        ActionType::Modify(_, modifier) => {
            conditions.push(Condition::Modification);
            let lowered = to_lowercase(modifier.as_str());
            conditions.push(condition_of_modifier(lowered.as_str()));
        },
        ActionType::Register(_) => conditions.push(Condition::Registration),
        ActionType::Deregister(_) => conditions.push(Condition::Deregistration),
        ActionType::Other(_) => conditions.push(Condition::Unsatisfiable),
    }
    assert(conditions@ =~= conditions_for(action@));
    conditions
}

/// What the runtime has to do after the AMS has served a request.
#[derive(Debug)]
pub enum AmsEffect {
    /// Nothing more.
    Nothing,
    /// Wake the thread of the resumed agent.
    Unpark(Description),
    /// Join the thread of the deregistered agent; if that thread panicked, the request
    ///  has failed with [`ErrorCode::AgentPanic`].
    ///  The control block is the agent's as it was when the agent left the directory: the
    ///  agent goes on reading it until its thread ends.
    Join(Description, ControlBlock),
}

/// How the AMS answers a message.
#[derive(Debug)]
pub enum RequestPlan {
    /// The message is not a request for an action: there is no answer.
    Ignore,
    /// The conditions do not allow the action: answer `NotUnderstood`.
    Decline,
    /// Answer `Agree`, perform the action, then answer `Inform` or `Refuse`.
    Accept(ActionType),
}

impl RequestPlan {
    /// The first answer the AMS sends: none for a message it ignores, `NotUnderstood` for a
    ///  declined request and `Agree` for an accepted one, before it performs the action.
    pub fn first_reply(&self) -> (reply: Option<MessageType>)
        ensures
            *self is Ignore ==> reply is None,
            *self is Decline ==> reply == Some(MessageType::NotUnderstood),
            *self is Accept ==> reply == Some(MessageType::Agree),
    {
        match self {
            RequestPlan::Ignore => None,
            RequestPlan::Decline => Some(MessageType::NotUnderstood),
            RequestPlan::Accept(_) => Some(MessageType::Agree),
        }
    }

    /// The action to perform between the two answers: that of an accepted request.
    pub fn action(&self) -> (action: Option<&ActionType>)
        ensures
            *self is Accept <==> action is Some,
            *self matches RequestPlan::Accept(accepted) ==> action == Some(&accepted),
    {
        match self {
            RequestPlan::Accept(accepted) => Some(accepted),
            _ => None,
        }
    }

    /// The answer the AMS sends once it has performed the action with `result`: `Inform`
    ///  when it succeeded and `Refuse` when it failed; none unless the request was accepted.
    pub fn final_reply(&self, result: &Result<(), ErrorCode>) -> (reply: Option<MessageType>)
        ensures
            !(*self is Accept) ==> reply is None,
            *self is Accept && result is Ok ==> reply == Some(MessageType::Inform),
            *self is Accept && result is Err ==> reply == Some(MessageType::Refuse),
    {
        match self {
            RequestPlan::Accept(_) => match result {
                Ok(()) => Some(MessageType::Inform),
                Err(_) => Some(MessageType::Refuse),
            },
            _ => None,
        }
    }
}

/// The Agent Management System: serves search, modification, registration and
///  deregistration requests on the platform directory.
#[derive(Debug)]
pub struct Ams<T: AmsConditions> {
    hap: String,
    conditions: T,
}

impl<T: AmsConditions> Ams<T> {
    /// The AMS of the platform `hap`.
    pub fn new(hap: &str, conditions: T) -> (ams: Self)
        ensures
            ams.hap() == hap@,
            ams.conditions() == conditions,
    {
        Ams { hap: hap.to_owned(), conditions }
    }

    /// The name of the platform the AMS serves.
    pub closed spec fn hap(&self) -> Seq<char> {
        self.hap@
    }

    /// The conditions on which the AMS grants requests.
    pub closed spec fn conditions(&self) -> T {
        self.conditions
    }

    /// The AMS's name: `ams@hap`.
    pub fn name(&self) -> (name: String)
        ensures
            name@ == "ams@"@ + self.hap(),
    {
        let mut name = String::from_str("ams@");
        name.append(self.hap.as_str());
        name
    }

    /// `Ok` when `aid` is registered, `Err(NotRegistered)` when it is not.
    pub fn search_agent(&self, deck: &Deck, aid: &Description) -> (res: Result<(), ErrorCode>)
        ensures
            registered(deck@.agents, aid@) ==> res is Ok,
            !registered(deck@.agents, aid@) ==> res == Err::<(), ErrorCode>(ErrorCode::NotRegistered),
    {
        deck.search_agent(aid)
    }

    /// Registration is not performed by the AMS: agents are registered when the platform
    ///  creates them. The request only succeeds for an agent that is registered already.
    pub fn register_agent(&self, deck: &Deck, aid: &Description) -> (res: Result<(), ErrorCode>)
        ensures
            registered(deck@.agents, aid@) ==> res is Ok,
            !registered(deck@.agents, aid@) ==> res == Err::<(), ErrorCode>(ErrorCode::NotRegistered),
    {
        deck.search_agent(aid)
    }

    /// Removes `aid` from the directory; its thread is then to be joined.
    pub fn deregister_agent(&self, deck: &mut Deck, aid: &Description) -> (res: Result<AmsEffect, ErrorCode>)
        ensures
            final(deck)@ == remove_outcome(old(deck)@, aid@).1,
            registered(old(deck)@.agents, aid@) ==> (res matches Ok(AmsEffect::Join(joined, block))
                && remove_outcome(old(deck)@, aid@).0 == Some(
                crate::deck::EntryView { aid: joined@, state: block@, ..remove_outcome(old(deck)@, aid@).0->0 },
            )),
            !registered(old(deck)@.agents, aid@) ==> (res matches Err(e) && e == ErrorCode::NotRegistered),
    {
        match deck.remove_agent(aid) {
            Ok(entry) => Ok(AmsEffect::Join(entry.aid().clone(), entry.control_block().clone())),
            Err(e) => Err(e),
        }
    }

    /// Terminates an active agent and deregisters it.
    pub fn terminate_agent(&self, deck: &mut Deck, aid: &Description) -> (res: Result<AmsEffect, ErrorCode>)
        ensures
            ({
                let (changed, after) = modify_outcome(old(deck)@, aid@, AgentState::Terminated);
                &&& changed matches Err(e) ==> (res matches Err(r) && r == e) && final(deck)@ == after
                &&& changed is Ok ==> final(deck)@ == remove_outcome(after, aid@).1 && (res matches Ok(
                    AmsEffect::Join(joined, block),
                ) && joined@.same_agent(aid@) && block@ == AgentState::Terminated)
            }),
    {
        let changed = deck.modify_agent(aid, AgentState::Terminated);
        match changed {
            Err(e) => Err(e),
            Ok(()) => {
                let ghost after = deck@;
                let res = self.deregister_agent(deck, aid);
                proof {
                    let i = crate::deck::position(old(deck)@.agents, aid@);
                    assert(after.agents[i].aid.same_agent(aid@));
                    assert(registered(after.agents, aid@));
                    let j = crate::deck::position(after.agents, aid@);
                    assert(after.agents[j].aid.same_agent(aid@));
                    if i != j {
                        assert(!after.agents[i].aid.same_agent(after.agents[j].aid));
                    }
                    assert(after.agents[j].state == AgentState::Terminated);
                }
                res
            },
        }
    }

    /// Suspends an active agent.
    pub fn suspend_agent(&self, deck: &mut Deck, aid: &Description) -> (res: Result<AmsEffect, ErrorCode>)
        ensures
            ({
                let (changed, after) = modify_outcome(old(deck)@, aid@, AgentState::Suspended);
                &&& final(deck)@ == after
                &&& changed matches Err(e) ==> (res matches Err(r) && r == e)
                &&& changed is Ok ==> (res matches Ok(AmsEffect::Nothing))
            }),
    {
        match deck.modify_agent(aid, AgentState::Suspended) {
            Ok(()) => Ok(AmsEffect::Nothing),
            Err(e) => Err(e),
        }
    }

    /// Resumes an agent that is neither active nor terminated; its thread is then to be woken.
    pub fn resume_agent(&self, deck: &mut Deck, aid: &Description) -> (res: Result<AmsEffect, ErrorCode>)
        ensures
            ({
                let (changed, after) = modify_outcome(old(deck)@, aid@, AgentState::Active);
                &&& final(deck)@ == after
                &&& changed matches Err(e) ==> (res matches Err(r) && r == e)
                &&& changed is Ok ==> (res matches Ok(AmsEffect::Unpark(woken)) && woken@ == aid@)
            }),
    {
        match deck.modify_agent(aid, AgentState::Active) {
            Ok(()) => Ok(AmsEffect::Unpark(aid.clone())),
            Err(e) => Err(e),
        }
    }

    /// Serves a modification request: `resume`, `suspend` or `terminate` (spelt exactly so).
    pub fn modify_agent(&self, deck: &mut Deck, aid: &Description, modifier: &str) -> (res: Result<
        AmsEffect,
        ErrorCode,
    >)
        ensures
            modifier_state(modifier@) is None ==> (res matches Err(e) && e == ErrorCode::InvalidContent)
                && final(deck)@ == old(deck)@,
            modifier_state(modifier@) matches Some(target) ==> ({
                let (changed, after) = modify_outcome(old(deck)@, aid@, target);
                &&& changed matches Err(e) ==> (res matches Err(r) && r == e) && final(deck)@ == after
                &&& changed is Ok && target == AgentState::Active ==> final(deck)@ == after && (res matches Ok(
                    AmsEffect::Unpark(woken),
                ) && woken@ == aid@)
                &&& changed is Ok && target == AgentState::Suspended ==> final(deck)@ == after
                    && (res matches Ok(AmsEffect::Nothing))
                &&& changed is Ok && target == AgentState::Terminated ==> final(deck)@ == remove_outcome(
                    after,
                    aid@,
                ).1 && (res matches Ok(AmsEffect::Join(joined, block)) && joined@.same_agent(aid@)
                    && block@ == AgentState::Terminated)
            }),
    {
        match parse_modifier(modifier) {
            Some(AgentState::Active) => self.resume_agent(deck, aid),
            Some(AgentState::Suspended) => self.suspend_agent(deck, aid),
            Some(AgentState::Terminated) => self.terminate_agent(deck, aid),
            _ => Err(ErrorCode::InvalidContent),
        }
    }

    /// Whether the condition `condition` holds now.
    pub fn holds(&self, condition: Condition) -> (holds: bool)
        ensures
            condition_answer(self.conditions(), condition, holds),
    {
        match condition {
            Condition::Search => self.conditions.search_condition(),
            Condition::Modification => self.conditions.modification_condition(),
            Condition::Registration => self.conditions.registration_condition(),
            Condition::Deregistration => self.conditions.deregistration_condition(),
            Condition::Suspension => self.conditions.suspension_condition(),
            Condition::Resumption => self.conditions.resumption_condition(),
            Condition::Termination => self.conditions.termination_condition(),
            Condition::Unsatisfiable => false,
        }
    }

    /// Whether the conditions allow a life cycle modification named `modifier` (spelt exactly
    ///  `resume`, `suspend` or `terminate`; anything else is refused).
    pub fn check_modification_conditions(&self, modifier: &str) -> (allowed: bool)
        ensures
            condition_answer(self.conditions(), modifier_condition(modifier@), allowed),
            modifier_state(modifier@) is None ==> !allowed,
    {
        self.holds(condition_of_modifier(modifier))
    }

    /// Whether the conditions allow the requested action: each of [`conditions_for`] the
    ///  action is checked in turn, and the first that does not hold refuses the action.
    pub fn check_conditions(&self, action: &ActionType) -> (allowed: bool)
        requires
            !(action@ is Other),
        ensures
            allowed ==> forall|k: int|
                0 <= k < conditions_for(action@).len() ==> condition_answer(
                    self.conditions(),
                    #[trigger] conditions_for(action@)[k],
                    true,
                ),
            !allowed ==> exists|k: int|
                0 <= k < conditions_for(action@).len() && condition_answer(
                    self.conditions(),
                    #[trigger] conditions_for(action@)[k],
                    false,
                ) && forall|j: int|
                    0 <= j < k ==> condition_answer(
                        self.conditions(),
                        #[trigger] conditions_for(action@)[j],
                        true,
                    ),
            allowed ==> !conditions_for(action@).contains(Condition::Unsatisfiable),
            condition_verdict(self.conditions(), action@, allowed),
    {
        let conditions = required_conditions(action);
        let mut i: usize = 0;
        while i < conditions.len()
            invariant
                i <= conditions@.len(),
                conditions@ == conditions_for(action@),
                forall|k: int| 0 <= k < i ==> conditions@[k] != Condition::Unsatisfiable,
                forall|k: int| 0 <= k < i ==> condition_answer(self.conditions(), #[trigger] conditions@[k], true),
            decreases conditions@.len() - i,
        {
            if !self.holds(conditions[i]) {
                assert(condition_answer(self.conditions(), conditions@[i as int], false));
                return false;
            }
            i = i + 1;
        }
        true
    }

    /// Performs a request on the directory.
    pub fn do_request(&self, deck: &mut Deck, request: &ActionType) -> (res: Result<AmsEffect, ErrorCode>)
        ensures
            request@ matches ActionView::Search(aid) ==> final(deck)@ == old(deck)@ && (registered(
                old(deck)@.agents,
                aid,
            ) ==> (res matches Ok(AmsEffect::Nothing))) && (!registered(old(deck)@.agents, aid) ==> (res matches Err(
                e,
            ) && e == ErrorCode::NotRegistered)),
            request@ matches ActionView::Register(aid) ==> final(deck)@ == old(deck)@ && (registered(
                old(deck)@.agents,
                aid,
            ) ==> (res matches Ok(AmsEffect::Nothing))) && (!registered(old(deck)@.agents, aid) ==> (res matches Err(
                e,
            ) && e == ErrorCode::NotRegistered)),
            request@ matches ActionView::Deregister(aid) ==> final(deck)@ == remove_outcome(old(deck)@, aid).1
                && (registered(old(deck)@.agents, aid) ==> (res matches Ok(AmsEffect::Join(joined, block))
                && joined@.same_agent(aid) && block@ == old(deck)@.agents[crate::deck::position(
                old(deck)@.agents,
                aid,
            )].state)) && (!registered(old(deck)@.agents, aid) ==> (res matches Err(e)
                && e == ErrorCode::NotRegistered)),
            request@ matches ActionView::Modify(aid, modifier) ==> (modifier_state(modifier) is None ==> (
            res matches Err(e) && e == ErrorCode::InvalidContent) && final(deck)@ == old(deck)@) && (
            modifier_state(modifier) matches Some(target) ==> ({
                let (changed, after) = modify_outcome(old(deck)@, aid, target);
                &&& changed matches Err(e) ==> (res matches Err(r) && r == e) && final(deck)@ == after
                &&& changed is Ok && target == AgentState::Active ==> final(deck)@ == after && (res matches Ok(
                    AmsEffect::Unpark(woken),
                ) && woken@ == aid)
                &&& changed is Ok && target == AgentState::Suspended ==> final(deck)@ == after
                    && (res matches Ok(AmsEffect::Nothing))
                &&& changed is Ok && target == AgentState::Terminated ==> final(deck)@ == remove_outcome(
                    after,
                    aid,
                ).1 && (res matches Ok(AmsEffect::Join(joined, block)) && joined@.same_agent(aid)
                    && block@ == AgentState::Terminated)
            })),
            request@ is Other ==> (res matches Err(e) && e == ErrorCode::InvalidRequest) && final(deck)@
                == old(deck)@,
    {
        match request {
            ActionType::Search(aid) => match self.search_agent(deck, aid) {
                Ok(()) => Ok(AmsEffect::Nothing),
                Err(e) => Err(e),
            },
            ActionType::Modify(aid, modifier) => self.modify_agent(deck, aid, modifier.as_str()),
            ActionType::Register(aid) => match self.register_agent(deck, aid) {
                Ok(()) => Ok(AmsEffect::Nothing),
                Err(e) => Err(e),
            },
            ActionType::Deregister(aid) => {
                let res = self.deregister_agent(deck, aid);
                proof {
                    if registered(old(deck)@.agents, aid@) {
                        let i = crate::deck::position(old(deck)@.agents, aid@);
                        assert(old(deck)@.agents[i].aid.same_agent(aid@));
                    }
                }
                res
            },
            ActionType::Other(_) => Err(ErrorCode::InvalidRequest),
        }
    }

    /// How a message is answered: a request for an action is accepted when the conditions
    ///  allow it and declined otherwise; anything else is not answered.
    pub fn process_request(&self, msg: &Message) -> (plan: RequestPlan)
        requires
            !(msg@.message_type == MessageType::Request && msg@.content matches ContentView::Action(
                ActionView::Other(_),
            )),
        ensures
            msg@.message_type != MessageType::Request ==> plan is Ignore,
            msg@.content is Expression ==> plan is Ignore,
            msg@.message_type == MessageType::Request ==> (msg@.content matches ContentView::Action(action) ==> (
            plan is Decline || (plan matches RequestPlan::Accept(accepted) && accepted@ == action))),
            msg@.message_type == MessageType::Request ==> (msg@.content matches ContentView::Action(action)
                && conditions_for(action).contains(Condition::Unsatisfiable) ==> plan is Decline),
            msg@.message_type == MessageType::Request ==> (msg@.content matches ContentView::Action(action)
                ==> (plan is Accept ==> condition_verdict(self.conditions(), action, true))),
            msg@.message_type == MessageType::Request ==> (msg@.content matches ContentView::Action(action)
                ==> (plan is Decline ==> condition_verdict(self.conditions(), action, false))),
    {
        if *msg.message_type() == MessageType::Request {
            match msg.content() {
                Content::Action(action) => {
                    if self.check_conditions(action) {
                        RequestPlan::Accept(action.clone())
                    } else {
                        RequestPlan::Decline
                    }
                },
                Content::Expression(_) => RequestPlan::Ignore,
            }
        } else {
            RequestPlan::Ignore
        }
    }

    /// The message with which the AMS answers `receiver`.
    pub fn request_reply(&self, deck: &Deck, receiver: Description, message_type: MessageType, content: Content) -> (msg: Message)
        requires
            deck@.ams is Some,
        ensures
            msg@.sender == deck@.ams->0,
            msg@.receiver == receiver@,
            msg@.message_type == message_type,
            msg@.content == content@,
    {
        let sender = deck.ams_aid().clone();
        Message::new(sender, receiver, message_type, content)
    }
}

/// Each condition is answered by its own method of the conditions: an answer to the search,
///  modification, registration, deregistration, suspension, resumption or termination
///  condition is exactly a result of `search_condition`, `modification_condition`,
///  `registration_condition`, `deregistration_condition`, `suspension_condition`,
///  `resumption_condition` or `termination_condition`; the unsatisfiable condition never holds.
pub proof fn conditions_answer_by_their_methods<T: AmsConditions>(conditions: T, answer: bool)
    ensures
        condition_answer(conditions, Condition::Search, answer) <==> call_ensures(
            T::search_condition,
            (&conditions,),
            answer,
        ),
        condition_answer(conditions, Condition::Modification, answer) <==> call_ensures(
            T::modification_condition,
            (&conditions,),
            answer,
        ),
        condition_answer(conditions, Condition::Registration, answer) <==> call_ensures(
            T::registration_condition,
            (&conditions,),
            answer,
        ),
        condition_answer(conditions, Condition::Deregistration, answer) <==> call_ensures(
            T::deregistration_condition,
            (&conditions,),
            answer,
        ),
        condition_answer(conditions, Condition::Suspension, answer) <==> call_ensures(
            T::suspension_condition,
            (&conditions,),
            answer,
        ),
        condition_answer(conditions, Condition::Resumption, answer) <==> call_ensures(
            T::resumption_condition,
            (&conditions,),
            answer,
        ),
        condition_answer(conditions, Condition::Termination, answer) <==> call_ensures(
            T::termination_condition,
            (&conditions,),
            answer,
        ),
        !condition_answer(conditions, Condition::Unsatisfiable, true),
{
}

/// The modifiers `resume`, `suspend` and `terminate` ask for the Active, Suspended and
///  Terminated states and are governed by the resumption, suspension and termination
///  conditions; every other modifier asks for no state and is governed by a condition that
///  never holds; the lowercase modifier read from the text `Resume`, `SUSPEND` or `Terminate`
///  is the lowercase word itself.
pub proof fn modifiers_name_their_conditions(modifier: Seq<char>)
    ensures
        modifier_state(modifier) == Some(AgentState::Active) <==> modifier == "resume"@,
        modifier_state(modifier) == Some(AgentState::Suspended) <==> modifier == "suspend"@,
        modifier_state(modifier) == Some(AgentState::Terminated) <==> modifier == "terminate"@,
        modifier_state(modifier) is None <==> (modifier != "resume"@ && modifier != "suspend"@
            && modifier != "terminate"@),
        modifier_condition(modifier) == Condition::Resumption <==> modifier == "resume"@,
        modifier_condition(modifier) == Condition::Suspension <==> modifier == "suspend"@,
        modifier_condition(modifier) == Condition::Termination <==> modifier == "terminate"@,
        modifier_condition(modifier) == Condition::Unsatisfiable <==> (modifier != "resume"@
            && modifier != "suspend"@ && modifier != "terminate"@),
        lowered_modifier("resume"@) == "resume"@,
        lowered_modifier("suspend"@) == "suspend"@,
        lowered_modifier("terminate"@) == "terminate"@,
        lowered_modifier("Resume"@) == "resume"@,
        lowered_modifier("SUSPEND"@) == "suspend"@,
        lowered_modifier("Terminate"@) == "terminate"@,
{
    reveal_strlit("resume");
    reveal_strlit("suspend");
    reveal_strlit("terminate");
    reveal_strlit("Resume");
    reveal_strlit("SUSPEND");
    reveal_strlit("Terminate");
    assert("resume"@ != "suspend"@ && "resume"@ != "terminate"@ && "suspend"@ != "terminate"@) by {
        assert("resume"@.len() != "suspend"@.len());
        assert("resume"@.len() != "terminate"@.len());
        assert("suspend"@.len() != "terminate"@.len());
    }
    assert(ascii_lowercase("resume"@) =~= "resume"@);
    assert(ascii_lowercase("suspend"@) =~= "suspend"@);
    assert(ascii_lowercase("terminate"@) =~= "terminate"@);
    assert(ascii_lowercase("Resume"@) =~= "resume"@);
    assert(ascii_lowercase("SUSPEND"@) =~= "suspend"@);
    assert(ascii_lowercase("Terminate"@) =~= "terminate"@);
}

/// A modification is granted only when the modification condition and then the condition of
///  its modifier answered `true`: when either of them can only answer `false` the request is
///  refused, and when both can only answer `true` it is granted. In particular a request to
///  `suspend` is governed by the suspension condition.
pub proof fn modification_needs_both_conditions<T: AmsConditions>(conditions: T, aid: AidView, modifier: Seq<char>)
    ensures
        condition_verdict(conditions, ActionView::Modify(aid, modifier), true) ==> call_ensures(
            T::modification_condition,
            (&conditions,),
            true,
        ),
        (forall|b: bool| call_ensures(T::modification_condition, (&conditions,), b) ==> !b)
            ==> !condition_verdict(conditions, ActionView::Modify(aid, modifier), true),
        lowered_modifier(modifier) == "suspend"@ ==> (condition_verdict(
            conditions,
            ActionView::Modify(aid, modifier),
            true,
        ) ==> call_ensures(T::suspension_condition, (&conditions,), true)),
        lowered_modifier(modifier) == "suspend"@ ==> ((forall|b: bool|
            call_ensures(T::modification_condition, (&conditions,), b) ==> b) && (forall|b: bool|
            call_ensures(T::suspension_condition, (&conditions,), b) ==> b)
            ==> !condition_verdict(conditions, ActionView::Modify(aid, modifier), false)),
{
    modifiers_name_their_conditions(lowered_modifier(modifier));
    let required = conditions_for(ActionView::Modify(aid, modifier));
    assert(required[0] == Condition::Modification);
    if lowered_modifier(modifier) == "suspend"@ {
        assert(required[1] == Condition::Suspension);
    }
}

} // verus!
