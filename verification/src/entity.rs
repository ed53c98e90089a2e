/// Base agent functionality.
pub mod agent;
/// Messaging related types and operations.
pub mod messaging;
/// Service related features.
pub mod service;

use vstd::prelude::*;

verus! {

/// The mathematical value of an agent identifier.
pub struct AidView {
    /// Left side of `nickname@hap`.
    pub nickname: Seq<char>,
    /// Host agent platform: right side of `nickname@hap`.
    pub hap: Seq<char>,
    /// Identifier of the thread that runs the entity, once it runs.
    pub id: Option<u64>,
}

impl AidView {
    /// The full name `nickname@hap`.
    #[verifier::opaque]
    pub open spec fn name(self) -> Seq<char> {
        self.nickname + seq!['@'] + self.hap
    }

    /// Two identifiers denote the same agent when nickname and platform agree;
    ///  the thread identifier plays no part.
    pub open spec fn same_agent(self, other: AidView) -> bool {
        self.nickname == other.nickname && self.hap == other.hap
    }
}

/// Agent Identifier (AID) that is unique to all entities across platforms.
///
/// Each AID has two different parameters:
/// - `Name` which is given with the format `nickname@hap`.
/// - `Id` which identifies the thread executing the entity, once it has been spawned.
#[derive(Debug, Hash)]
pub struct Description {
    nickname: String,
    hap: String,
    id: Option<u64>,
}

impl View for Description {
    type V = AidView;

    closed spec fn view(&self) -> AidView {
        AidView { nickname: self.nickname@, hap: self.hap@, id: self.id }
    }
}

impl Clone for Description {
    fn clone(&self) -> (res: Self)
        ensures
            res@ == self@,
    {
        Description { nickname: self.nickname.clone(), hap: self.hap.clone(), id: self.id }
    }
}

impl PartialEq for Description {
    fn eq(&self, other: &Self) -> (res: bool) {
        self.nickname == other.nickname && self.hap == other.hap
    }
}

impl Eq for Description {}

impl vstd::std_specs::cmp::PartialEqSpecImpl for Description {
    open spec fn obeys_eq_spec() -> bool {
        true
    }

    open spec fn eq_spec(&self, other: &Description) -> bool {
        self@.same_agent(other@)
    }
}

impl Description {
    /// Builds the identifier `nickname@hap` of an entity that is not running yet.
    pub fn new(nickname: &str, hap: &str) -> (aid: Self)
        ensures
            aid@ == (AidView { nickname: nickname@, hap: hap@, id: None }),
    {
        Description { nickname: nickname.to_owned(), hap: hap.to_owned(), id: None }
    }

    /// Return a `String` with the full name of the AID: `nickname@hap`.
    pub fn name(&self) -> (name: String)
        ensures
            name@ == self@.name(),
    {
        let mut name = self.nickname.clone();
        name.append("@");
        name.append(self.hap.as_str());
        proof {
            reveal_strlit("@");
            assert("@"@ =~= seq!['@']);
            reveal(AidView::name);
        }
        name
    }

    /// Same text as [`Description::name`]: the identifier as it is displayed.
    pub fn to_string(&self) -> (text: String)
        ensures
            text@ == self@.name(),
    {
        self.name()
    }

    /// Return a `&str` slice with the nickname of the name; the left side of nickname@hap.
    pub fn nickname(&self) -> (nickname: &str)
        ensures
            nickname@ == self@.nickname,
    {
        self.nickname.as_str()
    }

    /// Return a `&str` slice with name of the Host Agent Platform (HAP) of the name; the right side of nickname@hap.
    pub fn hap(&self) -> (hap: &str)
        ensures
            hap@ == self@.hap,
    {
        self.hap.as_str()
    }

    /// Return an `Option<u64>`: [`Some`] if the Entity is running and [`None`] if not.
    pub fn id(&self) -> (id: Option<u64>)
        ensures
            id == self@.id,
    {
        self.id
    }

    /// Records the identifier of the thread that runs the entity.
    pub fn set_id(&mut self, id: u64)
        ensures
            final(self)@ == (AidView { id: Some(id), ..old(self)@ }),
    {
        self.id = Some(id);
    }

    /// Whether `self` and `other` identify the same agent (same nickname and platform).
    pub fn same_agent(&self, other: &Description) -> (res: bool)
        ensures
            res == self@.same_agent(other@),
    {
        self.nickname == other.nickname && self.hap == other.hap
    }
}

} // verus!
