use crate::entity::service::ServiceConditions;
use crate::entity::{AidView, Description};
use crate::{ErrorCode, MAX_SUBSCRIBERS};
use vstd::prelude::*;

verus! {

/// Conditions under which an organization provides its services.
pub trait OrgConditions: ServiceConditions {}

/// How an agent is affiliated to an organization.
#[derive(Debug, Clone, Copy, PartialEq, Eq, Structural)]
pub enum OrgAffiliation {
    /// Owns the organization.
    Owner,
    /// Administers the organization.
    Admin,
    /// Belongs to the organization.
    Member,
    /// Does not belong to the organization.
    NonMember,
}

/// The role an agent plays in an organization.
#[derive(Debug, Clone, Copy, PartialEq, Eq, Structural)]
pub enum OrgRole {
    /// Moderates the organization.
    Moderator,
    /// Takes part in the organization.
    Participant,
    /// Visits the organization.
    Visitor,
    /// Has no role.
    NoRole,
}

/// How an organization is structured.
#[derive(Debug, Clone, Copy, PartialEq, Eq, Structural, Default)]
pub enum OrgType {
    /// Members are ranked.
    Hierarchy,
    /// Members are peers. Default value.
    #[default]
    Team,
}

/// No two identifiers in `aids` denote the same agent.
pub open spec fn distinct_agents(aids: Seq<AidView>) -> bool {
    forall|i: int, j: int|
        0 <= i < aids.len() && 0 <= j < aids.len() && i != j ==> !(#[trigger] aids[i]).same_agent(
            #[trigger] aids[j],
        )
}

/// Some identifier in `aids` denotes the agent `aid`.
pub open spec fn includes(aids: Seq<AidView>, aid: AidView) -> bool {
    exists|i: int| 0 <= i < aids.len() && (#[trigger] aids[i]).same_agent(aid)
}

/// The mathematical value of an organization's record.
pub struct OrgRecordView {
    /// The members, oldest first.
    pub members: Seq<AidView>,
    /// The banned agents.
    pub banned: Seq<AidView>,
    /// The owner.
    pub owner: Option<AidView>,
    /// The administrator.
    pub admin: Option<AidView>,
    /// The moderator.
    pub moderator: Option<AidView>,
}

/// Who belongs to an organization and who holds its offices.
#[derive(Debug)]
pub struct OrgRecord {
    members: Vec<Description>,
    banned: Vec<Description>,
    owner: Option<Description>,
    admin: Option<Description>,
    moderator: Option<Description>,
}

spec fn aid_views(aids: Seq<Description>) -> Seq<AidView> {
    aids.map_values(|aid: Description| aid@)
}

/// The view of an optional identifier.
pub open spec fn optional_view(aid: Option<Description>) -> Option<AidView> {
    match aid {
        Some(aid) => Some(aid@),
        None => None,
    }
}

impl View for OrgRecord {
    type V = OrgRecordView;

    closed spec fn view(&self) -> OrgRecordView {
        OrgRecordView {
            members: aid_views(self.members@),
            banned: aid_views(self.banned@),
            owner: optional_view(self.owner),
            admin: optional_view(self.admin),
            moderator: optional_view(self.moderator),
        }
    }
}

impl OrgRecord {
    #[verifier::type_invariant]
    closed spec fn members_are_distinct(&self) -> bool {
        &&& distinct_agents(aid_views(self.members@))
        &&& distinct_agents(aid_views(self.banned@))
    }

    /// A record with no members and no office holders.
    pub fn new() -> (record: Self)
        ensures
            record@.members == Seq::<AidView>::empty(),
            distinct_agents(record@.members),
            distinct_agents(record@.banned),
            record@.banned == Seq::<AidView>::empty(),
            record@.owner is None,
            record@.admin is None,
            record@.moderator is None,
    {
        let record = OrgRecord {
            members: Vec::with_capacity(MAX_SUBSCRIBERS),
            banned: Vec::with_capacity(MAX_SUBSCRIBERS),
            owner: None,
            admin: None,
            moderator: None,
        };
        assert(record@.members =~= Seq::<AidView>::empty());
        assert(record@.banned =~= Seq::<AidView>::empty());
        record
    }

    /// Makes `aid` the moderator and hands back the previous one.
    pub fn set_moderator(&mut self, aid: Description) -> (previous: Option<Description>)
        ensures
            distinct_agents(final(self)@.banned),
            distinct_agents(final(self)@.members),
            final(self)@ == (OrgRecordView { moderator: Some(aid@), ..old(self)@ }),
            optional_view(previous) == old(self)@.moderator,
    {
        proof {
            use_type_invariant(&*self);
        }
        let mut previous = Some(aid);
        std::mem::swap(&mut previous, &mut self.moderator);
        previous
    }

    /// Stores `aid` in the moderator slot, like [`OrgRecord::set_moderator`], and hands
    ///  back the previous moderator; the owner slot is left as it is.
    pub fn set_owner(&mut self, aid: Description) -> (previous: Option<Description>)
        ensures
            distinct_agents(final(self)@.banned),
            distinct_agents(final(self)@.members),
            final(self)@ == (OrgRecordView { moderator: Some(aid@), ..old(self)@ }),
            optional_view(previous) == old(self)@.moderator,
    {
        proof {
            use_type_invariant(&*self);
        }
        let mut previous = Some(aid);
        std::mem::swap(&mut previous, &mut self.moderator);
        previous
    }

    fn member_index(&self, aid: &Description) -> (index: Option<usize>)
        ensures
            match index {
                Some(i) => i < self@.members.len() && self@.members[i as int].same_agent(aid@),
                None => !includes(self@.members, aid@),
            },
    {
        let mut i: usize = 0;
        while i < self.members.len()
            invariant
                i <= self.members@.len(),
                self@.members.len() == self.members@.len(),
                forall|k: int| 0 <= k < i ==> !(#[trigger] self@.members[k]).same_agent(aid@),
            decreases self.members@.len() - i,
        {
            assert(self@.members[i as int] == self.members@[i as int]@);
            if self.members[i].same_agent(aid) {
                return Some(i);
            }
            i = i + 1;
        }
        None
    }

    /// Adds a member that does not belong to the organization yet.
    pub fn add_member(&mut self, aid: Description) -> (res: Result<(), ErrorCode>)
        ensures
            distinct_agents(final(self)@.banned),
            distinct_agents(final(self)@.members),
            includes(old(self)@.members, aid@) ==> res == Err::<(), ErrorCode>(ErrorCode::Duplicated)
                && final(self)@ == old(self)@,
            !includes(old(self)@.members, aid@) ==> res == Ok::<(), ErrorCode>(()) && final(self)@ == (
            OrgRecordView { members: old(self)@.members.push(aid@), ..old(self)@ }),
    {
        proof {
            use_type_invariant(&*self);
        }
        if self.member_index(&aid).is_some() {
            Err(ErrorCode::Duplicated)
        } else {
            let ghost old_members = self@.members;
            let ghost added = aid@;
            let mut members: Vec<Description> = Vec::new();
            std::mem::swap(&mut members, &mut self.members);
            members.push(aid);
            proof {
                let pushed = old_members.push(added);
                assert(aid_views(members@) =~= pushed);
                assert forall|i: int, j: int|
                    0 <= i < pushed.len() && 0 <= j < pushed.len() && i != j implies !(
                    #[trigger] pushed[i]).same_agent(#[trigger] pushed[j]) by {
                    if i == old_members.len() as int {
                        assert(!old_members[j].same_agent(added));
                    } else if j == old_members.len() as int {
                        assert(!old_members[i].same_agent(added));
                    } else {
                        assert(pushed[i] == old_members[i] && pushed[j] == old_members[j]);
                    }
                }
            }
            self.members = members;
            Ok(())
        }
    }

    /// Removes a member of the organization.
    pub fn remove_member(&mut self, aid: Description) -> (res: Result<(), ErrorCode>)
        ensures
            distinct_agents(final(self)@.banned),
            distinct_agents(final(self)@.members),
            !includes(old(self)@.members, aid@) ==> res == Err::<(), ErrorCode>(ErrorCode::NotFound)
                && final(self)@ == old(self)@,
            includes(old(self)@.members, aid@) ==> res == Ok::<(), ErrorCode>(()) && !includes(
                final(self)@.members,
                aid@,
            ) && final(self)@.members.len() == old(self)@.members.len() - 1 && (forall|b: AidView|
                !b.same_agent(aid@) ==> (includes(final(self)@.members, b) <==> includes(
                    old(self)@.members,
                    b,
                ))) && final(self)@ == (OrgRecordView { members: final(self)@.members, ..old(self)@ }),
    {
        proof {
            use_type_invariant(&*self);
        }
        match self.member_index(&aid) {
            None => Err(ErrorCode::NotFound),
            Some(i) => {
                let ghost old_members = self@.members;
                let mut members: Vec<Description> = Vec::new();
                std::mem::swap(&mut members, &mut self.members);
                members.remove(i);
                proof {
                    let removed = old_members.remove(i as int);
                    assert(aid_views(members@) =~= removed);
                    assert forall|a: int, b: int|
                        0 <= a < removed.len() && 0 <= b < removed.len() && a != b implies !(
                        #[trigger] removed[a]).same_agent(#[trigger] removed[b]) by {
                        let oa = if a < i { a } else { a + 1 };
                        let ob = if b < i { b } else { b + 1 };
                        assert(removed[a] == old_members[oa]);
                        assert(removed[b] == old_members[ob]);
                    }
                    assert forall|k: int| 0 <= k < removed.len() implies !(#[trigger] removed[k]).same_agent(
                        aid@,
                    ) by {
                        let ok = if k < i { k } else { k + 1 };
                        assert(removed[k] == old_members[ok]);
                        assert(old_members[ok].same_agent(aid@) ==> old_members[ok].same_agent(
                            old_members[i as int],
                        ));
                    }
                    assert forall|other: AidView| !other.same_agent(aid@) implies (includes(removed, other)
                        <==> includes(old_members, other)) by {
                        if includes(old_members, other) {
                            let k = choose|k: int| 0 <= k < old_members.len() && (#[trigger] old_members[k]).same_agent(other);
                            assert(k != i);
                            let rk = if k < i { k } else { k - 1 };
                            assert(removed[rk] == old_members[k]);
                        }
                        if includes(removed, other) {
                            let k = choose|k: int| 0 <= k < removed.len() && (#[trigger] removed[k]).same_agent(other);
                            let ok = if k < i { k } else { k + 1 };
                            assert(removed[k] == old_members[ok]);
                        }
                    }
                }
                self.members = members;
                Ok(())
            },
        }
    }
}

/// An organization of agents: a service with its own record of members and offices.
#[derive(Debug)]
pub struct Organization<T: OrgConditions> {
    nickname: String,
    hap: String,
    org_type: OrgType,
    record: OrgRecord,
    conditions: T,
}

impl<T: OrgConditions> Organization<T> {
    /// An organization named `nickname@hap` with an empty record.
    pub fn new(nickname: &str, hap: &str, org_type: OrgType, conditions: T) -> (org: Self)
        ensures
            org.nickname_view() == nickname@,
            org.hap_view() == hap@,
            org.conditions() == conditions,
            org.org_type() == org_type,
            org.record()@.members == Seq::<AidView>::empty(),
            org.record()@.banned == Seq::<AidView>::empty(),
            org.record()@.owner is None,
            org.record()@.admin is None,
            org.record()@.moderator is None,
    {
        Organization {
            nickname: nickname.to_owned(),
            hap: hap.to_owned(),
            org_type,
            record: OrgRecord::new(),
            conditions,
        }
    }

    /// The conditions on which the organization provides its services.
    pub closed spec fn conditions(&self) -> T {
        self.conditions
    }

    /// How the organization is structured.
    pub closed spec fn org_type(&self) -> OrgType {
        self.org_type
    }

    /// The organization's record.
    pub closed spec fn record(&self) -> OrgRecord {
        self.record
    }

    /// The organization's name: `nickname@hap`.
    pub fn name(&self) -> (name: String)
        ensures
            name@ == self.nickname_view() + seq!['@'] + self.hap_view(),
    {
        let mut name = self.nickname.clone();
        name.append("@");
        name.append(self.hap.as_str());
        proof {
            reveal_strlit("@");
            assert("@"@ =~= seq!['@']);
        }
        name
    }

    /// Left side of the organization's name.
    pub closed spec fn nickname_view(&self) -> Seq<char> {
        self.nickname@
    }

    /// Right side of the organization's name.
    pub closed spec fn hap_view(&self) -> Seq<char> {
        self.hap@
    }
}

} // verus!
