//! Role membership: three sorted sets of accounts, each with the counter
//! that numbers its members.

use crate::counter::SequenceCounter;
use crate::types::{AccountId, Error, Roles};
use vstd::prelude::*;

verus! {

/// Every element is smaller than all that come after it.
pub open spec fn strictly_increasing(s: Seq<AccountId>) -> bool {
    forall|i: int, j: int| 0 <= i < j < s.len() ==> s[i] < s[j]
}

/// A strictly increasing sequence holds as many elements as its set.
pub proof fn lemma_increasing_len(s: Seq<AccountId>)
    requires
        strictly_increasing(s),
    ensures
        s.no_duplicates(),
        s.to_set().finite(),
        s.to_set().len() == s.len(),
{
    assert forall|i: int, j: int| 0 <= i < s.len() && 0 <= j < s.len() && i != j implies s[i]
        != s[j] by {
        if i < j {
            assert(s[i] < s[j]);
        } else {
            assert(s[j] < s[i]);
        }
    }
    s.unique_seq_to_set();
    vstd::seq_lib::seq_to_set_is_finite(s);
}

/// A set of accounts, kept as a sorted list without duplicates.
#[derive(Clone, Debug, PartialEq, Eq)]
pub struct RoleSet {
    members: Vec<AccountId>,
}

impl View for RoleSet {
    type V = Set<AccountId>;

    /// The accounts in the set.
    closed spec fn view(&self) -> Set<AccountId> {
        self.members@.to_set()
    }
}

impl RoleSet {
    /// The members in increasing order.
    pub closed spec fn sorted_members(&self) -> Seq<AccountId> {
        self.members@
    }

    pub open spec fn wf(&self) -> bool {
        &&& strictly_increasing(self.sorted_members())
        &&& self@ == self.sorted_members().to_set()
        &&& self@.finite()
        &&& self@.len() == self.sorted_members().len()
    }

    pub fn new() -> (s: RoleSet)
        ensures
            s.wf(),
            s@ == Set::<AccountId>::empty(),
    {
        let s = RoleSet { members: Vec::new() };
        proof {
            lemma_increasing_len(s.members@);
        }
        s
    }

    /// Takes over a list of members, if it is strictly increasing.
    pub fn from_sorted(members: Vec<AccountId>) -> (s: Option<RoleSet>)
        ensures
            s is Some <==> strictly_increasing(members@),
            s matches Some(s) ==> s.wf() && s.sorted_members() == members@,
    {
        let n = members.len();
        let mut i: usize = 1;
        while i < n
            invariant
                n == members.len(),
                1 <= i,
                forall|a: int, b: int| 0 <= a < b < i && b < n ==> members[a] < members[b],
            decreases n - i,
        {
            if members[i - 1] >= members[i] {
                return None;
            }
            proof {
                assert forall|a: int, b: int| 0 <= a < b < i + 1 && b < n implies members[a]
                    < members[b] by {
                    if b == i && a < i - 1 {
                        assert(members[a] < members[i - 1]);
                    }
                }
            }
            i = i + 1;
        }
        proof {
            lemma_increasing_len(members@);
        }
        Some(RoleSet { members })
    }

    /// The number of members.
    pub fn len(&self) -> (n: usize)
        requires
            self.wf(),
        ensures
            n == self@.len(),
    {
        self.members.len()
    }

    /// Binary search for `who` among the sorted members: `Ok` with the index
    /// at which it stands, or `Err` with the index at which it would have to
    /// be put in.
    pub fn search(&self, who: AccountId) -> (r: Result<usize, usize>)
        requires
            self.wf(),
        ensures
            match r {
                Ok(i) => i < self.sorted_members().len() && self.sorted_members()[i as int]
                    == who,
                Err(i) => {
                    &&& i <= self.sorted_members().len()
                    &&& forall|j: int| 0 <= j < i ==> self.sorted_members()[j] < who
                    &&& forall|j: int|
                        i <= j < self.sorted_members().len() ==> who < self.sorted_members()[j]
                },
            },
            r is Ok <==> self@.contains(who),
    {
        let mut lo: usize = 0;
        let mut hi: usize = self.members.len();
        while lo < hi
            invariant
                lo <= hi <= self.members.len(),
                strictly_increasing(self.members@),
                forall|j: int| 0 <= j < lo ==> self.members[j] < who,
                forall|j: int| hi <= j < self.members.len() ==> who < self.members[j],
            decreases hi - lo,
        {
            let mid = lo + (hi - lo) / 2;
            let x = self.members[mid];
            if x == who {
                return Ok(mid);
            } else if x < who {
                lo = mid + 1;
            } else {
                hi = mid;
            }
        }
        proof {
            if self.members@.contains(who) {
                let j = choose|j: int| 0 <= j < self.members@.len() && self.members@[j] == who;
            }
        }
        Err(lo)
    }

    /// Whether `who` is a member.
    pub fn contains(&self, who: AccountId) -> (b: bool)
        requires
            self.wf(),
        ensures
            b == self@.contains(who),
    {
        match self.search(who) {
            Ok(_) => true,
            Err(_) => false,
        }
    }

    /// Puts `who` into the set. Returns `false`, and changes nothing, if it
    /// was a member already.
    pub fn insert(&mut self, who: AccountId) -> (added: bool)
        requires
            old(self).wf(),
        ensures
            final(self).wf(),
            added == !old(self)@.contains(who),
            final(self)@ == old(self)@.insert(who),
            !added ==> *final(self) == *old(self),
    {
        match self.search(who) {
            Ok(_) => false,
            Err(at) => {
                let ghost before = self.members@;
                self.members.insert(at, who);
                proof {
                    let after = self.members@;
                    assert forall|j: int| 0 <= j < after.len() implies after[j] == (if j < at {
                        before[j]
                    } else if j == at {
                        who
                    } else {
                        before[j - 1]
                    }) by {}
                    assert forall|i: int, j: int| 0 <= i < j < after.len() implies after[i]
                        < after[j] by {}
                    assert(after.to_set() =~= before.to_set().insert(who)) by {
                        assert forall|x: AccountId| after.to_set().contains(x)
                            <==> before.to_set().insert(who).contains(x) by {
                            if after.contains(x) {
                                let j = choose|j: int| 0 <= j < after.len() && after[j] == x;
                                if j < at {
                                    assert(before[j] == x);
                                } else if j > at {
                                    assert(before[j - 1] == x);
                                }
                            }
                            if before.contains(x) {
                                let j = choose|j: int| 0 <= j < before.len() && before[j] == x;
                                if j < at {
                                    assert(after[j] == x);
                                } else {
                                    assert(after[j + 1] == x);
                                }
                            }
                            if x == who {
                                assert(after[at as int] == x);
                            }
                        }
                    }
                    lemma_increasing_len(after);
                }
                true
            },
        }
    }

    /// The members in increasing order.
    pub fn members(&self) -> (v: Vec<AccountId>)
        requires
            self.wf(),
        ensures
            v@ == self.sorted_members(),
            strictly_increasing(v@),
            v@.to_set() == self@,
            v@.len() == self@.len(),
    {
        let mut v: Vec<AccountId> = Vec::new();
        let mut i: usize = 0;
        while i < self.members.len()
            invariant
                i <= self.members.len(),
                v@ == self.members@.subrange(0, i as int),
            decreases self.members.len() - i,
        {
            v.push(self.members[i]);
            i = i + 1;
        }
        v
    }
}


/// A list that can be the members of a role: strictly increasing, and no
/// longer than the ids of a role reach.
pub open spec fn valid_members(s: Seq<AccountId>) -> bool {
    strictly_increasing(s) && s.len() <= u32::MAX
}

/// What a [`RoleRegistry`] holds: the members of each role and how many ids
/// each role has handed out.
#[verifier::ext_equal]
pub struct RegistryView {
    pub qualifiers: Set<AccountId>,
    pub collectors: Set<AccountId>,
    pub contributors: Set<AccountId>,
    pub qualifiers_count: nat,
    pub collectors_count: nat,
    pub contributors_count: nat,
}

/// The error that reports a second registration in `role`.
pub open spec fn already_exists(role: Roles) -> Error {
    match role {
        Roles::QualifierRole => Error::QualifierAlreadyExists,
        Roles::CollectorRole => Error::CollectorAlreadyExists,
        Roles::ContributorRole => Error::ContributorAlreadyExists,
    }
}

impl RegistryView {
    /// No members in any role.
    pub open spec fn empty() -> RegistryView {
        RegistryView {
            qualifiers: Set::empty(),
            collectors: Set::empty(),
            contributors: Set::empty(),
            qualifiers_count: 0,
            collectors_count: 0,
            contributors_count: 0,
        }
    }

    pub open spec fn members(self, role: Roles) -> Set<AccountId> {
        match role {
            Roles::QualifierRole => self.qualifiers,
            Roles::CollectorRole => self.collectors,
            Roles::ContributorRole => self.contributors,
        }
    }

    pub open spec fn count(self, role: Roles) -> nat {
        match role {
            Roles::QualifierRole => self.qualifiers_count,
            Roles::CollectorRole => self.collectors_count,
            Roles::ContributorRole => self.contributors_count,
        }
    }

    /// Every role has handed out exactly one id per member, and no more ids
    /// than fit in 32 bits.
    pub open spec fn wf(self) -> bool {
        forall|role: Roles|
            {
                &&& (#[trigger] self.members(role)).finite()
                &&& self.count(role) == self.members(role).len()
                &&& self.count(role) <= u32::MAX
            }
    }

    /// The registry whose roles have the listed members, each role having
    /// handed out one id per member.
    pub open spec fn of_lists(
        qualifiers: Seq<AccountId>,
        collectors: Seq<AccountId>,
        contributors: Seq<AccountId>,
    ) -> RegistryView {
        RegistryView {
            qualifiers: qualifiers.to_set(),
            collectors: collectors.to_set(),
            contributors: contributors.to_set(),
            qualifiers_count: qualifiers.len(),
            collectors_count: collectors.len(),
            contributors_count: contributors.len(),
        }
    }

    /// The registry after `who` has joined `role` and taken its next id.
    pub open spec fn enrolled(self, role: Roles, who: AccountId) -> RegistryView {
        match role {
            Roles::QualifierRole => RegistryView {
                qualifiers: self.qualifiers.insert(who),
                qualifiers_count: self.qualifiers_count + 1,
                ..self
            },
            Roles::CollectorRole => RegistryView {
                collectors: self.collectors.insert(who),
                collectors_count: self.collectors_count + 1,
                ..self
            },
            Roles::ContributorRole => RegistryView {
                contributors: self.contributors.insert(who),
                contributors_count: self.contributors_count + 1,
                ..self
            },
        }
    }

    /// The outcome of registering `who` in `role`: the id assigned, or the
    /// reason for the refusal.
    pub open spec fn register_result(self, role: Roles, who: AccountId) -> Result<u32, Error> {
        if self.members(role).contains(who) {
            Err(already_exists(role))
        } else if self.count(role) >= u32::MAX {
            Err(Error::Overflow)
        } else {
            Ok((self.count(role) + 1) as u32)
        }
    }

    /// The registry after an attempt to register `who` in `role`.
    pub open spec fn register(self, role: Roles, who: AccountId) -> RegistryView {
        if self.register_result(role, who) is Ok {
            self.enrolled(role, who)
        } else {
            self
        }
    }
}

/// The three role sets with their counters.
#[derive(Clone, Debug, PartialEq, Eq)]
pub struct RoleRegistry {
    qualifiers: RoleSet,
    collectors: RoleSet,
    contributors: RoleSet,
    qualifiers_count: SequenceCounter,
    collectors_count: SequenceCounter,
    contributors_count: SequenceCounter,
}

impl View for RoleRegistry {
    type V = RegistryView;

    closed spec fn view(&self) -> RegistryView {
        RegistryView {
            qualifiers: self.qualifiers@,
            collectors: self.collectors@,
            contributors: self.contributors@,
            qualifiers_count: self.qualifiers_count.value(),
            collectors_count: self.collectors_count.value(),
            contributors_count: self.contributors_count.value(),
        }
    }
}

/// Registers `who` in one role set: refuses with `taken` if it is a member,
/// with `Overflow` if the counter is spent, and else inserts it and assigns
/// the counter's next id.
fn enroll(
    set: &mut RoleSet,
    counter: &mut SequenceCounter,
    who: AccountId,
    taken: Error,
) -> (r: Result<u32, Error>)
    requires
        old(set).wf(),
        old(counter).wf(),
        old(counter).limit() == u32::MAX,
        old(counter).value() == old(set)@.len(),
    ensures
        final(set).wf(),
        final(counter).wf(),
        final(counter).limit() == u32::MAX,
        final(counter).value() == final(set)@.len(),
        r == (if old(set)@.contains(who) {
            Err::<u32, Error>(taken)
        } else if old(counter).value() >= u32::MAX {
            Err(Error::Overflow)
        } else {
            Ok((old(counter).value() + 1) as u32)
        }),
        r is Ok ==> final(set)@ == old(set)@.insert(who) && final(counter).value() == old(
            counter,
        ).value() + 1,
        r is Err ==> *final(set) == *old(set) && *final(counter) == *old(counter),
{
    if set.contains(who) {
        return Err(taken);
    }
    match counter.next() {
        Err(e) => Err(e),
        Ok(id) => {
            set.insert(who);
            Ok(id as u32)
        },
    }
}

/// One role set with its counter, from the list of its members.
fn resume(members: Vec<AccountId>) -> (r: Option<(RoleSet, SequenceCounter)>)
    ensures
        r is Some <==> valid_members(members@),
        r matches Some((set, counter)) ==> {
            &&& set.wf()
            &&& set@ == members@.to_set()
            &&& set@.len() == members@.len()
            &&& counter.wf()
            &&& counter.limit() == u32::MAX
            &&& counter.value() == members@.len()
        },
{
    let n = members.len();
    if n as u64 > 0xffff_ffff {
        return None;
    }
    let set = match RoleSet::from_sorted(members) {
        Some(set) => set,
        None => {
            return None;
        },
    };
    match SequenceCounter::resume(n as u64, 0xffff_ffff) {
        Some(counter) => Some((set, counter)),
        None => None,
    }
}

impl RoleRegistry {
    /// What the fields must satisfy beyond what the view shows.
    pub closed spec fn inv(&self) -> bool {
        &&& self.qualifiers.wf()
        &&& self.collectors.wf()
        &&& self.contributors.wf()
        &&& self.qualifiers_count.wf()
        &&& self.collectors_count.wf()
        &&& self.contributors_count.wf()
        &&& self.qualifiers_count.limit() == u32::MAX
        &&& self.collectors_count.limit() == u32::MAX
        &&& self.contributors_count.limit() == u32::MAX
    }

    pub open spec fn wf(&self) -> bool {
        self.inv() && self@.wf()
    }

    /// A registry without members.
    pub fn new() -> (r: RoleRegistry)
        ensures
            r.wf(),
            r@ == RegistryView::empty(),
    {
        let r = RoleRegistry {
            qualifiers: RoleSet::new(),
            collectors: RoleSet::new(),
            contributors: RoleSet::new(),
            qualifiers_count: SequenceCounter::narrow(),
            collectors_count: SequenceCounter::narrow(),
            contributors_count: SequenceCounter::narrow(),
        };
        proof {
            assert forall|role: Roles|
                {
                    &&& (#[trigger] r@.members(role)).finite()
                    &&& r@.count(role) == r@.members(role).len()
                    &&& r@.count(role) <= u32::MAX
                } by {}
        }
        r
    }

    /// The registry with the listed members, if each list is strictly
    /// increasing and has at most `u32::MAX` entries.
    pub fn restore(
        qualifiers: Vec<AccountId>,
        collectors: Vec<AccountId>,
        contributors: Vec<AccountId>,
    ) -> (r: Option<RoleRegistry>)
        ensures
            r is Some <==> valid_members(qualifiers@) && valid_members(collectors@)
                && valid_members(contributors@),
            r matches Some(r) ==> r.wf() && r@ == RegistryView::of_lists(
                qualifiers@,
                collectors@,
                contributors@,
            ),
    {
        let (qualifiers, qualifiers_count) = match resume(qualifiers) {
            Some(pair) => pair,
            None => {
                return None;
            },
        };
        let (collectors, collectors_count) = match resume(collectors) {
            Some(pair) => pair,
            None => {
                return None;
            },
        };
        let (contributors, contributors_count) = match resume(contributors) {
            Some(pair) => pair,
            None => {
                return None;
            },
        };
        let r = RoleRegistry {
            qualifiers,
            collectors,
            contributors,
            qualifiers_count,
            collectors_count,
            contributors_count,
        };
        proof {
            assert forall|role: Roles|
                {
                    &&& (#[trigger] r@.members(role)).finite()
                    &&& r@.count(role) == r@.members(role).len()
                    &&& r@.count(role) <= u32::MAX
                } by {}
        }
        Some(r)
    }

    /// Registers `who` in `role`.
    ///
    /// Fails with the role's `...AlreadyExists` if `who` is a member of that
    /// role, and with `Overflow` if the role has handed out all its ids.
    /// Otherwise `who` joins the role and is assigned the role's next id.
    pub fn register(&mut self, role: Roles, who: AccountId) -> (r: Result<u32, Error>)
        requires
            old(self).wf(),
        ensures
            final(self).wf(),
            r == old(self)@.register_result(role, who),
            final(self)@ == old(self)@.register(role, who),
    {
        let r = match role {
            Roles::QualifierRole => enroll(
                &mut self.qualifiers,
                &mut self.qualifiers_count,
                who,
                Error::QualifierAlreadyExists,
            ),
            Roles::CollectorRole => enroll(
                &mut self.collectors,
                &mut self.collectors_count,
                who,
                Error::CollectorAlreadyExists,
            ),
            Roles::ContributorRole => enroll(
                &mut self.contributors,
                &mut self.contributors_count,
                who,
                Error::ContributorAlreadyExists,
            ),
        };
        proof {
            let v = self@;
            assert forall|q: Roles|
                {
                    &&& (#[trigger] v.members(q)).finite()
                    &&& v.count(q) == v.members(q).len()
                    &&& v.count(q) <= u32::MAX
                } by {
                assert(old(self)@.members(q).finite());
            }
        }
        r
    }

    /// Whether `who` is a member of `role`.
    pub fn is_member(&self, role: Roles, who: AccountId) -> (b: bool)
        requires
            self.wf(),
        ensures
            b == self@.members(role).contains(who),
    {
        match role {
            Roles::QualifierRole => self.qualifiers.contains(who),
            Roles::CollectorRole => self.collectors.contains(who),
            Roles::ContributorRole => self.contributors.contains(who),
        }
    }

    /// The number of ids that `role` has handed out.
    pub fn count(&self, role: Roles) -> (n: u32)
        requires
            self.wf(),
        ensures
            n == self@.count(role),
    {
        match role {
            Roles::QualifierRole => self.qualifiers_count.current() as u32,
            Roles::CollectorRole => self.collectors_count.current() as u32,
            Roles::ContributorRole => self.contributors_count.current() as u32,
        }
    }

    /// The members of `role` in increasing order.
    pub fn members(&self, role: Roles) -> (v: Vec<AccountId>)
        requires
            self.wf(),
        ensures
            strictly_increasing(v@),
            v@.to_set() == self@.members(role),
            v@.len() == self@.count(role),
    {
        match role {
            Roles::QualifierRole => self.qualifiers.members(),
            Roles::CollectorRole => self.collectors.members(),
            Roles::ContributorRole => self.contributors.members(),
        }
    }
}

} // verus!
