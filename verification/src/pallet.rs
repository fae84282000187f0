//! The operations of the module, on a state that one object owns.

use crate::config::{ConfigStore, ConfigView};
use crate::documents::{valid_documents, views, DocumentStore, DocumentsView};
use crate::roles::{strictly_increasing, valid_members, RegistryView, RoleRegistry};
use crate::state::{Call, State};
use crate::theorems::validity_is_preserved;
use crate::types::{
    AccountId,
    BlockNumber,
    CallerContext,
    Document,
    DocumentStatus,
    Error,
    Event,
    Roles,
    Vote,
    VoteKind,
    DEFAULT_VOTING_WINDOW,
};
use crate::voting::{valid_rounds, RoundsView, VotingEngine, VotingView};
use vstd::prelude::*;

verus! {

/// The length that the window of qualification rounds has until it is set.
#[allow(non_snake_case)]
pub fn DefaultQualificationVotingWindow() -> (w: u32)
    ensures
        w == 14400,
        w == ConfigView::defaults().qualification_window,
{
    DEFAULT_VOTING_WINDOW
}

/// The length that the window of verification rounds has until it is set.
#[allow(non_snake_case)]
pub fn DefaultVerificationVotingWindow() -> (w: u32)
    ensures
        w == 14400,
        w == ConfigView::defaults().verification_window,
{
    DEFAULT_VOTING_WINDOW
}

/// Every round of the list refers to one of the first `documents` document
/// ids.
pub open spec fn refer_within(rounds: Seq<Vote>, documents: nat) -> bool {
    forall|i: int| 0 <= i < rounds.len() ==> 1 <= (#[trigger] rounds[i]).document_id <= documents
}

/// The persisted state as plain values: the members of each role in
/// increasing order, the documents and the rounds of each kind in the order
/// of their ids, the six counters, and the two voting windows.
#[derive(Clone, Debug, PartialEq, Eq)]
pub struct Snapshot {
    pub qualifiers: Vec<AccountId>,
    pub collectors: Vec<AccountId>,
    pub contributors: Vec<AccountId>,
    pub documents: Vec<Document>,
    pub qualification_votes: Vec<Vote>,
    pub verification_votes: Vec<Vote>,
    pub qualifiers_count: u32,
    pub collectors_count: u32,
    pub contributors_count: u32,
    pub total_items: u64,
    pub qualification_votes_count: u64,
    pub verification_votes_count: u64,
    pub qualification_voting_window: u32,
    pub verification_voting_window: u32,
}

impl Snapshot {
    /// Every counter is the length of the list that it numbers.
    pub open spec fn counters_match(&self) -> bool {
        &&& self.qualifiers_count == self.qualifiers@.len()
        &&& self.collectors_count == self.collectors@.len()
        &&& self.contributors_count == self.contributors@.len()
        &&& self.total_items == self.documents@.len()
        &&& self.qualification_votes_count == self.qualification_votes@.len()
        &&& self.verification_votes_count == self.verification_votes@.len()
    }

    /// Whether the values describe a state of the module.
    pub open spec fn valid(&self) -> bool {
        &&& self.counters_match()
        &&& valid_members(self.qualifiers@)
        &&& valid_members(self.collectors@)
        &&& valid_members(self.contributors@)
        &&& valid_documents(views(self.documents@))
        &&& valid_rounds(self.qualification_votes@)
        &&& valid_rounds(self.verification_votes@)
        &&& refer_within(self.qualification_votes@, self.documents@.len())
        &&& refer_within(self.verification_votes@, self.documents@.len())
        &&& self.qualification_voting_window > 0
        &&& self.verification_voting_window > 0
    }

    /// The state that the values describe.
    pub open spec fn state(&self) -> State {
        State {
            roles: RegistryView::of_lists(self.qualifiers@, self.collectors@, self.contributors@),
            documents: DocumentsView::of_list(views(self.documents@)),
            voting: VotingView {
                qualification: RoundsView::of_list(self.qualification_votes@),
                verification: RoundsView::of_list(self.verification_votes@),
            },
            config: ConfigView {
                qualification_window: self.qualification_voting_window,
                verification_window: self.verification_voting_window,
            },
        }
    }
}

/// Whether every round of the list refers to one of the first `documents`
/// document ids.
fn check_references(rounds: &Vec<Vote>, documents: usize) -> (ok: bool)
    ensures
        ok == refer_within(rounds@, documents as nat),
{
    let mut i: usize = 0;
    while i < rounds.len()
        invariant
            i <= rounds.len(),
            forall|j: int| 0 <= j < i ==> 1 <= (#[trigger] rounds[j]).document_id <= documents,
        decreases rounds.len() - i,
    {
        let id = rounds[i].document_id;
        if id < 1 || id > documents as u64 {
            return false;
        }
        i = i + 1;
    }
    true
}

/// The role registry, the document store, the voting engine and the
/// configuration, together with the operations on them.
///
/// Every operation is atomic: it either succeeds and commits its whole
/// effect, or fails and leaves the state exactly as it was.
#[derive(Clone, Debug, PartialEq, Eq)]
pub struct Pallet {
    roles: RoleRegistry,
    documents: DocumentStore,
    voting: VotingEngine,
    config: ConfigStore,
}

impl View for Pallet {
    type V = State;

    closed spec fn view(&self) -> State {
        State {
            roles: self.roles@,
            documents: self.documents@,
            voting: self.voting@,
            config: self.config@,
        }
    }
}

impl Pallet {
    /// What the fields must satisfy beyond what the view shows.
    pub closed spec fn inv(&self) -> bool {
        &&& self.roles.inv()
        &&& self.documents.inv()
        &&& self.voting.inv()
    }

    pub open spec fn wf(&self) -> bool {
        self.inv() && self@.wf()
    }

    /// The module before the first call.
    pub fn new() -> (p: Pallet)
        ensures
            p.wf(),
            p@ == State::genesis(),
    {
        Pallet {
            roles: RoleRegistry::new(),
            documents: DocumentStore::new(),
            voting: VotingEngine::new(),
            config: ConfigStore::new(),
        }
    }

    /// The module in the state that a snapshot describes, if the snapshot is
    /// valid.
    pub fn restore(snapshot: Snapshot) -> (p: Option<Pallet>)
        ensures
            p is Some <==> snapshot.valid(),
            p matches Some(p) ==> p.wf() && p@ == snapshot.state(),
    {
        let n = snapshot.documents.len();
        if snapshot.qualifiers_count as u64 != snapshot.qualifiers.len() as u64
            || snapshot.collectors_count as u64 != snapshot.collectors.len() as u64
            || snapshot.contributors_count as u64 != snapshot.contributors.len() as u64
            || snapshot.total_items != n as u64 || snapshot.qualification_votes_count
            != snapshot.qualification_votes.len() as u64 || snapshot.verification_votes_count
            != snapshot.verification_votes.len() as u64 {
            return None;
        }
        if !check_references(&snapshot.qualification_votes, n) {
            return None;
        }
        if !check_references(&snapshot.verification_votes, n) {
            return None;
        }
        let roles = match RoleRegistry::restore(
            snapshot.qualifiers,
            snapshot.collectors,
            snapshot.contributors,
        ) {
            Some(roles) => roles,
            None => {
                return None;
            },
        };
        let documents = match DocumentStore::restore(snapshot.documents) {
            Some(documents) => documents,
            None => {
                return None;
            },
        };
        let voting = match VotingEngine::restore(
            snapshot.qualification_votes,
            snapshot.verification_votes,
        ) {
            Some(voting) => voting,
            None => {
                return None;
            },
        };
        let config = match ConfigStore::with_windows(
            snapshot.qualification_voting_window,
            snapshot.verification_voting_window,
        ) {
            Some(config) => config,
            None => {
                return None;
            },
        };
        let p = Pallet { roles, documents, voting, config };
        proof {
            let t = p@;
            assert forall|kind: VoteKind, id: u64| #[trigger]
                t.voting.rounds(kind).entries.contains_key(id)
                    implies t.documents.entries.contains_key(
                t.voting.rounds(kind).entries[id].document_id,
            ) by {
                match kind {
                    VoteKind::Qualification => {
                        assert(1 <= snapshot.qualification_votes@[id - 1].document_id <= n);
                    },
                    VoteKind::Verification => {
                        assert(1 <= snapshot.verification_votes@[id - 1].document_id <= n);
                    },
                }
            }
        }
        Some(p)
    }

    /// The state as plain values. Restoring the snapshot gives a module in
    /// the same state.
    pub fn snapshot(&self) -> (snapshot: Snapshot)
        requires
            self.wf(),
        ensures
            snapshot.valid(),
            snapshot.state() == self@,
    {
        let snapshot = Snapshot {
            qualifiers: self.roles.members(Roles::QualifierRole),
            collectors: self.roles.members(Roles::CollectorRole),
            contributors: self.roles.members(Roles::ContributorRole),
            documents: self.documents.list(),
            qualification_votes: self.voting.list(VoteKind::Qualification),
            verification_votes: self.voting.list(VoteKind::Verification),
            qualifiers_count: self.roles.count(Roles::QualifierRole),
            collectors_count: self.roles.count(Roles::CollectorRole),
            contributors_count: self.roles.count(Roles::ContributorRole),
            total_items: self.documents.total(),
            qualification_votes_count: self.voting.count(VoteKind::Qualification),
            verification_votes_count: self.voting.count(VoteKind::Verification),
            qualification_voting_window: self.config.window(VoteKind::Qualification),
            verification_voting_window: self.config.window(VoteKind::Verification),
        };
        proof {
            let s = self@;
            let n = snapshot.documents@.len();
            assert forall|i: int| 0 <= i < snapshot.qualification_votes@.len() implies 1 <= (
            #[trigger] snapshot.qualification_votes@[i]).document_id <= n by {
                let id = (i + 1) as u64;
                assert(s.voting.rounds(VoteKind::Qualification).entries.contains_key(id));
            }
            assert forall|i: int| 0 <= i < snapshot.verification_votes@.len() implies 1 <= (
            #[trigger] snapshot.verification_votes@[i]).document_id <= n by {
                let id = (i + 1) as u64;
                assert(s.voting.rounds(VoteKind::Verification).entries.contains_key(id));
            }
        }
        snapshot
    }

    /// The number of documents created so far, which is the id of the
    /// newest.
    pub fn get_total_items(&self) -> (n: u64)
        ensures
            n == self@.documents.count,
    {
        self.documents.total()
    }

    /// The number of qualifiers registered so far.
    pub fn qualifiers_uid_count(&self) -> (n: u32)
        requires
            self.wf(),
        ensures
            n == self@.roles.qualifiers_count,
    {
        self.roles.count(Roles::QualifierRole)
    }

    /// The number of collectors registered so far.
    pub fn collectors_uid_count(&self) -> (n: u32)
        requires
            self.wf(),
        ensures
            n == self@.roles.collectors_count,
    {
        self.roles.count(Roles::CollectorRole)
    }

    /// The number of contributors registered so far.
    pub fn contributors_uid_count(&self) -> (n: u32)
        requires
            self.wf(),
        ensures
            n == self@.roles.contributors_count,
    {
        self.roles.count(Roles::ContributorRole)
    }

    /// The number of qualification rounds opened so far.
    pub fn get_qualification_vote_count(&self) -> (n: u64)
        ensures
            n == self@.voting.qualification.count,
    {
        self.voting.count(VoteKind::Qualification)
    }

    /// The number of verification rounds opened so far.
    pub fn get_verification_vote_count(&self) -> (n: u64)
        ensures
            n == self@.voting.verification.count,
    {
        self.voting.count(VoteKind::Verification)
    }

    /// The window of qualification rounds.
    pub fn get_qualification_voting_window(&self) -> (w: u32)
        ensures
            w == self@.config.qualification_window,
    {
        self.config.window(VoteKind::Qualification)
    }

    /// The window of verification rounds.
    pub fn get_verification_voting_window(&self) -> (w: u32)
        ensures
            w == self@.config.verification_window,
    {
        self.config.window(VoteKind::Verification)
    }

    /// The document kept under `id`.
    pub fn get_document(&self, id: u64) -> (d: Option<&Document>)
        requires
            self.wf(),
        ensures
            d is Some <==> self@.documents.entries.contains_key(id),
            d matches Some(d) ==> d@ == self@.documents.entries[id],
    {
        self.documents.get(id)
    }

    /// The qualification round kept under `id`.
    pub fn get_qualification_vote(&self, id: u64) -> (v: Option<Vote>)
        requires
            self.wf(),
        ensures
            v == (if self@.voting.qualification.entries.contains_key(id) {
                Some(self@.voting.qualification.entries[id])
            } else {
                None
            }),
    {
        self.voting.get(VoteKind::Qualification, id)
    }

    /// The verification round kept under `id`.
    pub fn get_verification_vote(&self, id: u64) -> (v: Option<Vote>)
        requires
            self.wf(),
        ensures
            v == (if self@.voting.verification.entries.contains_key(id) {
                Some(self@.voting.verification.entries[id])
            } else {
                None
            }),
    {
        self.voting.get(VoteKind::Verification, id)
    }

    /// The qualifiers in increasing order.
    pub fn get_all_qualifiers(&self) -> (v: Vec<AccountId>)
        requires
            self.wf(),
        ensures
            strictly_increasing(v@),
            v@.to_set() == self@.roles.qualifiers,
    {
        self.roles.members(Roles::QualifierRole)
    }

    /// The collectors in increasing order.
    pub fn get_all_collectors(&self) -> (v: Vec<AccountId>)
        requires
            self.wf(),
        ensures
            strictly_increasing(v@),
            v@.to_set() == self@.roles.collectors,
    {
        self.roles.members(Roles::CollectorRole)
    }

    /// The contributors in increasing order.
    pub fn get_all_contributors(&self) -> (v: Vec<AccountId>)
        requires
            self.wf(),
        ensures
            strictly_increasing(v@),
            v@.to_set() == self@.roles.contributors,
    {
        self.roles.members(Roles::ContributorRole)
    }

    /// Registers `who` in `role` and reports the id assigned.
    ///
    /// Fails with `BadOrigin` unless the caller is privileged, with the
    /// role's `...AlreadyExists` if `who` is a member of the role already,
    /// and with `Overflow` if the role has handed out all its ids.
    pub fn register_role(&mut self, caller: CallerContext, role: Roles, who: AccountId) -> (r:
        Result<Event, Error>)
        requires
            old(self).wf(),
        ensures
            final(self).wf(),
            r == old(self)@.register_role_result(caller, role, who),
            final(self)@ == old(self)@.register_role(caller, role, who),
    {
        match caller {
            CallerContext::Privileged => {},
            CallerContext::Identified(_) => {
                return Err(Error::BadOrigin);
            },
        }
        match self.roles.register(role, who) {
            Ok(id) => Ok(role.added(who, id)),
            Err(e) => Err(e),
        }
    }

    /// Registers `who` as a qualifier; see [`Pallet::register_role`].
    pub fn add_qualifier(&mut self, caller: CallerContext, who: AccountId) -> (r: Result<
        Event,
        Error,
    >)
        requires
            old(self).wf(),
        ensures
            final(self).wf(),
            r == old(self)@.register_role_result(caller, Roles::QualifierRole, who),
            final(self)@ == old(self)@.register_role(caller, Roles::QualifierRole, who),
    {
        self.register_role(caller, Roles::QualifierRole, who)
    }

    /// Registers `who` as a collector; see [`Pallet::register_role`].
    pub fn add_collector(&mut self, caller: CallerContext, who: AccountId) -> (r: Result<
        Event,
        Error,
    >)
        requires
            old(self).wf(),
        ensures
            final(self).wf(),
            r == old(self)@.register_role_result(caller, Roles::CollectorRole, who),
            final(self)@ == old(self)@.register_role(caller, Roles::CollectorRole, who),
    {
        self.register_role(caller, Roles::CollectorRole, who)
    }

    /// Registers `who` as a contributor; see [`Pallet::register_role`].
    pub fn add_contributor(&mut self, caller: CallerContext, who: AccountId) -> (r: Result<
        Event,
        Error,
    >)
        requires
            old(self).wf(),
        ensures
            final(self).wf(),
            r == old(self)@.register_role_result(caller, Roles::ContributorRole, who),
            final(self)@ == old(self)@.register_role(caller, Roles::ContributorRole, who),
    {
        self.register_role(caller, Roles::ContributorRole, who)
    }

    /// Stores a new document of the calling contributor in status
    /// `Submitted`, under the next document id.
    ///
    /// Fails with `BadOrigin` if the caller is no account, with
    /// `NotAContributor` if the account is no registered contributor, with
    /// the error of the first empty field in the order title, description,
    /// format, hash, and with `Overflow` if all document ids are spent.
    pub fn create_document(
        &mut self,
        caller: CallerContext,
        title: Vec<u8>,
        description: Vec<u8>,
        format: Vec<u8>,
        hash: Vec<u8>,
    ) -> (r: Result<Event, Error>)
        requires
            old(self).wf(),
        ensures
            final(self).wf(),
            r == old(self)@.create_document_result(
                caller,
                title@,
                description@,
                format@,
                hash@,
            ),
            final(self)@ == old(self)@.create_document(
                caller,
                title@,
                description@,
                format@,
                hash@,
            ),
    {
        let who = match caller {
            CallerContext::Identified(who) => who,
            CallerContext::Privileged => {
                return Err(Error::BadOrigin);
            },
        };
        if !self.roles.is_member(Roles::ContributorRole, who) {
            return Err(Error::NotAContributor);
        }
        match self.documents.create(who, title, description, format, hash) {
            Ok(id) => Ok(Event::DocumentCreated(who, id)),
            Err(e) => Err(e),
        }
    }

    /// Opens a round of `kind` on document `document_id` at time `now`, and
    /// moves the document into the status that follows.
    ///
    /// Fails with `BadOrigin` unless the caller is privileged, with
    /// `DocumentNotFound` if there is no such document, with the kind's
    /// refusal if the document is not in the status that the kind requires,
    /// and with `Overflow` if all round ids of the kind are spent or the end
    /// of the round would not fit in 64 bits.
    pub fn create_voting(
        &mut self,
        kind: VoteKind,
        caller: CallerContext,
        document_id: u64,
        now: BlockNumber,
    ) -> (r: Result<(Event, Event), Error>)
        requires
            old(self).wf(),
        ensures
            final(self).wf(),
            r == old(self)@.create_voting_result(kind, caller, document_id, now),
            final(self)@ == old(self)@.create_voting(kind, caller, document_id, now),
    {
        match caller {
            CallerContext::Privileged => {},
            CallerContext::Identified(_) => {
                return Err(Error::BadOrigin);
            },
        }
        let status = match self.documents.status_of(document_id) {
            Some(status) => status,
            None => {
                return Err(Error::DocumentNotFound);
            },
        };
        if status != kind.required_status() {
            return Err(kind.refusal());
        }
        let window = self.config.window(kind);
        let round = match self.voting.open_round(kind, document_id, now, window) {
            Ok(round) => round,
            Err(e) => {
                return Err(e);
            },
        };
        let opened = kind.opened_status();
        self.documents.put_status(document_id, opened);
        proof {
            validity_is_preserved(old(self)@, caller, Call::CreateVoting { kind, document_id, now });
        }
        Ok((kind.started(round), Event::DocumentStatusUpdated(document_id, opened.code())))
    }

    /// Opens a qualification round on a `Submitted` document, which becomes
    /// `UnderReview`; see [`Pallet::create_voting`].
    pub fn create_qualification_voting(
        &mut self,
        caller: CallerContext,
        document_id: u64,
        now: BlockNumber,
    ) -> (r: Result<(Event, Event), Error>)
        requires
            old(self).wf(),
        ensures
            final(self).wf(),
            r == old(self)@.create_voting_result(
                VoteKind::Qualification,
                caller,
                document_id,
                now,
            ),
            final(self)@ == old(self)@.create_voting(
                VoteKind::Qualification,
                caller,
                document_id,
                now,
            ),
    {
        self.create_voting(VoteKind::Qualification, caller, document_id, now)
    }

    /// Opens a verification round on a document in `SuccessfulReview`, which
    /// becomes `VoteInProgress`; see [`Pallet::create_voting`].
    pub fn create_verification_voting(
        &mut self,
        caller: CallerContext,
        document_id: u64,
        now: BlockNumber,
    ) -> (r: Result<(Event, Event), Error>)
        requires
            old(self).wf(),
        ensures
            final(self).wf(),
            r == old(self)@.create_voting_result(
                VoteKind::Verification,
                caller,
                document_id,
                now,
            ),
            final(self)@ == old(self)@.create_voting(
                VoteKind::Verification,
                caller,
                document_id,
                now,
            ),
    {
        self.create_voting(VoteKind::Verification, caller, document_id, now)
    }

    /// Replaces the voting window of `kind`.
    ///
    /// Fails with `BadOrigin` unless the caller is privileged, and with
    /// `VotingWindowNotValid` if `window` is 0.
    pub fn set_voting_window(&mut self, kind: VoteKind, caller: CallerContext, window: u32) -> (r:
        Result<Event, Error>)
        requires
            old(self).wf(),
        ensures
            final(self).wf(),
            r == old(self)@.set_voting_window_result(kind, caller, window),
            final(self)@ == old(self)@.set_voting_window(kind, caller, window),
    {
        match caller {
            CallerContext::Privileged => {},
            CallerContext::Identified(_) => {
                return Err(Error::BadOrigin);
            },
        }
        match self.config.set_window(kind, window) {
            Ok(()) => Ok(kind.window_changed(window)),
            Err(e) => Err(e),
        }
    }

    /// Replaces the window of qualification rounds; see
    /// [`Pallet::set_voting_window`].
    pub fn set_qualification_voting_window(&mut self, caller: CallerContext, window: u32) -> (r:
        Result<Event, Error>)
        requires
            old(self).wf(),
        ensures
            final(self).wf(),
            r == old(self)@.set_voting_window_result(VoteKind::Qualification, caller, window),
            final(self)@ == old(self)@.set_voting_window(VoteKind::Qualification, caller, window),
    {
        self.set_voting_window(VoteKind::Qualification, caller, window)
    }

    /// Replaces the window of verification rounds; see
    /// [`Pallet::set_voting_window`].
    pub fn set_verification_voting_window(&mut self, caller: CallerContext, window: u32) -> (r:
        Result<Event, Error>)
        requires
            old(self).wf(),
        ensures
            final(self).wf(),
            r == old(self)@.set_voting_window_result(VoteKind::Verification, caller, window),
            final(self)@ == old(self)@.set_voting_window(VoteKind::Verification, caller, window),
    {
        self.set_voting_window(VoteKind::Verification, caller, window)
    }

    /// Whether `who` is a registered contributor.
    pub fn ensure_contributor(&self, who: AccountId) -> (b: bool)
        requires
            self.wf(),
        ensures
            b == self@.roles.contributors.contains(who),
    {
        self.roles.is_member(Roles::ContributorRole, who)
    }

    /// Whether `who` is a registered collector.
    pub fn ensure_collector(&self, who: AccountId) -> (b: bool)
        requires
            self.wf(),
        ensures
            b == self@.roles.collectors.contains(who),
    {
        self.roles.is_member(Roles::CollectorRole, who)
    }

    /// Whether `who` is a registered qualifier.
    pub fn ensure_qualifier(&self, who: AccountId) -> (b: bool)
        requires
            self.wf(),
        ensures
            b == self@.roles.qualifiers.contains(who),
    {
        self.roles.is_member(Roles::QualifierRole, who)
    }

    /// Administrative override: puts document `document_uid` into the status
    /// that the code `status` stands for, whatever its status was. A code
    /// that stands for no status leaves the document as it is. Either way
    /// the notification carries the code as given.
    ///
    /// Fails with `BadOrigin` unless the caller is privileged, and with
    /// `DocumentNotFound` if there is no such document.
    pub fn update_document_status(
        &mut self,
        caller: CallerContext,
        document_uid: u64,
        status: u8,
    ) -> (r: Result<Event, Error>)
        requires
            old(self).wf(),
        ensures
            final(self).wf(),
            r == old(self)@.update_document_status_result(caller, document_uid, status),
            final(self)@ == old(self)@.update_document_status(caller, document_uid, status),
    {
        match caller {
            CallerContext::Privileged => {},
            CallerContext::Identified(_) => {
                return Err(Error::BadOrigin);
            },
        }
        if self.documents.status_of(document_uid).is_none() {
            return Err(Error::DocumentNotFound);
        }
        match DocumentStatus::from_code(status) {
            Some(to) => {
                self.documents.put_status(document_uid, to);
                proof {
                    validity_is_preserved(
                        old(self)@,
                        caller,
                        Call::UpdateDocumentStatus { document_id: document_uid, code: status },
                    );
                }
            },
            None => {},
        }
        Ok(Event::DocumentStatusUpdated(document_uid, status))
    }
}

} // verus!
