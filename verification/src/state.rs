//! The state machine in mathematical terms: the whole state as one value,
//! and each operation as a function from the state before and the call's
//! arguments to the result and the state after.

use crate::config::ConfigView;
use crate::documents::DocumentsView;
use crate::roles::RegistryView;
use crate::types::{
    AccountId,
    BlockNumber,
    CallerContext,
    DocumentStatus,
    Error,
    Event,
    Roles,
    VoteKind,
};
use crate::voting::VotingView;
use vstd::prelude::*;

verus! {

/// Everything the module keeps between calls.
#[verifier::ext_equal]
pub struct State {
    pub roles: RegistryView,
    pub documents: DocumentsView,
    pub voting: VotingView,
    pub config: ConfigView,
}

impl State {
    /// The state before the first call: no members, no documents, no rounds,
    /// default windows.
    pub open spec fn genesis() -> State {
        State {
            roles: RegistryView::empty(),
            documents: DocumentsView::empty(),
            voting: VotingView::empty(),
            config: ConfigView::defaults(),
        }
    }

    /// Every round refers to a document that exists.
    pub open spec fn rounds_refer_to_documents(self) -> bool {
        forall|kind: VoteKind, id: u64| #[trigger]
            self.voting.rounds(kind).entries.contains_key(id)
                ==> self.documents.entries.contains_key(
                self.voting.rounds(kind).entries[id].document_id,
            )
    }

    /// The invariant of the state machine.
    pub open spec fn wf(self) -> bool {
        &&& self.roles.wf()
        &&& self.documents.wf()
        &&& self.voting.wf()
        &&& self.config.wf()
        &&& self.rounds_refer_to_documents()
    }

    /// The result of `register_role`.
    ///
    /// Only the privileged caller may register; the rest is decided by the
    /// registry.
    pub open spec fn register_role_result(
        self,
        caller: CallerContext,
        role: Roles,
        who: AccountId,
    ) -> Result<Event, Error> {
        if caller != CallerContext::Privileged {
            Err(Error::BadOrigin)
        } else {
            match self.roles.register_result(role, who) {
                Ok(id) => Ok(role.spec_added(who, id)),
                Err(e) => Err(e),
            }
        }
    }

    /// The state after `register_role`.
    pub open spec fn register_role(self, caller: CallerContext, role: Roles, who: AccountId) -> State {
        if self.register_role_result(caller, role, who) is Ok {
            State { roles: self.roles.enrolled(role, who), ..self }
        } else {
            self
        }
    }

    /// The result of `create_document`.
    ///
    /// The caller must be an account that is a registered contributor; then
    /// the four fields are checked in turn, and then the document counter.
    pub open spec fn create_document_result(
        self,
        caller: CallerContext,
        title: Seq<u8>,
        description: Seq<u8>,
        format: Seq<u8>,
        hash: Seq<u8>,
    ) -> Result<Event, Error> {
        match caller {
            CallerContext::Privileged => Err(Error::BadOrigin),
            CallerContext::Identified(who) => {
                if !self.roles.contributors.contains(who) {
                    Err(Error::NotAContributor)
                } else {
                    match self.documents.create_result(title, description, format, hash) {
                        Ok(id) => Ok(Event::DocumentCreated(who, id)),
                        Err(e) => Err(e),
                    }
                }
            },
        }
    }

    /// The state after `create_document`.
    pub open spec fn create_document(
        self,
        caller: CallerContext,
        title: Seq<u8>,
        description: Seq<u8>,
        format: Seq<u8>,
        hash: Seq<u8>,
    ) -> State {
        match (caller, self.create_document_result(caller, title, description, format, hash)) {
            (CallerContext::Identified(who), Ok(_)) => State {
                documents: self.documents.create(who, title, description, format, hash),
                ..self
            },
            _ => self,
        }
    }

    /// The result of `create_qualification_voting` and
    /// `create_verification_voting`: the notifications that the round has
    /// started and that the document has changed its status.
    ///
    /// Only the privileged caller may open a round. The document must exist
    /// and be in the status that the kind requires. The round takes the next
    /// id of its kind and runs from `now` for the configured window.
    pub open spec fn create_voting_result(
        self,
        kind: VoteKind,
        caller: CallerContext,
        document_id: u64,
        now: BlockNumber,
    ) -> Result<(Event, Event), Error> {
        if caller != CallerContext::Privileged {
            Err(Error::BadOrigin)
        } else {
            match self.documents.status_of(document_id) {
                None => Err(Error::DocumentNotFound),
                Some(status) => {
                    if status != kind.spec_required_status() {
                        Err(kind.spec_refusal())
                    } else {
                        match self.voting.rounds(kind).open_result(
                            now,
                            self.config.window(kind),
                        ) {
                            Ok(round) => Ok(
                                (
                                    kind.spec_started(round),
                                    Event::DocumentStatusUpdated(
                                        document_id,
                                        kind.spec_opened_status().spec_code(),
                                    ),
                                ),
                            ),
                            Err(e) => Err(e),
                        }
                    }
                },
            }
        }
    }

    /// The state after `create_qualification_voting` and
    /// `create_verification_voting`.
    pub open spec fn create_voting(
        self,
        kind: VoteKind,
        caller: CallerContext,
        document_id: u64,
        now: BlockNumber,
    ) -> State {
        if self.create_voting_result(kind, caller, document_id, now) is Ok {
            State {
                voting: self.voting.open(kind, document_id, now, self.config.window(kind)),
                documents: self.documents.set_status(document_id, kind.spec_opened_status()),
                ..self
            }
        } else {
            self
        }
    }

    /// The result of `set_qualification_voting_window` and
    /// `set_verification_voting_window`.
    pub open spec fn set_voting_window_result(
        self,
        kind: VoteKind,
        caller: CallerContext,
        window: u32,
    ) -> Result<Event, Error> {
        if caller != CallerContext::Privileged {
            Err(Error::BadOrigin)
        } else if window == 0 {
            Err(Error::VotingWindowNotValid)
        } else {
            Ok(kind.spec_window_changed(window))
        }
    }

    /// The state after `set_qualification_voting_window` and
    /// `set_verification_voting_window`.
    pub open spec fn set_voting_window(
        self,
        kind: VoteKind,
        caller: CallerContext,
        window: u32,
    ) -> State {
        if self.set_voting_window_result(kind, caller, window) is Ok {
            State { config: self.config.set_window(kind, window), ..self }
        } else {
            self
        }
    }

    /// The result of `update_document_status`. The code travels in the
    /// notification as it was given.
    pub open spec fn update_document_status_result(
        self,
        caller: CallerContext,
        document_id: u64,
        code: u8,
    ) -> Result<Event, Error> {
        if caller != CallerContext::Privileged {
            Err(Error::BadOrigin)
        } else if !self.documents.entries.contains_key(document_id) {
            Err(Error::DocumentNotFound)
        } else {
            Ok(Event::DocumentStatusUpdated(document_id, code))
        }
    }

    /// The state after `update_document_status`: the document takes the
    /// status that the code stands for, whatever its status was; a code that
    /// stands for no status leaves it as it is.
    pub open spec fn update_document_status(
        self,
        caller: CallerContext,
        document_id: u64,
        code: u8,
    ) -> State {
        match (
            self.update_document_status_result(caller, document_id, code),
            DocumentStatus::spec_from_code(code),
        ) {
            (Ok(_), Some(status)) => State {
                documents: self.documents.set_status(document_id, status),
                ..self
            },
            _ => self,
        }
    }
}


/// One call of an operation, without its caller.
pub enum Call {
    RegisterRole { role: Roles, who: AccountId },
    CreateDocument { title: Seq<u8>, description: Seq<u8>, format: Seq<u8>, hash: Seq<u8> },
    CreateVoting { kind: VoteKind, document_id: u64, now: BlockNumber },
    SetVotingWindow { kind: VoteKind, window: u32 },
    UpdateDocumentStatus { document_id: u64, code: u8 },
}

/// The six sequences of ids: the members of each role, the documents, and
/// the rounds of each kind.
pub enum Sequence {
    Members(Roles),
    Documents,
    Rounds(VoteKind),
}

impl Call {
    /// Whether the call, when it succeeds, takes an id from sequence `q`.
    pub open spec fn draws_from(self, q: Sequence) -> bool {
        match (self, q) {
            (Call::RegisterRole { role, .. }, Sequence::Members(r)) => role == r,
            (Call::CreateDocument { .. }, Sequence::Documents) => true,
            (Call::CreateVoting { kind, .. }, Sequence::Rounds(k)) => kind == k,
            _ => false,
        }
    }
}

/// A call together with its caller.
pub struct Step {
    pub caller: CallerContext,
    pub call: Call,
}

impl State {
    /// What a call returns: the notifications in the order in which they are
    /// emitted, or the error.
    pub open spec fn outcome(self, caller: CallerContext, call: Call) -> Result<Seq<Event>, Error> {
        match call {
            Call::RegisterRole { role, who } => match self.register_role_result(caller, role, who) {
                Ok(e) => Ok(seq![e]),
                Err(e) => Err(e),
            },
            Call::CreateDocument { title, description, format, hash } => match self.create_document_result(
                caller,
                title,
                description,
                format,
                hash,
            ) {
                Ok(e) => Ok(seq![e]),
                Err(e) => Err(e),
            },
            Call::CreateVoting { kind, document_id, now } => match self.create_voting_result(
                kind,
                caller,
                document_id,
                now,
            ) {
                Ok((started, updated)) => Ok(seq![started, updated]),
                Err(e) => Err(e),
            },
            Call::SetVotingWindow { kind, window } => match self.set_voting_window_result(
                kind,
                caller,
                window,
            ) {
                Ok(e) => Ok(seq![e]),
                Err(e) => Err(e),
            },
            Call::UpdateDocumentStatus { document_id, code } => match self.update_document_status_result(
                caller,
                document_id,
                code,
            ) {
                Ok(e) => Ok(seq![e]),
                Err(e) => Err(e),
            },
        }
    }

    /// The state after a call.
    pub open spec fn apply(self, caller: CallerContext, call: Call) -> State {
        match call {
            Call::RegisterRole { role, who } => self.register_role(caller, role, who),
            Call::CreateDocument { title, description, format, hash } => self.create_document(
                caller,
                title,
                description,
                format,
                hash,
            ),
            Call::CreateVoting { kind, document_id, now } => self.create_voting(
                kind,
                caller,
                document_id,
                now,
            ),
            Call::SetVotingWindow { kind, window } => self.set_voting_window(kind, caller, window),
            Call::UpdateDocumentStatus { document_id, code } => self.update_document_status(
                caller,
                document_id,
                code,
            ),
        }
    }

    /// The id that sequence `q` has assigned last, 0 if none.
    pub open spec fn counter(self, q: Sequence) -> nat {
        match q {
            Sequence::Members(role) => self.roles.count(role),
            Sequence::Documents => self.documents.count,
            Sequence::Rounds(kind) => self.voting.rounds(kind).count,
        }
    }

    /// Whether a call succeeds and takes an id from sequence `q`.
    pub open spec fn assigns(self, caller: CallerContext, call: Call, q: Sequence) -> bool {
        call.draws_from(q) && self.outcome(caller, call) is Ok
    }

    /// How many of the calls in `steps`, made one after the other, succeed
    /// and take an id from sequence `q`.
    pub open spec fn assignments(self, steps: Seq<Step>, q: Sequence) -> nat
        decreases steps.len(),
    {
        if steps.len() == 0 {
            0
        } else {
            let so_far = self.assignments(steps.drop_last(), q);
            if self.run(steps.drop_last()).assigns(steps.last().caller, steps.last().call, q) {
                so_far + 1
            } else {
                so_far
            }
        }
    }

    /// The state after a sequence of calls, made one after the other.
    pub open spec fn run(self, steps: Seq<Step>) -> State
        decreases steps.len(),
    {
        if steps.len() == 0 {
            self
        } else {
            self.run(steps.drop_last()).apply(steps.last().caller, steps.last().call)
        }
    }
}

} // verus!
