//! Plain data shared by every component: identities, statuses, records,
//! notifications and errors.

use vstd::prelude::*;

verus! {

/// Identity of an account. Accounts are totally ordered by their number.
pub type AccountId = u64;

/// Logical time, as counted by the surrounding ledger.
pub type BlockNumber = u64;

/// Length of a voting window when none was configured.
pub const DEFAULT_VOTING_WINDOW: u32 = 14400;

/// Who invokes an operation.
#[derive(Clone, Copy, Debug, PartialEq, Eq, Structural)]
pub enum CallerContext {
    /// The administrative capability.
    Privileged,
    /// An ordinary account acting under its own authority.
    Identified(AccountId),
}

/// A membership category.
#[derive(Clone, Copy, Debug, PartialEq, Eq, Structural)]
pub enum Roles {
    QualifierRole,
    CollectorRole,
    ContributorRole,
}

impl Roles {
    /// The notification that `who` has joined this role under `id`.
    pub open spec fn spec_added(self, who: AccountId, id: u32) -> Event {
        match self {
            Roles::QualifierRole => Event::QualifierAdded(who, id),
            Roles::CollectorRole => Event::CollectorAdded(who, id),
            Roles::ContributorRole => Event::ContributorAdded(who, id),
        }
    }

    #[verifier::when_used_as_spec(spec_added)]
    pub fn added(self, who: AccountId, id: u32) -> (e: Event)
        ensures
            e == self.spec_added(who, id),
    {
        match self {
            Roles::QualifierRole => Event::QualifierAdded(who, id),
            Roles::CollectorRole => Event::CollectorAdded(who, id),
            Roles::ContributorRole => Event::ContributorAdded(who, id),
        }
    }
}

/// The two kinds of voting round.
#[derive(Clone, Copy, Debug, PartialEq, Eq, Structural)]
pub enum VoteKind {
    Qualification,
    Verification,
}

impl VoteKind {
    /// The status that a document must have for a round of this kind to be
    /// opened on it.
    pub open spec fn spec_required_status(self) -> DocumentStatus {
        match self {
            VoteKind::Qualification => DocumentStatus::Submitted,
            VoteKind::Verification => DocumentStatus::SuccessfulReview,
        }
    }

    /// The status into which opening a round of this kind puts the document.
    pub open spec fn spec_opened_status(self) -> DocumentStatus {
        match self {
            VoteKind::Qualification => DocumentStatus::UnderReview,
            VoteKind::Verification => DocumentStatus::VoteInProgress,
        }
    }

    /// The error for a document that is not in the required status.
    pub open spec fn spec_refusal(self) -> Error {
        match self {
            VoteKind::Qualification => Error::VerificationVoteAlreadyCreated,
            VoteKind::Verification => Error::DocumentNotReviewed,
        }
    }

    /// The notification that round `round` of this kind has started.
    pub open spec fn spec_started(self, round: u64) -> Event {
        match self {
            VoteKind::Qualification => Event::QualificationVotingStarted(round),
            VoteKind::Verification => Event::VerificationVotingStarted(round),
        }
    }

    /// The notification that the window of this kind is now `window`.
    pub open spec fn spec_window_changed(self, window: u32) -> Event {
        match self {
            VoteKind::Qualification => Event::QualificationVotingWindowChanged(window),
            VoteKind::Verification => Event::VerificationVotingWindowChanged(window),
        }
    }

    #[verifier::when_used_as_spec(spec_required_status)]
    pub fn required_status(self) -> (s: DocumentStatus)
        ensures
            s == self.spec_required_status(),
    {
        match self {
            VoteKind::Qualification => DocumentStatus::Submitted,
            VoteKind::Verification => DocumentStatus::SuccessfulReview,
        }
    }

    #[verifier::when_used_as_spec(spec_opened_status)]
    pub fn opened_status(self) -> (s: DocumentStatus)
        ensures
            s == self.spec_opened_status(),
    {
        match self {
            VoteKind::Qualification => DocumentStatus::UnderReview,
            VoteKind::Verification => DocumentStatus::VoteInProgress,
        }
    }

    #[verifier::when_used_as_spec(spec_refusal)]
    pub fn refusal(self) -> (e: Error)
        ensures
            e == self.spec_refusal(),
    {
        match self {
            VoteKind::Qualification => Error::VerificationVoteAlreadyCreated,
            VoteKind::Verification => Error::DocumentNotReviewed,
        }
    }

    #[verifier::when_used_as_spec(spec_started)]
    pub fn started(self, round: u64) -> (e: Event)
        ensures
            e == self.spec_started(round),
    {
        match self {
            VoteKind::Qualification => Event::QualificationVotingStarted(round),
            VoteKind::Verification => Event::VerificationVotingStarted(round),
        }
    }

    #[verifier::when_used_as_spec(spec_window_changed)]
    pub fn window_changed(self, window: u32) -> (e: Event)
        ensures
            e == self.spec_window_changed(window),
    {
        match self {
            VoteKind::Qualification => Event::QualificationVotingWindowChanged(window),
            VoteKind::Verification => Event::VerificationVotingWindowChanged(window),
        }
    }
}

/// Status of a voting round.
#[derive(Clone, Copy, Debug, PartialEq, Eq, Structural)]
pub enum VoteStatus {
    InProgress,
    Passed,
    Failed,
    Expired,
}

/// Stage of a document in its review lifecycle.
#[derive(Clone, Copy, Debug, PartialEq, Eq, Structural)]
pub enum DocumentStatus {
    Submitted,
    UnderReview,
    SuccessfulReview,
    VoteInProgress,
    Verified,
    Rejected,
}

impl DocumentStatus {
    /// The number under which a status travels in notifications.
    pub open spec fn spec_code(self) -> u8 {
        match self {
            DocumentStatus::Submitted => 0,
            DocumentStatus::UnderReview => 1,
            DocumentStatus::SuccessfulReview => 2,
            DocumentStatus::VoteInProgress => 3,
            DocumentStatus::Verified => 4,
            DocumentStatus::Rejected => 5,
        }
    }

    /// The status that a number stands for, if any.
    pub open spec fn spec_from_code(code: u8) -> Option<DocumentStatus> {
        if code == 0 {
            Some(DocumentStatus::Submitted)
        } else if code == 1 {
            Some(DocumentStatus::UnderReview)
        } else if code == 2 {
            Some(DocumentStatus::SuccessfulReview)
        } else if code == 3 {
            Some(DocumentStatus::VoteInProgress)
        } else if code == 4 {
            Some(DocumentStatus::Verified)
        } else if code == 5 {
            Some(DocumentStatus::Rejected)
        } else {
            None
        }
    }

    /// One edge of the lifecycle graph: `to` is a direct successor of `self`.
    pub open spec fn steps_to(self, to: DocumentStatus) -> bool {
        match self {
            DocumentStatus::Submitted => to == DocumentStatus::UnderReview,
            DocumentStatus::UnderReview => to == DocumentStatus::SuccessfulReview,
            DocumentStatus::SuccessfulReview => to == DocumentStatus::VoteInProgress,
            DocumentStatus::VoteInProgress => to == DocumentStatus::Verified || to
                == DocumentStatus::Rejected,
            DocumentStatus::Verified => false,
            DocumentStatus::Rejected => false,
        }
    }

    /// Distance of a status from the start of the lifecycle. The two terminal
    /// statuses are equally far.
    pub open spec fn stage(self) -> nat {
        match self {
            DocumentStatus::Submitted => 0,
            DocumentStatus::UnderReview => 1,
            DocumentStatus::SuccessfulReview => 2,
            DocumentStatus::VoteInProgress => 3,
            DocumentStatus::Verified => 4,
            DocumentStatus::Rejected => 4,
        }
    }

    #[verifier::when_used_as_spec(spec_code)]
    pub fn code(self) -> (c: u8)
        ensures
            c == self.spec_code(),
    {
        match self {
            DocumentStatus::Submitted => 0,
            DocumentStatus::UnderReview => 1,
            DocumentStatus::SuccessfulReview => 2,
            DocumentStatus::VoteInProgress => 3,
            DocumentStatus::Verified => 4,
            DocumentStatus::Rejected => 5,
        }
    }

    #[verifier::when_used_as_spec(spec_from_code)]
    pub fn from_code(code: u8) -> (s: Option<DocumentStatus>)
        ensures
            s == Self::spec_from_code(code),
    {
        match code {
            0 => Some(DocumentStatus::Submitted),
            1 => Some(DocumentStatus::UnderReview),
            2 => Some(DocumentStatus::SuccessfulReview),
            3 => Some(DocumentStatus::VoteInProgress),
            4 => Some(DocumentStatus::Verified),
            5 => Some(DocumentStatus::Rejected),
            _ => None,
        }
    }
}


/// Why an operation was refused.
#[derive(Clone, Copy, Debug, PartialEq, Eq, Structural)]
pub enum Error {
    QualifierAlreadyExists,
    CollectorAlreadyExists,
    ContributorAlreadyExists,
    NotAQualifier,
    NotACollector,
    NotAContributor,
    DocumentNotFound,
    IncorrectDocumentStatus,
    DocumentTitleNotProvided,
    DocumentDescriptionNotProvided,
    DocumentFormatNotProvided,
    DocumentIPFSHashNotProvided,
    /// A qualification round was asked for a document that is no longer
    /// `Submitted`.
    VerificationVoteAlreadyCreated,
    VotingWindowNotValid,
    DocumentNotReviewed,
    /// The caller does not hold the capability that the operation asks for.
    BadOrigin,
    /// A counter or a timestamp would leave its integer width.
    Overflow,
}

/// The classes into which the errors fall.
#[derive(Clone, Copy, Debug, PartialEq, Eq, Structural)]
pub enum ErrorKind {
    AlreadyExists,
    NotFound,
    NotAuthorized,
    InvalidInput,
    InvalidConfig,
    IllegalTransition,
    Overflow,
}

impl Error {
    pub open spec fn spec_kind(self) -> ErrorKind {
        match self {
            Error::QualifierAlreadyExists => ErrorKind::AlreadyExists,
            Error::CollectorAlreadyExists => ErrorKind::AlreadyExists,
            Error::ContributorAlreadyExists => ErrorKind::AlreadyExists,
            Error::NotAQualifier => ErrorKind::NotAuthorized,
            Error::NotACollector => ErrorKind::NotAuthorized,
            Error::NotAContributor => ErrorKind::NotAuthorized,
            Error::DocumentNotFound => ErrorKind::NotFound,
            Error::IncorrectDocumentStatus => ErrorKind::IllegalTransition,
            Error::DocumentTitleNotProvided => ErrorKind::InvalidInput,
            Error::DocumentDescriptionNotProvided => ErrorKind::InvalidInput,
            Error::DocumentFormatNotProvided => ErrorKind::InvalidInput,
            Error::DocumentIPFSHashNotProvided => ErrorKind::InvalidInput,
            Error::VerificationVoteAlreadyCreated => ErrorKind::IllegalTransition,
            Error::VotingWindowNotValid => ErrorKind::InvalidConfig,
            Error::DocumentNotReviewed => ErrorKind::IllegalTransition,
            Error::BadOrigin => ErrorKind::NotAuthorized,
            Error::Overflow => ErrorKind::Overflow,
        }
    }

    /// The class of an error.
    #[verifier::when_used_as_spec(spec_kind)]
    pub fn kind(self) -> (k: ErrorKind)
        ensures
            k == self.spec_kind(),
    {
        match self {
            Error::QualifierAlreadyExists
            | Error::CollectorAlreadyExists
            | Error::ContributorAlreadyExists => ErrorKind::AlreadyExists,
            Error::NotAQualifier
            | Error::NotACollector
            | Error::NotAContributor
            | Error::BadOrigin => ErrorKind::NotAuthorized,
            Error::DocumentNotFound => ErrorKind::NotFound,
            Error::IncorrectDocumentStatus
            | Error::VerificationVoteAlreadyCreated
            | Error::DocumentNotReviewed => ErrorKind::IllegalTransition,
            Error::DocumentTitleNotProvided
            | Error::DocumentDescriptionNotProvided
            | Error::DocumentFormatNotProvided
            | Error::DocumentIPFSHashNotProvided => ErrorKind::InvalidInput,
            Error::VotingWindowNotValid => ErrorKind::InvalidConfig,
            Error::Overflow => ErrorKind::Overflow,
        }
    }
}

/// A notification for the ledger's event sink.
#[derive(Clone, Copy, Debug, PartialEq, Eq, Structural)]
pub enum Event {
    QualifierAdded(AccountId, u32),
    CollectorAdded(AccountId, u32),
    ContributorAdded(AccountId, u32),
    DocumentCreated(AccountId, u64),
    DocumentStatusUpdated(u64, u8),
    QualificationVotingWindowChanged(u32),
    QualificationVotingStarted(u64),
    VerificationVotingWindowChanged(u32),
    VerificationVotingStarted(u64),
}

impl Event {
    /// The id that the notification announces as newly assigned, if it
    /// announces one.
    pub open spec fn assigned_id(self) -> Option<nat> {
        match self {
            Event::QualifierAdded(_, id) => Some(id as nat),
            Event::CollectorAdded(_, id) => Some(id as nat),
            Event::ContributorAdded(_, id) => Some(id as nat),
            Event::DocumentCreated(_, id) => Some(id as nat),
            Event::QualificationVotingStarted(id) => Some(id as nat),
            Event::VerificationVotingStarted(id) => Some(id as nat),
            Event::DocumentStatusUpdated(_, _) => None,
            Event::QualificationVotingWindowChanged(_) => None,
            Event::VerificationVotingWindowChanged(_) => None,
        }
    }
}

/// One time-boxed voting round on a document.
#[derive(Clone, Copy, Debug, PartialEq, Eq, Structural)]
pub struct Vote {
    pub document_id: u64,
    pub yes_votes: u64,
    pub no_votes: u64,
    pub start: BlockNumber,
    pub end: BlockNumber,
    pub status: VoteStatus,
}

impl Vote {
    /// The round that opens at `start` and lasts `window` units.
    pub open spec fn opened(document_id: u64, start: BlockNumber, window: u32) -> Vote {
        Vote {
            document_id,
            yes_votes: 0,
            no_votes: 0,
            start,
            end: (start + window) as u64,
            status: VoteStatus::InProgress,
        }
    }
}

/// A submitted document.
#[derive(Clone, Debug, PartialEq, Eq)]
pub struct Document {
    pub id: u64,
    pub creator: AccountId,
    pub title: Vec<u8>,
    pub description: Vec<u8>,
    pub format: Vec<u8>,
    pub hash: Vec<u8>,
    pub status: DocumentStatus,
}

/// What a [`Document`] holds, as mathematical values.
pub struct DocumentView {
    pub id: u64,
    pub creator: AccountId,
    pub title: Seq<u8>,
    pub description: Seq<u8>,
    pub format: Seq<u8>,
    pub hash: Seq<u8>,
    pub status: DocumentStatus,
}

impl DocumentView {
    /// None of the four byte fields is empty.
    pub open spec fn complete(self) -> bool {
        &&& self.title.len() > 0
        &&& self.description.len() > 0
        &&& self.format.len() > 0
        &&& self.hash.len() > 0
    }

    /// The same document in another status.
    pub open spec fn with_status(self, status: DocumentStatus) -> DocumentView {
        DocumentView { status, ..self }
    }
}

/// A copy of a byte string.
fn copy_bytes(bytes: &Vec<u8>) -> (copy: Vec<u8>)
    ensures
        copy@ == bytes@,
{
    let mut copy: Vec<u8> = Vec::new();
    let mut i: usize = 0;
    while i < bytes.len()
        invariant
            i <= bytes.len(),
            copy@ == bytes@.subrange(0, i as int),
        decreases bytes.len() - i,
    {
        copy.push(bytes[i]);
        i = i + 1;
    }
    copy
}

impl Document {
    /// A copy of the document.
    pub fn duplicate(&self) -> (copy: Document)
        ensures
            copy@ == self@,
    {
        Document {
            id: self.id,
            creator: self.creator,
            title: copy_bytes(&self.title),
            description: copy_bytes(&self.description),
            format: copy_bytes(&self.format),
            hash: copy_bytes(&self.hash),
            status: self.status,
        }
    }
}

impl View for Document {
    type V = DocumentView;

    open spec fn view(&self) -> DocumentView {
        DocumentView {
            id: self.id,
            creator: self.creator,
            title: self.title@,
            description: self.description@,
            format: self.format@,
            hash: self.hash@,
            status: self.status,
        }
    }
}

} // verus!
