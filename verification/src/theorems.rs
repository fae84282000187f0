//! What holds of the state machine as a whole, proved from the definitions
//! of its operations.

use crate::documents::missing_field;
use crate::roles::{already_exists, lemma_increasing_len, strictly_increasing};
use crate::state::{Call, Sequence, State, Step};
use crate::types::{
    AccountId,
    BlockNumber,
    CallerContext,
    DocumentStatus,
    Error,
    ErrorKind,
    Event,
    Roles,
    Vote,
    VoteKind,
    DEFAULT_VOTING_WINDOW,
};
use vstd::prelude::*;

verus! {

/// The state before the first call is valid.
pub proof fn genesis_is_valid()
    ensures
        State::genesis().wf(),
{
    let s = State::genesis();
    assert forall|role: Roles|
        {
            &&& (#[trigger] s.roles.members(role)).finite()
            &&& s.roles.count(role) == s.roles.members(role).len()
            &&& s.roles.count(role) <= u32::MAX
        } by {}
}

/// Every call takes a valid state to a valid state.
pub proof fn validity_is_preserved(s: State, caller: CallerContext, call: Call)
    requires
        s.wf(),
    ensures
        s.apply(caller, call).wf(),
{
    let t = s.apply(caller, call);
    match call {
        Call::RegisterRole { role, who } => {
            assert forall|q: Roles|
                {
                    &&& (#[trigger] t.roles.members(q)).finite()
                    &&& t.roles.count(q) == t.roles.members(q).len()
                    &&& t.roles.count(q) <= u32::MAX
                } by {
                assert(s.roles.members(q).finite());
            }
        },
        Call::SetVotingWindow { kind, window } => {},
        _ => {
            // documents are only added or changed in status, never removed
            assert forall|k: VoteKind, id: u64| #[trigger]
                t.voting.rounds(k).entries.contains_key(id)
                    implies t.documents.entries.contains_key(
                t.voting.rounds(k).entries[id].document_id,
            ) by {
                if s.voting.rounds(k).entries.contains_key(id) {
                    assert(s.documents.entries.contains_key(
                        s.voting.rounds(k).entries[id].document_id,
                    ));
                }
            }
        },
    }
}

/// Every state reached from the first one by any calls is valid.
pub proof fn reachable_states_are_valid(steps: Seq<Step>)
    ensures
        State::genesis().run(steps).wf(),
    decreases steps.len(),
{
    if steps.len() == 0 {
        genesis_is_valid();
    } else {
        reachable_states_are_valid(steps.drop_last());
        validity_is_preserved(
            State::genesis().run(steps.drop_last()),
            steps.last().caller,
            steps.last().call,
        );
    }
}

/// Operations are atomic: a call that fails leaves the state as it was.
pub proof fn failure_changes_nothing(s: State, caller: CallerContext, call: Call)
    requires
        s.outcome(caller, call) is Err,
    ensures
        s.apply(caller, call) == s,
{
}

/// Registering the same account twice in the same role fails the second
/// time with the role's `...AlreadyExists`, whose class is `AlreadyExists`,
/// and the role's counter advances exactly once: by one in the first call,
/// not at all in the second.
pub proof fn second_registration_fails(
    s: State,
    caller: CallerContext,
    role: Roles,
    who: AccountId,
)
    requires
        s.wf(),
        s.register_role_result(caller, role, who) is Ok,
    ensures
        ({
            let first = s.register_role(caller, role, who);
            let second = first.register_role(caller, role, who);
            &&& first.roles.count(role) == s.roles.count(role) + 1
            &&& first.register_role_result(caller, role, who) == Err::<Event, Error>(
                already_exists(role),
            )
            &&& already_exists(role).spec_kind() == ErrorKind::AlreadyExists
            &&& second == first
            &&& forall|other: CallerContext| first.register_role_result(other, role, who) is Err
        }),
{
}

/// A role has one list of members only: two strictly increasing lists with
/// the same elements are the same list. So the members of a role determine
/// the list that is handed out for it.
pub proof fn member_list_is_unique(a: Seq<AccountId>, b: Seq<AccountId>)
    requires
        strictly_increasing(a),
        strictly_increasing(b),
        a.to_set() == b.to_set(),
    ensures
        a == b,
    decreases a.len(),
{
    lemma_increasing_len(a);
    lemma_increasing_len(b);
    if a.len() > 0 {
        let la = a.last();
        let lb = b.last();
        assert(a.to_set().contains(lb));
        assert(b.to_set().contains(la));
        let a0 = a.drop_last();
        let b0 = b.drop_last();
        assert forall|x: AccountId| a0.to_set().contains(x) <==> b0.to_set().contains(x) by {
            if a0.contains(x) {
                let i = choose|i: int| 0 <= i < a0.len() && a0[i] == x;
                assert(b.to_set().contains(x));
                let j = choose|j: int| 0 <= j < b.len() && b[j] == x;
                assert(b0[j] == x);
            }
            if b0.contains(x) {
                let i = choose|i: int| 0 <= i < b0.len() && b0[i] == x;
                assert(a.to_set().contains(x));
                let j = choose|j: int| 0 <= j < a.len() && a[j] == x;
                assert(a0[j] == x);
            }
        }
        assert(a0.to_set() =~= b0.to_set());
        member_list_is_unique(a0, b0);
        assert(a =~= a0.push(la));
        assert(b =~= b0.push(lb));
    }
}

/// Membership is permanent: no call takes an account out of a role.
pub proof fn membership_is_permanent(
    s: State,
    caller: CallerContext,
    call: Call,
    role: Roles,
    who: AccountId,
)
    requires
        s.roles.members(role).contains(who),
    ensures
        s.apply(caller, call).roles.members(role).contains(who),
{
}

/// However many calls lie between them, a second registration of an account
/// in a role by the privileged caller fails with the role's
/// `...AlreadyExists`.
pub proof fn registration_is_refused_ever_after(
    s: State,
    steps: Seq<Step>,
    role: Roles,
    who: AccountId,
)
    requires
        s.roles.members(role).contains(who),
    ensures
        s.run(steps).roles.members(role).contains(who),
        s.run(steps).register_role_result(CallerContext::Privileged, role, who) == Err::<
            Event,
            Error,
        >(already_exists(role)),
    decreases steps.len(),
{
    if steps.len() > 0 {
        registration_is_refused_ever_after(s, steps.drop_last(), role, who);
        membership_is_permanent(
            s.run(steps.drop_last()),
            steps.last().caller,
            steps.last().call,
            role,
            who,
        );
    }
}


/// `create_document` with an empty field fails, whoever calls, and leaves
/// the state, and so the document counter, as it was. For a registered
/// contributor the error is that of the first empty field, and its class is
/// `InvalidInput`.
pub proof fn empty_field_is_rejected(
    s: State,
    caller: CallerContext,
    title: Seq<u8>,
    description: Seq<u8>,
    format: Seq<u8>,
    hash: Seq<u8>,
)
    requires
        title.len() == 0 || description.len() == 0 || format.len() == 0 || hash.len() == 0,
    ensures
        s.create_document_result(caller, title, description, format, hash) is Err,
        s.create_document(caller, title, description, format, hash) == s,
        s.create_document(caller, title, description, format, hash).documents.count
            == s.documents.count,
        missing_field(title, description, format, hash) is Some,
        caller matches CallerContext::Identified(who) && s.roles.contributors.contains(who) ==> {
            &&& s.create_document_result(caller, title, description, format, hash) == Err::<
                Event,
                Error,
            >(missing_field(title, description, format, hash).unwrap())
            &&& missing_field(title, description, format, hash).unwrap().spec_kind()
                == ErrorKind::InvalidInput
        },
{
}

/// Each field has its own error, and the first empty one is reported: the
/// title before the description, the description before the format, the
/// format before the hash.
pub proof fn first_empty_field_is_reported(
    title: Seq<u8>,
    description: Seq<u8>,
    format: Seq<u8>,
    hash: Seq<u8>,
)
    ensures
        title.len() == 0 ==> missing_field(title, description, format, hash) == Some(
            Error::DocumentTitleNotProvided,
        ),
        title.len() > 0 && description.len() == 0 ==> missing_field(
            title,
            description,
            format,
            hash,
        ) == Some(Error::DocumentDescriptionNotProvided),
        title.len() > 0 && description.len() > 0 && format.len() == 0 ==> missing_field(
            title,
            description,
            format,
            hash,
        ) == Some(Error::DocumentFormatNotProvided),
        title.len() > 0 && description.len() > 0 && format.len() > 0 && hash.len() == 0
            ==> missing_field(title, description, format, hash) == Some(
            Error::DocumentIPFSHashNotProvided,
        ),
        title.len() > 0 && description.len() > 0 && format.len() > 0 && hash.len() > 0
            ==> missing_field(title, description, format, hash) is None,
{
}

/// A successful registration assigns the id that follows the role's counter,
/// which becomes the new value of that counter; the other role counters stay.
pub proof fn registration_takes_next_id(
    s: State,
    caller: CallerContext,
    role: Roles,
    who: AccountId,
)
    requires
        s.wf(),
        s.register_role_result(caller, role, who) is Ok,
    ensures
        ({
            let t = s.register_role(caller, role, who);
            let id = (s.roles.count(role) + 1) as u32;
            &&& s.register_role_result(caller, role, who) == Ok::<Event, Error>(
                role.spec_added(who, id),
            )
            &&& t.roles.count(role) == id == s.roles.count(role) + 1
            &&& !s.roles.members(role).contains(who)
            &&& t.roles.members(role) == s.roles.members(role).insert(who)
            &&& forall|other: Roles|
                other != role ==> t.roles.count(other) == s.roles.count(other)
                    && t.roles.members(other) == s.roles.members(other)
        }),
{
}

/// A successful `create_document` assigns the id that follows the document
/// counter, which becomes the new value of that counter. The id was not in
/// use before, and now holds the new document in status `Submitted`; all
/// other documents are as they were.
pub proof fn document_takes_next_id(
    s: State,
    caller: CallerContext,
    title: Seq<u8>,
    description: Seq<u8>,
    format: Seq<u8>,
    hash: Seq<u8>,
)
    requires
        s.wf(),
        s.create_document_result(caller, title, description, format, hash) is Ok,
    ensures
        ({
            let t = s.create_document(caller, title, description, format, hash);
            let id = (s.documents.count + 1) as u64;
            &&& caller is Identified
            &&& s.create_document_result(caller, title, description, format, hash) == Ok::<
                Event,
                Error,
            >(Event::DocumentCreated(caller->Identified_0, id))
            &&& t.documents.count == id == s.documents.count + 1
            &&& !s.documents.entries.contains_key(id)
            &&& t.documents.entries.contains_key(id)
            &&& t.documents.entries[id].id == id
            &&& t.documents.entries[id].creator == caller->Identified_0
            &&& t.documents.entries[id].title == title
            &&& t.documents.entries[id].description == description
            &&& t.documents.entries[id].format == format
            &&& t.documents.entries[id].hash == hash
            &&& t.documents.entries[id].status == DocumentStatus::Submitted
            &&& forall|other: u64|
                other != id ==> (t.documents.entries.contains_key(other)
                    <==> s.documents.entries.contains_key(other)) && t.documents.entries[other]
                    == s.documents.entries[other]
        }),
{
}

/// A successful `create_qualification_voting` or `create_verification_voting`
/// assigns the id that follows the counter of its kind, which becomes the
/// new value of that counter. The id was not in use before, and now holds a
/// round on the document without votes, in progress, that starts at `now`
/// and ends one window later. The document moves from the status that the
/// kind requires to the one that follows it. The rounds of the other kind
/// are as they were.
pub proof fn round_takes_next_id(
    s: State,
    kind: VoteKind,
    caller: CallerContext,
    document_id: u64,
    now: BlockNumber,
)
    requires
        s.wf(),
        s.create_voting_result(kind, caller, document_id, now) is Ok,
    ensures
        ({
            let t = s.create_voting(kind, caller, document_id, now);
            let id = (s.voting.rounds(kind).count + 1) as u64;
            let round = t.voting.rounds(kind).entries[id];
            &&& s.create_voting_result(kind, caller, document_id, now) == Ok::<
                (Event, Event),
                Error,
            >(
                (
                    kind.spec_started(id),
                    Event::DocumentStatusUpdated(
                        document_id,
                        kind.spec_opened_status().spec_code(),
                    ),
                ),
            )
            &&& t.voting.rounds(kind).count == id == s.voting.rounds(kind).count + 1
            &&& !s.voting.rounds(kind).entries.contains_key(id)
            &&& t.voting.rounds(kind).entries.contains_key(id)
            &&& round == Vote::opened(document_id, now, s.config.window(kind))
            &&& round.end == round.start + s.config.window(kind)
            &&& round.start == now
            &&& round.end > round.start
            &&& s.documents.entries[document_id].status == kind.spec_required_status()
            &&& t.documents.entries[document_id].status == kind.spec_opened_status()
            &&& forall|other: VoteKind|
                other != kind ==> t.voting.rounds(other) == s.voting.rounds(other)
        }),
{
}

/// A call that succeeds and takes an id from a sequence moves the counter
/// of that sequence up by exactly one, and the id that it announces first is
/// the new value of the counter. Any other call leaves the counter as it is.
/// So counters never decrease, ids are handed out in strictly increasing
/// order by steps of one, and no id is handed out twice.
pub proof fn counter_counts_assignments(s: State, caller: CallerContext, call: Call, q: Sequence)
    requires
        s.wf(),
    ensures
        ({
            let t = s.apply(caller, call);
            if s.assigns(caller, call, q) {
                &&& t.counter(q) == s.counter(q) + 1
                &&& s.outcome(caller, call).unwrap()[0].assigned_id() == Some(t.counter(q))
            } else {
                t.counter(q) == s.counter(q)
            }
        }),
{
}

/// After any calls, the counter of a sequence has grown by the number of
/// successful calls that took an id from it: starting from the first state,
/// the n-th such call is assigned the id n.
pub proof fn counter_counts_assignments_over_runs(s: State, steps: Seq<Step>, q: Sequence)
    requires
        s.wf(),
    ensures
        s.run(steps).wf(),
        s.run(steps).counter(q) == s.counter(q) + s.assignments(steps, q),
        State::genesis().counter(q) == 0,
    decreases steps.len(),
{
    if steps.len() > 0 {
        counter_counts_assignments_over_runs(s, steps.drop_last(), q);
        validity_is_preserved(s.run(steps.drop_last()), steps.last().caller, steps.last().call);
        counter_counts_assignments(
            s.run(steps.drop_last()),
            steps.last().caller,
            steps.last().call,
            q,
        );
    }
}

/// In a valid state the ids in use are exactly those from 1 to the counter,
/// without gaps, for documents and for the rounds of each kind.
pub proof fn ids_have_no_gaps(s: State, id: u64)
    requires
        s.wf(),
    ensures
        s.documents.entries.contains_key(id) <==> 1 <= id <= s.documents.count,
        forall|kind: VoteKind|
            #[trigger] s.voting.rounds(kind).entries.contains_key(id) <==> 1 <= id
                <= s.voting.rounds(kind).count,
{
}

/// Apart from the administrative override, no call moves a document's
/// status backward: the status stays, or moves along one edge of the
/// lifecycle graph.
pub proof fn status_never_moves_backward(s: State, caller: CallerContext, call: Call, id: u64)
    requires
        s.wf(),
        !(call is UpdateDocumentStatus),
        s.documents.entries.contains_key(id),
    ensures
        ({
            let before = s.documents.entries[id].status;
            let after = s.apply(caller, call).documents.entries[id].status;
            &&& s.apply(caller, call).documents.entries.contains_key(id)
            &&& after == before || before.steps_to(after)
            &&& before.stage() <= after.stage()
        }),
{
}

/// Through any calls among which there is no administrative override, a
/// document never comes to stand earlier in the lifecycle than it stood.
pub proof fn status_never_moves_backward_over_runs(s: State, steps: Seq<Step>, id: u64)
    requires
        s.wf(),
        forall|i: int| 0 <= i < steps.len() ==> !(#[trigger] steps[i].call is UpdateDocumentStatus),
        s.documents.entries.contains_key(id),
    ensures
        s.run(steps).wf(),
        s.run(steps).documents.entries.contains_key(id),
        s.documents.entries[id].status.stage() <= s.run(steps).documents.entries[id].status.stage(),
    decreases steps.len(),
{
    if steps.len() > 0 {
        let init = steps.drop_last();
        assert forall|i: int| 0 <= i < init.len() implies !(#[trigger] init[i].call
            is UpdateDocumentStatus) by {
            assert(init[i] == steps[i]);
        }
        status_never_moves_backward_over_runs(s, init, id);
        validity_is_preserved(s.run(init), steps.last().caller, steps.last().call);
        status_never_moves_backward(s.run(init), steps.last().caller, steps.last().call, id);
    }
}

/// No call removes a document or changes anything of it but its status.
pub proof fn documents_are_immutable(s: State, caller: CallerContext, call: Call, id: u64)
    requires
        s.wf(),
        s.documents.entries.contains_key(id),
    ensures
        ({
            let t = s.apply(caller, call);
            &&& t.documents.entries.contains_key(id)
            &&& t.documents.entries[id] == s.documents.entries[id].with_status(
                t.documents.entries[id].status,
            )
        }),
{
}

/// No call removes a round or changes it.
pub proof fn rounds_are_immutable(
    s: State,
    caller: CallerContext,
    call: Call,
    kind: VoteKind,
    id: u64,
)
    requires
        s.wf(),
        s.voting.rounds(kind).entries.contains_key(id),
    ensures
        ({
            let t = s.apply(caller, call);
            &&& t.voting.rounds(kind).entries.contains_key(id)
            &&& t.voting.rounds(kind).entries[id] == s.voting.rounds(kind).entries[id]
        }),
{
}

/// `create_qualification_voting` on a document that is not `Submitted`
/// fails, whoever calls, and leaves the state as it was: the document's
/// status and the round counter are unchanged. For the privileged caller
/// the error is `VerificationVoteAlreadyCreated`, of class
/// `IllegalTransition`.
pub proof fn qualification_needs_submitted(
    s: State,
    caller: CallerContext,
    document_id: u64,
    now: BlockNumber,
)
    requires
        s.documents.entries.contains_key(document_id),
        s.documents.entries[document_id].status != DocumentStatus::Submitted,
    ensures
        ({
            let r = s.create_voting_result(VoteKind::Qualification, caller, document_id, now);
            let t = s.create_voting(VoteKind::Qualification, caller, document_id, now);
            &&& r is Err
            &&& t == s
            &&& t.documents.entries[document_id].status
                == s.documents.entries[document_id].status
            &&& t.voting.qualification.count == s.voting.qualification.count
            &&& caller == CallerContext::Privileged ==> r == Err::<(Event, Event), Error>(
                Error::VerificationVoteAlreadyCreated,
            )
            &&& Error::VerificationVoteAlreadyCreated.spec_kind() == ErrorKind::IllegalTransition
        }),
{
}

/// `create_verification_voting` on a document that is not in
/// `SuccessfulReview` fails, whoever calls, and leaves the state as it was.
/// For the privileged caller the error is `DocumentNotReviewed`.
pub proof fn verification_needs_successful_review(
    s: State,
    caller: CallerContext,
    document_id: u64,
    now: BlockNumber,
)
    requires
        s.documents.entries.contains_key(document_id),
        s.documents.entries[document_id].status != DocumentStatus::SuccessfulReview,
    ensures
        ({
            let r = s.create_voting_result(VoteKind::Verification, caller, document_id, now);
            let t = s.create_voting(VoteKind::Verification, caller, document_id, now);
            &&& r is Err
            &&& t == s
            &&& caller == CallerContext::Privileged ==> r == Err::<(Event, Event), Error>(
                Error::DocumentNotReviewed,
            )
        }),
{
}

/// Setting a voting window to 0 fails, whoever calls, and the stored windows
/// are unchanged. For the privileged caller the error is
/// `VotingWindowNotValid`, of class `InvalidConfig`.
pub proof fn zero_window_is_rejected(s: State, kind: VoteKind, caller: CallerContext)
    ensures
        ({
            let r = s.set_voting_window_result(kind, caller, 0);
            let t = s.set_voting_window(kind, caller, 0);
            &&& r is Err
            &&& t == s
            &&& t.config.window(kind) == s.config.window(kind)
            &&& caller == CallerContext::Privileged ==> r == Err::<Event, Error>(
                Error::VotingWindowNotValid,
            )
            &&& Error::VotingWindowNotValid.spec_kind() == ErrorKind::InvalidConfig
        }),
{
}

/// The window of a kind changes only in a successful call that sets the
/// window of that kind, and then to the value given.
pub proof fn window_changes_only_when_set(
    s: State,
    caller: CallerContext,
    call: Call,
    kind: VoteKind,
)
    ensures
        ({
            let t = s.apply(caller, call);
            match call {
                Call::SetVotingWindow { kind: k, window } => if k == kind && s.outcome(
                    caller,
                    call,
                ) is Ok {
                    t.config.window(kind) == window
                } else {
                    t.config.window(kind) == s.config.window(kind)
                },
                _ => t.config.window(kind) == s.config.window(kind),
            }
        }),
{
}

/// Whether step `i` of `steps`, made from state `s` on, is a successful call
/// that sets the window of `kind`.
pub open spec fn sets_window_at(s: State, steps: Seq<Step>, kind: VoteKind, i: int) -> bool {
    &&& steps[i].call matches Call::SetVotingWindow { kind: k, .. }
    &&& k == kind
    &&& s.run(steps.take(i)).outcome(steps[i].caller, steps[i].call) is Ok
}

/// Until a call sets it successfully, the window of each kind has the
/// default length of 14400 units.
pub proof fn window_is_default_until_set(steps: Seq<Step>, kind: VoteKind)
    requires
        forall|i: int| 0 <= i < steps.len() ==> !sets_window_at(State::genesis(), steps, kind, i),
    ensures
        State::genesis().run(steps).config.window(kind) == 14400,
        DEFAULT_VOTING_WINDOW == 14400,
    decreases steps.len(),
{
    if steps.len() > 0 {
        let init = steps.drop_last();
        let last = steps.len() - 1;
        assert forall|i: int| 0 <= i < init.len() implies !sets_window_at(
            State::genesis(),
            init,
            kind,
            i,
        ) by {
            assert(init.take(i) =~= steps.take(i));
            assert(!sets_window_at(State::genesis(), steps, kind, i));
        }
        window_is_default_until_set(init, kind);
        assert(steps.take(last) =~= init);
        assert(!sets_window_at(State::genesis(), steps, kind, last));
        window_changes_only_when_set(
            State::genesis().run(init),
            steps.last().caller,
            steps.last().call,
            kind,
        );
    }
}

} // verus!
