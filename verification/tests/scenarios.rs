use curation::pallet::{Pallet, Snapshot};
use curation::types::{
    CallerContext, Document, DocumentStatus, Error, Event, Vote, VoteStatus,
};

const ROOT: CallerContext = CallerContext::Privileged;

#[test]
fn document_goes_from_submission_to_review() {
    let mut pallet = Pallet::new();
    assert_eq!(pallet.add_contributor(ROOT, 1), Ok(Event::ContributorAdded(1, 1)));
    assert_eq!(
        pallet.create_document(
            CallerContext::Identified(1),
            b"Doc1".to_vec(),
            b"Test1".to_vec(),
            b"pdf".to_vec(),
            b"ipfs://hash".to_vec()
        ),
        Ok(Event::DocumentCreated(1, 1))
    );
    assert_eq!(pallet.get_total_items(), 1);
    assert_eq!(pallet.get_document(1).unwrap().status, DocumentStatus::Submitted);

    let now = 42;
    assert_eq!(
        pallet.create_qualification_voting(ROOT, 1, now),
        Ok((Event::QualificationVotingStarted(1), Event::DocumentStatusUpdated(1, 1)))
    );
    assert_eq!(pallet.get_document(1).unwrap().status, DocumentStatus::UnderReview);
    assert_eq!(pallet.get_qualification_vote_count(), 1);
    let round = pallet.get_qualification_vote(1).unwrap();
    assert_eq!(round.start, now);
    assert_eq!(round.end, round.start + 14400);
}

#[test]
fn unregistered_account_leaves_no_document() {
    let mut pallet = Pallet::new();
    assert_eq!(
        pallet.create_document(
            CallerContext::Identified(1),
            b"Doc1".to_vec(),
            b"Test1".to_vec(),
            b"pdf".to_vec(),
            b"ipfs://hash".to_vec()
        ),
        Err(Error::NotAContributor)
    );
    assert_eq!(pallet.get_total_items(), 0);
}

#[test]
fn fresh_module_is_empty() {
    let pallet = Pallet::new();
    assert_eq!(pallet.get_total_items(), 0);
    assert_eq!(pallet.qualifiers_uid_count(), 0);
    assert_eq!(pallet.collectors_uid_count(), 0);
    assert_eq!(pallet.contributors_uid_count(), 0);
    assert_eq!(pallet.get_qualification_vote_count(), 0);
    assert_eq!(pallet.get_verification_vote_count(), 0);
    assert_eq!(pallet.get_qualification_voting_window(), 14400);
    assert_eq!(pallet.get_verification_voting_window(), 14400);
    assert!(pallet.get_document(1).is_none());
    assert!(pallet.get_qualification_vote(1).is_none());
    assert!(pallet.get_verification_vote(1).is_none());
    assert!(pallet.get_all_qualifiers().is_empty());
    assert!(pallet.get_all_collectors().is_empty());
    assert!(pallet.get_all_contributors().is_empty());
}

#[test]
fn normal_calls_move_the_status_forward_only() {
    let mut pallet = Pallet::new();
    assert!(pallet.add_contributor(ROOT, 1).is_ok());
    let who = CallerContext::Identified(1);
    assert!(pallet.create_document(who, vec![1], vec![1], vec![1], vec![1]).is_ok());
    let mut seen = vec![pallet.get_document(1).unwrap().status.code()];
    assert!(pallet.create_qualification_voting(ROOT, 1, 0).is_ok());
    seen.push(pallet.get_document(1).unwrap().status.code());
    // refused calls and calls on other things keep the status
    assert!(pallet.create_qualification_voting(ROOT, 1, 0).is_err());
    assert!(pallet.create_verification_voting(ROOT, 1, 0).is_err());
    assert!(pallet.add_qualifier(ROOT, 9).is_ok());
    assert!(pallet.set_verification_voting_window(ROOT, 3).is_ok());
    assert!(pallet.create_document(who, vec![2], vec![2], vec![2], vec![2]).is_ok());
    seen.push(pallet.get_document(1).unwrap().status.code());
    // the review is resolved from outside
    assert!(pallet.update_document_status(ROOT, 1, 2).is_ok());
    seen.push(pallet.get_document(1).unwrap().status.code());
    assert!(pallet.create_verification_voting(ROOT, 1, 0).is_ok());
    seen.push(pallet.get_document(1).unwrap().status.code());
    assert_eq!(seen, vec![0, 1, 1, 2, 3]);
}

fn sample() -> Snapshot {
    Snapshot {
        qualifiers: vec![1, 5],
        collectors: vec![2],
        contributors: vec![3],
        documents: vec![
            Document {
                id: 1,
                creator: 3,
                title: b"a".to_vec(),
                description: b"b".to_vec(),
                format: b"c".to_vec(),
                hash: b"d".to_vec(),
                status: DocumentStatus::VoteInProgress,
            },
            Document {
                id: 2,
                creator: 3,
                title: b"e".to_vec(),
                description: b"f".to_vec(),
                format: b"g".to_vec(),
                hash: b"h".to_vec(),
                status: DocumentStatus::Submitted,
            },
        ],
        qualification_votes: vec![Vote {
            document_id: 1,
            yes_votes: 3,
            no_votes: 1,
            start: 10,
            end: 20,
            status: VoteStatus::Passed,
        }],
        verification_votes: vec![Vote {
            document_id: 1,
            yes_votes: 0,
            no_votes: 0,
            start: 30,
            end: 31,
            status: VoteStatus::InProgress,
        }],
        qualifiers_count: 2,
        collectors_count: 1,
        contributors_count: 1,
        total_items: 2,
        qualification_votes_count: 1,
        verification_votes_count: 1,
        qualification_voting_window: 10,
        verification_voting_window: 1,
    }
}

#[test]
fn restore_gives_back_what_the_snapshot_holds() {
    let s = sample();
    let pallet = Pallet::restore(s.clone()).unwrap();
    assert_eq!(pallet.get_all_qualifiers(), s.qualifiers);
    assert_eq!(pallet.get_all_collectors(), s.collectors);
    assert_eq!(pallet.get_all_contributors(), s.contributors);
    assert_eq!(pallet.qualifiers_uid_count(), 2);
    assert_eq!(pallet.collectors_uid_count(), 1);
    assert_eq!(pallet.contributors_uid_count(), 1);
    assert_eq!(pallet.get_total_items(), 2);
    assert_eq!(pallet.get_document(1), Some(&s.documents[0]));
    assert_eq!(pallet.get_document(2), Some(&s.documents[1]));
    assert_eq!(pallet.get_qualification_vote_count(), 1);
    assert_eq!(pallet.get_verification_vote_count(), 1);
    assert_eq!(pallet.get_qualification_vote(1), Some(s.qualification_votes[0]));
    assert_eq!(pallet.get_verification_vote(1), Some(s.verification_votes[0]));
    assert_eq!(pallet.get_qualification_voting_window(), 10);
    assert_eq!(pallet.get_verification_voting_window(), 1);
}

#[test]
fn restore_of_the_empty_snapshot_is_the_fresh_module() {
    let s = Snapshot {
        qualifiers: vec![],
        collectors: vec![],
        contributors: vec![],
        documents: vec![],
        qualification_votes: vec![],
        verification_votes: vec![],
        qualifiers_count: 0,
        collectors_count: 0,
        contributors_count: 0,
        total_items: 0,
        qualification_votes_count: 0,
        verification_votes_count: 0,
        qualification_voting_window: 14400,
        verification_voting_window: 14400,
    };
    assert_eq!(Pallet::restore(s), Some(Pallet::new()));
}

#[test]
fn restore_refuses_unsorted_members() {
    let mut s = sample();
    s.qualifiers = vec![5, 1];
    assert!(Pallet::restore(s).is_none());
    let mut s = sample();
    s.collectors = vec![2, 2];
    assert!(Pallet::restore(s).is_none());
    let mut s = sample();
    s.contributors = vec![3, 1];
    assert!(Pallet::restore(s).is_none());
}

#[test]
fn restore_refuses_misnumbered_or_incomplete_documents() {
    let mut s = sample();
    s.documents[1].id = 3;
    assert!(Pallet::restore(s).is_none());
    let mut s = sample();
    s.documents[0].hash = vec![];
    assert!(Pallet::restore(s).is_none());
}

#[test]
fn restore_refuses_rounds_that_do_not_end_after_they_start() {
    let mut s = sample();
    s.qualification_votes[0].end = 10;
    assert!(Pallet::restore(s).is_none());
    let mut s = sample();
    s.verification_votes[0].end = 29;
    assert!(Pallet::restore(s).is_none());
}

#[test]
fn restore_refuses_rounds_on_unknown_documents() {
    let mut s = sample();
    s.qualification_votes[0].document_id = 3;
    assert!(Pallet::restore(s).is_none());
    let mut s = sample();
    s.verification_votes[0].document_id = 0;
    assert!(Pallet::restore(s).is_none());
    let mut s = sample();
    s.verification_votes[0].document_id = 2;
    assert!(Pallet::restore(s).is_some());
}

#[test]
fn restore_refuses_zero_windows() {
    let mut s = sample();
    s.qualification_voting_window = 0;
    assert!(Pallet::restore(s).is_none());
    let mut s = sample();
    s.verification_voting_window = 0;
    assert!(Pallet::restore(s).is_none());
}

#[test]
fn restore_refuses_counters_that_do_not_match() {
    let mut s = sample();
    s.qualifiers_count = 3;
    assert!(Pallet::restore(s).is_none());
    let mut s = sample();
    s.collectors_count = 0;
    assert!(Pallet::restore(s).is_none());
    let mut s = sample();
    s.contributors_count = 2;
    assert!(Pallet::restore(s).is_none());
    let mut s = sample();
    s.total_items = 1;
    assert!(Pallet::restore(s).is_none());
    let mut s = sample();
    s.qualification_votes_count = 2;
    assert!(Pallet::restore(s).is_none());
    let mut s = sample();
    s.verification_votes_count = 0;
    assert!(Pallet::restore(s).is_none());
}

#[test]
fn snapshot_holds_the_whole_state() {
    let pallet = Pallet::restore(sample()).unwrap();
    assert_eq!(pallet.snapshot(), sample());
}

#[test]
fn snapshot_of_the_fresh_module_is_empty() {
    let s = Pallet::new().snapshot();
    assert!(s.qualifiers.is_empty());
    assert!(s.collectors.is_empty());
    assert!(s.contributors.is_empty());
    assert!(s.documents.is_empty());
    assert!(s.qualification_votes.is_empty());
    assert!(s.verification_votes.is_empty());
    assert_eq!(s.qualifiers_count, 0);
    assert_eq!(s.collectors_count, 0);
    assert_eq!(s.contributors_count, 0);
    assert_eq!(s.total_items, 0);
    assert_eq!(s.qualification_votes_count, 0);
    assert_eq!(s.verification_votes_count, 0);
    assert_eq!(s.qualification_voting_window, 14400);
    assert_eq!(s.verification_voting_window, 14400);
}

#[test]
fn snapshot_and_restore_round_trip_after_calls() {
    let mut pallet = Pallet::new();
    assert!(pallet.add_contributor(ROOT, 8).is_ok());
    assert!(pallet.add_qualifier(ROOT, 3).is_ok());
    assert!(pallet.add_qualifier(ROOT, 1).is_ok());
    let who = CallerContext::Identified(8);
    assert!(pallet.create_document(who, vec![1], vec![2], vec![3], vec![4]).is_ok());
    assert!(pallet.create_document(who, vec![5], vec![6], vec![7], vec![8]).is_ok());
    assert!(pallet.create_qualification_voting(ROOT, 2, 10).is_ok());
    assert!(pallet.set_verification_voting_window(ROOT, 9).is_ok());
    let s = pallet.snapshot();
    assert_eq!(s.qualifiers, vec![1, 3]);
    assert_eq!(s.contributors, vec![8]);
    assert_eq!(s.qualifiers_count, 2);
    assert_eq!(s.total_items, 2);
    assert_eq!(s.documents.len(), 2);
    assert_eq!(s.documents[1].status, DocumentStatus::UnderReview);
    assert_eq!(s.qualification_votes.len(), 1);
    assert_eq!(s.qualification_votes[0].end, 14410);
    assert_eq!(s.verification_voting_window, 9);
    assert_eq!(Pallet::restore(s), Some(pallet));
}

#[test]
fn duplicate_copies_every_field() {
    let d = sample().documents[0].clone();
    assert_eq!(d.duplicate(), d);
}
