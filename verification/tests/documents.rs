use curation::documents::DocumentStore;
use curation::pallet::Pallet;
use curation::types::{CallerContext, Document, DocumentStatus, Error, ErrorKind, Event};

const ROOT: CallerContext = CallerContext::Privileged;

fn with_contributor(who: u64) -> Pallet {
    let mut pallet = Pallet::new();
    assert!(pallet.add_contributor(ROOT, who).is_ok());
    pallet
}

fn create(pallet: &mut Pallet, who: u64) -> Result<Event, Error> {
    pallet.create_document(
        CallerContext::Identified(who),
        b"Doc1".to_vec(),
        b"Test1".to_vec(),
        b"pdf".to_vec(),
        b"https://ipfs.hash".to_vec(),
    )
}

#[test]
fn it_creates_document_should_work() {
    let mut pallet = Pallet::new();
    assert!(pallet.add_contributor(ROOT, 2).is_ok());
    assert!(pallet
        .create_document(
            CallerContext::Identified(2),
            b"Doc1".to_vec(),
            b"Test1".to_vec(),
            b"pdf".to_vec(),
            b"https://ipfs.hash".to_vec()
        )
        .is_ok());
    assert_eq!(pallet.get_total_items(), 1);
}

#[test]
fn created_document_is_stored_as_submitted() {
    let mut pallet = with_contributor(2);
    assert_eq!(create(&mut pallet, 2), Ok(Event::DocumentCreated(2, 1)));
    let expected = Document {
        id: 1,
        creator: 2,
        title: b"Doc1".to_vec(),
        description: b"Test1".to_vec(),
        format: b"pdf".to_vec(),
        hash: b"https://ipfs.hash".to_vec(),
        status: DocumentStatus::Submitted,
    };
    assert_eq!(pallet.get_document(1), Some(&expected));
    assert_eq!(pallet.get_document(0), None);
    assert_eq!(pallet.get_document(2), None);
}

#[test]
fn document_ids_increase_by_one() {
    let mut pallet = with_contributor(2);
    assert!(pallet.add_contributor(ROOT, 3).is_ok());
    for expected in 1..=5u64 {
        let who = 2 + expected % 2;
        assert_eq!(create(&mut pallet, who), Ok(Event::DocumentCreated(who, expected)));
        assert_eq!(pallet.get_total_items(), expected);
        assert_eq!(pallet.get_document(expected).unwrap().id, expected);
        assert!(pallet.get_document(expected + 1).is_none());
        // a failed creation in between takes no id
        assert_eq!(create(&mut pallet, 99), Err(Error::NotAContributor));
        assert_eq!(pallet.get_total_items(), expected);
    }
}

#[test]
fn unregistered_account_cannot_create_a_document() {
    let mut pallet = Pallet::new();
    assert_eq!(create(&mut pallet, 1), Err(Error::NotAContributor));
    assert_eq!(pallet.get_total_items(), 0);
    assert_eq!(pallet, Pallet::new());
    assert_eq!(Error::NotAContributor.kind(), ErrorKind::NotAuthorized);
}

#[test]
fn qualifier_or_collector_is_no_contributor() {
    let mut pallet = Pallet::new();
    assert!(pallet.add_qualifier(ROOT, 1).is_ok());
    assert!(pallet.add_collector(ROOT, 1).is_ok());
    assert_eq!(create(&mut pallet, 1), Err(Error::NotAContributor));
    assert_eq!(pallet.get_total_items(), 0);
}

#[test]
fn privileged_caller_cannot_create_a_document() {
    let mut pallet = with_contributor(2);
    let before = pallet.clone();
    let r = pallet.create_document(
        ROOT,
        b"Doc1".to_vec(),
        b"Test1".to_vec(),
        b"pdf".to_vec(),
        b"https://ipfs.hash".to_vec(),
    );
    assert_eq!(r, Err(Error::BadOrigin));
    assert_eq!(pallet, before);
}

#[test]
fn empty_title_is_rejected() {
    let mut pallet = with_contributor(2);
    let before = pallet.clone();
    let r = pallet.create_document(
        CallerContext::Identified(2),
        vec![],
        b"Test1".to_vec(),
        b"pdf".to_vec(),
        b"ipfs://hash".to_vec(),
    );
    assert_eq!(r, Err(Error::DocumentTitleNotProvided));
    assert_eq!(pallet.get_total_items(), 0);
    assert_eq!(pallet, before);
}

#[test]
fn empty_description_is_rejected() {
    let mut pallet = with_contributor(2);
    let before = pallet.clone();
    let r = pallet.create_document(
        CallerContext::Identified(2),
        b"Doc1".to_vec(),
        vec![],
        b"pdf".to_vec(),
        b"ipfs://hash".to_vec(),
    );
    assert_eq!(r, Err(Error::DocumentDescriptionNotProvided));
    assert_eq!(pallet.get_total_items(), 0);
    assert_eq!(pallet, before);
}

#[test]
fn empty_format_is_rejected() {
    let mut pallet = with_contributor(2);
    let before = pallet.clone();
    let r = pallet.create_document(
        CallerContext::Identified(2),
        b"Doc1".to_vec(),
        b"Test1".to_vec(),
        vec![],
        b"ipfs://hash".to_vec(),
    );
    assert_eq!(r, Err(Error::DocumentFormatNotProvided));
    assert_eq!(pallet.get_total_items(), 0);
    assert_eq!(pallet, before);
}

#[test]
fn empty_hash_is_rejected() {
    let mut pallet = with_contributor(2);
    let before = pallet.clone();
    let r = pallet.create_document(
        CallerContext::Identified(2),
        b"Doc1".to_vec(),
        b"Test1".to_vec(),
        b"pdf".to_vec(),
        vec![],
    );
    assert_eq!(r, Err(Error::DocumentIPFSHashNotProvided));
    assert_eq!(pallet.get_total_items(), 0);
    assert_eq!(pallet, before);
}

#[test]
fn first_empty_field_is_reported() {
    let mut pallet = with_contributor(2);
    let who = CallerContext::Identified(2);
    assert_eq!(
        pallet.create_document(who, vec![], vec![], vec![], vec![]),
        Err(Error::DocumentTitleNotProvided)
    );
    assert_eq!(
        pallet.create_document(who, vec![1], vec![], vec![], vec![]),
        Err(Error::DocumentDescriptionNotProvided)
    );
    assert_eq!(
        pallet.create_document(who, vec![1], vec![1], vec![], vec![]),
        Err(Error::DocumentFormatNotProvided)
    );
    assert_eq!(
        pallet.create_document(who, vec![1], vec![1], vec![1], vec![]),
        Err(Error::DocumentIPFSHashNotProvided)
    );
    assert_eq!(pallet.get_total_items(), 0);
    for e in [
        Error::DocumentTitleNotProvided,
        Error::DocumentDescriptionNotProvided,
        Error::DocumentFormatNotProvided,
        Error::DocumentIPFSHashNotProvided,
    ] {
        assert_eq!(e.kind(), ErrorKind::InvalidInput);
    }
}

#[test]
fn membership_is_checked_before_the_fields() {
    let mut pallet = Pallet::new();
    let r = pallet.create_document(CallerContext::Identified(2), vec![], vec![], vec![], vec![]);
    assert_eq!(r, Err(Error::NotAContributor));
}

#[test]
fn override_sets_any_status() {
    let mut pallet = with_contributor(2);
    assert!(create(&mut pallet, 2).is_ok());
    let all = [
        (0u8, DocumentStatus::Submitted),
        (1, DocumentStatus::UnderReview),
        (2, DocumentStatus::SuccessfulReview),
        (3, DocumentStatus::VoteInProgress),
        (4, DocumentStatus::Verified),
        (5, DocumentStatus::Rejected),
    ];
    // forward, then backward: the override ignores the lifecycle graph
    for (code, status) in all.iter().chain(all.iter().rev()) {
        assert_eq!(
            pallet.update_document_status(ROOT, 1, *code),
            Ok(Event::DocumentStatusUpdated(1, *code))
        );
        assert_eq!(pallet.get_document(1).unwrap().status, *status);
    }
}

#[test]
fn override_with_unknown_code_keeps_the_status() {
    let mut pallet = with_contributor(2);
    assert!(create(&mut pallet, 2).is_ok());
    assert!(pallet.update_document_status(ROOT, 1, 4).is_ok());
    let before = pallet.clone();
    for code in [6u8, 7, 100, 255] {
        assert_eq!(
            pallet.update_document_status(ROOT, 1, code),
            Ok(Event::DocumentStatusUpdated(1, code))
        );
        assert_eq!(pallet, before);
    }
}

#[test]
fn override_of_unknown_document_fails() {
    let mut pallet = with_contributor(2);
    assert!(create(&mut pallet, 2).is_ok());
    let before = pallet.clone();
    assert_eq!(pallet.update_document_status(ROOT, 0, 1), Err(Error::DocumentNotFound));
    assert_eq!(pallet.update_document_status(ROOT, 2, 1), Err(Error::DocumentNotFound));
    assert_eq!(pallet.update_document_status(ROOT, u64::MAX, 1), Err(Error::DocumentNotFound));
    assert_eq!(pallet, before);
    assert_eq!(Error::DocumentNotFound.kind(), ErrorKind::NotFound);
}

#[test]
fn override_needs_the_privileged_caller() {
    let mut pallet = with_contributor(2);
    assert!(create(&mut pallet, 2).is_ok());
    let before = pallet.clone();
    assert_eq!(
        pallet.update_document_status(CallerContext::Identified(2), 1, 4),
        Err(Error::BadOrigin)
    );
    assert_eq!(pallet, before);
}

#[test]
fn override_changes_nothing_but_the_status() {
    let mut pallet = with_contributor(2);
    assert!(create(&mut pallet, 2).is_ok());
    assert!(create(&mut pallet, 2).is_ok());
    let first = pallet.get_document(1).unwrap().clone();
    let second = pallet.get_document(2).unwrap().clone();
    assert!(pallet.update_document_status(ROOT, 2, 5).is_ok());
    assert_eq!(pallet.get_document(1), Some(&first));
    let expected = Document { status: DocumentStatus::Rejected, ..second };
    assert_eq!(pallet.get_document(2), Some(&expected));
    assert_eq!(pallet.get_total_items(), 2);
}

#[test]
fn status_codes_round_trip() {
    let all = [
        (0u8, DocumentStatus::Submitted),
        (1, DocumentStatus::UnderReview),
        (2, DocumentStatus::SuccessfulReview),
        (3, DocumentStatus::VoteInProgress),
        (4, DocumentStatus::Verified),
        (5, DocumentStatus::Rejected),
    ];
    for (code, status) in all {
        assert_eq!(status.code(), code);
        assert_eq!(DocumentStatus::from_code(code), Some(status));
    }
    for code in 6..=255u8 {
        assert_eq!(DocumentStatus::from_code(code), None);
    }
}

#[test]
fn store_creates_looks_up_and_sets_status() {
    let mut store = DocumentStore::new();
    assert_eq!(store.total(), 0);
    assert_eq!(store.create(4, vec![1], vec![2], vec![3], vec![4]), Ok(1));
    assert_eq!(store.create(5, vec![1], vec![2], vec![3], vec![4]), Ok(2));
    assert_eq!(store.create(5, vec![], vec![2], vec![3], vec![4]), Err(Error::DocumentTitleNotProvided));
    assert_eq!(store.total(), 2);
    assert_eq!(store.status_of(1), Some(DocumentStatus::Submitted));
    assert_eq!(store.status_of(3), None);
    assert_eq!(store.set_status(2, DocumentStatus::Verified), Ok(()));
    assert_eq!(store.set_status(3, DocumentStatus::Verified), Err(Error::DocumentNotFound));
    assert_eq!(store.status_of(1), Some(DocumentStatus::Submitted));
    assert_eq!(store.status_of(2), Some(DocumentStatus::Verified));
    assert_eq!(store.get(2).unwrap().creator, 5);
    assert!(store.get(0).is_none());
}

#[test]
fn store_restore_checks_ids_and_fields() {
    let doc = |id: u64, title: &[u8]| Document {
        id,
        creator: 1,
        title: title.to_vec(),
        description: vec![1],
        format: vec![1],
        hash: vec![1],
        status: DocumentStatus::UnderReview,
    };
    let store = DocumentStore::restore(vec![doc(1, b"a"), doc(2, b"b")]).unwrap();
    assert_eq!(store.total(), 2);
    assert_eq!(store.get(2), Some(&doc(2, b"b")));
    assert!(DocumentStore::restore(vec![]).is_some());
    assert!(DocumentStore::restore(vec![doc(2, b"a")]).is_none());
    assert!(DocumentStore::restore(vec![doc(0, b"a")]).is_none());
    assert!(DocumentStore::restore(vec![doc(1, b"a"), doc(1, b"b")]).is_none());
    assert!(DocumentStore::restore(vec![doc(1, b"a"), doc(3, b"b")]).is_none());
    assert!(DocumentStore::restore(vec![doc(1, b"")]).is_none());
    let mut d = doc(1, b"a");
    d.description = vec![];
    assert!(DocumentStore::restore(vec![d]).is_none());
    let mut d = doc(1, b"a");
    d.format = vec![];
    assert!(DocumentStore::restore(vec![d]).is_none());
    let mut d = doc(1, b"a");
    d.hash = vec![];
    assert!(DocumentStore::restore(vec![d]).is_none());
}
