use curation::pallet::Pallet;
use curation::roles::{RoleRegistry, RoleSet};
use curation::types::{CallerContext, Error, ErrorKind, Event, Roles};

const ROOT: CallerContext = CallerContext::Privileged;

#[test]
fn it_adds_qualifier_should_work() {
    let mut pallet = Pallet::new();
    assert!(pallet.add_qualifier(ROOT, 1).is_ok());
    assert_eq!(pallet.qualifiers_uid_count(), 1);
}

#[test]
fn it_adds_qualifier_should_fail() {
    let mut pallet = Pallet::new();
    assert!(pallet.add_qualifier(ROOT, 1).is_ok());
    let before = pallet.clone();
    assert_eq!(pallet.add_qualifier(ROOT, 1), Err(Error::QualifierAlreadyExists));
    assert_eq!(pallet, before);
}

#[test]
fn it_adds_contributor_should_work() {
    let mut pallet = Pallet::new();
    assert!(pallet.add_contributor(ROOT, 1).is_ok());
    assert_eq!(pallet.contributors_uid_count(), 1);
}

#[test]
fn it_adds_contributor_should_fail() {
    let mut pallet = Pallet::new();
    assert!(pallet.add_contributor(ROOT, 1).is_ok());
    let before = pallet.clone();
    assert_eq!(pallet.add_contributor(ROOT, 1), Err(Error::ContributorAlreadyExists));
    assert_eq!(pallet, before);
}

#[test]
fn it_adds_collector_should_work() {
    let mut pallet = Pallet::new();
    assert!(pallet.add_collector(ROOT, 1).is_ok());
    assert_eq!(pallet.collectors_uid_count(), 1);
}

#[test]
fn it_adds_collector_should_fail() {
    let mut pallet = Pallet::new();
    assert!(pallet.add_collector(ROOT, 1).is_ok());
    let before = pallet.clone();
    assert_eq!(pallet.add_collector(ROOT, 1), Err(Error::CollectorAlreadyExists));
    assert_eq!(pallet, before);
}

#[test]
fn registration_reports_the_assigned_id() {
    let mut pallet = Pallet::new();
    assert_eq!(pallet.add_qualifier(ROOT, 30), Ok(Event::QualifierAdded(30, 1)));
    assert_eq!(pallet.add_qualifier(ROOT, 10), Ok(Event::QualifierAdded(10, 2)));
    assert_eq!(pallet.add_qualifier(ROOT, 20), Ok(Event::QualifierAdded(20, 3)));
    assert_eq!(pallet.add_collector(ROOT, 10), Ok(Event::CollectorAdded(10, 1)));
    assert_eq!(pallet.add_contributor(ROOT, 10), Ok(Event::ContributorAdded(10, 1)));
    assert_eq!(pallet.qualifiers_uid_count(), 3);
    assert_eq!(pallet.collectors_uid_count(), 1);
    assert_eq!(pallet.contributors_uid_count(), 1);
}

#[test]
fn second_registration_fails_and_counter_advances_once() {
    for role in [Roles::QualifierRole, Roles::CollectorRole, Roles::ContributorRole] {
        let mut pallet = Pallet::new();
        assert_eq!(pallet.register_role(ROOT, role, 7), Ok(role.added(7, 1)));
        let err = pallet.register_role(ROOT, role, 7).unwrap_err();
        assert_eq!(err.kind(), ErrorKind::AlreadyExists);
        // other calls in between do not change that
        assert!(pallet.register_role(ROOT, role, 8).is_ok());
        let err = pallet.register_role(ROOT, role, 7).unwrap_err();
        assert_eq!(err.kind(), ErrorKind::AlreadyExists);
        let count = match role {
            Roles::QualifierRole => pallet.qualifiers_uid_count(),
            Roles::CollectorRole => pallet.collectors_uid_count(),
            Roles::ContributorRole => pallet.contributors_uid_count(),
        };
        assert_eq!(count, 2);
    }
}

#[test]
fn registration_needs_the_privileged_caller() {
    let mut pallet = Pallet::new();
    let before = pallet.clone();
    assert_eq!(pallet.add_qualifier(CallerContext::Identified(1), 1), Err(Error::BadOrigin));
    assert_eq!(pallet.add_collector(CallerContext::Identified(1), 1), Err(Error::BadOrigin));
    assert_eq!(pallet.add_contributor(CallerContext::Identified(1), 1), Err(Error::BadOrigin));
    assert_eq!(pallet, before);
    assert_eq!(Error::BadOrigin.kind(), ErrorKind::NotAuthorized);
}

#[test]
fn an_account_may_hold_several_roles() {
    let mut pallet = Pallet::new();
    assert!(pallet.add_qualifier(ROOT, 5).is_ok());
    assert!(pallet.add_collector(ROOT, 5).is_ok());
    assert!(pallet.add_contributor(ROOT, 5).is_ok());
    assert!(pallet.ensure_qualifier(5));
    assert!(pallet.ensure_collector(5));
    assert!(pallet.ensure_contributor(5));
    assert!(!pallet.ensure_qualifier(6));
    assert!(!pallet.ensure_collector(6));
    assert!(!pallet.ensure_contributor(6));
}

#[test]
fn roles_are_independent() {
    let mut pallet = Pallet::new();
    assert!(pallet.add_qualifier(ROOT, 5).is_ok());
    assert!(pallet.ensure_qualifier(5));
    assert!(!pallet.ensure_collector(5));
    assert!(!pallet.ensure_contributor(5));
}

#[test]
fn members_are_kept_sorted() {
    let mut pallet = Pallet::new();
    for who in [9u64, 3, 7, 1, 5, u64::MAX, 0] {
        assert!(pallet.add_collector(ROOT, who).is_ok());
    }
    assert_eq!(pallet.get_all_collectors(), vec![0, 1, 3, 5, 7, 9, u64::MAX]);
    assert_eq!(pallet.get_all_qualifiers(), Vec::<u64>::new());
    assert_eq!(pallet.get_all_contributors(), Vec::<u64>::new());
    for who in [9u64, 3, 7, 1, 5, u64::MAX, 0] {
        assert!(pallet.ensure_collector(who));
    }
    for who in [2u64, 4, 6, 8, 10, u64::MAX - 1] {
        assert!(!pallet.ensure_collector(who));
    }
}

#[test]
fn role_set_search_finds_index_or_insertion_point() {
    let set = RoleSet::from_sorted(vec![10, 20, 30, 40]).unwrap();
    assert_eq!(set.search(10), Ok(0));
    assert_eq!(set.search(20), Ok(1));
    assert_eq!(set.search(30), Ok(2));
    assert_eq!(set.search(40), Ok(3));
    assert_eq!(set.search(5), Err(0));
    assert_eq!(set.search(15), Err(1));
    assert_eq!(set.search(25), Err(2));
    assert_eq!(set.search(35), Err(3));
    assert_eq!(set.search(45), Err(4));
    assert_eq!(RoleSet::new().search(1), Err(0));
    assert_eq!(set.len(), 4);
    assert_eq!(RoleSet::new().len(), 0);
}

#[test]
fn role_set_insert_reports_whether_it_added() {
    let mut set = RoleSet::new();
    assert!(set.insert(2));
    assert!(set.insert(1));
    assert!(set.insert(3));
    assert!(!set.insert(2));
    assert_eq!(set.members(), vec![1, 2, 3]);
    assert!(set.contains(1));
    assert!(!set.contains(4));
}

#[test]
fn role_set_from_sorted_wants_strictly_increasing_lists() {
    assert!(RoleSet::from_sorted(vec![]).is_some());
    assert!(RoleSet::from_sorted(vec![4]).is_some());
    assert!(RoleSet::from_sorted(vec![1, 2, 3]).is_some());
    assert!(RoleSet::from_sorted(vec![1, 1]).is_none());
    assert!(RoleSet::from_sorted(vec![2, 1]).is_none());
    assert!(RoleSet::from_sorted(vec![1, 2, 3, 3]).is_none());
    assert!(RoleSet::from_sorted(vec![1, 3, 2, 4]).is_none());
}

#[test]
fn registry_registers_and_answers_membership() {
    let mut registry = RoleRegistry::new();
    assert_eq!(registry.register(Roles::QualifierRole, 4), Ok(1));
    assert_eq!(registry.register(Roles::QualifierRole, 2), Ok(2));
    assert_eq!(registry.register(Roles::QualifierRole, 4), Err(Error::QualifierAlreadyExists));
    assert_eq!(registry.register(Roles::CollectorRole, 4), Ok(1));
    assert_eq!(registry.register(Roles::CollectorRole, 4), Err(Error::CollectorAlreadyExists));
    assert_eq!(registry.register(Roles::ContributorRole, 4), Ok(1));
    assert_eq!(
        registry.register(Roles::ContributorRole, 4),
        Err(Error::ContributorAlreadyExists)
    );
    assert!(registry.is_member(Roles::QualifierRole, 2));
    assert!(!registry.is_member(Roles::CollectorRole, 2));
    assert_eq!(registry.count(Roles::QualifierRole), 2);
    assert_eq!(registry.count(Roles::CollectorRole), 1);
    assert_eq!(registry.count(Roles::ContributorRole), 1);
    assert_eq!(registry.members(Roles::QualifierRole), vec![2, 4]);
}

#[test]
fn registry_restore_checks_every_list() {
    let registry = RoleRegistry::restore(vec![1, 2], vec![], vec![9]).unwrap();
    assert_eq!(registry.count(Roles::QualifierRole), 2);
    assert_eq!(registry.count(Roles::CollectorRole), 0);
    assert_eq!(registry.count(Roles::ContributorRole), 1);
    assert!(registry.is_member(Roles::ContributorRole, 9));
    assert!(RoleRegistry::restore(vec![2, 1], vec![], vec![]).is_none());
    assert!(RoleRegistry::restore(vec![], vec![3, 3], vec![]).is_none());
    assert!(RoleRegistry::restore(vec![], vec![], vec![5, 4]).is_none());
}

#[test]
fn role_added_picks_the_notification_of_the_role() {
    assert_eq!(Roles::QualifierRole.added(3, 1), Event::QualifierAdded(3, 1));
    assert_eq!(Roles::CollectorRole.added(3, 2), Event::CollectorAdded(3, 2));
    assert_eq!(Roles::ContributorRole.added(3, 4), Event::ContributorAdded(3, 4));
}
