use outage_reports::consts::{
    BLOCKED_ROLE, GUILD_ID, LINKED_ROLE, PATRON_ROLE, TRUSTED_ROLE, UPTIME_CHANNLE,
};
use outage_reports::roster::{enlist, enlist_all, is_duplicate_free, is_listed};
use outage_reports::user_level::{Member, UserLevel};

fn level_of(roles: Vec<u64>) -> UserLevel {
    UserLevel::from_member(&Member { user_id: 1, roles })
}

#[test]
fn no_known_role_is_plain() {
    assert_eq!(level_of(vec![]), UserLevel::Plain);
    assert_eq!(level_of(vec![1, 2, 3, GUILD_ID, UPTIME_CHANNLE]), UserLevel::Plain);
}

#[test]
fn single_roles_resolve() {
    assert_eq!(level_of(vec![LINKED_ROLE]), UserLevel::Linked);
    assert_eq!(level_of(vec![PATRON_ROLE]), UserLevel::Patron);
    assert_eq!(level_of(vec![TRUSTED_ROLE]), UserLevel::Trusted);
    assert_eq!(level_of(vec![BLOCKED_ROLE]), UserLevel::Blocked);
}

#[test]
fn block_outranks_every_role() {
    assert_eq!(level_of(vec![TRUSTED_ROLE, PATRON_ROLE, LINKED_ROLE, BLOCKED_ROLE]), UserLevel::Blocked);
    assert_eq!(level_of(vec![BLOCKED_ROLE, TRUSTED_ROLE]), UserLevel::Blocked);
}

#[test]
fn most_trusted_role_decides() {
    assert_eq!(level_of(vec![LINKED_ROLE, PATRON_ROLE, TRUSTED_ROLE]), UserLevel::Trusted);
    assert_eq!(level_of(vec![LINKED_ROLE, 5, PATRON_ROLE]), UserLevel::Patron);
    assert_eq!(level_of(vec![9, LINKED_ROLE]), UserLevel::Linked);
}

#[test]
fn role_identifiers() {
    assert_eq!(UPTIME_CHANNLE, 874694150283477083);
    assert_eq!(GUILD_ID, 686968015715172423);
    assert_eq!(BLOCKED_ROLE, 1300485192062074890);
    assert_eq!(LINKED_ROLE, 998597119709552680);
    assert_eq!(PATRON_ROLE, 998018241182044241);
    assert_eq!(TRUSTED_ROLE, 1299123473343320134);
}

#[test]
fn enlisting_keeps_order_and_adds_nobody_twice() {
    let mut ids: Vec<u64> = Vec::new();
    assert!(!is_listed(&ids, 4));
    assert!(enlist(&mut ids, 4));
    assert!(enlist(&mut ids, 2));
    assert!(!enlist(&mut ids, 4));
    assert!(enlist(&mut ids, 9));
    assert!(!enlist(&mut ids, 2));
    assert_eq!(ids, vec![4, 2, 9]);
    assert!(is_listed(&ids, 9));
    assert!(!is_listed(&ids, 3));
}

#[test]
fn enlisting_many_skips_the_listed() {
    let mut ids: Vec<u64> = vec![5, 1];
    enlist_all(&mut ids, &vec![1, 7, 7, 5, 3]);
    assert_eq!(ids, vec![5, 1, 7, 3]);
    enlist_all(&mut ids, &vec![]);
    assert_eq!(ids, vec![5, 1, 7, 3]);
}

#[test]
fn duplicates_are_found() {
    assert!(is_duplicate_free(&vec![]));
    assert!(is_duplicate_free(&vec![1]));
    assert!(is_duplicate_free(&vec![3, 1, 2]));
    assert!(!is_duplicate_free(&vec![3, 1, 3]));
    assert!(!is_duplicate_free(&vec![1, 1]));
    assert!(!is_duplicate_free(&vec![1, 2, 3, 4, 4]));
}
