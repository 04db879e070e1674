use yaddak::errors::YaddakErrorKind;
use yaddak::repo::{Entity, Table};
use yaddak::user::User;

fn record(id: u128, name: &str, email: &str, auth: &str) -> User {
    User {
        id,
        user_name: String::from(name),
        user_email: String::from(email),
        user_auth: String::from(auth),
    }
}

#[test]
fn operations_fail_before_migration() {
    let t: Table<User> = Table::new();
    let err = t.get(1).unwrap_err();
    assert!(matches!(err.kind, YaddakErrorKind::DBError));
    assert_eq!(err.message, "no such table");
    assert!(t.get_all().is_err());
}

#[test]
fn migrate_is_idempotent_on_a_table() {
    let mut t: Table<User> = Table::new();
    t.migrate().unwrap();
    t.post(&record(1, "a", "a@x", "h")).unwrap();
    t.migrate().unwrap();
    assert!(t.created);
    assert_eq!(t.get_all().unwrap().len(), 1);
}

#[test]
fn insert_then_get_round_trips() {
    let mut t: Table<User> = Table::new();
    t.migrate().unwrap();
    let u = record(42, "alice", "a@x.com", "digest");
    t.post(&u).unwrap();
    let back = t.get(42).unwrap();
    assert_eq!(back.id, u.id);
    assert_eq!(back.user_name, u.user_name);
    assert_eq!(back.user_email, u.user_email);
    assert_eq!(back.user_auth, u.user_auth);
}

#[test]
fn get_of_an_absent_identifier_is_not_found() {
    let mut t: Table<User> = Table::new();
    t.migrate().unwrap();
    let err = t.get(9).unwrap_err();
    assert!(matches!(err.kind, YaddakErrorKind::DBError));
    assert_eq!(err.message, "no rows returned");
}

#[test]
fn duplicate_identifier_is_a_conflict() {
    let mut t: Table<User> = Table::new();
    t.migrate().unwrap();
    t.post(&record(1, "a", "a@x", "h1")).unwrap();
    let err = t.post(&record(1, "b", "b@x", "h2")).unwrap_err();
    assert!(matches!(err.kind, YaddakErrorKind::DBError));
    assert_eq!(err.message, "duplicate key");
    assert_eq!(t.get_all().unwrap().len(), 1);
}

#[test]
fn get_all_returns_storage_order() {
    let mut t: Table<User> = Table::new();
    t.migrate().unwrap();
    t.post(&record(1, "a", "a@x", "h1")).unwrap();
    t.post(&record(2, "b", "b@x", "h2")).unwrap();
    let all = t.get_all().unwrap();
    assert_eq!(all.len(), 2);
    assert_eq!(all[0].user_name, "a");
    assert_eq!(all[1].user_name, "b");
}

#[test]
fn update_keeps_the_identifier_and_overwrites_the_rest() {
    let mut t: Table<User> = Table::new();
    t.migrate().unwrap();
    t.post(&record(1, "a", "a@x", "h1")).unwrap();
    t.put(1, &record(99, "z", "z@x", "h9")).unwrap();
    let back = t.get(1).unwrap();
    assert_eq!(back.id, 1);
    assert_eq!(back.user_name, "z");
    assert_eq!(back.user_email, "z@x");
    assert_eq!(back.user_auth, "h9");
    assert!(t.get(99).is_err());
}

#[test]
fn update_of_an_absent_identifier_is_a_silent_success() {
    let mut t: Table<User> = Table::new();
    t.migrate().unwrap();
    t.post(&record(1, "a", "a@x", "h1")).unwrap();
    t.put(2, &record(2, "b", "b@x", "h2")).unwrap();
    assert_eq!(t.get_all().unwrap().len(), 1);
    assert_eq!(t.get(1).unwrap().user_name, "a");
}

#[test]
fn delete_removes_the_matching_record() {
    let mut t: Table<User> = Table::new();
    t.migrate().unwrap();
    t.post(&record(1, "a", "a@x", "h1")).unwrap();
    t.post(&record(2, "b", "b@x", "h2")).unwrap();
    t.delete(1).unwrap();
    assert!(t.get(1).is_err());
    assert_eq!(t.get_all().unwrap().len(), 1);
    t.delete(7).unwrap();
    assert_eq!(t.get_all().unwrap().len(), 1);
}

#[test]
fn entity_duplicate_preserves_every_field() {
    let u = record(3, "n", "e", "h");
    let d = u.duplicate();
    assert_eq!(d.id, 3);
    assert_eq!(d.user_name, "n");
    assert_eq!(d.user_email, "e");
    assert_eq!(d.user_auth, "h");
}
