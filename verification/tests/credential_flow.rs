use yaddak::errors::YaddakErrorKind;
use yaddak::repo::Table;
use yaddak::user::User;

fn fresh_table() -> Table<User> {
    let mut t: Table<User> = Table::new();
    t.migrate().unwrap();
    t
}

#[test]
fn hash_then_verify_succeeds() {
    let mut t = fresh_table();
    let secret = String::from("process-wide-secret");
    let user = User::create_with_id(
        &mut t,
        7,
        String::from("alice"),
        String::from("a@x.com"),
        String::from("secret1"),
        &secret,
    )
    .unwrap();
    assert_eq!(user.id, 7);
    assert_eq!(user.user_name, "alice");
    assert_eq!(user.user_email, "a@x.com");
    user.authenticate(String::from("alice"), String::from("secret1"), &secret).unwrap();
}

#[test]
fn verify_rejects_a_different_secret() {
    let mut t = fresh_table();
    let secret = String::from("process-wide-secret");
    let user = User::create_with_id(
        &mut t,
        7,
        String::from("alice"),
        String::from("a@x.com"),
        String::from("secret1"),
        &secret,
    )
    .unwrap();
    let err =
        user.authenticate(String::from("alice"), String::from("secret2"), &secret).unwrap_err();
    assert!(matches!(err.kind, YaddakErrorKind::AuthError));
    assert_eq!(err.message, "Could not Sign In");
}

#[test]
fn verify_rejects_a_different_keying_secret() {
    let mut t = fresh_table();
    let secret = String::from("process-wide-secret");
    let other = String::from("another-secret");
    let user = User::create_with_id(
        &mut t,
        7,
        String::from("alice"),
        String::from("a@x.com"),
        String::from("secret1"),
        &secret,
    )
    .unwrap();
    assert!(user.authenticate(String::from("alice"), String::from("secret1"), &other).is_err());
}

#[test]
fn stored_digest_is_a_bare_base64_segment() {
    let mut t = fresh_table();
    let secret = String::from("process-wide-secret");
    let user = User::create_with_id(
        &mut t,
        9,
        String::from("bob"),
        String::from("b@x.com"),
        String::from("hunter2"),
        &secret,
    )
    .unwrap();
    // 32 digest bytes render as 43 unpadded base64 characters, with the
    // encoded prefix stripped.
    assert_eq!(user.user_auth.len(), 43);
    assert!(!user.user_auth.contains('$'));
    assert_ne!(user.user_auth, "hunter2");
}

#[test]
fn same_inputs_derive_the_same_digest() {
    let secret = String::from("process-wide-secret");
    let mut t1 = fresh_table();
    let mut t2 = fresh_table();
    let u1 = User::create_with_id(
        &mut t1,
        5,
        String::from("carol"),
        String::from("c@x.com"),
        String::from("pw"),
        &secret,
    )
    .unwrap();
    let u2 = User::create_with_id(
        &mut t2,
        5,
        String::from("carol"),
        String::from("c@x.com"),
        String::from("pw"),
        &secret,
    )
    .unwrap();
    assert_eq!(u1.user_auth, u2.user_auth);
}

#[test]
fn record_identifier_salts_the_digest() {
    let secret = String::from("process-wide-secret");
    let mut t1 = fresh_table();
    let mut t2 = fresh_table();
    let u1 = User::create_with_id(
        &mut t1,
        1,
        String::from("carol"),
        String::from("c@x.com"),
        String::from("pw"),
        &secret,
    )
    .unwrap();
    let u2 = User::create_with_id(
        &mut t2,
        2,
        String::from("carol"),
        String::from("c@x.com"),
        String::from("pw"),
        &secret,
    )
    .unwrap();
    assert_ne!(u1.user_auth, u2.user_auth);
}

#[test]
fn new_record_is_empty() {
    let u = User::new();
    assert_eq!(u.id, 0);
    assert_eq!(u.user_name, "");
    assert_eq!(u.user_email, "");
    assert_eq!(u.user_auth, "");
}
