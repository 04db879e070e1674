use yaddak::api;
use yaddak::errors::YaddakErrorKind;
use yaddak::repo::Table;
use yaddak::user::{CreateUserRequest, LoginUserRequest, User};

fn fresh_table() -> Table<User> {
    let mut t: Table<User> = Table::new();
    t.migrate().unwrap();
    t
}

fn create_req(name: &str, email: &str, pass: &str) -> CreateUserRequest {
    CreateUserRequest {
        user_name: String::from(name),
        user_email: String::from(email),
        user_pass: String::from(pass),
    }
}

#[test]
fn register_then_duplicate_name_is_refused() {
    let mut t = fresh_table();
    let secret = String::from("process-wide-secret");

    // register ("alice", "a@x.com", "secret1"): success with an identifier
    let (code, resp) = api::register(&mut t, create_req("alice", "a@x.com", "secret1"), &secret);
    assert_eq!(code, 200);
    assert!(resp.data.is_some());
    assert!(resp.error.is_none());

    // a second "alice" under a fresh address: 400 with an auth failure
    let (code, resp) = api::register(&mut t, create_req("alice", "b@y.com", "secret2"), &secret);
    assert_eq!(code, 400);
    assert!(resp.data.is_none());
    let err = resp.error.unwrap();
    assert!(matches!(err.kind, YaddakErrorKind::AuthError));
    assert_eq!(err.message, "Username is already used");
}

#[test]
fn login_with_the_registered_secret_returns_the_same_identifier() {
    let mut t = fresh_table();
    let secret = String::from("process-wide-secret");
    let (_, resp) = api::register(&mut t, create_req("alice", "a@x.com", "secret1"), &secret);
    let alice = resp.data.unwrap();

    let (code, resp) = api::login(
        &t,
        LoginUserRequest { user_name: String::from("alice"), user_pass: String::from("secret1") },
        &secret,
    );
    assert_eq!(code, 200);
    assert_eq!(resp.data.unwrap().id, alice.id);
}

#[test]
fn login_with_a_wrong_secret_is_unauthorized() {
    let mut t = fresh_table();
    let secret = String::from("process-wide-secret");
    let (_, resp) = api::register(&mut t, create_req("alice", "a@x.com", "secret1"), &secret);
    assert!(resp.data.is_some());

    let (code, resp) = api::login(
        &t,
        LoginUserRequest { user_name: String::from("alice"), user_pass: String::from("wrong") },
        &secret,
    );
    assert_eq!(code, 401);
    assert!(resp.data.is_none());
    let err = resp.error.unwrap();
    assert!(matches!(err.kind, YaddakErrorKind::AuthError));
    assert_eq!(err.message, "Could not Sign In");
}

#[test]
fn login_of_an_unknown_name_is_not_found() {
    let t = fresh_table();
    let secret = String::from("k");
    let (code, resp) = api::login(
        &t,
        LoginUserRequest { user_name: String::from("ghost"), user_pass: String::from("pw") },
        &secret,
    );
    assert_eq!(code, 404);
    assert!(resp.data.is_none());
    let err = resp.error.unwrap();
    assert!(matches!(err.kind, YaddakErrorKind::AuthError));
    assert_eq!(err.message, "Not Found");
}

#[test]
fn protected_routes_refuse_a_missing_header() {
    let t = fresh_table();
    let (code, resp) = api::get_user(&t, None, 1);
    assert_eq!(code, 403);
    assert!(resp.data.is_none());
    let (code, _) = api::get_all(&t, None);
    assert_eq!(code, 403);
}

#[test]
fn protected_routes_refuse_an_unknown_token() {
    let mut t = fresh_table();
    let secret = String::from("k");
    let (code, _) = api::register(&mut t, create_req("alice", "a@x.com", "pw"), &secret);
    assert_eq!(code, 200);
    let header = String::from("Bearer not-a-digest");
    let (code, resp) = api::get_user(&t, Some(&header), 1);
    assert_eq!(code, 401);
    assert!(resp.data.is_none());
}

#[test]
fn stored_digest_authorizes_the_bearer() {
    let mut t = fresh_table();
    let secret = String::from("k");
    let (code, resp) = api::register(&mut t, create_req("alice", "a@x.com", "pw"), &secret);
    assert_eq!(code, 200);
    let alice = resp.data.unwrap();
    let header = format!("Bearer {}", alice.user_auth);

    let (code, resp) = api::get_user(&t, Some(&header), alice.id);
    assert_eq!(code, 200);
    assert_eq!(resp.data.unwrap().user_name, "alice");

    let (code, resp) = api::get_all(&t, Some(&header));
    assert_eq!(code, 200);
    assert_eq!(resp.data.unwrap().len(), 1);

    // an absent identifier surfaces as an internal failure
    let (code, _) = api::get_user(&t, Some(&header), alice.id.wrapping_add(1));
    assert_eq!(code, 500);
}

#[test]
fn update_and_remove_round_trip() {
    let mut t = fresh_table();
    let secret = String::from("k");
    let (_, resp) = api::register(&mut t, create_req("alice", "a@x.com", "pw"), &secret);
    let alice = resp.data.unwrap();
    let header = format!("Bearer {}", alice.user_auth);

    let replacement = User {
        id: alice.id,
        user_name: String::from("alicia"),
        user_email: String::from("a2@x.com"),
        user_auth: alice.user_auth.clone(),
    };
    let (code, resp) = api::update(&mut t, Some(&header), alice.id, replacement);
    assert_eq!(code, 200);
    assert_eq!(resp.data.unwrap().user_name, "alicia");
    assert_eq!(t.get(alice.id).unwrap().user_name, "alicia");

    let (code, resp) = api::remove(&mut t, Some(&header), alice.id);
    assert_eq!(code, 200);
    assert_eq!(resp.data.unwrap(), alice.id);
    assert_eq!(t.get_all().unwrap().len(), 0);
}

#[test]
fn update_without_authorization_changes_nothing() {
    let mut t = fresh_table();
    let secret = String::from("k");
    let (_, resp) = api::register(&mut t, create_req("alice", "a@x.com", "pw"), &secret);
    let alice = resp.data.unwrap();
    let replacement = User {
        id: alice.id,
        user_name: String::from("mallory"),
        user_email: String::from("m@x.com"),
        user_auth: String::from("forged"),
    };
    let (code, _) = api::update(&mut t, None, alice.id, replacement);
    assert_eq!(code, 403);
    assert_eq!(t.get(alice.id).unwrap().user_name, "alice");
}
