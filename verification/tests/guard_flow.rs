use yaddak::errors::YaddakErrorKind;
use yaddak::repo::Table;
use yaddak::user::User;

fn seeded_table() -> Table<User> {
    let mut t: Table<User> = Table::new();
    t.migrate().unwrap();
    t.post(&User {
        id: 1,
        user_name: String::from("alice"),
        user_email: String::from("a@x.com"),
        user_auth: String::from("DIGESTalice"),
    })
    .unwrap();
    t.post(&User {
        id: 2,
        user_name: String::from("bob"),
        user_email: String::from("b@x.com"),
        user_auth: String::from("DIGESTbob"),
    })
    .unwrap();
    t
}

#[test]
fn free_login_name_passes_the_guard() {
    let t = seeded_table();
    User::user_name_not_used(&t, &String::from("carol")).unwrap();
}

#[test]
fn taken_login_name_fails_the_guard() {
    let t = seeded_table();
    let err = User::user_name_not_used(&t, &String::from("alice")).unwrap_err();
    assert!(matches!(err.kind, YaddakErrorKind::AuthError));
    assert_eq!(err.message, "Username is already used");
}

#[test]
fn taken_contact_address_fails_the_guard() {
    let t = seeded_table();
    let err = User::user_email_not_used(&t, &String::from("b@x.com")).unwrap_err();
    assert!(matches!(err.kind, YaddakErrorKind::AuthError));
    assert_eq!(err.message, "That email is already used");
    User::user_email_not_used(&t, &String::from("c@x.com")).unwrap();
}

#[test]
fn registration_with_taken_name_inserts_nothing() {
    let mut t = seeded_table();
    let secret = String::from("k");
    let err = User::create_with_id(
        &mut t,
        3,
        String::from("alice"),
        String::from("new@x.com"),
        String::from("pw"),
        &secret,
    )
    .unwrap_err();
    assert!(matches!(err.kind, YaddakErrorKind::AuthError));
    assert_eq!(t.get_all().unwrap().len(), 2);
}

#[test]
fn registration_with_taken_address_inserts_nothing_even_for_a_new_name() {
    let mut t = seeded_table();
    let secret = String::from("k");
    let err = User::create_with_id(
        &mut t,
        3,
        String::from("carol"),
        String::from("a@x.com"),
        String::from("pw"),
        &secret,
    )
    .unwrap_err();
    assert!(matches!(err.kind, YaddakErrorKind::AuthError));
    assert_eq!(err.message, "That email is already used");
    assert_eq!(t.get_all().unwrap().len(), 2);
}

#[test]
fn check_auth_accepts_only_a_verbatim_digest() {
    let t = seeded_table();
    User::check_auth(&t, &String::from("DIGESTalice")).unwrap();
    User::check_auth(&t, &String::from("DIGESTbob")).unwrap();
    // any transformation must fail
    assert!(User::check_auth(&t, &String::from("DIGESTalic")).is_err());
    assert!(User::check_auth(&t, &String::from("digestalice")).is_err());
    assert!(User::check_auth(&t, &String::from(" DIGESTalice")).is_err());
    assert!(User::check_auth(&t, &String::from("DIGESTalice ")).is_err());
    assert!(User::check_auth(&t, &String::from("")).is_err());
    let err = User::check_auth(&t, &String::from("nope")).unwrap_err();
    assert!(matches!(err.kind, YaddakErrorKind::AuthError));
    assert_eq!(err.message, "Could not authenticate");
}

#[test]
fn get_user_by_name_wants_exactly_one_match() {
    let t = seeded_table();
    let u = User::get_user_by_name(&t, &String::from("alice")).unwrap();
    assert_eq!(u.id, 1);
    let err = User::get_user_by_name(&t, &String::from("carol")).unwrap_err();
    assert!(matches!(err.kind, YaddakErrorKind::AuthError));
    assert_eq!(err.message, "Not Found");
}

#[test]
fn get_user_by_name_refuses_an_ambiguous_match() {
    let mut t = seeded_table();
    t.post(&User {
        id: 3,
        user_name: String::from("alice"),
        user_email: String::from("dup@x.com"),
        user_auth: String::from("DIGESTdup"),
    })
    .unwrap();
    assert!(User::get_user_by_name(&t, &String::from("alice")).is_err());
}
