use rst03_app_error::errors::{AppError, ErrorDetails, FieldErrors};
use rst03_app_error::hashing::{check_password, hash_password, PasswordCheck};
use rst03_app_error::model::{has_length_within, is_valid_username_pattern, AuthLogin, AuthRegister};
use rst03_app_error::services::{
    logged_message, login_after_check, login_after_fetch, login_begin, register_after_confirm,
    register_after_exists, register_after_hash, register_after_insert, register_begin,
    registered_message, Step, StoreAction,
};
use rst03_app_error::store::CredentialStore;

fn reg(username: &str, password: &str, confirm: &str) -> AuthRegister {
    AuthRegister {
        username: username.to_string(),
        password: password.to_string(),
        confirm_password: confirm.to_string(),
    }
}

fn login(username: &str, password: &str) -> AuthLogin {
    AuthLogin { username: username.to_string(), password: password.to_string() }
}

fn fields_of(err: &AppError) -> &Vec<FieldErrors> {
    match &err.json_error_message().details {
        Some(ErrorDetails::Fields(f)) => f,
        other => panic!("expected field details, got {:?}", other),
    }
}

fn field_names(err: &AppError) -> Vec<String> {
    fields_of(err).iter().map(|f| f.field.clone()).collect()
}

fn finished_err(step: Step) -> AppError {
    match step {
        Step::Finish(Err(e)) => e,
        _ => panic!("expected a finished error"),
    }
}

const UNAUTHORIZED_ALICE: &str =
    "login failed for user 'alice01'. please double-check your credentials info.";

#[test]
fn username_pattern_examples() {
    assert!(is_valid_username_pattern("alice01"));
    assert!(is_valid_username_pattern("AB"));
    assert!(is_valid_username_pattern("09"));
    assert!(!is_valid_username_pattern("a!"));
    assert!(!is_valid_username_pattern("x"));
    assert!(!is_valid_username_pattern("hi there"));
    assert!(!is_valid_username_pattern(""));
    assert!(!is_valid_username_pattern("under_score"));
    assert!(!is_valid_username_pattern("caf\u{e9}"));
}

#[test]
fn length_counts_characters() {
    assert!(has_length_within("abcdefgh", 8, 75));
    assert!(!has_length_within("abcdefg", 8, 75));
    assert!(has_length_within("\u{e9}\u{e9}", 2, 2));
}

#[test]
fn off_pattern_usernames_fail_both_flows() {
    for name in ["a!", "x", "hi there"] {
        let e = finished_err(register_begin(&reg(name, "correcthorse", "correcthorse")));
        assert_eq!(e.status_code(), 422);
        assert_eq!(e.json_error_message().code, 422);
        assert_eq!(e.json_error_message().message, "validation error");
        assert_eq!(field_names(&e), vec!["username".to_string()]);
        assert!(fields_of(&e)[0]
            .messages
            .contains(&"username is invalid - must be only alphanumeric characters".to_string()));

        let e = finished_err(login_begin(&login(name, "correcthorse")));
        assert_eq!(e.status_code(), 422);
        assert_eq!(field_names(&e), vec!["username".to_string()]);
        assert!(fields_of(&e)[0].messages.contains(
            &"username is invalid - must be only alphanumeric/underscore characters".to_string()
        ));
    }
}

#[test]
fn single_char_username_has_both_violations() {
    let e = finished_err(register_begin(&reg("x", "correcthorse", "correcthorse")));
    assert_eq!(
        fields_of(&e)[0].messages,
        vec![
            "username is invalid - must be 2-25 characters only".to_string(),
            "username is invalid - must be only alphanumeric characters".to_string(),
        ]
    );
}

#[test]
fn username_length_bounds() {
    let ok25 = "a".repeat(25);
    let bad26 = "a".repeat(26);
    assert!(matches!(
        register_begin(&reg(&ok25, "correcthorse", "correcthorse")),
        Step::Perform(StoreAction::CheckExists { .. })
    ));
    let e = finished_err(register_begin(&reg(&bad26, "correcthorse", "correcthorse")));
    assert_eq!(
        fields_of(&e)[0].messages,
        vec!["username is invalid - must be 2-25 characters only".to_string()]
    );
    let e = finished_err(login_begin(&login(&bad26, "correcthorse")));
    assert_eq!(
        fields_of(&e)[0].messages,
        vec!["username is invalid - must be only 2-25 characters".to_string()]
    );
}

#[test]
fn bad_password_lengths_fail_both_flows() {
    let long = "p".repeat(76);
    for pw in ["short", "1234567", long.as_str()] {
        let e = finished_err(register_begin(&reg("alice01", pw, pw)));
        assert_eq!(e.status_code(), 422);
        assert_eq!(field_names(&e), vec!["password".to_string()]);
        assert_eq!(
            fields_of(&e)[0].messages,
            vec!["password is invalid - must have minimum length of 8 characters".to_string()]
        );
        let e = finished_err(login_begin(&login("alice01", pw)));
        assert_eq!(field_names(&e), vec!["password".to_string()]);
    }
    let edge8 = "p".repeat(8);
    let edge75 = "p".repeat(75);
    for pw in [edge8.as_str(), edge75.as_str()] {
        assert!(matches!(
            login_begin(&login("alice01", pw)),
            Step::Perform(StoreAction::FetchPasswordHash { .. })
        ));
    }
}

#[test]
fn mismatched_confirmation_is_reported() {
    let e = finished_err(register_begin(&reg("alice01", "correcthorse", "correcthorsf")));
    assert_eq!(e.status_code(), 422);
    assert_eq!(field_names(&e), vec!["confirmPassword".to_string()]);
    assert_eq!(
        fields_of(&e)[0].messages,
        vec!["confirm password is not same as password".to_string()]
    );
}

#[test]
fn all_fields_reported_in_order() {
    let e = finished_err(register_begin(&reg("a!", "short", "other")));
    assert_eq!(
        field_names(&e),
        vec!["username".to_string(), "password".to_string(), "confirmPassword".to_string()]
    );
}

#[test]
fn valid_requests_go_to_the_store() {
    match register_begin(&reg("alice01", "correcthorse", "correcthorse")) {
        Step::Perform(StoreAction::CheckExists { username }) => assert_eq!(username, "alice01"),
        _ => panic!("expected an existence check"),
    }
    match login_begin(&login("alice01", "correcthorse")) {
        Step::Perform(StoreAction::FetchPasswordHash { username }) => {
            assert_eq!(username, "alice01")
        }
        _ => panic!("expected a hash fetch"),
    }
}

#[test]
fn taken_username_is_a_conflict() {
    let e = finished_err(register_after_exists(&reg("alice01", "correcthorse", "correcthorse"), Ok(true)));
    assert_eq!(e.status_code(), 409);
    assert!(matches!(e, AppError::Conflict(_)));
    assert_eq!(e.json_error_message().code, 409);
    assert_eq!(
        e.json_error_message().message,
        "username 'alice01' is already taken. please choose another!"
    );
    assert!(e.json_error_message().details.is_none());
}

#[test]
fn failed_existence_check_is_internal() {
    let r = reg("alice01", "correcthorse", "correcthorse");
    let e = finished_err(register_after_exists(&r, Err("connection reset".to_string())));
    assert_eq!(e.status_code(), 500);
    assert_eq!(e.json_error_message().code, 500);
    assert_eq!(e.json_error_message().message, "database error");
    assert!(matches!(
        &e.json_error_message().details,
        Some(ErrorDetails::Text(d)) if d == "connection reset"
    ));
}

#[test]
fn free_username_is_hashed_for_insert() {
    let r = reg("alice01", "correcthorse", "correcthorse");
    match register_after_exists(&r, Ok(false)) {
        Step::Perform(StoreAction::Insert { username, password_hash }) => {
            assert_eq!(username, "alice01");
            assert_ne!(password_hash, "correcthorse");
            assert!(matches!(check_password("correcthorse", &password_hash), PasswordCheck::Accepted));
        }
        _ => panic!("expected an insert"),
    }
}

#[test]
fn register_steps_after_hash_insert_and_confirm() {
    let r = reg("alice01", "correcthorse", "correcthorse");
    match register_after_hash(&r, Ok("$argon2id$stub".to_string())) {
        Step::Perform(StoreAction::Insert { username, password_hash }) => {
            assert_eq!(username, "alice01");
            assert_eq!(password_hash, "$argon2id$stub");
        }
        _ => panic!("expected an insert"),
    }
    let e = finished_err(register_after_hash(&r, Err("backend".to_string())));
    assert_eq!(e.status_code(), 500);
    assert_eq!(e.json_error_message().message, "error hashing password");

    let e = finished_err(register_after_insert(&r, Err("pool timed out".to_string())));
    assert_eq!(e.status_code(), 500);
    assert_eq!(e.json_error_message().message, "database error");
    assert!(matches!(
        &e.json_error_message().details,
        Some(ErrorDetails::Text(d)) if d == "pool timed out"
    ));
    assert!(matches!(
        register_after_insert(&r, Ok(())),
        Step::Perform(StoreAction::FetchUsername { .. })
    ));

    assert!(matches!(
        register_after_confirm(&r, Ok("alice01".to_string())),
        Step::Finish(Ok(ref u)) if u == "alice01"
    ));
    let e = finished_err(register_after_confirm(&r, Ok("mallory".to_string())));
    assert_eq!(e.status_code(), 500);
    assert_eq!(
        e.json_error_message().message,
        "the registration for user mallory has encountered a failure."
    );
    let e = finished_err(register_after_confirm(&r, Err("gone".to_string())));
    assert_eq!(e.json_error_message().message, "database error");
}

#[test]
fn login_steps() {
    let l = login("alice01", "correcthorse");
    let e = finished_err(login_after_fetch(&l, Ok(None)));
    assert_eq!(e.status_code(), 401);
    assert_eq!(e.json_error_message().message, UNAUTHORIZED_ALICE);

    let e = finished_err(login_after_fetch(&l, Err("pool timed out".to_string())));
    assert_eq!(e.status_code(), 500);
    assert!(matches!(e, AppError::InternalServerError(_)));
    assert_eq!(e.json_error_message().message, "database error");
    assert!(matches!(
        &e.json_error_message().details,
        Some(ErrorDetails::Text(d)) if d == "pool timed out"
    ));

    let e = finished_err(login_after_fetch(&l, Ok(Some("not a phc string".to_string()))));
    assert_eq!(e.status_code(), 500);
    assert_eq!(e.json_error_message().message, "failed to parse hashed_password");

    assert!(matches!(
        login_after_check(&l, PasswordCheck::Accepted),
        Step::Finish(Ok(ref u)) if u == "alice01"
    ));
    let e = finished_err(login_after_check(&l, PasswordCheck::Rejected("mismatch".to_string())));
    assert_eq!(e.status_code(), 401);
    assert_eq!(e.json_error_message().message, UNAUTHORIZED_ALICE);
    let e = finished_err(login_after_check(&l, PasswordCheck::Malformed("bad".to_string())));
    assert_eq!(e.status_code(), 500);
}

#[test]
fn hash_round_trip() {
    let h = hash_password("correcthorse").expect("hashing");
    assert_ne!(h, "correcthorse");
    assert!(h.starts_with("$argon2"));
    assert!(matches!(check_password("correcthorse", &h), PasswordCheck::Accepted));
    assert!(matches!(check_password("wrongpass", &h), PasswordCheck::Rejected(_)));
}

#[test]
fn hashes_are_salted() {
    let a = hash_password("correcthorse").expect("hashing");
    let b = hash_password("correcthorse").expect("hashing");
    assert_ne!(a, b);
}

#[test]
fn malformed_hash_is_told_apart() {
    assert!(matches!(check_password("correcthorse", "plain"), PasswordCheck::Malformed(_)));
    assert!(matches!(check_password("correcthorse", ""), PasswordCheck::Malformed(_)));
}

#[test]
fn register_twice_conflicts() {
    let mut store = CredentialStore::new();
    let r = reg("alice01", "correcthorse", "correcthorse");
    assert_eq!(store.register(&r).expect("first registration"), "alice01");
    assert!(store.has_username(&"alice01".to_string()));
    let e = store.register(&reg("alice01", "otherpassword", "otherpassword")).unwrap_err();
    assert_eq!(e.status_code(), 409);
    assert_eq!(
        e.json_error_message().message,
        "username 'alice01' is already taken. please choose another!"
    );
}

#[test]
fn unknown_username_is_unauthorized() {
    let store = CredentialStore::new();
    let e = store.login(&login("alice01", "correcthorse")).unwrap_err();
    assert!(matches!(e, AppError::Unauthorized(_)));
    assert_eq!(e.status_code(), 401);
    assert_eq!(e.json_error_message().code, 401);
    assert_eq!(e.json_error_message().message, UNAUTHORIZED_ALICE);
}

#[test]
fn wrong_password_looks_like_unknown_username() {
    let empty = CredentialStore::new();
    let unknown = empty.login(&login("alice01", "wrongpass")).unwrap_err();
    let mut store = CredentialStore::new();
    store.register(&reg("alice01", "correcthorse", "correcthorse")).expect("registration");
    let wrong = store.login(&login("alice01", "wrongpass")).unwrap_err();
    assert_eq!(unknown.status_code(), wrong.status_code());
    assert_eq!(unknown.json_error_message().code, wrong.json_error_message().code);
    assert_eq!(unknown.json_error_message().message, wrong.json_error_message().message);
    assert!(matches!(wrong, AppError::Unauthorized(_)));
}

#[test]
fn stored_malformed_hash_is_internal() {
    let mut store = CredentialStore::new();
    store.insert("bob01".to_string(), "garbage".to_string()).expect("insert");
    let e = store.login(&login("bob01", "correcthorse")).unwrap_err();
    assert_eq!(e.status_code(), 500);
    assert_eq!(e.json_error_message().message, "failed to parse hashed_password");
}

#[test]
fn store_operations() {
    let mut store = CredentialStore::new();
    let alice = "alice01".to_string();
    assert!(!store.has_username(&alice));
    assert!(matches!(store.fetch_password_hash(&alice), Ok(None)));
    assert!(store.insert(alice.clone(), "h1".to_string()).is_ok());
    assert!(store.insert(alice.clone(), "h2".to_string()).is_err());
    assert_eq!(store.fetch_password_hash(&alice).unwrap(), Some("h1".to_string()));
    assert_eq!(store.fetch_username(&alice).unwrap(), "alice01");
}

#[test]
fn end_to_end_register_then_login() {
    let mut store = CredentialStore::new();
    let user = store
        .register(&reg("alice01", "correcthorse", "correcthorse"))
        .expect("registration");
    assert_eq!(registered_message(&user), "user alice01 successfully registered");
    let user = store.login(&login("alice01", "correcthorse")).expect("login");
    assert_eq!(logged_message(&user), "user alice01 successfully logged");
    let e = store.login(&login("alice01", "wrongpass")).unwrap_err();
    assert_eq!(e.status_code(), 401);
    assert_eq!(e.json_error_message().code, 401);
    assert_eq!(e.json_error_message().message, UNAUTHORIZED_ALICE);
}

#[test]
fn error_constructors_and_statuses() {
    let v = AppError::validation(Vec::new());
    assert_eq!(v.status_code(), 422);
    let d = AppError::database("x".to_string());
    assert_eq!((d.status_code(), d.json_error_message().code), (500, 500));
    let h = AppError::hash_format("y".to_string());
    assert_eq!(h.json_error_message().message, "failed to parse hashed_password");
    let c = AppError::conflict("bob01");
    assert_eq!(c.status_code(), 409);
    let u = AppError::unauthorized("bob01", "z".to_string());
    assert_eq!(u.status_code(), 401);
    assert_eq!(
        u.json_error_message().message,
        "login failed for user 'bob01'. please double-check your credentials info."
    );
}
