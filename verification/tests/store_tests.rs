use user_directory::errors::ServiceError;
use user_directory::password::hash_password;
use user_directory::store::Table;
use user_directory::user::{UpdatedTokenResult, User};

fn sample_user(id: &str, first: &str, second: &str, password: &str) -> User {
    User {
        id: id.to_string(),
        first_name: first.to_string(),
        second_name: second.to_string(),
        biography: String::new(),
        birthdate: "1990-01-01".to_string(),
        city: "Oslo".to_string(),
        password_hash: hash_password(password),
        token: String::new(),
    }
}

/// Logs `id` in with `password` and a fixed fresh token, expecting
/// success; returns the token now stored.
fn login_with_token(table: &mut Table, id: &str, password: &str, token: &str) -> String {
    let r = User::update_token(&id.to_string(), password, token.to_string(), table);
    match r {
        UpdatedTokenResult::LoggedIn(u) => u.token,
        _ => panic!("expected a successful login"),
    }
}

#[test]
fn insert_then_fetch() {
    let mut table = Table::new();
    let id = sample_user("u1", "Ann", "Lee", "secret")
        .insert_to_db(&mut table)
        .unwrap();
    assert_eq!(id, "u1");
    let fetched = User::from_id(&"u1".to_string(), &table).unwrap();
    assert_eq!(fetched.first_name, "Ann");
    assert_eq!(fetched.token, "");
}

#[test]
fn insert_blanks_any_given_token() {
    let mut table = Table::new();
    let mut user = sample_user("u1", "Ann", "Lee", "secret");
    user.token = "never-issued-by-a-login".to_string();
    user.insert_to_db(&mut table).unwrap();
    // The stored token column is empty regardless of the given record:
    // a token exists only once a login has issued one.
    let fetched = User::from_id(&"u1".to_string(), &table).unwrap();
    assert_eq!(fetched.token, "");
}

#[test]
fn insert_duplicate_id_is_conflict() {
    let mut table = Table::new();
    sample_user("u1", "Ann", "Lee", "secret")
        .insert_to_db(&mut table)
        .unwrap();
    let r = sample_user("u1", "Bob", "Ray", "other").insert_to_db(&mut table);
    assert!(matches!(r, Err(ServiceError::Conflict)));
    assert_eq!(table.len(), 1);
    // The first row is untouched.
    let fetched = User::from_id(&"u1".to_string(), &table).unwrap();
    assert_eq!(fetched.first_name, "Ann");
}

#[test]
fn fetch_unknown_id_is_none() {
    let table = Table::new();
    assert!(User::from_id(&"missing".to_string(), &table).is_none());
}

#[test]
fn token_rotation_on_correct_password() {
    let mut table = Table::new();
    sample_user("u1", "Ann", "Lee", "secret")
        .insert_to_db(&mut table)
        .unwrap();
    let r = User::update_token(
        &"u1".to_string(),
        "secret",
        "fresh-token".to_string(),
        &mut table,
    );
    match r {
        UpdatedTokenResult::LoggedIn(u) => {
            assert_eq!(u.token, "fresh-token");
            assert_eq!(u.first_name, "Ann");
        }
        _ => panic!("expected a successful login"),
    }
    // A subsequent fetch observes exactly the rotated token.
    let fetched = User::from_id(&"u1".to_string(), &table).unwrap();
    assert_eq!(fetched.token, "fresh-token");
}

#[test]
fn token_unchanged_on_wrong_password() {
    let mut table = Table::new();
    sample_user("u1", "Ann", "Lee", "secret")
        .insert_to_db(&mut table)
        .unwrap();
    // A successful login stores a known token first.
    login_with_token(&mut table, "u1", "secret", "issued-token");
    let r = User::update_token(
        &"u1".to_string(),
        "wrong",
        "fresh-token".to_string(),
        &mut table,
    );
    assert!(matches!(r, UpdatedTokenResult::WrongPassword));
    let fetched = User::from_id(&"u1".to_string(), &table).unwrap();
    assert_eq!(fetched.token, "issued-token");
}

#[test]
fn unknown_user_login_changes_nothing() {
    let mut table = Table::new();
    sample_user("u1", "Ann", "Lee", "secret")
        .insert_to_db(&mut table)
        .unwrap();
    login_with_token(&mut table, "u1", "secret", "issued-token");
    let r = User::update_token(
        &"no-such-id".to_string(),
        "secret",
        "fresh-token".to_string(),
        &mut table,
    );
    assert!(matches!(r, UpdatedTokenResult::UserNotFound));
    assert_eq!(table.len(), 1);
    let fetched = User::from_id(&"u1".to_string(), &table).unwrap();
    assert_eq!(fetched.token, "issued-token");
}

#[test]
fn serialized_logins_last_commit_wins() {
    let mut table = Table::new();
    sample_user("u1", "Ann", "Lee", "secret")
        .insert_to_db(&mut table)
        .unwrap();
    let first = User::update_token(&"u1".to_string(), "secret", "t-one".to_string(), &mut table);
    let second = User::update_token(&"u1".to_string(), "secret", "t-two".to_string(), &mut table);
    match (first, second) {
        (UpdatedTokenResult::LoggedIn(u1), UpdatedTokenResult::LoggedIn(u2)) => {
            assert_eq!(u1.token, "t-one");
            assert_eq!(u2.token, "t-two");
        }
        _ => panic!("both logins must succeed"),
    }
    let fetched = User::from_id(&"u1".to_string(), &table).unwrap();
    assert_eq!(fetched.token, "t-two");
}

#[test]
fn search_with_no_prefix_is_empty() {
    let mut table = Table::new();
    sample_user("u1", "Ann", "Lee", "secret")
        .insert_to_db(&mut table)
        .unwrap();
    sample_user("u2", "Bob", "Ray", "secret")
        .insert_to_db(&mut table)
        .unwrap();
    let r = User::search(&table, None, None);
    assert!(r.is_empty());
}

#[test]
fn search_by_first_name_prefix() {
    let mut table = Table::new();
    sample_user("u1", "Ann", "Lee", "secret")
        .insert_to_db(&mut table)
        .unwrap();
    sample_user("u2", "Annette", "Lee", "secret")
        .insert_to_db(&mut table)
        .unwrap();
    sample_user("u3", "Bob", "Ray", "secret")
        .insert_to_db(&mut table)
        .unwrap();
    let first = "An".to_string();
    let r = User::search(&table, Some(&first), None);
    let mut ids: Vec<String> = r.iter().map(|p| p.id.clone()).collect();
    ids.sort();
    assert_eq!(ids, vec!["u1".to_string(), "u2".to_string()]);
}

#[test]
fn search_with_both_prefixes_needs_both() {
    let mut table = Table::new();
    sample_user("u1", "Ann", "Lee", "secret")
        .insert_to_db(&mut table)
        .unwrap();
    sample_user("u2", "Ann", "Ray", "secret")
        .insert_to_db(&mut table)
        .unwrap();
    let first = "An".to_string();
    let second = "Le".to_string();
    let r = User::search(&table, Some(&first), Some(&second));
    assert_eq!(r.len(), 1);
    assert_eq!(r[0].id, "u1");
}

#[test]
fn search_prefix_is_anchored_at_start() {
    let mut table = Table::new();
    sample_user("u1", "Joanna", "Lee", "secret")
        .insert_to_db(&mut table)
        .unwrap();
    let infix = "ann".to_string();
    let r = User::search(&table, Some(&infix), None);
    assert!(r.is_empty());
}

#[test]
fn search_results_carry_no_secrets() {
    let mut table = Table::new();
    sample_user("u1", "Ann", "Lee", "secret")
        .insert_to_db(&mut table)
        .unwrap();
    login_with_token(&mut table, "u1", "secret", "issued-token");
    let first = "Ann".to_string();
    let r = User::search(&table, Some(&first), None);
    assert_eq!(r.len(), 1);
    // SearchResult has no password or token field; check the public ones.
    assert_eq!(r[0].id, "u1");
    assert_eq!(r[0].first_name, "Ann");
    assert_eq!(r[0].second_name, "Lee");
    assert_eq!(r[0].birthdate, "1990-01-01");
    assert_eq!(r[0].city, "Oslo");
}
