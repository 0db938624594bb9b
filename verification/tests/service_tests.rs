use user_directory::dates::Date;
use user_directory::errors::ServiceError;
use user_directory::service::{current_date, Service};
use user_directory::user::{CreateUserRequest, UpdatedTokenResult};

fn ann() -> CreateUserRequest {
    CreateUserRequest {
        first_name: "Ann".to_string(),
        second_name: "Lee".to_string(),
        biography: String::new(),
        birthdate: "1990-01-01".to_string(),
        city: "Oslo".to_string(),
        password: "secret".to_string(),
    }
}

#[test]
fn end_to_end_scenario() {
    let mut service = Service::new(4);

    // Register Ann.
    let id = service.register(ann()).unwrap();
    assert_eq!(id.len(), 36);

    // Login with the right password: a non-empty fresh token.
    let outcome = service.login(&id, "secret").unwrap();
    let token = match outcome {
        UpdatedTokenResult::LoggedIn(u) => u.token,
        _ => panic!("expected a successful login"),
    };
    assert!(!token.is_empty());
    assert_eq!(token.len(), 36);

    // Login with a wrong password.
    let outcome = service.login(&id, "wrong").unwrap();
    assert!(matches!(outcome, UpdatedTokenResult::WrongPassword));

    // The profile carries no password and no token field at all.
    let profile = service.get_profile(&id).unwrap().unwrap();
    assert_eq!(profile.id, id);
    assert_eq!(profile.first_name, "Ann");
    assert_eq!(profile.second_name, "Lee");
    assert_eq!(profile.birthdate, "1990-01-01");
    assert_eq!(profile.city, "Oslo");

    // Search by both prefixes finds Ann.
    let first = "An".to_string();
    let second = "Lee".to_string();
    let results = service.search(Some(&first), Some(&second)).unwrap();
    assert!(results.iter().any(|p| p.id == id));
}

#[test]
fn register_rejects_underage_subject() {
    let mut service = Service::new(2);
    let today = Date { year: 2026, month: 5, day: 10 };
    let req = CreateUserRequest { birthdate: "2010-01-01".to_string(), ..ann() };
    let r = service.register_dated(req, today, "fixed-id".to_string());
    assert!(matches!(r, Err(ServiceError::InvalidInput)));
    // Nothing was stored.
    assert!(service.get_profile(&"fixed-id".to_string()).unwrap().is_none());
}

#[test]
fn register_age_gate_boundary() {
    let today = Date { year: 2026, month: 5, day: 10 };

    // Exactly eighteen years old today: passes.
    let mut service = Service::new(2);
    let req = CreateUserRequest { birthdate: "2008-05-10".to_string(), ..ann() };
    assert!(service.register_dated(req, today, "id-a".to_string()).is_ok());

    // Eighteen years minus one day: fails.
    let req = CreateUserRequest { birthdate: "2008-05-11".to_string(), ..ann() };
    let r = service.register_dated(req, today, "id-b".to_string());
    assert!(matches!(r, Err(ServiceError::InvalidInput)));
}

#[test]
fn register_rejects_malformed_birthdate() {
    let mut service = Service::new(2);
    let today = Date { year: 2026, month: 5, day: 10 };
    let req = CreateUserRequest { birthdate: "not-a-date!".to_string(), ..ann() };
    let r = service.register_dated(req, today, "id-a".to_string());
    assert!(matches!(r, Err(ServiceError::InvalidInput)));
}

#[test]
fn register_duplicate_id_is_conflict() {
    let mut service = Service::new(2);
    let today = Date { year: 2026, month: 5, day: 10 };
    service
        .register_dated(ann(), today, "same-id".to_string())
        .unwrap();
    let r = service.register_dated(ann(), today, "same-id".to_string());
    assert!(matches!(r, Err(ServiceError::Conflict)));
}

#[test]
fn exhausted_pool_is_unavailable() {
    let mut service = Service::new(0);
    let today = Date { year: 2026, month: 5, day: 10 };
    let r = service.register_dated(ann(), today, "id-a".to_string());
    assert!(matches!(r, Err(ServiceError::Unavailable)));
    let r = service.login(&"anyone".to_string(), "secret");
    assert!(matches!(r, Err(ServiceError::Unavailable)));
    let r = service.get_profile(&"anyone".to_string());
    assert!(matches!(r, Err(ServiceError::Unavailable)));
    let r = service.search(None, None);
    assert!(matches!(r, Err(ServiceError::Unavailable)));
}

#[test]
fn login_of_unknown_user_is_not_found() {
    let mut service = Service::new(2);
    let outcome = service.login(&"never-registered".to_string(), "pw").unwrap();
    assert!(matches!(outcome, UpdatedTokenResult::UserNotFound));
}

#[test]
fn login_rotates_token_each_time() {
    let mut service = Service::new(2);
    let id = service.register(ann()).unwrap();
    let t1 = match service.login(&id, "secret").unwrap() {
        UpdatedTokenResult::LoggedIn(u) => u.token,
        _ => panic!("expected a successful login"),
    };
    let t2 = match service.login(&id, "secret").unwrap() {
        UpdatedTokenResult::LoggedIn(u) => u.token,
        _ => panic!("expected a successful login"),
    };
    assert_ne!(t1, t2);
}

#[test]
fn search_with_no_prefix_is_empty_even_when_populated() {
    let mut service = Service::new(2);
    service.register(ann()).unwrap();
    let results = service.search(None, None).unwrap();
    assert!(results.is_empty());
}

#[test]
fn clock_reports_a_real_date() {
    let d = current_date().unwrap();
    assert!((1..=12).contains(&d.month));
    assert!((1..=31).contains(&d.day));
    assert!(d.year >= 2020);
}
