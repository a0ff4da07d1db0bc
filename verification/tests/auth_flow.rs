use user_service::ApiError;
use user_service::LoginRequest;
use user_service::NewUser;
use user_service::Session;
use user_service::User;
use user_service::UserStore;
use user_service::TOKEN_TTL_SECONDS;
use user_service::{create, login, logout, validate};

fn registered_store() -> UserStore {
    let mut store = UserStore::new();
    let new_user = NewUser {
        id: "u1".to_string(),
        first_name: "Ada".to_string(),
        last_name: "Lovelace".to_string(),
        email: "a@b.com".to_string(),
        password: "secret1".to_string(),
        created_by: "admin".to_string(),
        updated_by: "admin".to_string(),
    };
    let user = User::from_new(&new_user, 1000);
    create(&mut store, &user).unwrap();
    store
}

fn login_request(email: &str, password: &str) -> LoginRequest {
    LoginRequest {
        email: email.to_string(),
        password: password.to_string(),
    }
}

#[test]
fn validate_requires_an_email_shape_and_a_long_enough_password() {
    assert!(validate(&login_request("a@b.com", "secret1")).is_ok());

    match validate(&login_request("ab.com", "secret1")) {
        Err(ApiError::ValidationError(msgs)) => {
            assert_eq!(msgs, vec!["email must be a valid email".to_string()]);
        }
        other => panic!("expected a validation error, got {:?}", other),
    }

    match validate(&login_request("a@b.com", "short")) {
        Err(ApiError::ValidationError(msgs)) => {
            assert_eq!(
                msgs,
                vec!["password is required and must be at least 6 characters".to_string()]
            );
        }
        other => panic!("expected a validation error, got {:?}", other),
    }

    match validate(&login_request("", "x")) {
        Err(ApiError::ValidationError(msgs)) => {
            assert_eq!(
                msgs,
                vec![
                    "email must be a valid email".to_string(),
                    "password is required and must be at least 6 characters".to_string(),
                ]
            );
        }
        other => panic!("expected a validation error, got {:?}", other),
    }
}

#[test]
fn login_end_to_end_attaches_a_token_and_rejects_a_wrong_password() {
    let store = registered_store();
    let mut session = Session::new();

    let (claim, resp) = login(&store, &login_request("a@b.com", "secret1"), 2000).unwrap();
    assert_eq!(resp.id, "u1");
    assert_eq!(resp.email, "a@b.com");
    assert_eq!(claim.user_id, "u1");
    assert_eq!(claim.email, "a@b.com");
    assert_eq!(claim.issued_at, 2000);
    assert_eq!(claim.expires_at, 2000 + TOKEN_TTL_SECONDS);

    // The collaborating token layer signs the claim; the session only
    // remembers the opaque result.
    session.remember(format!("signed:{}:{}", claim.user_id, claim.expires_at));
    assert!(session.token.is_some());

    match login(&store, &login_request("a@b.com", "wrong1"), 2000) {
        Err(ApiError::Unauthorized(m)) => assert_eq!(m, "Invalid login"),
        other => panic!("expected a refusal, got {:?}", other),
    }
}

#[test]
fn login_failures_are_indistinguishable_across_fields() {
    let store = registered_store();
    let wrong_email = login(&store, &login_request("x@b.com", "secret1"), 2000);
    let wrong_password = login(&store, &login_request("a@b.com", "wrong1"), 2000);
    let m1 = match wrong_email {
        Err(ApiError::Unauthorized(m)) => m,
        other => panic!("expected a refusal, got {:?}", other),
    };
    let m2 = match wrong_password {
        Err(ApiError::Unauthorized(m)) => m,
        other => panic!("expected a refusal, got {:?}", other),
    };
    assert_eq!(m1, m2);
}

#[test]
fn login_with_invalid_fields_never_reaches_the_lookup() {
    let store = registered_store();
    match login(&store, &login_request("ab.com", "secret1"), 2000) {
        Err(ApiError::ValidationError(msgs)) => {
            assert_eq!(msgs, vec!["email must be a valid email".to_string()]);
        }
        other => panic!("expected a validation error, got {:?}", other),
    }
    match login(&store, &login_request("a@b.com", "short"), 2000) {
        Err(ApiError::ValidationError(_)) => {}
        other => panic!("expected a validation error, got {:?}", other),
    }
}

#[test]
fn logout_always_succeeds_even_with_no_active_session() {
    let mut session = Session::new();
    assert!(logout(&mut session).is_ok());
    assert!(session.token.is_none());

    session.remember("some-token".to_string());
    assert!(logout(&mut session).is_ok());
    assert!(session.token.is_none());

    assert!(logout(&mut session).is_ok());
    assert!(session.token.is_none());
}

#[test]
fn session_remember_replaces_the_previous_token() {
    let mut session = Session::new();
    session.remember("first".to_string());
    session.remember("second".to_string());
    assert_eq!(session.token, Some("second".to_string()));
}
