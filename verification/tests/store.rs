use user_service::hash;
use user_service::is_uuid_string;
use user_service::ApiError;
use user_service::NewUser;
use user_service::UpdateUser;
use user_service::User;
use user_service::UserStore;
use user_service::{create, delete, find, find_by_auth, get_all, update};

fn sample_new_user(id: &str, email: &str, password: &str) -> NewUser {
    NewUser {
        id: id.to_string(),
        first_name: "Ada".to_string(),
        last_name: "Lovelace".to_string(),
        email: email.to_string(),
        password: password.to_string(),
        created_by: "admin".to_string(),
        updated_by: "admin".to_string(),
    }
}

#[test]
fn create_then_find_returns_visible_fields() {
    let mut store = UserStore::new();
    let new_user = sample_new_user("u1", "a@b.com", "secret1");
    let user = User::from_new(&new_user, 1000);

    assert_eq!(user.password.len(), 64);
    assert_ne!(user.password, "secret1");

    let created = create(&mut store, &user).unwrap();
    let found = find(&store, "u1").unwrap();

    assert_eq!(found, created);
    assert_eq!(found.id, "u1");
    assert_eq!(found.first_name, "Ada");
    assert_eq!(found.last_name, "Lovelace");
    assert_eq!(found.email, "a@b.com");
    assert_eq!(found.created_by, "admin");
    assert_eq!(found.updated_by, "admin");
    assert_eq!(found.created_at, 1000);
    assert_eq!(found.updated_at, 1000);
}

#[test]
fn create_duplicate_id_is_refused() {
    let mut store = UserStore::new();
    let user = User::from_new(&sample_new_user("u1", "a@b.com", "secret1"), 1000);
    create(&mut store, &user).unwrap();

    let again = User::from_new(&sample_new_user("u1", "other@b.com", "secret2"), 2000);
    match create(&mut store, &again) {
        Err(ApiError::InternalServerError(m)) => assert_eq!(m, "duplicate user id"),
        other => panic!("expected a uniqueness violation, got {:?}", other),
    }
    assert_eq!(get_all(&store).unwrap().0.len(), 1);
}

#[test]
fn find_absent_names_the_missing_id() {
    let store = UserStore::new();
    match find(&store, "missing-id") {
        Err(ApiError::NotFound(m)) => assert_eq!(m, "User missing-id not found"),
        other => panic!("expected a miss, got {:?}", other),
    }
}

#[test]
fn find_by_auth_needs_both_fields_and_hides_which_failed() {
    let mut store = UserStore::new();
    let user = User::from_new(&sample_new_user("u1", "a@b.com", "secret1"), 1000);
    create(&mut store, &user).unwrap();

    let good = find_by_auth(&store, "a@b.com", &hash("secret1")).unwrap();
    assert_eq!(good.id, "u1");

    let wrong_email = find_by_auth(&store, "x@b.com", &hash("secret1"));
    let wrong_password = find_by_auth(&store, "a@b.com", &hash("wrong"));
    let msg1 = match wrong_email {
        Err(ApiError::Unauthorized(m)) => m,
        other => panic!("expected a refusal, got {:?}", other),
    };
    let msg2 = match wrong_password {
        Err(ApiError::Unauthorized(m)) => m,
        other => panic!("expected a refusal, got {:?}", other),
    };
    assert_eq!(msg1, msg2);
    assert_eq!(msg1, "Invalid login");
}

#[test]
fn find_by_auth_with_a_shared_email_picks_the_matching_credentials() {
    let mut store = UserStore::new();
    let first = User::from_new(&sample_new_user("u1", "a@b.com", "secret1"), 1000);
    let mut other = sample_new_user("u2", "a@b.com", "secret2");
    other.first_name = "Grace".to_string();
    let second = User::from_new(&other, 1500);
    create(&mut store, &first).unwrap();
    create(&mut store, &second).unwrap();

    let by_first = find_by_auth(&store, "a@b.com", &hash("secret1")).unwrap();
    assert_eq!(by_first.id, "u1");
    let by_second = find_by_auth(&store, "a@b.com", &hash("secret2")).unwrap();
    assert_eq!(by_second.id, "u2");
}

#[test]
fn delete_then_find_is_not_found_and_absent_delete_is_ok() {
    let mut store = UserStore::new();
    let user = User::from_new(&sample_new_user("u1", "a@b.com", "secret1"), 1000);
    create(&mut store, &user).unwrap();

    delete(&mut store, "u1").unwrap();
    assert!(matches!(find(&store, "u1"), Err(ApiError::NotFound(_))));

    delete(&mut store, "u1").unwrap();
    delete(&mut store, "never-existed").unwrap();
    assert_eq!(get_all(&store).unwrap().0.len(), 0);
}

#[test]
fn update_is_idempotent() {
    let id = "3fa85f64-5717-4562-b3fc-2c963f66afa6";
    let mut store = UserStore::new();
    let user = User::from_new(&sample_new_user(id, "a@b.com", "secret1"), 1000);
    create(&mut store, &user).unwrap();

    let up = UpdateUser {
        id: id.to_string(),
        first_name: "Grace".to_string(),
        last_name: "Hopper".to_string(),
        email: "g@h.com".to_string(),
        updated_by: "editor".to_string(),
    };
    let first = update(&mut store, &up, 2000).unwrap();
    let state_after_first = get_all(&store).unwrap();
    let second = update(&mut store, &up, 2000).unwrap();
    let state_after_second = get_all(&store).unwrap();

    assert_eq!(first, second);
    assert_eq!(state_after_first, state_after_second);
}

#[test]
fn update_applies_fields_and_rereads_the_row() {
    let id = "3fa85f64-5717-4562-b3fc-2c963f66afa6";
    let mut store = UserStore::new();
    let user = User::from_new(&sample_new_user(id, "a@b.com", "secret1"), 1000);
    create(&mut store, &user).unwrap();

    let up = UpdateUser {
        id: id.to_string(),
        first_name: "Grace".to_string(),
        last_name: "Hopper".to_string(),
        email: "g@h.com".to_string(),
        updated_by: "editor".to_string(),
    };
    let resp = update(&mut store, &up, 2000).unwrap();
    assert_eq!(resp.id, id);
    assert_eq!(resp.first_name, "Grace");
    assert_eq!(resp.last_name, "Hopper");
    assert_eq!(resp.email, "g@h.com");
    assert_eq!(resp.updated_by, "editor");
    assert_eq!(resp.created_by, "admin");
    assert_eq!(resp.created_at, 1000);
    assert_eq!(resp.updated_at, 2000);

    let reread = find(&store, id).unwrap();
    assert_eq!(reread, resp);

    let auth = find_by_auth(&store, "g@h.com", &hash("secret1")).unwrap();
    assert_eq!(auth, resp);
}

#[test]
fn update_with_malformed_id_is_a_validation_error() {
    let mut store = UserStore::new();
    match update(
        &mut store,
        &UpdateUser {
            id: "not-a-uuid".to_string(),
            first_name: "G".to_string(),
            last_name: "H".to_string(),
            email: "g@h.com".to_string(),
            updated_by: "editor".to_string(),
        },
        2000,
    ) {
        Err(ApiError::ValidationError(msgs)) => {
            assert_eq!(msgs, vec!["id is not a valid uuid".to_string()]);
        }
        other => panic!("expected a validation error, got {:?}", other),
    }
}

#[test]
fn update_with_absent_uuid_is_not_found() {
    let id = "3fa85f64-5717-4562-b3fc-2c963f66afa6";
    let mut store = UserStore::new();
    match update(
        &mut store,
        &UpdateUser {
            id: id.to_string(),
            first_name: "G".to_string(),
            last_name: "H".to_string(),
            email: "g@h.com".to_string(),
            updated_by: "editor".to_string(),
        },
        2000,
    ) {
        Err(ApiError::NotFound(m)) => {
            assert_eq!(m, format!("User {} not found", id));
        }
        other => panic!("expected a miss, got {:?}", other),
    }
}

#[test]
fn get_all_lists_every_row_in_insertion_order() {
    let mut store = UserStore::new();
    let u1 = User::from_new(&sample_new_user("u1", "a@b.com", "secret1"), 1000);
    let u2 = User::from_new(&sample_new_user("u2", "c@d.com", "secret2"), 1500);
    create(&mut store, &u1).unwrap();
    create(&mut store, &u2).unwrap();

    let all = get_all(&store).unwrap().0;
    assert_eq!(all.len(), 2);
    assert_eq!(all[0].id, "u1");
    assert_eq!(all[1].id, "u2");
}

#[test]
fn uuid_encoding_is_checked_position_by_position() {
    assert!(is_uuid_string("3fa85f64-5717-4562-b3fc-2c963f66afa6"));
    assert!(is_uuid_string("3FA85F64-5717-4562-B3FC-2C963F66AFA6"));
    assert!(!is_uuid_string("3fa85f64-5717-4562-b3fc-2c963f66afa"));
    assert!(!is_uuid_string("3fa85f6405717-4562-b3fc-2c963f66afa6"));
    assert!(!is_uuid_string("3fa85f64-5717-4562-b3fc-2c963f66afg6"));
    assert!(!is_uuid_string(""));
    assert!(!is_uuid_string("not-a-uuid"));
}

#[test]
fn from_new_now_stamps_both_timestamps_with_one_instant() {
    let user = User::from_new_now(&sample_new_user("u1", "a@b.com", "secret1"));
    assert_eq!(user.created_at, user.updated_at);
    assert_eq!(user.password.len(), 64);
    assert_ne!(user.password, "secret1");
}

#[test]
fn hash_is_deterministic_hex_of_sha256() {
    assert_eq!(
        hash("secret1"),
        "5b11618c2e44027877d0cd0921ed166b9f176f50587fc91e7534dd2946db77d6"
    );
    assert_eq!(
        hash("password123"),
        "ef92b778bafe771e89245b89ecbc08a44a4e166c06659911881f383d4473e94f"
    );
    assert_eq!(hash("secret1"), hash("secret1"));
    assert_ne!(hash("secret1"), hash("secret2"));
    assert_ne!(hash("secret1"), "secret1");
    assert_eq!(hash("secret1").len(), 64);
}
