use argon2::password_hash::{PasswordHasher, PasswordVerifier, SaltString};
use webringer::ring::auth::{
    can_verify, conclude, hash_password, hash_password_with_salt, Credentials,
};
use webringer::ring::change::Change;
use webringer::ring::{RingError, RingState};

fn quick_hash(password: &str) -> String {
    let params = argon2::Params::new(8, 1, 1, None).unwrap();
    let hasher = argon2::Argon2::new(argon2::Algorithm::Argon2id, argon2::Version::V0x13, params);
    let salt = SaltString::encode_b64(b"fedcba9876543210").unwrap();
    hasher.hash_password(password.as_bytes(), &salt).unwrap().to_string()
}

fn login(username: &str, password: &str) -> Credentials {
    Credentials { username: username.to_string(), password: password.to_string(), next: None }
}

#[test]
fn hashed_password_is_a_phc_string_that_verifies() {
    let phc = hash_password("hunter42").unwrap();
    assert!(phc.starts_with("$argon2id$v=19$"));
    assert_ne!(phc, "hunter42");
    let parsed = argon2::PasswordHash::new(&phc).unwrap();
    assert!(argon2::Argon2::default().verify_password(b"hunter42", &parsed).is_ok());
    assert!(argon2::Argon2::default().verify_password(b"hunter43", &parsed).is_err());
}

#[test]
fn hashing_twice_gives_two_salts() {
    let one = hash_password("hunter42").unwrap();
    let two = hash_password("hunter42").unwrap();
    assert_ne!(one, two);
}

#[test]
fn added_admin_can_log_in() {
    let mut ring = RingState::new();
    assert_eq!(
        ring.add_admin("root".to_string(), "root@ring.example".to_string(), "secret".to_string()),
        Ok(())
    );
    let admin = ring.authenticate(login("root", "secret")).unwrap().unwrap();
    assert_eq!(admin.id(), 1);
    assert_eq!(admin.username, "root");
    assert_eq!(admin.email, "root@ring.example");
    assert!(ring.authenticate(login("root", "Secret")).unwrap().is_none());
    assert!(ring.authenticate(login("toor", "secret")).unwrap().is_none());
}

#[test]
fn username_and_email_each_belong_to_one_account() {
    let mut ring = RingState::new();
    ring.insert_admin("root".to_string(), "root@ring.example".to_string(), quick_hash("a"))
        .unwrap();
    assert_eq!(
        ring.insert_admin("root".to_string(), "other@ring.example".to_string(), quick_hash("b")),
        Err(RingError::UniqueRowAlreadyPresent("root other@ring.example".to_string()))
    );
    assert_eq!(
        ring.insert_admin("other".to_string(), "root@ring.example".to_string(), quick_hash("b")),
        Err(RingError::UniqueRowAlreadyPresent("other root@ring.example".to_string()))
    );
    assert_eq!(
        ring.add_admin("root".to_string(), "root@ring.example".to_string(), "c".to_string()),
        Err(RingError::UniqueRowAlreadyPresent("root root@ring.example".to_string()))
    );
    assert_eq!(
        ring.insert_admin("other".to_string(), "other@ring.example".to_string(), quick_hash("b")),
        Ok(())
    );
    assert_eq!(ring.get_user(&2).unwrap().unwrap().username, "other");
    assert!(ring.get_user(&3).unwrap().is_none());
}

#[test]
fn deleting_an_admin() {
    let mut ring = RingState::new();
    ring.insert_admin("root".to_string(), "root@ring.example".to_string(), quick_hash("a"))
        .unwrap();
    assert_eq!(
        ring.delete_admin(2),
        Err(RingError::RowNotFound("Admin with admin id 2".to_string()))
    );
    assert_eq!(
        ring.delete_admin(-40),
        Err(RingError::RowNotFound("Admin with admin id -40".to_string()))
    );
    assert_eq!(
        ring.delete_admin(i64::MIN),
        Err(RingError::RowNotFound("Admin with admin id -9223372036854775808".to_string()))
    );
    assert_eq!(
        ring.delete_admin(i64::MAX),
        Err(RingError::RowNotFound("Admin with admin id 9223372036854775807".to_string()))
    );
    assert_eq!(
        ring.delete_admin(0),
        Err(RingError::RowNotFound("Admin with admin id 0".to_string()))
    );
    assert_eq!(ring.delete_admin(1), Ok(()));
    assert!(ring.get_user(&1).unwrap().is_none());
    assert_eq!(
        ring.delete_admin(1),
        Err(RingError::RowNotFound("Admin with admin id 1".to_string()))
    );
    ring.insert_admin("root".to_string(), "root@ring.example".to_string(), quick_hash("a"))
        .unwrap();
    assert_eq!(ring.get_user(&2).unwrap().unwrap().id(), 2);
}

#[test]
fn authentication_tells_match_from_mismatch() {
    let mut ring = RingState::new();
    ring.insert_admin("root".to_string(), "root@ring.example".to_string(), quick_hash("secret"))
        .unwrap();
    assert_eq!(ring.authenticate(login("root", "secret")).unwrap().unwrap().id(), 1);
    assert!(ring.authenticate(login("root", "")).unwrap().is_none());
    assert!(ring.authenticate(login("root", "secret ")).unwrap().is_none());
    assert!(ring.authenticate(login("", "secret")).unwrap().is_none());
}

#[test]
fn unusable_stored_hash_is_a_verification_error() {
    let mut ring = RingState::new();
    ring.insert_admin("root".to_string(), "root@ring.example".to_string(), "secret".to_string())
        .unwrap();
    let found = ring.authenticate(login("root", "secret"));
    assert!(matches!(found, Err(RingError::PasswordVerification(_))));
    let admin = ring.get_user(&1).unwrap().unwrap();
    let changed = ring.change_password(&admin, "secret".to_string(), "new".to_string());
    assert!(matches!(changed, Err(RingError::PasswordVerification(_))));
    assert_eq!(ring.get_user(&1).unwrap().unwrap().session_auth_hash(), b"secret");
}

#[test]
fn conclusion_of_a_login() {
    let mut ring = RingState::new();
    ring.insert_admin("root".to_string(), "root@ring.example".to_string(), quick_hash("a"))
        .unwrap();
    let admin = ring.get_user(&1).unwrap().unwrap();
    assert_eq!(conclude(admin.duplicate(), Ok(true)).unwrap().unwrap().id(), 1);
    assert!(conclude(admin.duplicate(), Ok(false)).unwrap().is_none());
    let failed = conclude(admin, Err(argon2::password_hash::Error::Crypto));
    assert!(matches!(
        failed,
        Err(RingError::PasswordVerification(argon2::password_hash::Error::Crypto))
    ));
}

#[test]
fn session_is_bound_to_the_stored_hash() {
    let mut ring = RingState::new();
    let phc = quick_hash("secret");
    ring.insert_admin("root".to_string(), "root@ring.example".to_string(), phc.clone()).unwrap();
    let admin = ring.get_user(&1).unwrap().unwrap();
    assert_eq!(admin.session_auth_hash(), phc.as_bytes());
    let copy = admin.duplicate();
    assert_eq!(copy.id(), admin.id());
    assert_eq!(copy.username, admin.username);
    assert_eq!(copy.email, admin.email);
    assert_eq!(copy.session_auth_hash(), admin.session_auth_hash());
}

#[test]
fn wrong_current_password_changes_nothing() {
    let mut ring = RingState::new();
    let phc = quick_hash("old");
    ring.insert_admin("root".to_string(), "root@ring.example".to_string(), phc.clone()).unwrap();
    let admin = ring.get_user(&1).unwrap().unwrap();
    assert_eq!(
        ring.change_password(&admin, "wrong".to_string(), "new".to_string()),
        Err(RingError::UnauthorisedAdmin)
    );
    assert_eq!(ring.get_user(&1).unwrap().unwrap().session_auth_hash(), phc.as_bytes());
    assert!(ring.authenticate(login("root", "old")).unwrap().is_some());
    assert!(ring.authenticate(login("root", "new")).unwrap().is_none());
}

#[test]
fn right_current_password_puts_the_new_one_in_its_place() {
    let mut ring = RingState::new();
    let phc = quick_hash("old");
    ring.insert_admin("root".to_string(), "root@ring.example".to_string(), phc.clone()).unwrap();
    ring.insert_admin("other".to_string(), "other@ring.example".to_string(), quick_hash("old"))
        .unwrap();
    let admin = ring.get_user(&1).unwrap().unwrap();
    assert_eq!(ring.change_password(&admin, "old".to_string(), "new".to_string()), Ok(()));
    let after = ring.authenticate(login("root", "new")).unwrap().unwrap();
    assert_eq!(after.id(), 1);
    assert_eq!(after.email, "root@ring.example");
    assert_ne!(after.session_auth_hash(), phc.as_bytes());
    assert!(ring.authenticate(login("root", "old")).unwrap().is_none());
    assert!(ring.authenticate(login("other", "old")).unwrap().is_some());
    assert!(ring.authenticate(login("other", "new")).unwrap().is_none());
}

#[test]
fn password_of_a_closed_account_cannot_be_changed() {
    let mut ring = RingState::new();
    ring.insert_admin("root".to_string(), "root@ring.example".to_string(), quick_hash("old"))
        .unwrap();
    let admin = ring.get_user(&1).unwrap().unwrap();
    ring.delete_admin(1).unwrap();
    assert_eq!(
        ring.change_password(&admin, "old".to_string(), "new".to_string()),
        Err(RingError::UnauthorisedAdmin)
    );
}

#[test]
fn storing_a_hash_replaces_the_old_one() {
    let mut ring = RingState::new();
    ring.insert_admin("root".to_string(), "root@ring.example".to_string(), quick_hash("old"))
        .unwrap();
    assert_eq!(ring.store_password(1, quick_hash("new")), Ok(()));
    assert!(ring.authenticate(login("root", "new")).unwrap().is_some());
    assert!(ring.authenticate(login("root", "old")).unwrap().is_none());
    assert_eq!(
        ring.store_password(12, quick_hash("new")),
        Err(RingError::RowNotFound("Admin with admin id 12".to_string()))
    );
}

#[test]
fn hash_under_a_given_salt_is_what_argon2_makes() {
    let salt = b"0123456789abcdef";
    let ours = hash_password_with_salt("hunter42", salt).unwrap();
    let theirs = argon2::Argon2::default()
        .hash_password(b"hunter42", &SaltString::encode_b64(salt).unwrap())
        .unwrap()
        .to_string();
    assert_eq!(ours, theirs);
    assert!(ours.starts_with("$argon2id$v=19$m=19456,t=2,p=1$MDEyMzQ1Njc4OWFiY2RlZg$"));
    assert_eq!(hash_password_with_salt("hunter42", salt).unwrap(), ours);
    assert_ne!(hash_password_with_salt("hunter42", b"0123456789abcdeg").unwrap(), ours);
    assert_ne!(hash_password_with_salt("hunter43", salt).unwrap(), ours);
}

#[test]
fn salt_of_the_wrong_length_makes_no_hash() {
    for length in [0usize, 1, 2, 3, 7, 49, 64, 100] {
        let salt = vec![7u8; length];
        assert_eq!(hash_password_with_salt("hunter42", &salt), Err(RingError::TaskJoin));
    }
    for length in [8usize, 16, 48] {
        let salt = vec![7u8; length];
        let phc = hash_password_with_salt("hunter42", &salt).unwrap();
        let mut ring = RingState::new();
        ring.insert_admin("root".to_string(), "root@ring.example".to_string(), phc).unwrap();
        assert!(ring.authenticate(login("root", "hunter42")).unwrap().is_some());
    }
}

#[test]
fn stored_hash_with_too_many_lanes_is_not_verified() {
    let good = quick_hash("secret");
    assert!(good.contains(",p=1$"));
    assert!(can_verify(&good));
    assert!(can_verify("no hash at all"));
    assert!(can_verify(""));
    assert!(can_verify(&good.replace(",p=1$", ",p=16777215$")));
    for lanes in [",p=16777216$", ",p=536870912$", ",p=4294967295$", ",p=1,p=536870912$", ",p=536870912,p=1$"] {
        let bad = good.replace(",p=1$", lanes);
        assert!(!can_verify(&bad));
        let mut ring = RingState::new();
        ring.insert_admin("root".to_string(), "root@ring.example".to_string(), bad.clone())
            .unwrap();
        let found = ring.authenticate(login("root", "secret"));
        assert!(matches!(found, Err(RingError::PasswordVerification(_))));
        let admin = ring.get_user(&1).unwrap().unwrap();
        let changed = ring.change_password(&admin, "secret".to_string(), "new".to_string());
        assert!(matches!(changed, Err(RingError::PasswordVerification(_))));
        assert_eq!(ring.get_user(&1).unwrap().unwrap().session_auth_hash(), bad.as_bytes());
    }
}

#[test]
fn recorded_operations_hand_back_the_change() {
    let mut ring = RingState::new();
    let change = ring
        .add_admin_recorded("root".to_string(), "root@ring.example".to_string(), "secret".to_string())
        .unwrap();
    let stored = String::from_utf8(ring.get_user(&1).unwrap().unwrap().session_auth_hash().to_vec())
        .unwrap();
    assert_eq!(
        change,
        Change::InsertAdmin {
            username: "root".to_string(),
            email: "root@ring.example".to_string(),
            password_phc: stored
        }
    );
    assert_eq!(
        ring.add_admin_recorded("root".to_string(), "x@ring.example".to_string(), "s".to_string()),
        Err(RingError::UniqueRowAlreadyPresent("root x@ring.example".to_string()))
    );
    let admin = ring.get_user(&1).unwrap().unwrap();
    assert_eq!(
        ring.change_password_recorded(&admin, "wrong".to_string(), "new".to_string()),
        Err(RingError::UnauthorisedAdmin)
    );
    let change =
        ring.change_password_recorded(&admin, "secret".to_string(), "new".to_string()).unwrap();
    let stored = String::from_utf8(ring.get_user(&1).unwrap().unwrap().session_auth_hash().to_vec())
        .unwrap();
    assert_eq!(change, Change::StorePassword { admin_id: 1, password_phc: stored });
}

#[test]
fn account_and_credentials_in_words_hide_the_secrets() {
    let mut ring = RingState::new();
    ring.insert_admin("root".to_string(), "root@ring.example".to_string(), quick_hash("secret"))
        .unwrap();
    let admin = ring.get_user(&1).unwrap().unwrap();
    assert_eq!(
        admin.redacted(),
        "Admin { id: 1, username: \"root\", email: \"redacted\", password: \"redacted\" }"
    );
    assert_eq!(admin.username(), "root");
    assert_eq!(admin.email(), "root@ring.example");
    let creds = Credentials {
        username: "root".to_string(),
        password: "hunter42".to_string(),
        next: Some("/admin".to_string()),
    };
    assert_eq!(
        creds.redacted(),
        "Credentials { username: \"root\", password: \"redacted\", next url: Some(\"/admin\") }"
    );
    assert_eq!(
        login("root", "hunter42").redacted(),
        "Credentials { username: \"root\", password: \"redacted\", next url: None }"
    );
}
