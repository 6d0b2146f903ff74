use argon2::password_hash::{PasswordHasher, SaltString};
use webringer::ring::auth::{Admin, Credentials};
use webringer::ring::shuffle::shuffle_rows;
use webringer::ring::{ApprovedSite, RingError, RingState, StorageFault};

fn cheap_hash(password: &str) -> String {
    let params = argon2::Params::new(8, 1, 1, None).unwrap();
    let hasher = argon2::Argon2::new(argon2::Algorithm::Argon2id, argon2::Version::V0x13, params);
    let salt = SaltString::encode_b64(b"0123456789abcdef").unwrap();
    hasher.hash_password(password.as_bytes(), &salt).unwrap().to_string()
}

fn ring_with_admin() -> (RingState, Admin) {
    let mut ring = RingState::new();
    ring.insert_admin("root".to_string(), "root@ring.example".to_string(), cheap_hash("secret"))
        .unwrap();
    let admin = ring.get_user(&1).unwrap().unwrap();
    (ring, admin)
}

fn row(id: i64, url: &str) -> ApprovedSite {
    ApprovedSite {
        site_id: id,
        root_url: url.to_string(),
        site_email: format!("owner@{url}"),
        date_added: "2024-05-01".to_string(),
        admin_id: 1,
        admin_username: "root".to_string(),
        admin_email: "root@ring.example".to_string(),
    }
}

#[test]
fn new_directory_is_empty() {
    let ring = RingState::new();
    assert!(ring.get_list_unapproved().unwrap().is_empty());
    assert!(ring.get_list_approved().unwrap().is_empty());
    assert!(ring.get_list_denied().unwrap().is_empty());
    assert_eq!(ring.get_user(&1).unwrap().map(|a| a.id()), None);
}

#[test]
fn added_site_is_pending_with_next_identity() {
    let mut ring = RingState::new();
    assert_eq!(ring.add_site("a.example", "a@a.example"), Ok(()));
    assert_eq!(ring.add_site("b.example", "b@b.example"), Ok(()));
    let pending = ring.get_list_unapproved().unwrap();
    assert_eq!(pending.len(), 2);
    assert_eq!(pending[0].id, 1);
    assert_eq!(pending[0].root_url, "a.example");
    assert_eq!(pending[0].email, "a@a.example");
    assert_eq!(pending[1].id, 2);
    assert_eq!(pending[1].root_url, "b.example");
    assert!(ring.get_list_approved().unwrap().is_empty());
    assert!(ring.get_list_denied().unwrap().is_empty());
}

#[test]
fn second_registration_of_a_url_is_refused() {
    let mut ring = RingState::new();
    assert_eq!(ring.add_site("a.example", "a@a.example"), Ok(()));
    assert_eq!(
        ring.add_site("a.example", "other@a.example"),
        Err(RingError::UniqueRowAlreadyPresent("a.example".to_string()))
    );
    let pending = ring.get_list_unapproved().unwrap();
    assert_eq!(pending.iter().filter(|s| s.root_url == "a.example").count(), 1);
    assert_eq!(pending[0].email, "a@a.example");
}

#[test]
fn registration_is_refused_whatever_the_state_of_the_site() {
    let (mut ring, admin) = ring_with_admin();
    ring.add_site("a.example", "a@a.example").unwrap();
    ring.add_site("b.example", "b@b.example").unwrap();
    ring.approve_site("a.example", admin.id(), "2024-05-01").unwrap();
    ring.deny_site("b.example", "spam", admin.id(), "2024-05-01").unwrap();
    assert_eq!(
        ring.add_site("a.example", "x@x"),
        Err(RingError::UniqueRowAlreadyPresent("a.example".to_string()))
    );
    assert_eq!(
        ring.add_site("b.example", "x@x"),
        Err(RingError::UniqueRowAlreadyPresent("b.example".to_string()))
    );
}

#[test]
fn removing_an_absent_site_changes_nothing() {
    let mut ring = RingState::new();
    ring.add_site("a.example", "a@a.example").unwrap();
    assert_eq!(
        ring.remove_site("nowhere.example"),
        Err(RingError::RowNotFound("nowhere.example".to_string()))
    );
    assert_eq!(
        ring.remove_site("nowhere.example"),
        Err(RingError::RowNotFound("nowhere.example".to_string()))
    );
    let pending = ring.get_list_unapproved().unwrap();
    assert_eq!(pending.len(), 1);
    assert_eq!(pending[0].root_url, "a.example");
}

#[test]
fn removed_site_is_gone_and_its_identity_is_not_reused() {
    let (mut ring, admin) = ring_with_admin();
    ring.add_site("a.example", "a@a.example").unwrap();
    ring.add_site("b.example", "b@b.example").unwrap();
    ring.approve_site("b.example", admin.id(), "2024-05-01").unwrap();
    assert_eq!(ring.remove_site("b.example"), Ok(()));
    assert!(ring.get_list_approved().unwrap().is_empty());
    assert_eq!(
        ring.get_next("b.example"),
        Err(RingError::SiteNotApproved("b.example".to_string()))
    );
    ring.add_site("c.example", "c@c.example").unwrap();
    let pending = ring.get_list_unapproved().unwrap();
    assert_eq!(pending.len(), 2);
    assert_eq!(pending[1].root_url, "c.example");
    assert_eq!(pending[1].id, 3);
}

#[test]
fn approval_records_the_admin_and_the_day() {
    let (mut ring, admin) = ring_with_admin();
    ring.add_site("a.example", "a@a.example").unwrap();
    assert_eq!(ring.approve_site("a.example", admin.id(), "2024-05-01"), Ok(()));
    let approved = ring.get_list_approved().unwrap();
    assert_eq!(approved.len(), 1);
    assert_eq!(approved[0].site_id, 1);
    assert_eq!(approved[0].root_url, "a.example");
    assert_eq!(approved[0].site_email, "a@a.example");
    assert_eq!(approved[0].date_added, "2024-05-01");
    assert_eq!(approved[0].admin_id, 1);
    assert_eq!(approved[0].admin_username, "root");
    assert_eq!(approved[0].admin_email, "root@ring.example");
    assert!(ring.get_list_unapproved().unwrap().is_empty());
}

#[test]
fn denial_records_the_admin_the_day_and_the_reason() {
    let (mut ring, admin) = ring_with_admin();
    ring.add_site("a.example", "a@a.example").unwrap();
    assert_eq!(ring.deny_site("a.example", "not a personal site", admin.id(), "2024-05-02"), Ok(()));
    let denied = ring.get_list_denied().unwrap();
    assert_eq!(denied.len(), 1);
    assert_eq!(denied[0].site_id, 1);
    assert_eq!(denied[0].root_url, "a.example");
    assert_eq!(denied[0].site_email, "a@a.example");
    assert_eq!(denied[0].date_added, "2024-05-02");
    assert_eq!(denied[0].reason, "not a personal site");
    assert_eq!(denied[0].admin_id, 1);
    assert_eq!(denied[0].admin_username, "root");
    assert_eq!(denied[0].admin_email, "root@ring.example");
    assert!(ring.get_list_unapproved().unwrap().is_empty());
    assert!(ring.get_list_approved().unwrap().is_empty());
}

#[test]
fn decision_on_an_unknown_url_is_not_found() {
    let (mut ring, admin) = ring_with_admin();
    assert_eq!(
        ring.approve_site("nowhere.example", admin.id(), "2024-05-01"),
        Err(RingError::RowNotFound("nowhere.example".to_string()))
    );
    assert_eq!(
        ring.deny_site("nowhere.example", "why", admin.id(), "2024-05-01"),
        Err(RingError::RowNotFound("nowhere.example".to_string()))
    );
}

#[test]
fn decision_by_an_unknown_admin_is_refused() {
    let mut ring = RingState::new();
    ring.add_site("a.example", "a@a.example").unwrap();
    assert_eq!(
        ring.approve_site("a.example", 7, "2024-05-01"),
        Err(RingError::UnrecoverableDatabaseError(StorageFault::UnknownAdmin))
    );
    assert_eq!(
        ring.deny_site("a.example", "why", 7, "2024-05-01"),
        Err(RingError::UnrecoverableDatabaseError(StorageFault::UnknownAdmin))
    );
    assert_eq!(ring.get_list_unapproved().unwrap().len(), 1);
}

#[test]
fn a_site_is_decided_once() {
    let (mut ring, admin) = ring_with_admin();
    ring.add_site("a.example", "a@a.example").unwrap();
    ring.add_site("b.example", "b@b.example").unwrap();
    ring.approve_site("a.example", admin.id(), "2024-05-01").unwrap();
    ring.deny_site("b.example", "spam", admin.id(), "2024-05-01").unwrap();
    let refused = Err(RingError::UnrecoverableDatabaseError(StorageFault::AlreadyDecided));
    assert_eq!(ring.approve_site("a.example", admin.id(), "2024-06-01"), refused);
    assert_eq!(ring.deny_site("a.example", "late", admin.id(), "2024-06-01"), refused);
    assert_eq!(ring.approve_site("b.example", admin.id(), "2024-06-01"), refused);
    assert_eq!(ring.deny_site("b.example", "again", admin.id(), "2024-06-01"), refused);
    let approved = ring.get_list_approved().unwrap();
    assert_eq!(approved.len(), 1);
    assert_eq!(approved[0].date_added, "2024-05-01");
    let denied = ring.get_list_denied().unwrap();
    assert_eq!(denied.len(), 1);
    assert_eq!(denied[0].reason, "spam");
}

#[test]
fn traversal_follows_identity_and_does_not_wrap() {
    let (mut ring, admin) = ring_with_admin();
    for url in ["a.example", "b.example", "c.example"] {
        ring.add_site(url, "owner@ring.example").unwrap();
        ring.approve_site(url, admin.id(), "2024-05-01").unwrap();
    }
    assert_eq!(ring.get_next("a.example"), Ok("b.example".to_string()));
    assert_eq!(ring.get_next("b.example"), Ok("c.example".to_string()));
    assert_eq!(ring.get_next("c.example"), Err(RingError::RowNotFound("c.example".to_string())));
    assert_eq!(ring.get_prev("a.example"), Err(RingError::RowNotFound("a.example".to_string())));
    assert_eq!(ring.get_prev("b.example"), Ok("a.example".to_string()));
    assert_eq!(ring.get_prev("c.example"), Ok("b.example".to_string()));
}

#[test]
fn traversal_goes_by_identity_not_by_the_order_of_approval() {
    let (mut ring, admin) = ring_with_admin();
    for url in ["a.example", "b.example", "c.example"] {
        ring.add_site(url, "owner@ring.example").unwrap();
    }
    ring.approve_site("c.example", admin.id(), "2024-05-01").unwrap();
    ring.approve_site("a.example", admin.id(), "2024-05-02").unwrap();
    assert_eq!(ring.get_next("a.example"), Ok("c.example".to_string()));
    assert_eq!(ring.get_prev("c.example"), Ok("a.example".to_string()));
    ring.approve_site("b.example", admin.id(), "2024-05-03").unwrap();
    assert_eq!(ring.get_next("a.example"), Ok("b.example".to_string()));
    assert_eq!(ring.get_prev("c.example"), Ok("b.example".to_string()));
    assert_eq!(ring.get_next("b.example"), Ok("c.example".to_string()));
    assert_eq!(ring.get_prev("b.example"), Ok("a.example".to_string()));
}

#[test]
fn traversal_skips_pending_and_denied_sites() {
    let (mut ring, admin) = ring_with_admin();
    for url in ["a.example", "b.example", "c.example", "d.example"] {
        ring.add_site(url, "owner@ring.example").unwrap();
    }
    ring.approve_site("a.example", admin.id(), "2024-05-01").unwrap();
    ring.deny_site("b.example", "spam", admin.id(), "2024-05-01").unwrap();
    ring.approve_site("d.example", admin.id(), "2024-05-01").unwrap();
    assert_eq!(ring.get_next("a.example"), Ok("d.example".to_string()));
    assert_eq!(ring.get_prev("d.example"), Ok("a.example".to_string()));
    for _ in 0..20 {
        let url = ring.get_random_site().unwrap();
        assert!(url == "a.example" || url == "d.example");
    }
    let listed = ring.get_list_approved().unwrap();
    assert_eq!(listed.len(), 2);
    assert!(listed.iter().all(|s| s.root_url != "b.example" && s.root_url != "c.example"));
}

#[test]
fn traversal_from_a_site_outside_the_ring_is_not_approved() {
    let (mut ring, admin) = ring_with_admin();
    ring.add_site("pending.example", "p@p").unwrap();
    ring.add_site("denied.example", "d@d").unwrap();
    ring.add_site("in.example", "i@i").unwrap();
    ring.deny_site("denied.example", "spam", admin.id(), "2024-05-01").unwrap();
    ring.approve_site("in.example", admin.id(), "2024-05-01").unwrap();
    for url in ["pending.example", "denied.example", "unknown.example"] {
        assert_eq!(ring.get_next(url), Err(RingError::SiteNotApproved(url.to_string())));
        assert_eq!(ring.get_prev(url), Err(RingError::SiteNotApproved(url.to_string())));
    }
}

#[test]
fn random_site_of_an_empty_ring_is_not_found() {
    let mut ring = RingState::new();
    assert_eq!(
        ring.get_random_site(),
        Err(RingError::RowNotFound("approved_sites".to_string()))
    );
    ring.add_site("a.example", "a@a.example").unwrap();
    assert_eq!(
        ring.get_random_site(),
        Err(RingError::RowNotFound("approved_sites".to_string()))
    );
    assert_eq!(ring.pick_site(5), Err(RingError::RowNotFound("approved_sites".to_string())));
}

#[test]
fn random_site_of_a_ring_of_one_is_that_site() {
    let (mut ring, admin) = ring_with_admin();
    ring.add_site("a.example", "a@a.example").unwrap();
    ring.add_site("b.example", "b@b.example").unwrap();
    ring.approve_site("b.example", admin.id(), "2024-05-01").unwrap();
    for _ in 0..5 {
        assert_eq!(ring.get_random_site(), Ok("b.example".to_string()));
    }
}

#[test]
fn pick_counts_the_draw_round_the_ring() {
    let (mut ring, admin) = ring_with_admin();
    for url in ["a.example", "b.example", "c.example"] {
        ring.add_site(url, "owner@ring.example").unwrap();
        ring.approve_site(url, admin.id(), "2024-05-01").unwrap();
    }
    assert_eq!(ring.pick_site(0), Ok("a.example".to_string()));
    assert_eq!(ring.pick_site(1), Ok("b.example".to_string()));
    assert_eq!(ring.pick_site(2), Ok("c.example".to_string()));
    assert_eq!(ring.pick_site(3), Ok("a.example".to_string()));
    assert_eq!(ring.pick_site(10), Ok("b.example".to_string()));
    assert_eq!(ring.pick_site(u64::MAX), Ok("a.example".to_string()));
}

#[test]
fn scenario_two_sites_approved_in_order() {
    let (mut ring, admin) = ring_with_admin();
    ring.add_site("a.example", "a@a.example").unwrap();
    ring.add_site("b.example", "b@b.example").unwrap();
    assert_eq!(ring.get_list_unapproved().unwrap().len(), 2);
    ring.approve_site("a.example", admin.id(), "2024-05-01").unwrap();
    ring.approve_site("b.example", admin.id(), "2024-05-01").unwrap();
    let picked = ring.get_random_site().unwrap();
    assert!(picked == "a.example" || picked == "b.example");
    assert_eq!(ring.get_next("a.example"), Ok("b.example".to_string()));
    assert_eq!(ring.get_next("b.example"), Err(RingError::RowNotFound("b.example".to_string())));
}

#[test]
fn listing_of_the_ring_is_a_rearrangement() {
    let (mut ring, admin) = ring_with_admin();
    let urls = ["a.example", "b.example", "c.example", "d.example", "e.example"];
    for url in urls {
        ring.add_site(url, "owner@ring.example").unwrap();
        ring.approve_site(url, admin.id(), "2024-05-01").unwrap();
    }
    for _ in 0..10 {
        let mut listed: Vec<String> =
            ring.get_list_approved().unwrap().into_iter().map(|s| s.root_url).collect();
        listed.sort();
        assert_eq!(listed, urls);
    }
}

#[test]
fn shuffle_follows_the_draws() {
    let rows = vec![row(1, "a"), row(2, "b"), row(3, "c"), row(4, "d")];
    // place 3 changes with 7 % 4 = 3 (stays), place 2 with 3 % 3 = 0, place 1 with 5 % 2 = 1.
    let out = shuffle_rows(rows, &vec![99, 5, 3, 7]);
    let urls: Vec<&str> = out.iter().map(|s| s.root_url.as_str()).collect();
    assert_eq!(urls, ["c", "b", "a", "d"]);

    let rows = vec![row(1, "a"), row(2, "b"), row(3, "c"), row(4, "d")];
    // place 3 with 0, place 2 with 1, place 1 with 0.
    let out = shuffle_rows(rows, &vec![0, 0, 4, 8]);
    let urls: Vec<&str> = out.iter().map(|s| s.root_url.as_str()).collect();
    assert_eq!(urls, ["c", "d", "b", "a"]);
}

#[test]
fn shuffle_without_draws_keeps_the_order() {
    let rows = vec![row(1, "a"), row(2, "b"), row(3, "c")];
    let out = shuffle_rows(rows, &vec![]);
    let urls: Vec<&str> = out.iter().map(|s| s.root_url.as_str()).collect();
    assert_eq!(urls, ["a", "b", "c"]);
    // place 2 has no draw and stays; place 1 changes with 2 % 2 = 0.
    let out = shuffle_rows(vec![row(1, "a"), row(2, "b"), row(3, "c")], &vec![9, 2]);
    let urls: Vec<&str> = out.iter().map(|s| s.root_url.as_str()).collect();
    assert_eq!(urls, ["b", "a", "c"]);
    assert!(shuffle_rows(vec![], &vec![1, 2, 3]).is_empty());
    assert_eq!(shuffle_rows(vec![row(1, "a")], &vec![1, 2, 3]).len(), 1);
}

#[test]
fn record_keeps_the_admin_after_the_account_is_closed() {
    let (mut ring, admin) = ring_with_admin();
    ring.add_site("a.example", "a@a.example").unwrap();
    ring.approve_site("a.example", admin.id(), "2024-05-01").unwrap();
    ring.delete_admin(admin.id()).unwrap();
    let approved = ring.get_list_approved().unwrap();
    assert_eq!(approved.len(), 1);
    assert_eq!(approved[0].admin_id, 1);
    assert_eq!(approved[0].admin_username, "root");
    assert_eq!(ring.get_next("a.example"), Err(RingError::RowNotFound("a.example".to_string())));
    let creds = Credentials {
        username: "root".to_string(),
        password: "secret".to_string(),
        next: None,
    };
    assert!(ring.authenticate(creds).unwrap().is_none());
}

#[test]
fn error_messages_name_what_failed() {
    assert_eq!(
        RingError::RowNotFound("a.example".to_string()).message(),
        "The query a.example did not return any rows"
    );
    assert_eq!(
        RingError::UniqueRowAlreadyPresent("a.example".to_string()).message(),
        "The row a.example is already present in the database"
    );
    assert_eq!(
        RingError::SiteNotApproved("a.example".to_string()).message(),
        "The site a.example is not approved"
    );
    assert_eq!(
        RingError::UnauthorisedAdmin.message(),
        "An admin method was called outside of an authorised session"
    );
    assert_eq!(RingError::TaskJoin.message(), "The password could not be hashed");
    assert_eq!(
        RingError::UnrecoverableDatabaseError(StorageFault::AlreadyDecided).message(),
        "The site has been approved or denied before"
    );
    assert_eq!(
        RingError::UnrecoverableDatabaseError(StorageFault::UnknownAdmin).message(),
        "The record names an admin that does not exist"
    );
    assert_eq!(
        RingError::UnrecoverableDatabaseError(StorageFault::IdentityExhausted).message(),
        "The table has no identity left for a new row"
    );
    assert_eq!(
        RingError::UnrecoverableDatabaseError(StorageFault::EntropyUnavailable).message(),
        "The operating system gave no random bytes"
    );
    assert_eq!(
        RingError::PasswordVerification(argon2::password_hash::Error::Algorithm).message(),
        "Password verification error: unsupported algorithm"
    );
}
