use qq_banner::ban::{
    ban_outcome, ban_request, check_ban, forbid_self_ban, is_ban_expired, target_code,
    unban_answer, BanQuery, UserStatus, UserStatusBack,
};
use qq_banner::error::AppErr;
use qq_banner::model::{Manager, Permission, User};
use qq_banner::policy::{admit_manager, AdminOrAbove, AuthManager};

fn user(id: u64, time: u64, duration: u64) -> User {
    User { id, time, duration, operator: "op".to_string() }
}

fn operator(name: &str, code: i16) -> AuthManager<AdminOrAbove> {
    admit_manager::<AdminOrAbove>(Manager {
        name: name.to_string(),
        password: "x".to_string(),
        permission: code,
    })
    .unwrap()
}

#[test]
fn permanent_ban_never_expires() {
    assert!(!is_ban_expired(&user(1, 100, 0), u64::MAX));
}

#[test]
fn timed_ban_expires_at_its_end() {
    let u = user(1, 100, 50);
    assert!(!is_ban_expired(&u, 149));
    assert!(is_ban_expired(&u, 150));
    assert!(is_ban_expired(&u, 1000));
}

#[test]
fn ban_end_saturates() {
    let u = user(1, u64::MAX - 1, 10);
    assert!(!is_ban_expired(&u, u64::MAX - 1));
    assert!(is_ban_expired(&u, u64::MAX));
}

#[test]
fn check_answers() {
    let (a, purge) = check_ban(5, None, 10);
    assert_eq!(a, UserStatusBack::unbanned(5));
    assert!(!purge);
    assert_eq!(a.status, UserStatus::Unbanned);
    assert_eq!((a.time, a.duration), (0, 0));

    let (a, purge) = check_ban(5, Some(user(5, 100, 0)), 1000);
    assert_eq!(a.status, UserStatus::Banned);
    assert_eq!((a.id, a.time, a.duration), (5, 100, 0));
    assert!(!purge);

    let (a, purge) = check_ban(5, Some(user(5, 100, 10)), 200);
    assert_eq!(a.status, UserStatus::Unbanned);
    assert!(purge);
}

#[test]
fn target_code_of_stranger() {
    assert_eq!(target_code(None), -1);
    let m = Manager { name: "1".to_string(), password: "p".to_string(), permission: 1 };
    assert_eq!(target_code(Some(m)), 1);
}

#[test]
fn self_ban_is_refused() {
    assert!(matches!(forbid_self_ban(12345, "12345"), Err(AppErr::SelfOperationProhibited)));
    assert!(forbid_self_ban(12345, "1234").is_ok());
    assert!(forbid_self_ban(0, "0").is_err());
    let r = ban_request(
        777,
        10,
        BanQuery { duration: None, operator: None },
        operator("777", 0),
        -1,
    );
    assert!(matches!(r, Err(AppErr::SelfOperationProhibited)));
}

#[test]
fn admin_bans_ordinary_account() {
    let r = ban_request(
        42,
        1000,
        BanQuery { duration: Some(60), operator: Some("other".to_string()) },
        operator("mod", 1),
        -1,
    )
    .unwrap();
    assert_eq!(r.id, 42);
    assert_eq!(r.time, 1000);
    assert_eq!(r.duration, 60);
    // only a super administrator may name another operator
    assert_eq!(r.operator, "mod");
}

#[test]
fn super_admin_may_name_operator() {
    let r = ban_request(
        42,
        5,
        BanQuery { duration: None, operator: Some("other".to_string()) },
        operator("root", 0),
        1,
    )
    .unwrap();
    assert_eq!(r.operator, "other");
    assert_eq!(r.duration, 0);
    let r = ban_request(42, 5, BanQuery { duration: None, operator: None }, operator("root", 0), 1)
        .unwrap();
    assert_eq!(r.operator, "root");
}

#[test]
fn equal_or_higher_rank_is_protected() {
    let r = ban_request(9, 0, BanQuery { duration: None, operator: None }, operator("a", 1), 1);
    assert!(matches!(r, Err(AppErr::PermissonDenied)));
    let r = ban_request(9, 0, BanQuery { duration: None, operator: None }, operator("a", 1), 0);
    assert!(matches!(r, Err(AppErr::PermissonDenied)));
    let r = ban_request(9, 0, BanQuery { duration: None, operator: None }, operator("s", 0), 0);
    assert!(matches!(r, Err(AppErr::PermissonDenied)));
}

#[test]
fn ban_then_check_agree() {
    let new_user = user(3, 100, 0);
    let rec = ban_outcome(false, &new_user);
    assert!(rec.newly_banned);
    let (status, purge) = check_ban(3, Some(new_user.clone()), 200);
    assert_eq!(status, rec.status);
    assert!(!purge);
    assert!(!ban_outcome(true, &new_user).newly_banned);
}

#[test]
fn unban_answers() {
    let (a, delete) = unban_answer(8, Some(user(8, 1, 0)));
    assert_eq!(a, UserStatusBack::unbanned(8));
    assert!(delete);
    let (a, delete) = unban_answer(8, None);
    assert_eq!(a.status, UserStatus::Unbanned);
    assert!(!delete);
    assert_eq!(check_ban(8, None, 0).0, a);
}
