use qq_banner::error::AppErr;
use qq_banner::model::{Manager, Permission};
use qq_banner::policy::{
    admit_manager, cookie_step, form_login, AuthStep, outranks, token_manager, AdminOrAbove, AnyPermission,
    PermissionPolicy, SuperAdminOnly, UserOrAbove,
};

fn manager(name: &str, permission: i16) -> Manager {
    Manager { name: name.to_string(), password: "pw".to_string(), permission }
}

#[test]
fn permission_codes_round_trip() {
    for p in [Permission::SuperAdmin, Permission::Admin, Permission::User] {
        assert_eq!(Permission::from(i16::from(p)), p);
    }
    assert_eq!(i16::from(Permission::SuperAdmin), 0);
    assert_eq!(i16::from(Permission::Admin), 1);
    assert_eq!(i16::from(Permission::User), 2);
}

#[test]
fn unknown_codes_are_users() {
    assert_eq!(Permission::from(-1i16), Permission::User);
    assert_eq!(Permission::from(7i16), Permission::User);
    assert_eq!(i16::from(Permission::from(-1i16)), 2);
}

#[test]
fn set_permission_then_read() {
    let mut m = manager("alice", 2);
    m.set_permission(Permission::Admin);
    assert_eq!(m.permission, 1);
    assert_eq!(m.permission_enum(), Permission::Admin);
    assert_eq!(m.name, "alice");
    assert_eq!(m.password, "pw");
}

#[test]
fn policies_admit_their_ranks() {
    assert!(AnyPermission::allows(Permission::User));
    assert!(AdminOrAbove::allows(Permission::SuperAdmin));
    assert!(AdminOrAbove::allows(Permission::Admin));
    assert!(!AdminOrAbove::allows(Permission::User));
    assert!(UserOrAbove::allows(Permission::User));
    assert!(SuperAdminOnly::allows(Permission::SuperAdmin));
    assert!(!SuperAdminOnly::allows(Permission::Admin));
}

#[test]
fn policies_nest() {
    for p in [Permission::SuperAdmin, Permission::Admin, Permission::User] {
        if SuperAdminOnly::allows(p) {
            assert!(AdminOrAbove::allows(p));
        }
        if AdminOrAbove::allows(p) {
            assert!(UserOrAbove::allows(p));
        }
        assert_eq!(UserOrAbove::allows(p), AnyPermission::allows(p));
    }
}

#[test]
fn rank_order() {
    assert!(outranks(Permission::SuperAdmin, Permission::Admin));
    assert!(outranks(Permission::SuperAdmin, Permission::User));
    assert!(outranks(Permission::Admin, Permission::User));
    assert!(!outranks(Permission::Admin, Permission::Admin));
    assert!(!outranks(Permission::Admin, Permission::SuperAdmin));
    assert!(!outranks(Permission::User, Permission::Admin));
    assert!(!outranks(Permission::SuperAdmin, Permission::SuperAdmin));
}

#[test]
fn admit_refuses_low_rank() {
    let r = admit_manager::<AdminOrAbove>(manager("bob", 2));
    assert!(matches!(r, Err(AppErr::PermissonDenied)));
    let a = admit_manager::<AdminOrAbove>(manager("carol", 1)).unwrap();
    assert_eq!(a.name, "carol");
    assert_eq!(a.permission, Permission::Admin);
}

#[test]
fn form_login_outcomes() {
    assert!(matches!(form_login::<SuperAdminOnly>(None), Err(AppErr::BadPassword)));
    assert!(matches!(
        form_login::<SuperAdminOnly>(Some(manager("dave", 1))),
        Err(AppErr::PermissonDenied)
    ));
    let a = form_login::<SuperAdminOnly>(Some(manager("admin", 0))).unwrap();
    assert_eq!(a.permission, Permission::SuperAdmin);
}

#[test]
fn token_naming_nobody_is_refused() {
    assert!(matches!(token_manager(None), Err(AppErr::UserNotFound)));
    assert_eq!(token_manager(Some(manager("eve", 1))).unwrap().name, "eve");
}

#[test]
fn cookie_decides_or_defers() {
    assert!(matches!(cookie_step::<AdminOrAbove>(None), AuthStep::CheckPassword));
    assert!(matches!(
        cookie_step::<AdminOrAbove>(Some(Err(AppErr::UserNotFound))),
        AuthStep::CheckPassword
    ));
    match cookie_step::<AdminOrAbove>(Some(Ok(manager("fay", 2)))) {
        AuthStep::Decided(Err(AppErr::PermissonDenied)) => {}
        _ => panic!("a user-rank session must be refused by an admin-only endpoint"),
    }
    match cookie_step::<UserOrAbove>(Some(Ok(manager("fay", 2)))) {
        AuthStep::Decided(Ok(a)) => assert_eq!(a.name, "fay"),
        _ => panic!("a user-rank session is admitted where users are"),
    }
}
