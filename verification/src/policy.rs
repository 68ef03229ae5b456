use vstd::prelude::*;

use crate::error::AppErr;
use crate::model::{permission_of_code, Manager, Permission};
use core::marker::PhantomData;

verus! {

/// Which ranks an endpoint admits.
pub trait PermissionPolicy {
    /// The ranks that the policy admits.
    spec fn admits(permission: Permission) -> bool;

    /// Whether a manager of rank `permission` is admitted.
    fn allows(permission: Permission) -> (allowed: bool)
        ensures
            allowed == Self::admits(permission),
    ;
}

/// Admits every rank.
#[derive(Debug)]
pub struct AnyPermission;

/// Admits the two administrator ranks.
#[derive(Debug)]
pub struct AdminOrAbove;

/// Admits every rank from `User` up.
#[derive(Debug)]
pub struct UserOrAbove;

/// Admits only the super administrator.
#[derive(Debug)]
pub struct SuperAdminOnly;

impl PermissionPolicy for AnyPermission {
    open spec fn admits(permission: Permission) -> bool {
        true
    }

    fn allows(permission: Permission) -> (allowed: bool) {
        true
    }
}

impl PermissionPolicy for AdminOrAbove {
    open spec fn admits(permission: Permission) -> bool {
        permission == Permission::SuperAdmin || permission == Permission::Admin
    }

    fn allows(permission: Permission) -> (allowed: bool) {
        match permission {
            Permission::SuperAdmin | Permission::Admin => true,
            Permission::User => false,
        }
    }
}

impl PermissionPolicy for UserOrAbove {
    open spec fn admits(permission: Permission) -> bool {
        permission == Permission::SuperAdmin || permission == Permission::Admin
            || permission == Permission::User
    }

    fn allows(permission: Permission) -> (allowed: bool) {
        match permission {
            Permission::SuperAdmin | Permission::Admin | Permission::User => true,
        }
    }
}

impl PermissionPolicy for SuperAdminOnly {
    open spec fn admits(permission: Permission) -> bool {
        permission == Permission::SuperAdmin
    }

    fn allows(permission: Permission) -> (allowed: bool) {
        match permission {
            Permission::SuperAdmin => true,
            _ => false,
        }
    }
}

/// A manager who passed the policy `P`: their name and rank.
#[derive(Debug)]
pub struct AuthManager<P = AnyPermission> {
    pub name: String,
    pub permission: Permission,
    pub policy: PhantomData<P>,
}

/// How much a rank may do: the super administrator above the administrator
/// above an ordinary user.
pub open spec fn privilege(p: Permission) -> int {
    match p {
        Permission::SuperAdmin => 2,
        Permission::Admin => 1,
        Permission::User => 0,
    }
}

/// Whether a manager of rank `operator` stands strictly above rank `target`.
pub fn outranks(operator: Permission, target: Permission) -> (above: bool)
    ensures
        above == (privilege(operator) > privilege(target)),
{
    match (operator, target) {
        (Permission::SuperAdmin, Permission::SuperAdmin) => false,
        (Permission::SuperAdmin, _) => true,
        (Permission::Admin, Permission::User) => true,
        _ => false,
    }
}

/// Admits a stored manager under the policy `P`: it is refused with
/// `PermissonDenied` exactly when the policy does not admit its rank.
pub fn admit_manager<P: PermissionPolicy>(manager: Manager) -> (r: Result<AuthManager<P>, AppErr>)
    ensures
        r is Ok <==> P::admits(permission_of_code(manager.permission)),
        r matches Ok(a) ==> a.name == manager.name && a.permission == permission_of_code(
            manager.permission,
        ),
        r matches Err(e) ==> e == AppErr::PermissonDenied,
{
    let permission = manager.permission_enum();
    if !P::allows(permission) {
        return Err(AppErr::PermissonDenied);
    }
    Ok(AuthManager { name: manager.name, permission, policy: PhantomData })
}

/// The answer to a login with name and password: `found` is the stored manager
/// with that name and password, if there is one. Without one the login fails
/// with `BadPassword`; otherwise the policy decides as in `admit_manager`.
pub fn form_login<P: PermissionPolicy>(found: Option<Manager>) -> (r: Result<AuthManager<P>, AppErr>)
    ensures
        r is Ok <==> (found matches Some(m) && P::admits(permission_of_code(m.permission))),
        r matches Ok(a) ==> found matches Some(m) && a.name == m.name && a.permission
            == permission_of_code(m.permission),
        found is None ==> r == Err::<AuthManager<P>, AppErr>(AppErr::BadPassword),
        found matches Some(m) && !P::admits(permission_of_code(m.permission)) ==> r == Err::<
            AuthManager<P>,
            AppErr,
        >(AppErr::PermissonDenied),
{
    match found {
        Some(m) => admit_manager::<P>(m),
        None => Err(AppErr::BadPassword),
    }
}

/// The manager named by a valid session token: `found` is the stored manager
/// of that name, if there is one; a token naming no manager is refused with
/// `UserNotFound`.
pub fn token_manager(found: Option<Manager>) -> (r: Result<Manager, AppErr>)
    ensures
        found matches Some(m) ==> r == Ok::<Manager, AppErr>(m),
        found is None ==> r == Err::<Manager, AppErr>(AppErr::UserNotFound),
{
    match found {
        Some(m) => Ok(m),
        None => Err(AppErr::UserNotFound),
    }
}

/// The first stage of authenticating a request: either it is decided, or the
/// name and password sent with the request are to be checked next.
#[derive(Debug)]
pub enum AuthStep<P> {
    Decided(Result<AuthManager<P>, AppErr>),
    CheckPassword,
}

/// Decides a request from its session cookie: `cookie` is `None` without a
/// session cookie, and otherwise the manager that its token names (or why the
/// token was rejected). A manager found that way decides the request under the
/// policy as in `admit_manager`; without one, the password is checked next.
pub fn cookie_step<P: PermissionPolicy>(cookie: Option<Result<Manager, AppErr>>) -> (step: AuthStep<P>)
    ensures
        match cookie {
            Some(Ok(m)) => step matches AuthStep::Decided(r) && (r is Ok <==> P::admits(
                permission_of_code(m.permission),
            )) && (r matches Ok(a) ==> a.name == m.name && a.permission == permission_of_code(
                m.permission,
            )) && (r matches Err(e) ==> e == AppErr::PermissonDenied),
            _ => step is CheckPassword,
        },
{
    match cookie {
        Some(Ok(m)) => AuthStep::Decided(admit_manager::<P>(m)),
        _ => AuthStep::CheckPassword,
    }
}

/// Each policy admits no more than the next wider one: super administrator
/// only, administrators, users, any rank.
pub proof fn lemma_policies_nest(p: Permission)
    ensures
        SuperAdminOnly::admits(p) ==> AdminOrAbove::admits(p),
        AdminOrAbove::admits(p) ==> UserOrAbove::admits(p),
        UserOrAbove::admits(p) == AnyPermission::admits(p),
        AnyPermission::admits(p),
{
}

/// Standing above is a strict order with the super administrator on top: no
/// rank stands above itself, it is transitive, nothing stands above the super
/// administrator and the super administrator stands above every other rank.
pub proof fn lemma_outranks_order(a: Permission, b: Permission, c: Permission)
    ensures
        !(privilege(a) > privilege(a)),
        privilege(a) > privilege(b) && privilege(b) > privilege(c) ==> privilege(a) > privilege(c),
        !(privilege(a) > privilege(Permission::SuperAdmin)),
        a != Permission::SuperAdmin ==> privilege(Permission::SuperAdmin) > privilege(a),
        privilege(a) > privilege(b) ==> !(privilege(b) > privilege(a)),
{
}

} // verus!
