use vstd::prelude::*;

verus! {

/// Rank of a manager account. The numeric codes stored in the database are
/// 0 for `SuperAdmin`, 1 for `Admin` and 2 for `User`.
#[derive(Clone, Copy, Debug, PartialEq, Eq, Structural)]
pub enum Permission {
    SuperAdmin,
    Admin,
    User,
}

/// The stored code of a permission.
pub open spec fn permission_code(p: Permission) -> i16 {
    match p {
        Permission::SuperAdmin => 0,
        Permission::Admin => 1,
        Permission::User => 2,
    }
}

/// The permission that a stored code denotes: 0 and 1 name the two
/// administrator ranks, every other code is an ordinary user.
pub open spec fn permission_of_code(code: i16) -> Permission {
    if code == 0 {
        Permission::SuperAdmin
    } else if code == 1 {
        Permission::Admin
    } else {
        Permission::User
    }
}

impl From<Permission> for i16 {
    fn from(value: Permission) -> (code: i16) {
        match value {
            Permission::SuperAdmin => 0,
            Permission::Admin => 1,
            Permission::User => 2,
        }
    }
}

impl vstd::std_specs::convert::FromSpecImpl<Permission> for i16 {
    open spec fn obeys_from_spec() -> bool {
        true
    }

    open spec fn from_spec(v: Permission) -> i16 {
        permission_code(v)
    }
}

impl From<i16> for Permission {
    fn from(value: i16) -> (p: Permission) {
        if value == 0 {
            Permission::SuperAdmin
        } else if value == 1 {
            Permission::Admin
        } else {
            Permission::User
        }
    }
}

impl vstd::std_specs::convert::FromSpecImpl<i16> for Permission {
    open spec fn obeys_from_spec() -> bool {
        true
    }

    open spec fn from_spec(v: i16) -> Permission {
        permission_of_code(v)
    }
}

/// A banned account: its id, when the ban started (seconds since the Unix
/// epoch), how long it lasts in seconds (0 for a permanent ban) and the name of
/// the manager recorded as having issued it.
#[derive(Clone, Debug)]
pub struct User {
    pub id: u64,
    pub time: u64,
    pub duration: u64,
    pub operator: String,
}

/// A manager account, keyed by its name; `permission` holds the stored code of
/// its rank (see `permission_of_code`).
#[derive(Clone, Debug)]
pub struct Manager {
    pub name: String,
    pub password: String,
    pub permission: i16,
}

/// How often an account has been reported; keyed by the account id written in
/// decimal.
#[derive(Clone, Debug)]
pub struct Reporter {
    pub name: String,
    pub count: u64,
}

impl Manager {
    /// The rank that the stored code denotes.
    pub fn permission_enum(&self) -> (p: Permission)
        ensures
            p == permission_of_code(self.permission),
    {
        Permission::from(self.permission)
    }

    /// Stores the code of `permission`; name and password are kept.
    pub fn set_permission(&mut self, permission: Permission)
        ensures
            final(self).permission == permission_code(permission),
            final(self).name == old(self).name,
            final(self).password == old(self).password,
    {
        self.permission = i16::from(permission);
    }
}

/// The code of a permission denotes that permission again.
pub proof fn lemma_code_round_trip(p: Permission)
    ensures
        permission_of_code(permission_code(p)) == p,
{
}

/// A stored code survives a round trip through `Permission` exactly when it is
/// one of the three codes; every other code reads back as the code of `User`.
pub proof fn lemma_code_normalises(code: i16)
    ensures
        permission_code(permission_of_code(code)) == code <==> (0 <= code <= 2),
        !(0 <= code <= 2) ==> permission_code(permission_of_code(code)) == 2,
{
}

/// After `set_permission(p)` the account reads back rank `p`: any manager
/// whose stored code is the one `set_permission(p)` stores has rank `p`.
pub proof fn lemma_set_then_read(after: Manager, p: Permission)
    requires
        after.permission == permission_code(p),
    ensures
        permission_of_code(after.permission) == p,
{
}

} // verus!
