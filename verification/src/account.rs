use vstd::prelude::*;

use crate::error::AppErr;
use crate::model::{permission_code, Manager, Permission};

verus! {

/// The name of the built-in super administrator account.
pub const ADMIN_USER: &'static str = "admin";

/// How long a login session lasts, in seconds (seven days).
pub const EXPIRE_TIME: i64 = 604800;

/// What a logged-in manager is told about themselves.
#[derive(Clone, Debug)]
pub struct ManagerInfo {
    pub name: String,
    pub permission: i16,
}

impl ManagerInfo {
    /// The name and rank code of a manager.
    pub fn of(manager: &Manager) -> (info: ManagerInfo)
        ensures
            info.name == manager.name,
            info.permission == manager.permission,
    {
        ManagerInfo { name: manager.name.clone(), permission: manager.permission }
    }
}

/// The content of a session token: the manager's name and when the session
/// ends, in seconds since the Unix epoch.
#[derive(Clone, Debug)]
pub struct Claim {
    pub name: String,
    pub exp: i64,
}

/// The session of `name` opened at `now`: it ends `EXPIRE_TIME` seconds
/// later; there is none where that moment does not fit in an `i64`.
pub open spec fn session_of(name: String, now: i64) -> Option<Claim> {
    if now + EXPIRE_TIME <= i64::MAX {
        Some(Claim { name, exp: (now + EXPIRE_TIME) as i64 })
    } else {
        None
    }
}

/// Opens the session of `name` at `now` (see `session_of`).
pub fn session_claim(name: String, now: i64) -> (c: Option<Claim>)
    ensures
        c == session_of(name, now),
        now + EXPIRE_TIME <= i64::MAX ==> c == Some(Claim { name, exp: (now + EXPIRE_TIME) as i64 }),
        now + EXPIRE_TIME > i64::MAX ==> c is None,
{
    match now.checked_add(EXPIRE_TIME) {
        Some(exp) => Some(Claim { name, exp }),
        None => None,
    }
}

/// The claim that a session check accepts: that of a present session cookie
/// whose token decoded.
pub open spec fn session_accepts(token_present: bool, decoded: Result<Claim, String>) -> Option<
    Claim,
> {
    if token_present && decoded is Ok {
        Some(decoded->Ok_0)
    } else {
        None
    }
}

/// The answer to a session check: without a session cookie it is refused
/// with `LoginErr("缺少token")`; a token that could not be decoded (`decoded`
/// then holds the decoder's message) is refused with `LoginErr("token错误: "`
/// followed by that message`)`; a decoded token yields its claim. `decoded` is
/// ignored when `token_present` is false.
pub fn session_answer(token_present: bool, decoded: Result<Claim, String>) -> (r: Result<
    Claim,
    AppErr,
>)
    ensures
        r is Ok <==> session_accepts(token_present, decoded) is Some,
        r matches Ok(c) ==> session_accepts(token_present, decoded) == Some(c),
        !token_present ==> (r matches Err(AppErr::LoginErr(s)) && s@ == "缺少token"@),
        token_present ==> (decoded matches Err(e) ==> (r matches Err(AppErr::LoginErr(s)) && s@
            == "token错误: "@ + e@)),
        token_present ==> (decoded matches Ok(c) ==> r == Ok::<Claim, AppErr>(c)),
{
    if !token_present {
        return Err(AppErr::LoginErr(String::from_str("缺少token")));
    }
    match decoded {
        Ok(c) => Ok(c),
        Err(e) => Err(AppErr::LoginErr(String::from_str("token错误: ").concat(e.as_str()))),
    }
}

/// The answer to a login with name and password, `found` being the stored
/// manager with both: their info, or `BadPassword` where there is none.
pub fn login_answer(found: Option<Manager>) -> (r: Result<ManagerInfo, AppErr>)
    ensures
        found is None ==> r == Err::<ManagerInfo, AppErr>(AppErr::BadPassword),
        found matches Some(m) ==> (r matches Ok(i) && i.name == m.name && i.permission == m.permission),
{
    match found {
        Some(m) => Ok(ManagerInfo::of(&m)),
        None => Err(AppErr::BadPassword),
    }
}

/// A lowercase hexadecimal digit.
pub open spec fn is_lower_hex(c: char) -> bool {
    (48 <= (c as u32) <= 57) || (97 <= (c as u32) <= 102)
}

/// The form of a generated password: a random (version 4) UUID written as 32
/// lowercase hexadecimal digits without hyphens, so its 13th digit is `4` and
/// its 17th is one of `8`, `9`, `a`, `b`.
pub open spec fn is_generated_password(p: Seq<char>) -> bool {
    &&& p.len() == 32
    &&& forall|i: int| 0 <= i < 32 ==> is_lower_hex(#[trigger] p[i])
    &&& p[12] == '4'
    &&& (p[16] == '8' || p[16] == '9' || p[16] == 'a' || p[16] == 'b')
}

/// Calls `uuid::Uuid::new_v4` and writes the result with `simple()`'s
/// `Display`. The outcome is random; what the uuid source shows of every
/// outcome is claimed: `new_v4` masks the random bits so that the version
/// digit is 4 and the variant digit is 8 to b, and `Simple` writes the 16
/// bytes as 32 lowercase hexadecimal digits.
#[verifier::external_body]
fn random_uuid_text() -> (text: String)
    ensures
        is_generated_password(text@),
{
    uuid::Uuid::new_v4().simple().to_string()
}

/// A newly generated password (a fresh random UUID in simple form). Two calls
/// may give different passwords.
pub fn fresh_password() -> (p: String)
    ensures
        is_generated_password(p@),
{
    random_uuid_text()
}

/// Adds the administrator account `name` with a newly generated password:
/// refused with `ManagerExists` when a manager of that name exists already
/// (no password is generated then).
pub fn add_manager_account(name: String, exists: bool) -> (r: Result<Manager, AppErr>)
    ensures
        exists ==> r == Err::<Manager, AppErr>(AppErr::ManagerExists),
        !exists ==> (r matches Ok(m) && m.name == name && m.permission == permission_code(
            Permission::Admin,
        ) && is_generated_password(m.password@)),
{
    if exists {
        return Err(AppErr::ManagerExists);
    }
    new_manager(name, false, fresh_password())
}

/// The new administrator account `name` with the generated `password`:
/// refused with `ManagerExists` when a manager of that name exists already.
pub fn new_manager(name: String, exists: bool, password: String) -> (r: Result<Manager, AppErr>)
    ensures
        exists ==> r == Err::<Manager, AppErr>(AppErr::ManagerExists),
        !exists ==> r == Ok::<Manager, AppErr>(
            Manager { name, password, permission: permission_code(Permission::Admin) },
        ),
{
    if exists {
        return Err(AppErr::ManagerExists);
    }
    Ok(Manager { name, password, permission: i16::from(Permission::Admin) })
}

/// Removing the manager `name`: the built-in account may not be removed
/// (`SelfOperationProhibited`); any other name is answered with itself.
pub fn removal_answer(name: String) -> (r: Result<String, AppErr>)
    ensures
        name@ == ADMIN_USER@ ==> r == Err::<String, AppErr>(AppErr::SelfOperationProhibited),
        name@ != ADMIN_USER@ ==> r == Ok::<String, AppErr>(name),
{
    let admin = String::from_str(ADMIN_USER);
    if name == admin {
        Err(AppErr::SelfOperationProhibited)
    } else {
        Ok(name)
    }
}

/// The answer after a password was replaced, `found` being the manager read
/// back: it, or `DatabaseUnhealth` where it cannot be read back.
pub fn refreshed_manager(found: Option<Manager>) -> (r: Result<Manager, AppErr>)
    ensures
        found matches Some(m) ==> r == Ok::<Manager, AppErr>(m),
        found is None ==> r == Err::<Manager, AppErr>(AppErr::DatabaseUnhealth),
{
    match found {
        Some(m) => Ok(m),
        None => Err(AppErr::DatabaseUnhealth),
    }
}

/// The answer to a rank query about the manager named by an account id,
/// `found` being that manager: `UserNotFound` without one, `PermissonDenied`
/// when its stored code is below the administrator code 1, its name otherwise.
pub fn permission_answer(found: Option<Manager>) -> (r: Result<String, AppErr>)
    ensures
        found is None ==> r == Err::<String, AppErr>(AppErr::UserNotFound),
        found matches Some(m) ==> (m.permission < 1 ==> r == Err::<String, AppErr>(
            AppErr::PermissonDenied,
        )),
        found matches Some(m) ==> (m.permission >= 1 ==> r == Ok::<String, AppErr>(m.name)),
{
    match found {
        Some(m) => {
            if m.permission < i16::from(Permission::Admin) {
                Err(AppErr::PermissonDenied)
            } else {
                Ok(m.name)
            }
        },
        None => Err(AppErr::UserNotFound),
    }
}

/// The built-in account at start-up with a newly generated password where it
/// does not exist yet (see `admin_bootstrap`).
pub fn admin_start(found: Option<Manager>) -> (r: (String, Option<Manager>))
    ensures
        found matches Some(m) ==> r == (m.password, None::<Manager>),
        found is None ==> is_generated_password(r.0@),
        found is None ==> (r.1 matches Some(m) && m.name@ == ADMIN_USER@ && m.password == r.0
            && m.permission == permission_code(Permission::SuperAdmin)),
{
    match found {
        Some(m) => admin_bootstrap(Some(m), String::new()),
        None => admin_bootstrap(None, fresh_password()),
    }
}

/// The built-in account at start-up, `found` being the stored account named
/// `ADMIN_USER`: its password is announced where it exists; otherwise a super
/// administrator account with the generated `fresh_password` is to be created
/// and that password announced.
pub fn admin_bootstrap(found: Option<Manager>, fresh_password: String) -> (r: (String, Option<Manager>))
    ensures
        found matches Some(m) ==> r == (m.password, None::<Manager>),
        found is None ==> r.0 == fresh_password,
        found is None ==> (r.1 matches Some(m) && m.name@ == ADMIN_USER@ && m.password
            == fresh_password && m.permission == permission_code(Permission::SuperAdmin)),
{
    match found {
        Some(m) => (m.password, None),
        None => {
            let account = Manager {
                name: String::from_str(ADMIN_USER),
                password: fresh_password.clone(),
                permission: i16::from(Permission::SuperAdmin),
            };
            (fresh_password, Some(account))
        },
    }
}

/// A session opened by a successful login and checked before it ends answers
/// with the same name and rank as the login: the claim issued at login names
/// the manager and ends `EXPIRE_TIME` seconds later; a session check given
/// that claim back from the token yields it; and the manager read back under
/// that name, unchanged, is described exactly as the login described it.
pub proof fn lemma_session_round_trip(m: Manager, now: i64, read_back: Manager)
    requires
        now + EXPIRE_TIME <= i64::MAX,
        read_back.name == m.name,
        read_back.permission == m.permission,
    ensures
        session_of(m.name, now) matches Some(c) && c.name == m.name && c.exp == now + EXPIRE_TIME
            && c.exp > now && session_accepts(true, Ok(c)) == Some(c),
        ({
            let info_at_login = ManagerInfo { name: m.name, permission: m.permission };
            let info_at_check = ManagerInfo {
                name: read_back.name,
                permission: read_back.permission,
            };
            info_at_login == info_at_check
        }),
{
}

} // verus!
