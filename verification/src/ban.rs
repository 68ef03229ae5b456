use vstd::prelude::*;

use crate::error::AppErr;
use crate::model::{permission_of_code, Manager, Permission, User};
use crate::policy::{outranks, privilege, AuthManager};
use crate::text::{decimal, id_is_name};

verus! {

/// The last second of a ban: its start plus its length, held at `u64::MAX`
/// where the sum would not fit.
pub open spec fn ban_end(time: u64, duration: u64) -> int {
    if time + duration > u64::MAX {
        u64::MAX as int
    } else {
        time + duration
    }
}

/// A ban has run out at `now` when it has a length and `now` has reached its
/// end; a ban of length 0 is permanent.
pub open spec fn ban_expired(user: User, now: u64) -> bool {
    user.duration != 0 && now >= ban_end(user.time, user.duration)
}

/// Whether the ban of `user` has run out at `now`.
pub fn is_ban_expired(user: &User, now: u64) -> (expired: bool)
    ensures
        expired == ban_expired(*user, now),
        user.duration == 0 ==> !expired,
        user.duration != 0 && user.time + user.duration <= u64::MAX ==> (expired <==> now
            >= user.time + user.duration),
        user.duration != 0 && user.time + user.duration > u64::MAX ==> (expired <==> now
            == u64::MAX),
{
    user.duration != 0 && now >= user.time.saturating_add(user.duration)
}

/// Whether an account is banned.
#[derive(Clone, Copy, Debug, PartialEq, Eq, Structural)]
pub enum UserStatus {
    Banned,
    Unbanned,
}

/// The answer about one account: its status, its id, and for a banned account
/// when the ban started and how long it lasts (both 0 otherwise).
#[derive(Clone, Copy, Debug, PartialEq, Eq, Structural)]
pub struct UserStatusBack {
    pub status: UserStatus,
    pub id: u64,
    pub time: u64,
    pub duration: u64,
}

/// The answer for a banned account.
pub open spec fn banned_answer(user: User) -> UserStatusBack {
    UserStatusBack {
        status: UserStatus::Banned,
        id: user.id,
        time: user.time,
        duration: user.duration,
    }
}

/// The answer for an account that is not banned.
pub open spec fn unbanned_answer(id: u64) -> UserStatusBack {
    UserStatusBack { status: UserStatus::Unbanned, id, time: 0, duration: 0 }
}

impl UserStatusBack {
    /// The answer for the banned account `user`.
    pub fn banned(user: &User) -> (answer: UserStatusBack)
        ensures
            answer == banned_answer(*user),
    {
        UserStatusBack {
            status: UserStatus::Banned,
            id: user.id,
            time: user.time,
            duration: user.duration,
        }
    }

    /// The answer for the account `id`, which is not banned.
    pub fn unbanned(id: u64) -> (answer: UserStatusBack)
        ensures
            answer == unbanned_answer(id),
    {
        UserStatusBack { status: UserStatus::Unbanned, id, time: 0, duration: 0 }
    }
}

/// The answer to a status query for `id` at `now`, where `found` is the stored
/// ban record of `id`, and whether that record has run out and is to be
/// deleted.
pub open spec fn check_answer(id: u64, found: Option<User>, now: u64) -> (UserStatusBack, bool) {
    match found {
        Some(u) => if ban_expired(u, now) {
            (unbanned_answer(id), true)
        } else {
            (banned_answer(u), false)
        },
        None => (unbanned_answer(id), false),
    }
}

/// Answers a status query for `id` at `now` from the stored record `found`:
/// a record that has run out is reported as unbanned and marked for deletion.
pub fn check_ban(id: u64, found: Option<User>, now: u64) -> (r: (UserStatusBack, bool))
    ensures
        r == check_answer(id, found, now),
        found is None ==> !r.1 && r.0 == (UserStatusBack {
            status: UserStatus::Unbanned,
            id,
            time: 0,
            duration: 0,
        }),
        found matches Some(u) ==> (r.1 <==> (u.duration != 0 && now >= u.time + u.duration)
            || (u.duration != 0 && u.time + u.duration > u64::MAX && now == u64::MAX)),
        found matches Some(u) ==> (r.1 ==> r.0 == (UserStatusBack {
            status: UserStatus::Unbanned,
            id,
            time: 0,
            duration: 0,
        })),
        found matches Some(u) ==> (!r.1 ==> r.0 == (UserStatusBack {
            status: UserStatus::Banned,
            id: u.id,
            time: u.time,
            duration: u.duration,
        })),
{
    match found {
        Some(u) => {
            if is_ban_expired(&u, now) {
                (UserStatusBack::unbanned(id), true)
            } else {
                (UserStatusBack::banned(&u), false)
            }
        },
        None => (UserStatusBack::unbanned(id), false),
    }
}

/// The parameters of a ban request: its length in seconds (permanent when
/// absent) and, for a super administrator, the name to record as operator.
#[derive(Debug)]
pub struct BanQuery {
    pub duration: Option<u64>,
    pub operator: Option<String>,
}

/// The stored rank code of the account about to be banned: the code of the
/// manager of that name, or -1 where no manager has that name.
pub fn target_code(found: Option<Manager>) -> (code: i16)
    ensures
        code == match found {
            Some(m) => m.permission,
            None => -1i16,
        },
{
    match found {
        Some(m) => m.permission,
        None => -1,
    }
}

/// A manager may not ban the account whose decimal id is their own name.
pub fn forbid_self_ban(id: u64, operator_name: &str) -> (r: Result<(), AppErr>)
    ensures
        r is Err <==> decimal(id as nat) == operator_name@,
        r matches Err(e) ==> e == AppErr::SelfOperationProhibited,
{
    if id_is_name(id, operator_name) {
        Err(AppErr::SelfOperationProhibited)
    } else {
        Ok(())
    }
}

/// The name recorded as having issued a ban: a super administrator may name
/// someone else in the request, everyone else is recorded under their own name.
pub open spec fn recorded_operator(
    operator_name: String,
    operator_permission: Permission,
    query: BanQuery,
) -> String {
    if operator_permission == Permission::SuperAdmin && query.operator is Some {
        query.operator->0
    } else {
        operator_name
    }
}

/// The ban record that a request of `operator` creates for account `id` at
/// `now`, where `target` is the stored rank code of `id` (see `target_code`).
/// It is refused with `SelfOperationProhibited` when `id` written in decimal
/// is the operator's name, and otherwise with `PermissonDenied` unless the
/// operator stands above the rank that `target` denotes.
pub fn ban_request<P>(
    id: u64,
    now: u64,
    query: BanQuery,
    operator: AuthManager<P>,
    target: i16,
) -> (r: Result<User, AppErr>)
    ensures
        decimal(id as nat) == operator.name@ ==> r == Err::<User, AppErr>(
            AppErr::SelfOperationProhibited,
        ),
        decimal(id as nat) != operator.name@ && privilege(operator.permission) <= privilege(
            permission_of_code(target),
        ) ==> r == Err::<User, AppErr>(AppErr::PermissonDenied),
        r is Ok <==> decimal(id as nat) != operator.name@ && privilege(operator.permission)
            > privilege(permission_of_code(target)),
        r matches Ok(u) ==> u == (User {
            id,
            time: now,
            duration: match query.duration {
                Some(d) => d,
                None => 0,
            },
            operator: recorded_operator(operator.name, operator.permission, query),
        }),
        r matches Ok(u) ==> (operator.permission == Permission::SuperAdmin
            && query.operator is Some ==> u.operator == query.operator->0),
        r matches Ok(u) ==> (operator.permission != Permission::SuperAdmin
            || query.operator is None ==> u.operator == operator.name),
        r matches Ok(u) ==> u.id == id && u.time == now,
        r matches Ok(u) ==> (query.duration matches Some(d) ==> u.duration == d),
        r matches Ok(u) ==> (query.duration is None ==> u.duration == 0),
{
    if let Err(e) = forbid_self_ban(id, operator.name.as_str()) {
        return Err(e);
    }
    if !outranks(operator.permission, Permission::from(target)) {
        return Err(AppErr::PermissonDenied);
    }
    let duration = match query.duration {
        Some(d) => d,
        None => 0,
    };
    let operator_select = match operator.permission {
        Permission::SuperAdmin => match query.operator {
            Some(p) => p,
            None => operator.name,
        },
        _ => operator.name,
    };
    Ok(User { id, time: now, duration, operator: operator_select })
}

/// What storing a ban leaves behind: the answer to the request and whether the
/// account was not banned before (the banned-account counter then grows).
#[derive(Clone, Copy, Debug, PartialEq, Eq, Structural)]
pub struct BanRecord {
    pub status: UserStatusBack,
    pub newly_banned: bool,
}

/// Stores `new_user` over any earlier ban of the same account: the stored
/// record then equals `new_user` either way, the answer describes it, and only
/// an account without an earlier record counts as newly banned.
pub fn ban_outcome(already_banned: bool, new_user: &User) -> (r: BanRecord)
    ensures
        r.status == banned_answer(*new_user),
        r.newly_banned == !already_banned,
{
    BanRecord { status: UserStatusBack::banned(new_user), newly_banned: !already_banned }
}

/// Lifting the ban of `id`, `found` being its stored record: the answer is
/// always that `id` is not banned; the flag says whether a record is to be
/// deleted (and the banned-account counter lowered).
pub fn unban_answer(id: u64, found: Option<User>) -> (r: (UserStatusBack, bool))
    ensures
        r == unban_answer_spec(id, found),
        r.1 <==> found is Some,
        r.0 == (UserStatusBack { status: UserStatus::Unbanned, id, time: 0, duration: 0 }),
{
    (UserStatusBack::unbanned(id), found.is_some())
}

/// After a ban is lifted and its record deleted, the account is reported as
/// not banned.
pub proof fn lemma_check_after_unban(id: u64, found: Option<User>, now: u64)
    ensures
        check_answer(id, None, now).0 == unban_answer_spec(id, found).0,
{
}

/// The answer and deletion flag of lifting a ban.
pub open spec fn unban_answer_spec(id: u64, found: Option<User>) -> (UserStatusBack, bool) {
    (unbanned_answer(id), found is Some)
}

/// A status query deletes a stored record exactly when that record has run
/// out: never for a permanent ban, never before the ban's start plus its
/// length, and always from that moment on (from `u64::MAX` where the sum does
/// not fit); without a stored record nothing is deleted.
pub proof fn lemma_check_purges_exactly_run_out(id: u64, u: User, now: u64)
    ensures
        u.duration == 0 ==> !check_answer(id, Some(u), now).1,
        u.time + u.duration <= u64::MAX ==> (check_answer(id, Some(u), now).1 <==> (u.duration
            != 0 && now >= u.time + u.duration)),
        u.time + u.duration > u64::MAX ==> (check_answer(id, Some(u), now).1 <==> (u.duration != 0
            && now == u64::MAX)),
        !check_answer(id, None, now).1,
        check_answer(id, Some(u), now).1 ==> check_answer(id, Some(u), now).0.status
            == UserStatus::Unbanned,
        !check_answer(id, Some(u), now).1 ==> check_answer(id, Some(u), now).0 == (UserStatusBack {
            status: UserStatus::Banned,
            id: u.id,
            time: u.time,
            duration: u.duration,
        }),
{
}

/// Lifting a ban deletes whatever record is stored, timed or permanent, and
/// nothing where there is none; either way the account is then answered as
/// not banned, and a later status query (finding no record) agrees.
pub proof fn lemma_unban_deletes_any_record(id: u64, found: Option<User>, now: u64)
    ensures
        unban_answer_spec(id, found).1 == (found is Some),
        unban_answer_spec(id, found).0 == (UserStatusBack {
            status: UserStatus::Unbanned,
            id,
            time: 0,
            duration: 0,
        }),
        check_answer(id, None, now).0 == unban_answer_spec(id, found).0,
        !check_answer(id, None, now).1,
{
}

/// The operator recorded for a ban depends on who bans and whom they name,
/// never on the ban's length: a super administrator who names someone has
/// that name recorded, anyone else (or a super administrator naming nobody)
/// their own.
pub proof fn lemma_recorded_operator(name: String, perm: Permission, q1: BanQuery, q2: BanQuery)
    ensures
        perm == Permission::SuperAdmin && q1.operator is Some ==> recorded_operator(name, perm, q1)
            == q1.operator->0,
        perm != Permission::SuperAdmin || q1.operator is None ==> recorded_operator(name, perm, q1)
            == name,
        q1.operator == q2.operator ==> recorded_operator(name, perm, q1) == recorded_operator(
            name,
            perm,
            q2,
        ),
{
}

/// A ban just stored and asked about before it runs out is reported exactly
/// as the ban request was answered; once it has run out it is reported as
/// unbanned and purged.
pub proof fn lemma_check_after_ban(new_user: User, already_banned: bool, now: u64)
    ensures
        !ban_expired(new_user, now) ==> check_answer(new_user.id, Some(new_user), now).0
            == banned_answer(new_user),
        ban_expired(new_user, now) ==> check_answer(new_user.id, Some(new_user), now) == (
        unbanned_answer(new_user.id), true),
        check_answer(new_user.id, None, now) == (unbanned_answer(new_user.id), false),
{
}

/// A permanent ban never runs out, and a ban that has run out stays run out.
pub proof fn lemma_expiry_is_final(user: User, now: u64, later: u64)
    ensures
        user.duration == 0 ==> !ban_expired(user, now),
        ban_expired(user, now) && now <= later ==> ban_expired(user, later),
        user.duration != 0 && user.time + user.duration <= u64::MAX ==> (ban_expired(user, now)
            <==> now >= user.time + user.duration),
{
}

} // verus!
