use vstd::prelude::*;

use crate::ban::{ban_expired, is_ban_expired};
use crate::model::User;
use crate::text::{contains_text, decimal, id_contains};

verus! {

broadcast use vstd::seq_lib::group_seq_properties;

/// Default page length of a listing.
pub const PAGING_DEFAULT: usize = 20;

/// Order of a listing by the start of the ban.
#[derive(Clone, Copy, Debug, PartialEq, Eq, Structural)]
pub enum Order {
    Asc,
    Desc,
}

/// The requested page of a listing: page number from 1, page length, order.
#[derive(Debug)]
pub struct Paging {
    pub page: Option<usize>,
    pub size: Option<usize>,
    pub order: Option<Order>,
}

impl Default for Paging {
    fn default() -> (p: Paging)
        ensures
            p.page == Some(1usize),
            p.size == Some(PAGING_DEFAULT),
            p.order == Some(Order::Asc),
    {
        Paging { page: Some(1), size: Some(PAGING_DEFAULT), order: Some(Order::Asc) }
    }
}

/// An optional text that the decimal id of a listed account must contain.
#[derive(Debug)]
pub struct Filter {
    pub filter: Option<String>,
}

/// The page number asked for, 1 when absent.
pub open spec fn page_number(paging: Paging) -> int {
    match paging.page {
        Some(p) => p as int,
        None => 1,
    }
}

/// The page length asked for, `PAGING_DEFAULT` when absent.
pub open spec fn page_size(paging: Paging) -> int {
    match paging.size {
        Some(s) => s as int,
        None => PAGING_DEFAULT as int,
    }
}

/// The slice of the stored records that a page shows: skip `offset` records
/// in `order`, then take at most `limit`.
#[derive(Clone, Copy, Debug, PartialEq, Eq, Structural)]
pub struct PageWindow {
    pub offset: usize,
    pub limit: usize,
    pub order: Order,
}

/// The window of a page request: pages count from 1, the default length is
/// `PAGING_DEFAULT` and the default order is newest first.
pub fn page_window(paging: &Paging) -> (w: PageWindow)
    requires
        page_number(*paging) >= 1,
        (page_number(*paging) - 1) * page_size(*paging) <= usize::MAX,
    ensures
        w.offset == (page_number(*paging) - 1) * page_size(*paging),
        w.limit == page_size(*paging),
        w.order == match paging.order {
            Some(o) => o,
            None => Order::Desc,
        },
{
    let page = match paging.page {
        Some(p) => p,
        None => 1,
    };
    let size = match paging.size {
        Some(s) => s,
        None => PAGING_DEFAULT,
    };
    let order = match paging.order {
        Some(o) => o,
        None => Order::Desc,
    };
    PageWindow { offset: (page - 1) * size, limit: size, order }
}

/// Whether an account passes the optional id filter.
pub open spec fn passes_filter(user: User, filter: Option<String>) -> bool {
    match filter {
        Some(f) => contains_text(decimal(user.id as nat), f@),
        None => true,
    }
}

/// The records of a listed page that stay on it: those that pass the filter
/// and have not run out.
pub open spec fn page_keeps(filter: Option<String>, now: u64) -> spec_fn(User) -> bool {
    |u: User| passes_filter(u, filter) && !ban_expired(u, now)
}

/// The records of a listed page that are purged: those that pass the filter
/// but have run out.
pub open spec fn page_purges(filter: Option<String>, now: u64) -> spec_fn(User) -> bool {
    |u: User| passes_filter(u, filter) && ban_expired(u, now)
}

fn passes(user: &User, filter: &Option<String>) -> (ok: bool)
    ensures
        ok == passes_filter(*user, *filter),
        filter is None ==> ok,
        filter matches Some(f) ==> (ok == contains_text(decimal(user.id as nat), f@)),
{
    match filter {
        Some(f) => id_contains(user.id, f.as_str()),
        None => true,
    }
}

/// Splits one fetched page at `now`: the records that pass the filter and are
/// still in force are shown, in the order fetched; those that pass the filter
/// and have run out are returned for deletion; records that fail the filter are
/// dropped from both.
pub fn sweep_page(users: Vec<User>, filter: &Option<String>, now: u64) -> (r: (Vec<User>, Vec<User>))
    ensures
        r.0@ == users@.filter(page_keeps(*filter, now)),
        r.1@ == users@.filter(page_purges(*filter, now)),
{
    let ghost all = users@;
    let mut active: Vec<User> = Vec::new();
    let mut expired: Vec<User> = Vec::new();
    for user in it: users
        invariant
            it.seq() == all,
            active@ == all.take(it.index()).filter(page_keeps(*filter, now)),
            expired@ == all.take(it.index()).filter(page_purges(*filter, now)),
    {
        let ghost i = it.index();
        proof {
            assert(all.take(i + 1) == all.take(i).push(user));
            all.take(i).lemma_filter_push(user, page_keeps(*filter, now));
            all.take(i).lemma_filter_push(user, page_purges(*filter, now));
        }
        if passes(&user, filter) {
            if is_ban_expired(&user, now) {
                expired.push(user);
            } else {
                active.push(user);
            }
        }
    }
    proof {
        assert(all.take(all.len() as int) == all);
    }
    (active, expired)
}

/// The records that a count purges: every record that has run out, whatever
/// the filter.
pub open spec fn run_out(now: u64) -> spec_fn(User) -> bool {
    |u: User| ban_expired(u, now)
}

/// Counts the accounts banned at `now` among `users` whose id passes the
/// filter, and returns every record that has run out (filter or not) for
/// deletion.
pub fn sweep_count(users: Vec<User>, filter: &Option<String>, now: u64) -> (r: (u64, Vec<User>))
    ensures
        r.0 == users@.filter(page_keeps(*filter, now)).len(),
        r.1@ == users@.filter(run_out(now)),
{
    let ghost all = users@;
    let mut count: u64 = 0;
    let mut expired: Vec<User> = Vec::new();
    let len = users.len();
    for user in it: users
        invariant
            it.seq() == all,
            len == all.len(),
            count == all.take(it.index()).filter(page_keeps(*filter, now)).len(),
            expired@ == all.take(it.index()).filter(run_out(now)),
    {
        let ghost i = it.index();
        proof {
            assert(all.take(i + 1) == all.take(i).push(user));
            all.take(i).lemma_filter_push(user, page_keeps(*filter, now));
            all.take(i).lemma_filter_push(user, run_out(now));
            all.take(i).lemma_filter_len(page_keeps(*filter, now));
        }
        if is_ban_expired(&user, now) {
            expired.push(user);
        } else if passes(&user, filter) {
            count = count + 1;
        }
    }
    proof {
        assert(all.take(all.len() as int) == all);
    }
    (count, expired)
}

/// The filter looks at the account id alone: a record passes exactly when
/// the decimal writing of its id contains the filter text, every record
/// passes without a filter, and two records with the same id pass or fail
/// alike whatever their start, length or operator.
pub proof fn lemma_filter_reads_id_only(u: User, v: User, filter: Option<String>)
    ensures
        filter matches Some(f) ==> (passes_filter(u, filter) == contains_text(
            decimal(u.id as nat),
            f@,
        )),
        filter is None ==> passes_filter(u, filter),
        u.id == v.id ==> passes_filter(u, filter) == passes_filter(v, filter),
{
}

/// A listed page splits the records that pass the filter into those shown,
/// which are all in force, and those purged, which have all run out.
pub proof fn lemma_sweep_partitions(users: Seq<User>, filter: Option<String>, now: u64)
    ensures
        users.filter(page_keeps(filter, now)).len() + users.filter(page_purges(filter, now)).len()
            == users.filter(|u: User| passes_filter(u, filter)).len(),
        forall|i: int|
            0 <= i < users.filter(page_keeps(filter, now)).len() ==> !ban_expired(
                #[trigger] users.filter(page_keeps(filter, now))[i],
                now,
            ),
        forall|i: int|
            0 <= i < users.filter(page_purges(filter, now)).len() ==> ban_expired(
                #[trigger] users.filter(page_purges(filter, now))[i],
                now,
            ),
    decreases users.len(),
{
    if users.len() > 0 {
        let rest = users.drop_last();
        lemma_sweep_partitions(rest, filter, now);
        assert(users == rest.push(users.last()));
        rest.lemma_filter_push(users.last(), page_keeps(filter, now));
        rest.lemma_filter_push(users.last(), page_purges(filter, now));
        rest.lemma_filter_push(users.last(), |u: User| passes_filter(u, filter));
    } else {
        reveal(Seq::filter);
    }
}

/// Without a filter, a count is the number of bans still in force.
pub proof fn lemma_unfiltered_count(users: Seq<User>, now: u64)
    ensures
        users.filter(page_keeps(None, now)) == users.filter(|u: User| !ban_expired(u, now)),
{
    assert(page_keeps(None, now) =~= (|u: User| !ban_expired(u, now)));
}

} // verus!
