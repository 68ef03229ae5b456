use vstd::prelude::*;

use crate::error::AppErr;
use vstd::arithmetic::div_mod::lemma_breakdown;

verus! {

/// The service counters at one moment: answered requests that succeeded,
/// that failed, all requests, and accounts banned.
#[derive(Clone, Copy, Debug, PartialEq, Eq, Structural)]
pub struct Metrics {
    pub success: u64,
    pub fail: u64,
    pub request: u64,
    pub banned: u64,
}

/// The running counters of the service: the totals of `Metrics` and the
/// request counts of the current day.
#[derive(Clone, Copy, Debug, PartialEq, Eq, Structural)]
pub struct MetricCounters {
    pub success: u64,
    pub fail: u64,
    pub request: u64,
    pub banned: u64,
    pub day_success: u64,
    pub day_fail: u64,
    pub day_request: u64,
}

/// One more, wrapping to 0 past `u64::MAX` as an atomic counter does.
pub open spec fn bump(x: u64) -> u64 {
    if x == u64::MAX {
        0
    } else {
        (x + 1) as u64
    }
}

/// One less, wrapping to `u64::MAX` below 0 as an atomic counter does.
pub open spec fn drop_one(x: u64) -> u64 {
    if x == 0 {
        u64::MAX
    } else {
        (x - 1) as u64
    }
}

fn increment(x: u64) -> (y: u64)
    ensures
        y == bump(x),
{
    x.wrapping_add(1)
}

fn decrement(x: u64) -> (y: u64)
    ensures
        y == drop_one(x),
{
    x.wrapping_sub(1)
}

/// An HTTP status counts as a success when it lies in 200..=299.
pub open spec fn is_success_status(status: u16) -> bool {
    200 <= status <= 299
}

impl MetricCounters {
    /// All counters at 0.
    pub fn new() -> (c: MetricCounters)
        ensures
            c == (MetricCounters {
                success: 0,
                fail: 0,
                request: 0,
                banned: 0,
                day_success: 0,
                day_fail: 0,
                day_request: 0,
            }),
    {
        MetricCounters {
            success: 0,
            fail: 0,
            request: 0,
            banned: 0,
            day_success: 0,
            day_fail: 0,
            day_request: 0,
        }
    }

    /// Counts one answered API request with HTTP status `status`: a success
    /// (2xx) in the success counters, anything else in the failure counters.
    pub fn record_api(&mut self, status: u16)
        ensures
            200 <= status <= 299 ==> final(self).success == bump(old(self).success)
                && final(self).day_success == bump(old(self).day_success) && final(self).fail
                == old(self).fail && final(self).day_fail == old(self).day_fail,
            !(200 <= status <= 299) ==> final(self).fail == bump(old(self).fail)
                && final(self).day_fail == bump(old(self).day_fail) && final(self).success
                == old(self).success && final(self).day_success == old(self).day_success,
            final(self).request == old(self).request && final(self).day_request == old(
                self,
            ).day_request && final(self).banned == old(self).banned,
            is_success_status(status) ==> *final(self) == (MetricCounters {
                success: bump(old(self).success),
                day_success: bump(old(self).day_success),
                ..*old(self)
            }),
            !is_success_status(status) ==> *final(self) == (MetricCounters {
                fail: bump(old(self).fail),
                day_fail: bump(old(self).day_fail),
                ..*old(self)
            }),
    {
        if 200 <= status && status <= 299 {
            self.success = increment(self.success);
            self.day_success = increment(self.day_success);
        } else {
            self.fail = increment(self.fail);
            self.day_fail = increment(self.day_fail);
        }
    }

    /// Counts one request of any kind.
    pub fn record_request(&mut self)
        ensures
            *final(self) == (MetricCounters {
                request: bump(old(self).request),
                day_request: bump(old(self).day_request),
                ..*old(self)
            }),
    {
        self.request = increment(self.request);
        self.day_request = increment(self.day_request);
    }

    /// Counts an account that was not banned before and now is.
    pub fn record_new_ban(&mut self)
        ensures
            *final(self) == (MetricCounters { banned: bump(old(self).banned), ..*old(self) }),
    {
        self.banned = increment(self.banned);
    }

    /// Counts an account whose ban was lifted.
    pub fn record_unban(&mut self)
        ensures
            *final(self) == (MetricCounters { banned: drop_one(old(self).banned), ..*old(self) }),
    {
        self.banned = decrement(self.banned);
    }

    /// Sets the three request totals to the values read back from storage.
    pub fn restore(&mut self, success: u64, fail: u64, request: u64)
        ensures
            *final(self) == (MetricCounters { success, fail, request, ..*old(self) }),
    {
        self.success = success;
        self.fail = fail;
        self.request = request;
    }

    /// The totals.
    pub fn snapshot(&self) -> (m: Metrics)
        ensures
            m == (Metrics {
                success: self.success,
                fail: self.fail,
                request: self.request,
                banned: self.banned,
            }),
    {
        Metrics {
            success: self.success,
            fail: self.fail,
            request: self.request,
            banned: self.banned,
        }
    }

    /// Ends the day: returns the day's request, success and failure counts and
    /// sets them to 0; the totals are kept.
    pub fn take_day(&mut self) -> (day: (u64, u64, u64))
        ensures
            day == (old(self).day_request, old(self).day_success, old(self).day_fail),
            *final(self) == (MetricCounters {
                day_success: 0,
                day_fail: 0,
                day_request: 0,
                ..*old(self)
            }),
    {
        let day = (self.day_request, self.day_success, self.day_fail);
        self.day_request = 0;
        self.day_success = 0;
        self.day_fail = 0;
        day
    }
}

/// 256 to the power `n`.
pub open spec fn byte_pow(n: nat) -> nat
    decreases n,
{
    if n == 0 {
        1
    } else {
        256 * byte_pow((n - 1) as nat)
    }
}

/// The number that a sequence of bytes denotes, most significant byte first.
pub open spec fn be_value(bytes: Seq<u8>) -> nat
    decreases bytes.len(),
{
    if bytes.len() == 0 {
        0
    } else {
        be_value(bytes.drop_last()) * 256 + bytes.last() as nat
    }
}

/// The last `n` bytes of `x` written most significant byte first.
pub open spec fn be_bytes(x: nat, n: nat) -> Seq<u8>
    decreases n,
{
    if n == 0 {
        Seq::empty()
    } else {
        be_bytes(x / 256, (n - 1) as nat).push((x % 256) as u8)
    }
}

proof fn lemma_byte_pow_positive(n: nat)
    ensures
        byte_pow(n) > 0,
    decreases n,
{
    if n > 0 {
        lemma_byte_pow_positive((n - 1) as nat);
    }
}

proof fn lemma_byte_pow_monotone(m: nat, n: nat)
    requires
        m <= n,
    ensures
        byte_pow(m) <= byte_pow(n),
    decreases n,
{
    if m < n {
        lemma_byte_pow_monotone(m, (n - 1) as nat);
    }
}

/// A sequence of `n` bytes denotes a number below 256 to the power `n`.
proof fn lemma_be_value_bound(bytes: Seq<u8>)
    ensures
        be_value(bytes) < byte_pow(bytes.len()),
    decreases bytes.len(),
{
    if bytes.len() > 0 {
        let rest = bytes.drop_last();
        lemma_be_value_bound(rest);
        let v = be_value(rest);
        let p = byte_pow(rest.len());
        let b = bytes.last();
        assert(v * 256 + b < p * 256) by (nonlinear_arith)
            requires
                v < p,
                b < 256,
        ;
    }
}

/// Writing the last `n` bytes of `x` and reading them back gives `x` modulo
/// 256 to the power `n`.
pub proof fn lemma_be_round_trip(x: nat, n: nat)
    ensures
        be_bytes(x, n).len() == n,
        be_value(be_bytes(x, n)) == x % byte_pow(n),
    decreases n,
{
    if n > 0 {
        lemma_be_round_trip(x / 256, (n - 1) as nat);
        lemma_byte_pow_positive((n - 1) as nat);
        let s = be_bytes(x, n);
        assert(s.drop_last() == be_bytes(x / 256, (n - 1) as nat));
        lemma_breakdown(x as int, 256, byte_pow((n - 1) as nat) as int);
        assert(256 * byte_pow((n - 1) as nat) == byte_pow(n));
    }
}

/// The eight bytes in which a counter is stored, most significant first.
pub fn encode_counter(value: u64) -> (bytes: Vec<u8>)
    ensures
        bytes@ == be_bytes(value as nat, 8),
{
    encode_bytes(value, 8)
}

fn encode_bytes(x: u64, n: usize) -> (bytes: Vec<u8>)
    ensures
        bytes@ == be_bytes(x as nat, n as nat),
    decreases n,
{
    if n == 0 {
        Vec::new()
    } else {
        let mut bytes = encode_bytes(x / 256, n - 1);
        bytes.push((x % 256) as u8);
        bytes
    }
}

/// Reads a stored counter: an absent entry reads as 0, eight bytes read as the
/// number they denote (most significant first), and any other length is
/// refused with `Conversion`.
pub fn decode_counter(stored: Option<Vec<u8>>) -> (r: Result<u64, AppErr>)
    ensures
        stored is None ==> r == Ok::<u64, AppErr>(0),
        stored matches Some(b) ==> (b@.len() == 8 ==> r == Ok::<u64, AppErr>(be_value(b@) as u64)),
        stored matches Some(b) ==> (b@.len() != 8 ==> r == Err::<u64, AppErr>(AppErr::Conversion)),
{
    match stored {
        None => Ok(0),
        Some(bytes) => {
            if bytes.len() != 8 {
                return Err(AppErr::Conversion);
            }
            let mut value: u64 = 0;
            let mut i: usize = 0;
            while i < 8
                invariant
                    bytes@.len() == 8,
                    i <= 8,
                    value == be_value(bytes@.take(i as int)),
                decreases 8 - i,
            {
                proof {
                    lemma_be_value_bound(bytes@.take(i as int));
                    lemma_byte_pow_monotone(i as nat, 7);
                    reveal_with_fuel(byte_pow, 8);
                    assert(byte_pow(7) == 72057594037927936);
                    assert(bytes@.take(i + 1).drop_last() == bytes@.take(i as int));
                }
                value = value * 256 + bytes[i] as u64;
                i = i + 1;
            }
            assert(bytes@.take(8) == bytes@);
            Ok(value)
        },
    }
}

/// A counter written by `encode_counter` reads back unchanged.
pub proof fn lemma_counter_round_trip(value: u64)
    ensures
        be_value(be_bytes(value as nat, 8)) == value,
        be_bytes(value as nat, 8).len() == 8,
{
    lemma_be_round_trip(value as nat, 8);
    reveal_with_fuel(byte_pow, 9);
    assert(byte_pow(8) == 18446744073709551616);
}

/// The status that the chat bridge reports about itself.
#[derive(Clone, Copy, Debug, PartialEq, Eq, Structural)]
pub struct NapcatStatus {
    pub online: bool,
    pub good: bool,
}

/// The reply of the chat bridge to a status request.
#[derive(Clone, Copy, Debug, PartialEq, Eq, Structural)]
pub struct NapcatStatusResponse {
    pub data: NapcatStatus,
}

/// How many of the three health checks passed.
pub open spec fn passed_checks(database: bool, online: bool, good: bool) -> int {
    (if database { 1int } else { 0int }) + (if online { 1int } else { 0int }) + (if good {
        1int
    } else {
        0int
    })
}

/// The number of passed health checks: the database answers, the chat bridge
/// is online, and the chat bridge reports itself good. The health score is
/// this number over 3.
pub fn health_count(database: bool, bridge: Option<NapcatStatus>) -> (count: u8)
    ensures
        count == match bridge {
            Some(s) => passed_checks(database, s.online, s.good),
            None => passed_checks(database, false, false),
        },
        count <= 3,
{
    let mut count: u8 = 0;
    if database {
        count = count + 1;
    }
    if let Some(s) = bridge {
        if s.online {
            count = count + 1;
        }
        if s.good {
            count = count + 1;
        }
    }
    count
}

/// Full health exactly when all three checks pass.
pub proof fn lemma_full_health(database: bool, online: bool, good: bool)
    ensures
        passed_checks(database, online, good) == 3 <==> (database && online && good),
        0 <= passed_checks(database, online, good) <= 3,
{
}

/// Exactly the 2xx statuses count as successes: every status below 200 or
/// above 299 (redirects, client and server errors alike) counts as a failure.
pub proof fn lemma_success_is_2xx(status: u16)
    ensures
        is_success_status(status) <==> 200 <= status && status < 300,
        status >= 300 ==> !is_success_status(status),
        status < 200 ==> !is_success_status(status),
        500 <= status <= 599 ==> !is_success_status(status),
{
}

/// Lifting a ban that was just counted brings the banned count back to where
/// it was, and counting a ban after lifting one does the same.
pub proof fn lemma_ban_unban_cancel(banned: u64)
    ensures
        drop_one(bump(banned)) == banned,
        bump(drop_one(banned)) == banned,
{
}

/// Ending the day twice in a row hands out the day's counts once: the second
/// time all three are 0, and the totals are untouched either way.
pub proof fn lemma_day_ends_once(c: MetricCounters)
    ensures
        ({
            let after = MetricCounters { day_success: 0, day_fail: 0, day_request: 0, ..c };
            &&& (after.day_request, after.day_success, after.day_fail) == (0u64, 0u64, 0u64)
            &&& after.success == c.success && after.fail == c.fail
            &&& after.request == c.request && after.banned == c.banned
        }),
{
}

} // verus!
