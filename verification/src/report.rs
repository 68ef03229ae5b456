use vstd::prelude::*;

verus! {

/// How many times an account has been reported, as stored: `None` for an
/// account never reported.
pub open spec fn reported(stored: Option<u64>) -> u64 {
    match stored {
        Some(c) => c,
        None => 0,
    }
}

/// The stored count after one more report: one more than before, held at
/// `u64::MAX`; a first report stores 1.
pub open spec fn after_report(stored: Option<u64>) -> u64 {
    match stored {
        Some(c) => if c == u64::MAX {
            c
        } else {
            (c + 1) as u64
        },
        None => 1,
    }
}

/// Records one more report against an account whose stored count is
/// `stored`: returns the count to store, which is also the answer.
pub fn report_once(stored: Option<u64>) -> (count: u64)
    ensures
        count == after_report(stored),
{
    match stored {
        Some(c) => c.saturating_add(1),
        None => 1,
    }
}

/// The number of reports against an account whose stored count is `stored`.
pub fn report_total(stored: Option<u64>) -> (count: u64)
    ensures
        count == reported(stored),
{
    match stored {
        Some(c) => c,
        None => 0,
    }
}

/// Clears the reports of an account: an existing count is set to 0, an
/// account never reported stays without a count; the answer is 0 either way.
pub fn clear_reports(stored: Option<u64>) -> (r: (Option<u64>, u64))
    ensures
        r.0 == match stored {
            Some(_) => Some(0u64),
            None => None::<u64>,
        },
        r.1 == 0,
{
    match stored {
        Some(_) => (Some(0), 0),
        None => (None, 0),
    }
}

/// Reading back a report gives the count the report answered; each report
/// adds one until the count is at its maximum; after clearing, the count reads
/// 0 and the next report answers 1.
pub proof fn lemma_report_laws(stored: Option<u64>)
    ensures
        reported(Some(after_report(stored))) == after_report(stored),
        reported(stored) < u64::MAX ==> after_report(stored) == reported(stored) + 1,
        reported(stored) == u64::MAX ==> after_report(stored) == u64::MAX,
        reported(match stored {
            Some(_) => Some(0u64),
            None => None::<u64>,
        }) == 0,
        after_report(match stored {
            Some(_) => Some(0u64),
            None => None::<u64>,
        }) == 1,
{
}

} // verus!
