//! How a page that has been lost is loaded again, and how long each attempt is given.

use vstd::prelude::*;

verus! {

/// How many seconds a page loaded again after being lost is given to report in before the load
/// is taken to have failed and asked for again.
///
/// A page that loads at all reports in within a second or two. The wait has to cover the web
/// content process being brought up first, since a load asked for while the platform is still
/// launching that process is dropped.
pub const PAGE_RELOAD_PATIENCE: u64 = 8;

/// How many quick attempts a lost page is given before the asking slows to
/// [`PAGE_RELOAD_PATIENCE_LATER`]. The asking never stops.
pub const PAGE_RELOAD_ATTEMPTS: u32 = 6;

/// How many seconds lie between attempts once the quick ones are spent.
pub const PAGE_RELOAD_PATIENCE_LATER: u64 = 30;

/// How many times a load that has begun is given another period of patience before it is taken
/// to have stalled and asked for again.
pub const PAGE_LOAD_BEGUN_WAITS: u32 = 1;

/// Where a window's page is loaded from.
pub const PAGE_URL: &'static str = "dioxus://index.html/";

/// A load of a lost page that has not reported in yet: which loss it recovers from, which
/// attempt at that loss it is, and how many times its clock has found the load begun and waited
/// on rather than asked again.
#[derive(Debug, Clone, Copy, PartialEq, Eq, Structural)]
pub struct PendingReload {
    pub loss: u64,
    pub attempt: u32,
    pub begun_waits: u32,
}

/// The number of the attempt after this one. The last number there is stands for every attempt
/// from there on.
pub open spec fn next_attempt(attempt: u32) -> u32 {
    if attempt < u32::MAX {
        (attempt + 1) as u32
    } else {
        attempt
    }
}

/// How many seconds an attempt is given.
pub open spec fn patience(attempt: u32) -> u64 {
    if attempt <= PAGE_RELOAD_ATTEMPTS {
        PAGE_RELOAD_PATIENCE
    } else {
        PAGE_RELOAD_PATIENCE_LATER
    }
}

/// The first six attempts are given eight seconds each, and every one after them half a minute: a
/// later attempt is never given less time than an earlier one.
pub proof fn attempts_are_quick_and_then_slow(earlier: u32, later: u32)
    requires
        earlier <= later,
    ensures
        later <= 6 ==> patience(later) == 8,
        later > 6 ==> patience(later) == 30,
        patience(earlier) <= patience(later),
{
}

/// Attempts are numbered one after the other, up to the last number there is.
pub proof fn attempts_follow_each_other(attempt: u32)
    ensures
        attempt < u32::MAX ==> next_attempt(attempt) == attempt + 1,
        next_attempt(u32::MAX) == u32::MAX,
{
}

} // verus!
