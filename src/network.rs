//! Byte counters of network traffic: the application's own transfers and the
//! machine's interfaces.

use vstd::prelude::*;
use crate::text::{contains_seq, lower_of, text_contains, to_lower};

verus! {

/// Sum of two counters, held at the largest value rather than wrapping.
pub open spec fn sat_add(a: u64, b: u64) -> u64 {
    if a + b > u64::MAX {
        u64::MAX
    } else {
        (a + b) as u64
    }
}

/// Bytes the application has downloaded and uploaded so far.
#[derive(Clone, Copy, Debug, PartialEq, Eq, Structural)]
pub struct NetworkCounters {
    pub downloaded: u64,
    pub uploaded: u64,
}

impl NetworkCounters {
    /// Nothing transferred yet.
    pub fn new() -> (r: NetworkCounters)
        ensures
            r.downloaded == 0,
            r.uploaded == 0,
    {
        NetworkCounters { downloaded: 0, uploaded: 0 }
    }

    /// Adds one transfer's bytes to the totals.
    pub fn record(&mut self, downloaded: u64, uploaded: u64)
        ensures
            final(self).downloaded == sat_add(old(self).downloaded, downloaded),
            final(self).uploaded == sat_add(old(self).uploaded, uploaded),
    {
        self.downloaded = self.downloaded.saturating_add(downloaded);
        self.uploaded = self.uploaded.saturating_add(uploaded);
    }
}

/// An interface whose lower-cased name holds `lo` (which covers `loopback`)
/// carries local traffic only.
pub open spec fn is_loopback_name(name: Seq<char>) -> bool {
    contains_seq(lower_of(name), "lo"@) || contains_seq(lower_of(name), "loopback"@)
}

/// Whether an interface is a loopback interface, by its name.
pub fn is_loopback_interface(name: &str) -> (r: bool)
    ensures
        r == is_loopback_name(name@),
{
    let lowered = to_lower(name);
    text_contains(lowered.as_str(), "lo") || text_contains(lowered.as_str(), "loopback")
}

/// The traffic counters of one interface.
#[derive(Clone, Debug)]
pub struct InterfaceTraffic {
    pub name: String,
    pub received: u64,
    pub transmitted: u64,
}

/// Totals received and transmitted over the first `n` interfaces, loopback
/// interfaces left out.
pub open spec fn traffic_totals(ifs: Seq<InterfaceTraffic>, n: int) -> (u64, u64)
    decreases n,
{
    if n <= 0 {
        (0, 0)
    } else {
        let prev = traffic_totals(ifs, n - 1);
        if is_loopback_name(ifs[n - 1].name@) {
            prev
        } else {
            (sat_add(prev.0, ifs[n - 1].received), sat_add(prev.1, ifs[n - 1].transmitted))
        }
    }
}

/// Total bytes received and transmitted by the machine's non-loopback
/// interfaces.
pub fn total_traffic(ifs: &Vec<InterfaceTraffic>) -> (r: (u64, u64))
    ensures
        r == traffic_totals(ifs@, ifs@.len() as int),
{
    let mut down: u64 = 0;
    let mut up: u64 = 0;
    let mut i: usize = 0;
    while i < ifs.len()
        invariant
            i <= ifs@.len(),
            (down, up) == traffic_totals(ifs@, i as int),
        decreases ifs@.len() - i,
    {
        if !is_loopback_interface(ifs[i].name.as_str()) {
            down = down.saturating_add(ifs[i].received);
            up = up.saturating_add(ifs[i].transmitted);
        }
        i = i + 1;
    }
    (down, up)
}

} // verus!
