//! Discovery of the device on the local network segment.
//!
//! The device announces itself through a local service advertisement. The
//! listening itself happens outside this library; what is verified here is
//! every decision discovery makes: which records qualify, which address a
//! batch of records resolves to, and what outcome each observed event
//! forces under the caller's remaining time budget.

use vstd::prelude::*;
use crate::Ipv4Address;
use crate::error::BorealisError;

verus! {

/// What a single advertisement record carries, as far as discovery reads
/// it: an IPv4 address record, or anything else.
pub enum RecordData {
    A(Ipv4Address),
    Other,
}

/// The address a record resolves to, if it is an address-bearing record.
pub open spec fn record_address(record: RecordData) -> Option<Ipv4Address> {
    match record {
        RecordData::A(addr) => Some(addr),
        RecordData::Other => None,
    }
}

/// Resolves one record to a device address, if it bears one.
pub fn to_ip_addr(record: &RecordData) -> (r: Option<Ipv4Address>)
    ensures
        r == record_address(*record),
{
    match record {
        RecordData::A(addr) => Some(*addr),
        RecordData::Other => None,
    }
}

/// The first address among the records, in the order they stand.
pub open spec fn first_address(records: Seq<RecordData>) -> Option<Ipv4Address>
    decreases records.len(),
{
    if records.len() == 0 {
        None
    } else {
        match records[0] {
            RecordData::A(addr) => Some(addr),
            RecordData::Other => first_address(records.drop_first()),
        }
    }
}

/// Finds the first address-bearing record of one advertisement response.
pub fn scan_records(records: &Vec<RecordData>) -> (r: Option<Ipv4Address>)
    ensures
        r == first_address(records@),
{
    let mut i: usize = 0;
    proof {
        assert(records@.skip(0) =~= records@);
    }
    while i < records.len()
        invariant
            i <= records.len(),
            first_address(records@) == first_address(records@.skip(i as int)),
        decreases records.len() - i,
    {
        proof {
            assert(records@.skip(i as int)[0] == records@[i as int]);
            assert(records@.skip(i as int).drop_first() =~= records@.skip(i as int + 1));
        }
        match to_ip_addr(&records[i]) {
            Some(addr) => {
                return Some(addr);
            },
            None => {},
        }
        i = i + 1;
    }
    proof {
        assert(records@.skip(records@.len() as int).len() == 0);
    }
    None
}

/// One thing the unverified listening loop can observe while discovery
/// runs: a batch of advertisement records, the end of the listen stream,
/// or the failure to establish the listener at all.
pub enum DiscoveryEvent {
    Advertisement(Vec<RecordData>),
    StreamEnded,
    SetupFailed,
}

/// What one observed event forces discovery to do next.
#[derive(Clone, Copy, PartialEq, Eq, Structural, Debug)]
pub enum DiscoveryStep {
    /// A qualifying device was found at this address.
    Found(Ipv4Address),
    /// Nothing decisive yet: keep listening.
    Continue,
    /// Discovery has failed for the given reason.
    Failed(BorealisError),
}

/// The outcome one event forces under a remaining time budget.
pub open spec fn discovery_step_outcome(remaining_millis: u64, event: DiscoveryEvent) -> DiscoveryStep {
    if remaining_millis == 0 {
        DiscoveryStep::Failed(BorealisError::Timeout)
    } else {
        match event {
            DiscoveryEvent::Advertisement(records) => match first_address(records@) {
                Some(addr) => DiscoveryStep::Found(addr),
                None => DiscoveryStep::Continue,
            },
            DiscoveryEvent::StreamEnded => DiscoveryStep::Failed(BorealisError::NotFound),
            DiscoveryEvent::SetupFailed => DiscoveryStep::Failed(BorealisError::TransportSetup),
        }
    }
}

/// Decides what discovery does after one observed event, under the time
/// budget that remains. Budget exhaustion takes precedence over everything
/// the event says: with no time left the outcome is `Timeout`, never
/// `NotFound` and never a found address, whatever arrived or failed.
pub fn discovery_step(remaining_millis: u64, event: &DiscoveryEvent) -> (r: DiscoveryStep)
    ensures
        r == discovery_step_outcome(remaining_millis, *event),
        remaining_millis == 0 ==> r == DiscoveryStep::Failed(BorealisError::Timeout),
{
    if remaining_millis == 0 {
        return DiscoveryStep::Failed(BorealisError::Timeout);
    }
    match event {
        DiscoveryEvent::Advertisement(records) => match scan_records(records) {
            Some(addr) => DiscoveryStep::Found(addr),
            None => DiscoveryStep::Continue,
        },
        DiscoveryEvent::StreamEnded => DiscoveryStep::Failed(BorealisError::NotFound),
        DiscoveryEvent::SetupFailed => DiscoveryStep::Failed(BorealisError::TransportSetup),
    }
}

} // verus!
