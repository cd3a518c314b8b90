//! Network interfaces: the counters of one interface, and how the counts
//! since the last refresh stand to the running totals.

use crate::counters::{counter_to_i64, signed_reading};
use vstd::prelude::*;
use vstd::string::*;

verus! {

/// What the system counts on one interface. Each plain counter is the
/// count since the last refresh; its `total_` neighbour is the running
/// total.
#[derive(Clone, Debug)]
pub struct NetworkReading {
    pub name: String,
    pub received: u64,
    pub total_received: u64,
    pub transmitted: u64,
    pub total_transmitted: u64,
    pub packets_received: u64,
    pub packets_transmitted: u64,
    pub total_packets_transmitted: u64,
    pub errors_on_received: u64,
    pub total_errors_on_received: u64,
    pub errors_on_transmitted: u64,
    pub total_errors_on_transmitted: u64,
}

/// The record of one interface.
#[derive(Clone, Debug, PartialEq, Eq)]
pub struct NetworkInfo {
    pub name: String,
    pub received: i64,
    pub total_received: i64,
    pub transmitted: i64,
    pub total_transmitted: i64,
    pub packets_received: i64,
    pub packets_transmitted: i64,
    pub total_packets_transmitted: i64,
    pub errors_on_received: i64,
    pub total_errors_on_received: i64,
    pub errors_on_transmitted: i64,
    pub total_errors_on_transmitted: i64,
}

/// An interface record as contracts speak of it: the name a sequence of
/// characters, the counters whole numbers.
pub struct NetworkInfoView {
    pub name: Seq<char>,
    pub received: int,
    pub total_received: int,
    pub transmitted: int,
    pub total_transmitted: int,
    pub packets_received: int,
    pub packets_transmitted: int,
    pub total_packets_transmitted: int,
    pub errors_on_received: int,
    pub total_errors_on_received: int,
    pub errors_on_transmitted: int,
    pub total_errors_on_transmitted: int,
}

impl View for NetworkInfo {
    type V = NetworkInfoView;

    open spec fn view(&self) -> NetworkInfoView {
        NetworkInfoView {
            name: self.name@,
            received: self.received as int,
            total_received: self.total_received as int,
            transmitted: self.transmitted as int,
            total_transmitted: self.total_transmitted as int,
            packets_received: self.packets_received as int,
            packets_transmitted: self.packets_transmitted as int,
            total_packets_transmitted: self.total_packets_transmitted as int,
            errors_on_received: self.errors_on_received as int,
            total_errors_on_received: self.total_errors_on_received as int,
            errors_on_transmitted: self.errors_on_transmitted as int,
            total_errors_on_transmitted: self.total_errors_on_transmitted as int,
        }
    }
}

/// The record that an interface's reading is shown as: every counter read
/// as a signed number.
pub open spec fn network_record(reading: NetworkReading) -> NetworkInfoView {
    NetworkInfoView {
        name: reading.name@,
        received: signed_reading(reading.received),
        total_received: signed_reading(reading.total_received),
        transmitted: signed_reading(reading.transmitted),
        total_transmitted: signed_reading(reading.total_transmitted),
        packets_received: signed_reading(reading.packets_received),
        packets_transmitted: signed_reading(reading.packets_transmitted),
        total_packets_transmitted: signed_reading(reading.total_packets_transmitted),
        errors_on_received: signed_reading(reading.errors_on_received),
        total_errors_on_received: signed_reading(reading.total_errors_on_received),
        errors_on_transmitted: signed_reading(reading.errors_on_transmitted),
        total_errors_on_transmitted: signed_reading(reading.total_errors_on_transmitted),
    }
}

/// Whether the records are those of the readings, one for one and in order.
pub open spec fn network_records_of(readings: Seq<NetworkReading>, infos: Seq<NetworkInfo>) -> bool {
    &&& infos.len() == readings.len()
    &&& forall|i: int|
        0 <= i < readings.len() ==> (#[trigger] infos[i])@ == network_record(readings[i])
}

/// Whether, in a reading, no count since the last refresh is above its
/// running total.
pub open spec fn counts_within_totals(reading: NetworkReading) -> bool {
    &&& reading.received <= reading.total_received
    &&& reading.transmitted <= reading.total_transmitted
    &&& reading.packets_transmitted <= reading.total_packets_transmitted
    &&& reading.errors_on_received <= reading.total_errors_on_received
    &&& reading.errors_on_transmitted <= reading.total_errors_on_transmitted
}

/// Whether, in a record, no count since the last refresh is above its
/// running total.
pub open spec fn record_within_totals(info: NetworkInfoView) -> bool {
    &&& info.received <= info.total_received
    &&& info.transmitted <= info.total_transmitted
    &&& info.packets_transmitted <= info.total_packets_transmitted
    &&& info.errors_on_received <= info.total_errors_on_received
    &&& info.errors_on_transmitted <= info.total_errors_on_transmitted
}

/// Whether a count and its total fall on the same side of 2^63, or the
/// count on the upper one: then reading both as signed numbers keeps
/// their order.
pub open spec fn keeps_order(count: u64, total: u64) -> bool {
    total <= i64::MAX || count > i64::MAX
}

/// Whether every pair of a reading keeps its order when read as signed.
pub open spec fn pairs_keep_order(reading: NetworkReading) -> bool {
    &&& keeps_order(reading.received, reading.total_received)
    &&& keeps_order(reading.transmitted, reading.total_transmitted)
    &&& keeps_order(reading.packets_transmitted, reading.total_packets_transmitted)
    &&& keeps_order(reading.errors_on_received, reading.total_errors_on_received)
    &&& keeps_order(reading.errors_on_transmitted, reading.total_errors_on_transmitted)
}

/// Counts that are within their totals in a reading are within them in its
/// record as long as no total has passed 2^63 ahead of its count, and only
/// then.
pub proof fn lemma_record_within_totals(reading: NetworkReading)
    requires
        counts_within_totals(reading),
    ensures
        record_within_totals(network_record(reading)) <==> pairs_keep_order(reading),
{
}

/// Builds the record of one interface.
pub fn network_info(reading: &NetworkReading) -> (info: NetworkInfo)
    ensures
        info@ == network_record(*reading),
        counts_within_totals(*reading) && pairs_keep_order(*reading) ==> record_within_totals(
            info@,
        ),
{
    NetworkInfo {
        name: reading.name.clone(),
        received: counter_to_i64(reading.received),
        total_received: counter_to_i64(reading.total_received),
        transmitted: counter_to_i64(reading.transmitted),
        total_transmitted: counter_to_i64(reading.total_transmitted),
        packets_received: counter_to_i64(reading.packets_received),
        packets_transmitted: counter_to_i64(reading.packets_transmitted),
        total_packets_transmitted: counter_to_i64(reading.total_packets_transmitted),
        errors_on_received: counter_to_i64(reading.errors_on_received),
        total_errors_on_received: counter_to_i64(reading.total_errors_on_received),
        errors_on_transmitted: counter_to_i64(reading.errors_on_transmitted),
        total_errors_on_transmitted: counter_to_i64(reading.total_errors_on_transmitted),
    }
}

/// Builds the records of all interfaces.
pub fn networks_info(readings: &Vec<NetworkReading>) -> (infos: Vec<NetworkInfo>)
    ensures
        network_records_of(readings@, infos@),
{
    let mut infos: Vec<NetworkInfo> = Vec::new();
    let mut i: usize = 0;
    while i < readings.len()
        invariant
            i <= readings.len(),
            network_records_of(readings@.take(i as int), infos@),
        decreases readings.len() - i,
    {
        infos.push(network_info(&readings[i]));
        i += 1;
    }
    proof {
        assert(readings@.take(readings.len() as int) =~= readings@);
    }
    infos
}

} // verus!
