//! Network interfaces: cumulative counters, the bytes moved since the last
//! poll, and the choice of the interfaces worth listing.

use crate::metrics::delta::{deltas, Counters, DeltaTracker};
use crate::model::NetworkInfo;
use crate::text::{starts_with, starts_with_text};
use vstd::prelude::*;
use vstd::string::*;

verus! {

/// What one poll reads of one interface; all counters are cumulative.
#[derive(Debug, Clone, PartialEq, Eq)]
pub struct NetworkReading {
    pub interface_name: String,
    pub rx_bytes: u64,
    pub tx_bytes: u64,
    pub rx_packets: u64,
    pub tx_packets: u64,
    pub rx_errors: u64,
    pub tx_errors: u64,
}

impl NetworkReading {
    /// The two byte counters of the reading.
    pub open spec fn counters(self) -> Counters {
        Counters { first: self.rx_bytes, second: self.tx_bytes }
    }

    /// Whether the interface is a loopback: its name begins with `lo`.
    pub open spec fn is_loopback(self) -> bool {
        starts_with_text(self.interface_name@, "lo"@)
    }

    /// Whether the interface never moved a byte or a packet.
    pub open spec fn is_idle(self) -> bool {
        self.rx_bytes == 0 && self.tx_bytes == 0 && self.rx_packets == 0 && self.tx_packets == 0
    }

    /// Whether the interface is listed in a snapshot.
    pub open spec fn is_listed(self) -> bool {
        !self.is_loopback() && !self.is_idle()
    }
}

/// The interface of a snapshot that the reading gives, against the
/// counters `seen` before it.
pub open spec fn network_info(seen: Map<Seq<char>, Counters>, reading: NetworkReading)
    -> NetworkInfo {
    let delta = deltas(seen, reading.interface_name@, reading.counters());
    NetworkInfo {
        interface_name: reading.interface_name,
        rx_bytes: reading.rx_bytes,
        tx_bytes: reading.tx_bytes,
        rx_bytes_delta: delta.first,
        tx_bytes_delta: delta.second,
        rx_packets: reading.rx_packets,
        tx_packets: reading.tx_packets,
        rx_errors: reading.rx_errors,
        tx_errors: reading.tx_errors,
    }
}

/// The counters seen after the readings of one poll, taken in order. Every
/// reading counts, also that of an interface that is not listed.
pub open spec fn networks_seen(seen: Map<Seq<char>, Counters>, readings: Seq<NetworkReading>)
    -> Map<Seq<char>, Counters>
    decreases readings.len(),
{
    if readings.len() == 0 {
        seen
    } else {
        networks_seen(seen, readings.drop_last()).insert(
            readings.last().interface_name@,
            readings.last().counters(),
        )
    }
}

/// The interfaces of a snapshot: one per listed reading, in order, each
/// against the counters seen before it.
pub open spec fn network_infos(seen: Map<Seq<char>, Counters>, readings: Seq<NetworkReading>)
    -> Seq<NetworkInfo>
    decreases readings.len(),
{
    if readings.len() == 0 {
        Seq::empty()
    } else {
        let front = network_infos(seen, readings.drop_last());
        if readings.last().is_listed() {
            front.push(network_info(networks_seen(seen, readings.drop_last()), readings.last()))
        } else {
            front
        }
    }
}

/// `total`, held at the largest 64-bit value.
pub open spec fn held(total: nat) -> u64 {
    if total > u64::MAX {
        u64::MAX
    } else {
        total as u64
    }
}

/// The sum of one figure over all interfaces.
pub open spec fn sum_of(networks: Seq<NetworkInfo>, figure: spec_fn(NetworkInfo) -> u64) -> nat
    decreases networks.len(),
{
    if networks.len() == 0 {
        0
    } else {
        sum_of(networks.drop_last(), figure) + figure(networks.last()) as nat
    }
}

/// The interface that stands for all of `networks`: each figure is the sum
/// over all of them, held at the largest 64-bit value.
pub open spec fn aggregate_of(name: String, networks: Seq<NetworkInfo>) -> NetworkInfo {
    NetworkInfo {
        interface_name: name,
        rx_bytes: held(sum_of(networks, |n: NetworkInfo| n.rx_bytes)),
        tx_bytes: held(sum_of(networks, |n: NetworkInfo| n.tx_bytes)),
        rx_bytes_delta: held(sum_of(networks, |n: NetworkInfo| n.rx_bytes_delta)),
        tx_bytes_delta: held(sum_of(networks, |n: NetworkInfo| n.tx_bytes_delta)),
        rx_packets: held(sum_of(networks, |n: NetworkInfo| n.rx_packets)),
        tx_packets: held(sum_of(networks, |n: NetworkInfo| n.tx_packets)),
        rx_errors: held(sum_of(networks, |n: NetworkInfo| n.rx_errors)),
        tx_errors: held(sum_of(networks, |n: NetworkInfo| n.tx_errors)),
    }
}

/// Turns interface readings into the interfaces of a snapshot.
pub struct NetworkCollector {
    pub previous_stats: DeltaTracker,
}

impl View for NetworkCollector {
    type V = Map<Seq<char>, Counters>;

    open spec fn view(&self) -> Map<Seq<char>, Counters> {
        self.previous_stats@
    }
}

impl NetworkCollector {
    /// A collector that has seen no interface.
    pub fn new() -> (r: Self)
        ensures
            r@ == Map::<Seq<char>, Counters>::empty(),
    {
        NetworkCollector { previous_stats: DeltaTracker::new() }
    }

    /// Takes the readings of a first poll as the base of later deltas.
    pub fn init(&mut self, readings: &Vec<NetworkReading>)
        ensures
            final(self)@ == networks_seen(old(self)@, readings@),
    {
        let mut i: usize = 0;
        while i < readings.len()
            invariant
                i <= readings.len(),
                self@ == networks_seen(old(self)@, readings@.take(i as int)),
            decreases readings.len() - i,
        {
            proof {
                assert(readings@.take(i + 1).drop_last() =~= readings@.take(i as int));
            }
            let reading = &readings[i];
            self.previous_stats.record(
                reading.interface_name.as_str(),
                Counters { first: reading.rx_bytes, second: reading.tx_bytes },
            );
            i += 1;
        }
        proof {
            assert(readings@.take(readings.len() as int) =~= readings@);
        }
    }

    /// The interfaces of the snapshot of one poll. Loopback interfaces and
    /// interfaces that never moved a byte or a packet are left out; their
    /// counters are tracked all the same.
    pub fn collect(&mut self, readings: &Vec<NetworkReading>) -> (networks: Vec<NetworkInfo>)
        ensures
            networks@ == network_infos(old(self)@, readings@),
            final(self)@ == networks_seen(old(self)@, readings@),
    {
        let mut networks: Vec<NetworkInfo> = Vec::new();
        let mut i: usize = 0;
        while i < readings.len()
            invariant
                i <= readings.len(),
                self@ == networks_seen(old(self)@, readings@.take(i as int)),
                networks@ == network_infos(old(self)@, readings@.take(i as int)),
            decreases readings.len() - i,
        {
            proof {
                assert(readings@.take(i + 1).drop_last() =~= readings@.take(i as int));
            }
            let reading = &readings[i];
            let delta = self.previous_stats.update(
                reading.interface_name.as_str(),
                Counters { first: reading.rx_bytes, second: reading.tx_bytes },
            );
            i += 1;
            if starts_with(reading.interface_name.as_str(), "lo") {
                continue ;
            }
            if reading.rx_bytes == 0 && reading.tx_bytes == 0 && reading.rx_packets == 0
                && reading.tx_packets == 0 {
                continue ;
            }
            networks.push(
                NetworkInfo {
                    interface_name: reading.interface_name.clone(),
                    rx_bytes: reading.rx_bytes,
                    tx_bytes: reading.tx_bytes,
                    rx_bytes_delta: delta.first,
                    tx_bytes_delta: delta.second,
                    rx_packets: reading.rx_packets,
                    tx_packets: reading.tx_packets,
                    rx_errors: reading.rx_errors,
                    tx_errors: reading.tx_errors,
                },
            );
        }
        proof {
            assert(readings@.take(readings.len() as int) =~= readings@);
        }
        networks
    }

    /// One interface named `total` that sums up the interfaces of the
    /// snapshot of one poll.
    pub fn get_aggregate_stats(&mut self, readings: &Vec<NetworkReading>) -> (total: NetworkInfo)
        ensures
            total.interface_name@ == "total"@,
            total == aggregate_of(
                total.interface_name,
                network_infos(old(self)@, readings@),
            ),
            final(self)@ == networks_seen(old(self)@, readings@),
    {
        let networks = self.collect(readings);
        let mut aggregate = NetworkInfo {
            interface_name: String::from_str("total"),
            rx_bytes: 0,
            tx_bytes: 0,
            rx_bytes_delta: 0,
            tx_bytes_delta: 0,
            rx_packets: 0,
            tx_packets: 0,
            rx_errors: 0,
            tx_errors: 0,
        };
        let ghost name = aggregate.interface_name;
        let mut i: usize = 0;
        while i < networks.len()
            invariant
                i <= networks.len(),
                aggregate == aggregate_of(name, networks@.take(i as int)),
            decreases networks.len() - i,
        {
            proof {
                assert(networks@.take(i + 1).drop_last() =~= networks@.take(i as int));
            }
            let net = &networks[i];
            aggregate.rx_bytes = aggregate.rx_bytes.saturating_add(net.rx_bytes);
            aggregate.tx_bytes = aggregate.tx_bytes.saturating_add(net.tx_bytes);
            aggregate.rx_bytes_delta = aggregate.rx_bytes_delta.saturating_add(net.rx_bytes_delta);
            aggregate.tx_bytes_delta = aggregate.tx_bytes_delta.saturating_add(net.tx_bytes_delta);
            aggregate.rx_packets = aggregate.rx_packets.saturating_add(net.rx_packets);
            aggregate.tx_packets = aggregate.tx_packets.saturating_add(net.tx_packets);
            aggregate.rx_errors = aggregate.rx_errors.saturating_add(net.rx_errors);
            aggregate.tx_errors = aggregate.tx_errors.saturating_add(net.tx_errors);
            i += 1;
        }
        proof {
            assert(networks@.take(networks.len() as int) =~= networks@);
        }
        aggregate
    }
}

/// No loopback interface and no interface that never moved a byte or a
/// packet is in the list of a snapshot; every other interface is, and the
/// list is never longer than the readings.
pub proof fn lemma_listed_networks(
    seen: Map<Seq<char>, Counters>,
    readings: Seq<NetworkReading>,
    k: int,
)
    requires
        0 <= k < network_infos(seen, readings).len(),
    ensures
        network_infos(seen, readings).len() <= readings.len(),
        !starts_with_text(network_infos(seen, readings)[k].interface_name@, "lo"@),
        !(network_infos(seen, readings)[k].rx_bytes == 0 && network_infos(
            seen,
            readings,
        )[k].tx_bytes == 0 && network_infos(seen, readings)[k].rx_packets == 0 && network_infos(
            seen,
            readings,
        )[k].tx_packets == 0),
        exists|i: int|
            0 <= i < readings.len() && (#[trigger] readings[i]).is_listed() && network_infos(
                seen,
                readings,
            )[k] == network_info(networks_seen(seen, readings.take(i)), readings[i]),
    decreases readings.len(),
{
    let front = readings.drop_last();
    let listed = network_infos(seen, front);
    lemma_listed_length(seen, front);
    if k < listed.len() {
        lemma_listed_networks(seen, front, k);
        let i = choose|i: int|
            0 <= i < front.len() && (#[trigger] front[i]).is_listed() && listed[k] == network_info(
                networks_seen(seen, front.take(i)),
                front[i],
            );
        assert(front.take(i) =~= readings.take(i));
        assert(readings[i] == front[i]);
    } else {
        let i = readings.len() - 1;
        assert(readings.take(i) =~= front);
        assert(readings[i].is_listed());
    }
}

proof fn lemma_listed_length(seen: Map<Seq<char>, Counters>, readings: Seq<NetworkReading>)
    ensures
        network_infos(seen, readings).len() <= readings.len(),
    decreases readings.len(),
{
    if readings.len() > 0 {
        lemma_listed_length(seen, readings.drop_last());
    }
}

/// A listed reading is in the list of the snapshot.
pub proof fn lemma_listed_reading_shown(
    seen: Map<Seq<char>, Counters>,
    readings: Seq<NetworkReading>,
    i: int,
)
    requires
        0 <= i < readings.len(),
        readings[i].is_listed(),
    ensures
        network_infos(seen, readings).contains(
            network_info(networks_seen(seen, readings.take(i)), readings[i]),
        ),
    decreases readings.len(),
{
    let front = readings.drop_last();
    let wanted = network_info(networks_seen(seen, readings.take(i)), readings[i]);
    if i == readings.len() - 1 {
        assert(readings.take(i) =~= front);
        let list = network_infos(seen, readings);
        assert(list[list.len() - 1] == wanted);
    } else {
        lemma_listed_reading_shown(seen, front, i);
        assert(front.take(i) =~= readings.take(i));
        assert(front[i] == readings[i]);
        let at = choose|at: int|
            0 <= at < network_infos(seen, front).len() && network_infos(seen, front)[at]
                == wanted;
        assert(network_infos(seen, readings)[at] == wanted);
    }
}

} // verus!
