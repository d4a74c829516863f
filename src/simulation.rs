//! The event queue and the one-hop connectivity check behind `ping`.

use vstd::prelude::*;
use crate::network::{NetworkCable, NetworkDevice, NetworkPort};
use crate::packet::Packet;
use crate::state::{device_index, find_device, ids_unique, NetworkState};
use crate::text::{chars_of, is_lit};

verus! {

/// A discrete simulation event.
#[derive(Debug)]
pub enum Event {
    PacketArrival { to_device_id: String, ingress_port: String, packet: Packet },
    TimerExpiry { device_id: String, timer_id: String },
}

/// An event and the time it is due.
#[derive(Debug)]
struct ScheduledEvent {
    time: u64,
    event: Event,
}

/// A clock and the events still to come, earliest first.
pub struct SimulationEngine {
    global_time: u64,
    event_queue: Vec<ScheduledEvent>,
}

impl SimulationEngine {
    /// The current time.
    pub closed spec fn now(&self) -> u64 {
        self.global_time
    }

    /// The pending events with their due times, in queue order.
    pub closed spec fn pending(&self) -> Seq<(u64, Event)> {
        self.event_queue@.map_values(|e: ScheduledEvent| (e.time, e.event))
    }

    /// Well-formed: pending events are ordered by due time.
    pub open spec fn wf(&self) -> bool {
        forall|i: int, j: int| 0 <= i < j < self.pending().len() ==> self.pending()[i].0 <= self.pending()[j].0
    }

    /// An engine at time 0 with nothing pending.
    pub fn new() -> (r: Self)
        ensures
            r.now() == 0,
            r.pending().len() == 0,
            r.wf(),
    {
        SimulationEngine { global_time: 0, event_queue: Vec::new() }
    }

    /// Queues `event` due `delay` after now, behind every event due no later.
    pub fn schedule_event(&mut self, delay: u64, event: Event)
        requires
            old(self).wf(),
            old(self).now() + delay <= u64::MAX,
        ensures
            final(self).wf(),
            final(self).now() == old(self).now(),
            exists|p: int|
                0 <= p <= old(self).pending().len() && final(self).pending() == #[trigger] old(self).pending().insert(
                    p,
                    ((old(self).now() + delay) as u64, event),
                ) && (forall|k: int| 0 <= k < p ==> old(self).pending()[k].0 <= old(self).now() + delay)
                    && (forall|k: int| p <= k < old(self).pending().len() ==> old(self).pending()[k].0 > old(self).now() + delay),
    {
        let t = self.global_time + delay;
        let mut p: usize = 0;
        while p < self.event_queue.len() && self.event_queue[p].time <= t
            invariant
                p <= self.event_queue@.len(),
                forall|k: int| 0 <= k < p ==> self.event_queue@[k].time <= t,
            decreases self.event_queue.len() - p,
        {
            p = p + 1;
        }
        let ghost before = self.pending();
        proof {
            assert forall|k: int| p <= k < before.len() implies before[k].0 > t by {
                if p < before.len() {
                    assert(self.event_queue@[p as int].time > t);
                    assert(before[p as int].0 <= before[k].0);
                }
            }
        }
        let ghost ev = event;
        self.event_queue.insert(p, ScheduledEvent { time: t, event });
        assert(self.pending() =~= before.insert(p as int, (t, ev)));
    }
}

/// The first cable at or after `j` whose source end is port `port` of device `dev`.
pub open spec fn cable_from(cs: Seq<NetworkCable>, dev: Seq<char>, port: Seq<char>, j: int) -> Option<int>
    decreases cs.len() - j,
{
    if j < 0 || j >= cs.len() {
        None
    } else if cs[j].source_device_id@ == dev && cs[j].source_port_id@ == port {
        Some(j)
    } else {
        cable_from(cs, dev, port, j + 1)
    }
}

/// The first cable at or after `j` whose target end is port `port` of device `dev`.
pub open spec fn cable_to(cs: Seq<NetworkCable>, dev: Seq<char>, port: Seq<char>, j: int) -> Option<int>
    decreases cs.len() - j,
{
    if j < 0 || j >= cs.len() {
        None
    } else if cs[j].target_device_id@ == dev && cs[j].target_port_id@ == port {
        Some(j)
    } else {
        cable_to(cs, dev, port, j + 1)
    }
}

/// The device at the far end of the cable attached to port `p` of device `dev`: the first
/// cable that starts there, else the first that ends there.
pub open spec fn far_device(cs: Seq<NetworkCable>, dev: Seq<char>, p: NetworkPort) -> Option<Seq<char>> {
    match cable_from(cs, dev, p.id@, 0) {
        Some(i) => Some(cs[i].target_device_id@),
        None => match cable_to(cs, dev, p.id@, 0) {
            Some(i) => Some(cs[i].source_device_id@),
            None => None,
        },
    }
}

/// Some port of `d` has the address `ip`.
pub open spec fn owns_address(d: NetworkDevice, ip: Seq<char>) -> bool {
    exists|k: int| 0 <= k < d.ports@.len() && #[trigger] crate::network::port_ip(d.ports@[k]) == Some(ip)
}

/// Port `p` of device `dev` is cabled to a device that owns `ip`.
pub open spec fn port_reaches(st: NetworkState, dev: Seq<char>, p: NetworkPort, ip: Seq<char>) -> bool {
    match far_device(st.cables@, dev, p) {
        Some(f) => match find_device(st.devices@, f) {
            Some(i) => owns_address(st.devices@[i], ip),
            None => false,
        },
        None => false,
    }
}

/// Device `dev` is one cable away from a device that owns `ip`.
pub open spec fn reachable(st: NetworkState, dev: Seq<char>, ip: Seq<char>) -> bool {
    match find_device(st.devices@, dev) {
        Some(i) => exists|k: int|
            0 <= k < st.devices@[i].ports@.len() && #[trigger] port_reaches(st, dev, st.devices@[i].ports@[k], ip),
        None => false,
    }
}

/// Cable `x` starts at port `port` of device `dev`.
pub open spec fn starts_at(cs: Seq<NetworkCable>, x: int, dev: Seq<char>, port: Seq<char>) -> bool {
    cs[x].source_device_id@ == dev && cs[x].source_port_id@ == port
}

/// Cable `x` ends at port `port` of device `dev`.
pub open spec fn ends_at(cs: Seq<NetworkCable>, x: int, dev: Seq<char>, port: Seq<char>) -> bool {
    cs[x].target_device_id@ == dev && cs[x].target_port_id@ == port
}

proof fn lemma_cable_from_only(cs: Seq<NetworkCable>, dev: Seq<char>, port: Seq<char>, ci: int, j: int)
    requires
        0 <= j,
        ci < cs.len(),
        forall|x: int| j <= x < cs.len() && x != ci ==> !starts_at(cs, x, dev, port),
    ensures
        cable_from(cs, dev, port, j) == (if 0 <= ci && j <= ci && starts_at(cs, ci, dev, port) {
            Some(ci)
        } else {
            None::<int>
        }),
    decreases cs.len() - j,
{
    if j < cs.len() {
        if j != ci {
            assert(!starts_at(cs, j, dev, port));
        }
        lemma_cable_from_only(cs, dev, port, ci, j + 1);
    }
}

proof fn lemma_cable_to_only(cs: Seq<NetworkCable>, dev: Seq<char>, port: Seq<char>, ci: int, j: int)
    requires
        0 <= j,
        ci < cs.len(),
        forall|x: int| j <= x < cs.len() && x != ci ==> !ends_at(cs, x, dev, port),
    ensures
        cable_to(cs, dev, port, j) == (if 0 <= ci && j <= ci && ends_at(cs, ci, dev, port) {
            Some(ci)
        } else {
            None::<int>
        }),
    decreases cs.len() - j,
{
    if j < cs.len() {
        if j != ci {
            assert(!ends_at(cs, j, dev, port));
        }
        lemma_cable_to_only(cs, dev, port, ci, j + 1);
    }
}

/// One hop over a cable: when cable `ci` is the only cable at port `k` of device `i` and joins
/// it (from either end) to device `j`, every address that device `j` owns is reachable from
/// device `i`, so the resolver answers a packet sent there.
pub proof fn lemma_cabled_neighbor_reachable(st: NetworkState, i: int, k: int, j: int, m: int, ci: int, t: Seq<char>)
    requires
        ids_unique(st.devices@),
        0 <= i < st.devices@.len(),
        0 <= j < st.devices@.len(),
        0 <= k < st.devices@[i].ports@.len(),
        0 <= m < st.devices@[j].ports@.len(),
        0 <= ci < st.cables@.len(),
        forall|x: int| 0 <= x < st.cables@.len() && x != ci ==> !starts_at(
            st.cables@,
            x,
            st.devices@[i].id@,
            st.devices@[i].ports@[k].id@,
        ) && !ends_at(st.cables@, x, st.devices@[i].id@, st.devices@[i].ports@[k].id@),
        (starts_at(st.cables@, ci, st.devices@[i].id@, st.devices@[i].ports@[k].id@)
            && st.cables@[ci].target_device_id@ == st.devices@[j].id@) || (!starts_at(
            st.cables@,
            ci,
            st.devices@[i].id@,
            st.devices@[i].ports@[k].id@,
        ) && ends_at(st.cables@, ci, st.devices@[i].id@, st.devices@[i].ports@[k].id@)
            && st.cables@[ci].source_device_id@ == st.devices@[j].id@),
        crate::network::port_ip(st.devices@[j].ports@[m]) == Some(t),
    ensures
        reachable(st, st.devices@[i].id@, t),
{
    let a = st.devices@[i];
    let p = a.ports@[k];
    lemma_cable_from_only(st.cables@, a.id@, p.id@, ci, 0);
    lemma_cable_to_only(st.cables@, a.id@, p.id@, ci, 0);
    assert(far_device(st.cables@, a.id@, p) == Some(st.devices@[j].id@));
    crate::state::lemma_find_unique(st.devices@, i);
    crate::state::lemma_find_unique(st.devices@, j);
    assert(owns_address(st.devices@[j], t));
    assert(port_reaches(st, a.id@, p, t));
}

/// `r` answers `q`: the addresses swapped, everything else kept.
pub open spec fn is_reply_to(r: Packet, q: Packet) -> bool {
    r.src_ip@ == q.dst_ip@ && r.dst_ip@ == q.src_ip@ && r.src_mac == q.src_mac && r.dst_mac == q.dst_mac
        && r.vlan_id == q.vlan_id && r.ttl == q.ttl && r.protocol == q.protocol && r.payload == q.payload
}

fn same_text(a: &String, b: &String) -> (r: bool)
    ensures
        r == (a@ == b@),
{
    is_lit(&chars_of(a.as_str()), b.as_str())
}

fn first_cable(cs: &Vec<NetworkCable>, dev: &String, port: &String, from_source: bool) -> (r: Option<usize>)
    ensures
        match r {
            Some(i) => i < cs@.len() && (if from_source {
                cable_from(cs@, dev@, port@, 0) == Some(i as int)
            } else {
                cable_to(cs@, dev@, port@, 0) == Some(i as int)
            }),
            None => if from_source {
                cable_from(cs@, dev@, port@, 0) is None
            } else {
                cable_to(cs@, dev@, port@, 0) is None
            },
        },
{
    let mut i: usize = 0;
    while i < cs.len()
        invariant
            i <= cs@.len(),
            from_source ==> cable_from(cs@, dev@, port@, 0) == cable_from(cs@, dev@, port@, i as int),
            !from_source ==> cable_to(cs@, dev@, port@, 0) == cable_to(cs@, dev@, port@, i as int),
        decreases cs.len() - i,
    {
        let c = &cs[i];
        let hit = if from_source {
            same_text(&c.source_device_id, dev) && same_text(&c.source_port_id, port)
        } else {
            same_text(&c.target_device_id, dev) && same_text(&c.target_port_id, port)
        };
        if hit {
            return Some(i);
        }
        i = i + 1;
    }
    None
}

fn device_owns(d: &NetworkDevice, ip: &String) -> (r: bool)
    ensures
        r == owns_address(*d, ip@),
{
    let mut k: usize = 0;
    while k < d.ports.len()
        invariant
            k <= d.ports@.len(),
            forall|j: int| 0 <= j < k ==> crate::network::port_ip(d.ports@[j]) != Some(ip@),
        decreases d.ports.len() - k,
    {
        match &d.ports[k].config.ip_address {
            Some(a) => {
                if same_text(a, ip) {
                    assert(crate::network::port_ip(d.ports@[k as int]) == Some(ip@));
                    return true;
                }
            },
            None => {},
        }
        k = k + 1;
    }
    false
}

fn port_reaches_exec(st: &NetworkState, dev: &String, p: &NetworkPort, ip: &String) -> (r: bool)
    ensures
        r == port_reaches(*st, dev@, *p, ip@),
{
    let far = match first_cable(&st.cables, dev, &p.id, true) {
        Some(i) => &st.cables[i].target_device_id,
        None => match first_cable(&st.cables, dev, &p.id, false) {
            Some(i) => &st.cables[i].source_device_id,
            None => return false,
        },
    };
    match device_index(&st.devices, far.as_str()) {
        Some(i) => device_owns(&st.devices[i], ip),
        None => false,
    }
}

impl SimulationEngine {
    /// Delivers `packet` from device `src_dev_id` across one cable: the reply when a device
    /// cabled to one of its ports owns the destination address, else `None`.
    pub fn process_packet_immediate(&mut self, state: &NetworkState, src_dev_id: &str, packet: Packet) -> (r:
        Option<Packet>)
        ensures
            *final(self) == *old(self),
            match r {
                Some(reply) => reachable(*state, src_dev_id@, packet.dst_ip@) && is_reply_to(reply, packet),
                None => !reachable(*state, src_dev_id@, packet.dst_ip@),
            },
    {
        let src = match device_index(&state.devices, src_dev_id) {
            Some(i) => i,
            None => return None,
        };
        let dev = String::from_str(src_dev_id);
        let d = &state.devices[src];
        let mut k: usize = 0;
        while k < d.ports.len()
            invariant
                k <= d.ports@.len(),
                *d == state.devices@[src as int],
                find_device(state.devices@, src_dev_id@) == Some(src as int),
                dev@ == src_dev_id@,
                forall|j: int| 0 <= j < k ==> !port_reaches(*state, src_dev_id@, d.ports@[j], packet.dst_ip@),
            decreases d.ports.len() - k,
        {
            if port_reaches_exec(state, &dev, &d.ports[k], &packet.dst_ip) {
                let Packet { src_mac, dst_mac, vlan_id, src_ip, dst_ip, ttl, protocol, payload } = packet;
                return Some(Packet { src_mac, dst_mac, vlan_id, src_ip: dst_ip, dst_ip: src_ip, ttl, protocol, payload });
            }
            k = k + 1;
        }
        None
    }
}

} // verus!
