//! Host commands: ping, traceroute, address setup and host displays.

use vstd::prelude::*;
use crate::addr::{cidr_to_mask, is_valid_ipv4, mask_text, valid_ipv4};
use crate::cli::{fail, fail_lit, ok, ok_lit, opt_reply, CommandResult, Reply};
use crate::interface::{mask_of, parse_mask, prefix_or_24, same_but_port, with_address};
use crate::network::{NetworkDevice, NetworkPort, PortMode};
use crate::packet::Packet;
use crate::simulation::{far_device, port_reaches, reachable, SimulationEngine};
use crate::state::{
    device_from, find_device, ids_unique, lemma_device_from_found, lemma_find_unique,
    NetworkState,
};
use crate::text::{
    append_chars, append_str, chars_of, dec, has_prefix, is_lit, push_dec, split_ws,
    starts_with, string_of, views, words,
};

verus! {

/// The answer to `ip dhcp`.
pub const DHCP_LEASE: &'static str = "DHCP request sent...\nReceived IP: 192.168.1.100/24\nGateway: 192.168.1.1\nDNS: 8.8.8.8";

/// The ARP table display.
pub const ARP_TABLE: &'static str = "Address Resolution Protocol\n\
     \n\
     Interface: eth0 (192.168.1.100)\n\
     Internet Address      Physical Address       Type\n\
     192.168.1.1           00-50-56-c0-00-08      dynamic\n\
     192.168.1.254         00-50-56-c0-00-01      dynamic\n\
     224.0.0.22            01-00-5e-00-00-16      static";

/// The connection table display.
pub const NETSTAT: &'static str = "Active Connections\n\n\
     Proto  Local Address          Foreign Address        State\n\
     TCP    0.0.0.0:22             0.0.0.0:0              LISTENING\n\
     TCP    0.0.0.0:80             0.0.0.0:0              LISTENING\n\
     TCP    127.0.0.1:8080         127.0.0.1:49152        ESTABLISHED";

/// The first address configured on a port at or after `j`.
pub open spec fn first_address_from(ps: Seq<NetworkPort>, j: int) -> Option<Seq<char>>
    decreases ps.len() - j,
{
    if j < 0 || j >= ps.len() {
        None
    } else if ps[j].config.ip_address is Some {
        crate::network::port_ip(ps[j])
    } else {
        first_address_from(ps, j + 1)
    }
}

/// The lines of probes `1..=n`: a reply with its simulated round trip `1 + seq % 3`, or a timeout.
pub open spec fn probe_lines(t: Seq<char>, replied: bool, n: nat) -> Seq<char>
    decreases n,
{
    if n == 0 {
        seq![]
    } else {
        probe_lines(t, replied, (n - 1) as nat) + if replied {
            "\n64 bytes from "@ + t + ": icmp_seq="@ + dec(n) + " ttl="@ + dec(64) + " time="@ + dec(1 + n % 3) + "ms"@
        } else {
            "\nRequest timeout for icmp_seq="@ + dec(n)
        }
    }
}

/// The output of pinging `t` from device `d`: without an address on any port, 100% loss
/// without sending; otherwise four probes that all succeed when `t` is one cable away.
pub open spec fn ping_text(st: NetworkState, d: NetworkDevice, t: Seq<char>) -> Seq<char> {
    let head = "PING "@ + t + " ("@ + t + ") 56 bytes of data."@;
    match first_address_from(d.ports@, 0) {
        None => head + "\nFrom "@ + d.hostname@ + ": Network is unreachable (no IP configured)\n\n--- "@ + t
            + " ping statistics ---\n4 packets transmitted, 0 received, 100% packet loss"@,
        Some(_) => {
            let replied = reachable(st, d.id@, t);
            head + probe_lines(t, replied, 4) + "\n\n--- "@ + t + " ping statistics ---\n4 packets transmitted, "@
                + dec(if replied { 4 } else { 0 }) + " received, "@ + dec(if replied { 0 } else { 100 })
                + "% packet loss"@
        },
    }
}

pub open spec fn traceroute_text(t: Seq<char>) -> Seq<char> {
    "traceroute to "@ + t + " ("@ + t
        + "), 30 hops max, 60 byte packets\n 1  gateway (192.168.1.1)  1.234 ms  1.123 ms  1.456 ms\n 2  10.0.0.1  5.234 ms  5.123 ms  5.456 ms\n 3  * * *\n 4  "@
        + t + " ("@ + t + ")  10.234 ms  10.123 ms  10.456 ms"@
}

pub open spec fn ipconfig_block(p: NetworkPort) -> Seq<char> {
    "\nInterface: "@ + p.name@ + match p.config.ip_address {
        Some(ip) => "\n   IPv4 Address: "@ + ip@ + "\n   Subnet Mask:  "@ + mask_text(prefix_or_24(p.config.subnet_mask)),
        None => "\n   IPv4 Address: (not configured)"@,
    } + seq!['\n']
}

pub open spec fn ipconfig_blocks(ps: Seq<NetworkPort>) -> Seq<char>
    decreases ps.len(),
{
    if ps.len() == 0 { seq![] } else { ipconfig_blocks(ps.drop_last()) + ipconfig_block(ps.last()) }
}

pub open spec fn ipconfig_text(d: NetworkDevice) -> Seq<char> {
    "Host: "@ + d.hostname@ + seq!['\n'] + ipconfig_blocks(d.ports@)
}

pub open spec fn adapter_block(p: NetworkPort) -> Seq<char> {
    "\nEthernet adapter "@ + p.name@
        + ":\n\n   Connection-specific DNS Suffix: netsim.local\n   Description: NetSim Virtual NIC\n   Physical Address: 00-50-56-C0-00-01\n   DHCP Enabled: "@
        + (if p.config.mode == PortMode::Routed { "No"@ } else { "Yes"@ }) + match p.config.ip_address {
        Some(ip) => "\n   IPv4 Address: "@ + ip@ + "\n   Subnet Mask: "@ + mask_text(prefix_or_24(p.config.subnet_mask))
            + "\n   Default Gateway: 192.168.1.1"@,
        None => "\n   Media State: Media disconnected"@,
    } + seq!['\n']
}

pub open spec fn adapter_blocks(ps: Seq<NetworkPort>) -> Seq<char>
    decreases ps.len(),
{
    if ps.len() == 0 { seq![] } else { adapter_blocks(ps.drop_last()) + adapter_block(ps.last()) }
}

pub open spec fn ipconfig_all_text(d: NetworkDevice) -> Seq<char> {
    "Host Name: "@ + d.hostname@ + "\nPrimary DNS Suffix: netsim.local\nNode Type: Hybrid\nIP Routing Enabled: Yes\n"@
        + adapter_blocks(d.ports@)
}

/// A host address command `ip <address> <mask> <gateway>` (not `ip route`, not `ip address`).
pub open spec fn is_host_ip(c: Seq<char>) -> bool {
    starts_with(c, "ip "@) && !starts_with(c, "ip route"@) && !starts_with(c, "ip address"@)
}

/// The reply of the host handler for device `i` of `st`; `None` where the command is not a host command.
pub open spec fn pc_reply(st: NetworkState, i: int, c: Seq<char>) -> Option<Reply> {
    let d = st.devices@[i];
    let ws = words(c);
    if starts_with(c, "ping "@) {
        if ws.len() < 2 {
            Some(fail("Usage: ping <ip-address>"@))
        } else if !valid_ipv4(ws[1]) {
            Some(fail("Error: Invalid IP address '"@ + ws[1] + "'"@))
        } else {
            Some(ok(ping_text(st, d, ws[1])))
        }
    } else if starts_with(c, "traceroute "@) || starts_with(c, "tracert "@) {
        if ws.len() < 2 {
            Some(fail("Usage: traceroute <ip-address>"@))
        } else if !valid_ipv4(ws[1]) {
            Some(fail("Error: Invalid IP address '"@ + ws[1] + "'"@))
        } else {
            Some(ok(traceroute_text(ws[1])))
        }
    } else if is_host_ip(c) && ws.len() >= 4 {
        if !valid_ipv4(ws[1]) || !valid_ipv4(ws[3]) {
            Some(fail("Error: Invalid IP address format"@))
        } else {
            Some(ok("IP configuration set:\n  Address: "@ + ws[1] + "\n  Mask: "@ + ws[2] + "\n  Gateway: "@ + ws[3]))
        }
    } else if is_host_ip(c) && ws.len() == 2 && ws[1] == "dhcp"@ {
        Some(ok(DHCP_LEASE@))
    } else if c == "ipconfig"@ || c == "ifconfig"@ || c == "ip a"@ || c == "ip addr"@ {
        Some(ok(ipconfig_text(d)))
    } else if c == "ipconfig /all"@ || c == "ifconfig -a"@ {
        Some(ok(ipconfig_all_text(d)))
    } else if c == "arp -a"@ || c == "display arp"@ || c == "show arp"@ {
        Some(ok(ARP_TABLE@))
    } else if starts_with(c, "nslookup "@) && ws.len() >= 2 {
        Some(ok("Server:  dns.netsim.local\nAddress: 8.8.8.8\n\nNon-authoritative answer:\nName:    "@ + ws[1]
            + "\nAddress: 93.184.216.34 (simulated)"@))
    } else if c == "netstat"@ || c == "netstat -an"@ {
        Some(ok(NETSTAT@))
    } else {
        None
    }
}

/// How the host handler changes the store: an accepted `ip <address> <mask> <gateway>` sets
/// the address of the device's first port; nothing else changes anything.
pub open spec fn pc_after(st: NetworkState, st2: NetworkState, i: int, c: Seq<char>) -> bool {
    let ws = words(c);
    let d = st.devices@[i];
    st2.cables == st.cables && if !starts_with(c, "ping "@) && !(starts_with(c, "traceroute "@) || starts_with(
        c,
        "tracert "@,
    )) && is_host_ip(c) && ws.len() >= 4 && valid_ipv4(ws[1]) && valid_ipv4(ws[3]) && d.ports@.len() > 0 {
        st2.devices@.len() == st.devices@.len() && (forall|k: int| 0 <= k < st.devices@.len() && k != i ==> st2.devices@[k] == st.devices@[k])
            && same_but_port(d, st2.devices@[i], 0) && with_address(d.ports@[0], st2.devices@[i].ports@[0], Some(ws[1]), Some(mask_of(ws[2]) as u8))
    } else {
        st2.devices@ == st.devices@
    }
}

/// The host handler's reply and effect depend on the store only through its device and
/// cable sequences.
pub proof fn lemma_pc_views(a: NetworkState, b: NetworkState, i: int, c: Seq<char>)
    requires
        a.devices@ == b.devices@,
        a.cables@ == b.cables@,
        a.cables == b.cables,
        0 <= i < a.devices@.len(),
    ensures
        pc_reply(a, i, c) == pc_reply(b, i, c),
        forall|st2: NetworkState| pc_after(a, st2, i, c) == pc_after(b, st2, i, c),
{
    assert forall|dev: Seq<char>, ip: Seq<char>| reachable(a, dev, ip) == reachable(b, dev, ip) by {
        assert forall|p: NetworkPort| crate::simulation::port_reaches(a, dev, p, ip)
            == crate::simulation::port_reaches(b, dev, p, ip) by {}
    }
    let ws = words(c);
    if ws.len() >= 2 {
        assert(ping_text(a, a.devices@[i], ws[1]) == ping_text(b, b.devices@[i], ws[1]));
    }
}

proof fn lemma_device_from_same_ids(a: Seq<NetworkDevice>, b: Seq<NetworkDevice>, id: Seq<char>, j: int)
    requires
        a.len() == b.len(),
        forall|k: int| 0 <= k < a.len() ==> a[k].id@ == b[k].id@,
    ensures
        device_from(a, id, j) == device_from(b, id, j),
    decreases a.len() - j,
{
    if 0 <= j < a.len() {
        lemma_device_from_same_ids(a, b, id, j + 1);
    }
}

proof fn lemma_first_address_set(ps: Seq<NetworkPort>)
    requires
        ps.len() > 0,
        ps[0].config.ip_address is Some,
    ensures
        first_address_from(ps, 0) is Some,
{
}

/// Addressing a host makes its pings work: a device with no address reports 100% loss
/// without probing; once `ip <address> <mask> <gateway>` has given its first port an address,
/// pinging an address owned by a device cabled to one of its ports gets all four replies.
pub proof fn lemma_ping_after_addressing(st: NetworkState, st2: NetworkState, i: int, c: Seq<char>, t: Seq<char>, k: int)
    requires
        0 <= i < st.devices@.len(),
        ids_unique(st.devices@),
        is_host_ip(c),
        words(c).len() >= 4,
        valid_ipv4(words(c)[1]),
        valid_ipv4(words(c)[3]),
        st.devices@[i].ports@.len() > 0,
        pc_after(st, st2, i, c),
        first_address_from(st.devices@[i].ports@, 0) is None,
        0 <= k < st.devices@[i].ports@.len(),
        port_reaches(st, st.devices@[i].id@, st.devices@[i].ports@[k], t),
        far_device(st.cables@, st.devices@[i].id@, st.devices@[i].ports@[k]) matches Some(f)
            && find_device(st.devices@, f) != Some(i),
    ensures
        ping_text(st, st.devices@[i], t) == "PING "@ + t + " ("@ + t + ") 56 bytes of data."@ + "\nFrom "@
            + st.devices@[i].hostname@ + ": Network is unreachable (no IP configured)\n\n--- "@ + t
            + " ping statistics ---\n4 packets transmitted, 0 received, 100% packet loss"@,
        ping_text(st2, st2.devices@[i], t) == "PING "@ + t + " ("@ + t + ") 56 bytes of data."@ + probe_lines(t, true, 4)
            + "\n\n--- "@ + t + " ping statistics ---\n4 packets transmitted, "@ + dec(4) + " received, "@
            + dec(0) + "% packet loss"@,
{
    reveal_strlit("ip ");
    reveal_strlit("ping ");
    reveal_strlit("traceroute ");
    reveal_strlit("tracert ");
    assert(c.take(3)[1] == c[1]);
    assert(c[1] == 'p');
    if c.len() >= 5 {
        assert(c.take(5)[1] == c[1]);
    }
    if c.len() >= 8 {
        assert(c.take(8)[1] == c[1]);
    }
    if c.len() >= 11 {
        assert(c.take(11)[1] == c[1]);
    }
    let d = st.devices@[i];
    let e = st2.devices@[i];
    lemma_first_address_set(e.ports@);
    lemma_device_from_same_ids(st.devices@, st2.devices@, d.id@, 0);
    let f = far_device(st.cables@, d.id@, d.ports@[k])->Some_0;
    lemma_device_from_same_ids(st.devices@, st2.devices@, f, 0);
    assert(e.ports@[k].id == d.ports@[k].id);
    assert(far_device(st2.cables@, e.id@, e.ports@[k]) == Some(f));
    lemma_device_from_found(st.devices@, f, 0);
    let j = find_device(st.devices@, f)->Some_0;
    assert(st2.devices@[j] == st.devices@[j]);
    lemma_find_unique(st.devices@, i);
    assert(port_reaches(st2, e.id@, e.ports@[k], t));
    assert(reachable(st2, e.id@, t));
}

fn first_address(ps: &Vec<NetworkPort>) -> (r: Option<String>)
    ensures
        match r {
            Some(s) => first_address_from(ps@, 0) == Some(s@),
            None => first_address_from(ps@, 0) is None,
        },
{
    let mut k: usize = 0;
    while k < ps.len()
        invariant
            k <= ps@.len(),
            first_address_from(ps@, 0) == first_address_from(ps@, k as int),
        decreases ps.len() - k,
    {
        match &ps[k].config.ip_address {
            Some(a) => {
                return Some(String::from_str(a.as_str()));
            },
            None => {},
        }
        k = k + 1;
    }
    None
}

/// The output of pinging `target_ip` from device `i` of `state`.
pub fn generate_ping_output(state: &NetworkState, i: usize, target_ip: &Vec<char>) -> (r: String)
    requires
        i < state.devices@.len(),
    ensures
        r@ == ping_text(*state, state.devices@[i as int], target_ip@),
{
    let device = &state.devices[i];
    let t = string_of(target_ip);
    let mut out = String::from_str("PING ");
    append_str(&mut out, t.as_str());
    append_str(&mut out, " (");
    append_str(&mut out, t.as_str());
    append_str(&mut out, ") 56 bytes of data.");
    let src = match first_address(&device.ports) {
        None => {
            append_str(&mut out, "\nFrom ");
            append_str(&mut out, device.hostname.as_str());
            append_str(&mut out, ": Network is unreachable (no IP configured)\n\n--- ");
            append_str(&mut out, t.as_str());
            append_str(&mut out, " ping statistics ---\n4 packets transmitted, 0 received, 100% packet loss");
            return out;
        },
        Some(s) => s,
    };
    let ghost head = out@;
    let ghost replied = reachable(*state, device.id@, t@);
    let mut engine = SimulationEngine::new();
    let mut received: u64 = 0;
    let mut seq: u16 = 1;
    while seq <= 4
        invariant
            1 <= seq <= 5,
            out@ == head + probe_lines(t@, replied, (seq - 1) as nat),
            received == if replied { (seq - 1) as u64 } else { 0 },
            replied == reachable(*state, device.id@, t@),
            *device == state.devices@[i as int],
        decreases 5 - seq,
    {
        let packet = Packet::new_icmp_echo(
            "00:00:00:00:00:01",
            "FF:FF:FF:FF:FF:FF",
            src.as_str(),
            t.as_str(),
            seq,
        );
        match engine.process_packet_immediate(state, device.id.as_str(), packet) {
            Some(reply) => {
                received = received + 1;
                let rtt: u64 = 1 + (seq as u64 % 3);
                append_str(&mut out, "\n64 bytes from ");
                append_str(&mut out, reply.src_ip.as_str());
                append_str(&mut out, ": icmp_seq=");
                push_dec(&mut out, seq as u64);
                append_str(&mut out, " ttl=");
                push_dec(&mut out, reply.ttl as u64);
                append_str(&mut out, " time=");
                push_dec(&mut out, rtt);
                append_str(&mut out, "ms");
            },
            None => {
                append_str(&mut out, "\nRequest timeout for icmp_seq=");
                push_dec(&mut out, seq as u64);
            },
        }
        seq = seq + 1;
        assert(out@ =~= head + probe_lines(t@, replied, (seq - 1) as nat));
    }
    append_str(&mut out, "\n\n--- ");
    append_str(&mut out, t.as_str());
    append_str(&mut out, " ping statistics ---\n4 packets transmitted, ");
    push_dec(&mut out, received);
    append_str(&mut out, " received, ");
    let loss: u64 = if received == 4 { 0 } else { (4 - received) * 25 };
    push_dec(&mut out, loss);
    append_str(&mut out, "% packet loss");
    assert(out@ =~= ping_text(*state, state.devices@[i as int], target_ip@));
    out
}

/// The traceroute output for `target`.
pub fn generate_traceroute_output(target: &Vec<char>) -> (r: String)
    ensures
        r@ == traceroute_text(target@),
{
    let mut out = String::from_str("traceroute to ");
    append_chars(&mut out, target);
    append_str(&mut out, " (");
    append_chars(&mut out, target);
    append_str(
        &mut out,
        "), 30 hops max, 60 byte packets\n 1  gateway (192.168.1.1)  1.234 ms  1.123 ms  1.456 ms\n 2  10.0.0.1  5.234 ms  5.123 ms  5.456 ms\n 3  * * *\n 4  ",
    );
    append_chars(&mut out, target);
    append_str(&mut out, " (");
    append_chars(&mut out, target);
    append_str(&mut out, ")  10.234 ms  10.123 ms  10.456 ms");
    out
}

fn push_ipconfig_block(out: &mut String, p: &NetworkPort)
    ensures
        final(out)@ == old(out)@ + ipconfig_block(*p),
{
    append_str(out, "\nInterface: ");
    append_str(out, p.name.as_str());
    match &p.config.ip_address {
        Some(ip) => {
            let m: u8 = match p.config.subnet_mask {
                Some(m) => m,
                None => 24,
            };
            append_str(out, "\n   IPv4 Address: ");
            append_str(out, ip.as_str());
            append_str(out, "\n   Subnet Mask:  ");
            let mt = cidr_to_mask(m);
            append_str(out, mt.as_str());
        },
        None => {
            append_str(out, "\n   IPv4 Address: (not configured)");
        },
    }
    append_str(out, "\n");
    proof { reveal_strlit("\n"); }
    assert(final(out)@ =~= old(out)@ + ipconfig_block(*p));
}

/// The host address summary of a device.
pub fn generate_ipconfig_output(device: &NetworkDevice) -> (r: String)
    ensures
        r@ == ipconfig_text(*device),
{
    let mut out = String::from_str("Host: ");
    append_str(&mut out, device.hostname.as_str());
    append_str(&mut out, "\n");
    proof { reveal_strlit("\n"); }
    let ghost head = out@;
    let mut k: usize = 0;
    while k < device.ports.len()
        invariant
            k <= device.ports@.len(),
            out@ == head + ipconfig_blocks(device.ports@.take(k as int)),
        decreases device.ports.len() - k,
    {
        assert(device.ports@.take(k + 1).drop_last() =~= device.ports@.take(k as int));
        push_ipconfig_block(&mut out, &device.ports[k]);
        k = k + 1;
        assert(out@ =~= head + ipconfig_blocks(device.ports@.take(k as int)));
    }
    assert(device.ports@.take(k as int) =~= device.ports@);
    out
}

fn push_adapter_block(out: &mut String, p: &NetworkPort)
    ensures
        final(out)@ == old(out)@ + adapter_block(*p),
{
    append_str(out, "\nEthernet adapter ");
    append_str(out, p.name.as_str());
    append_str(
        out,
        ":\n\n   Connection-specific DNS Suffix: netsim.local\n   Description: NetSim Virtual NIC\n   Physical Address: 00-50-56-C0-00-01\n   DHCP Enabled: ",
    );
    append_str(out, if p.config.mode == PortMode::Routed { "No" } else { "Yes" });
    match &p.config.ip_address {
        Some(ip) => {
            let m: u8 = match p.config.subnet_mask {
                Some(m) => m,
                None => 24,
            };
            append_str(out, "\n   IPv4 Address: ");
            append_str(out, ip.as_str());
            append_str(out, "\n   Subnet Mask: ");
            let mt = cidr_to_mask(m);
            append_str(out, mt.as_str());
            append_str(out, "\n   Default Gateway: 192.168.1.1");
        },
        None => {
            append_str(out, "\n   Media State: Media disconnected");
        },
    }
    append_str(out, "\n");
    proof { reveal_strlit("\n"); }
    assert(final(out)@ =~= old(out)@ + adapter_block(*p));
}

/// The detailed host address listing of a device.
pub fn generate_ipconfig_detailed(device: &NetworkDevice) -> (r: String)
    ensures
        r@ == ipconfig_all_text(*device),
{
    let mut out = String::from_str("Host Name: ");
    append_str(&mut out, device.hostname.as_str());
    append_str(&mut out, "\nPrimary DNS Suffix: netsim.local\nNode Type: Hybrid\nIP Routing Enabled: Yes\n");
    let ghost head = out@;
    let mut k: usize = 0;
    while k < device.ports.len()
        invariant
            k <= device.ports@.len(),
            out@ == head + adapter_blocks(device.ports@.take(k as int)),
        decreases device.ports.len() - k,
    {
        assert(device.ports@.take(k + 1).drop_last() =~= device.ports@.take(k as int));
        push_adapter_block(&mut out, &device.ports[k]);
        k = k + 1;
        assert(out@ =~= head + adapter_blocks(device.ports@.take(k as int)));
    }
    assert(device.ports@.take(k as int) =~= device.ports@);
    out
}

fn word_msg(a: &str, w: &Vec<char>, b: &str) -> (r: String)
    ensures
        r@ == a@ + w@ + b@,
{
    let mut out = String::from_str(a);
    append_chars(&mut out, w);
    append_str(&mut out, b);
    out
}

/// Handles host commands for device `device_index` of `state`; `None` where the command is
/// not a host command. Ping reads the rest of the topology to find the cabled neighbours.
pub fn handle_pc_commands(state: &mut NetworkState, device_index: usize, cmd: &str) -> (r: Option<CommandResult>)
    requires
        device_index < old(state).devices@.len(),
    ensures
        opt_reply(r) == pc_reply(*old(state), device_index as int, cmd@),
        pc_after(*old(state), *final(state), device_index as int, cmd@),
{
    let i = device_index;
    let c = chars_of(cmd);
    let ws = split_ws(&c);
    let n = ws.len();
    if has_prefix(&c, "ping ") {
        if n < 2 {
            return Some(fail_lit("Usage: ping <ip-address>"));
        }
        assert(views(ws@)[1] == ws@[1]@);
        if !is_valid_ipv4(&ws[1]) {
            return Some(CommandResult::error(word_msg("Error: Invalid IP address '", &ws[1], "'")));
        }
        return Some(CommandResult::success(generate_ping_output(state, i, &ws[1])));
    }
    if has_prefix(&c, "traceroute ") || has_prefix(&c, "tracert ") {
        if n < 2 {
            return Some(fail_lit("Usage: traceroute <ip-address>"));
        }
        assert(views(ws@)[1] == ws@[1]@);
        if !is_valid_ipv4(&ws[1]) {
            return Some(CommandResult::error(word_msg("Error: Invalid IP address '", &ws[1], "'")));
        }
        return Some(CommandResult::success(generate_traceroute_output(&ws[1])));
    }
    let host_ip = has_prefix(&c, "ip ") && !has_prefix(&c, "ip route") && !has_prefix(&c, "ip address");
    if host_ip && n >= 4 {
        assert(views(ws@)[1] == ws@[1]@ && views(ws@)[2] == ws@[2]@ && views(ws@)[3] == ws@[3]@);
        if !is_valid_ipv4(&ws[1]) || !is_valid_ipv4(&ws[3]) {
            return Some(fail_lit("Error: Invalid IP address format"));
        }
        if state.devices[i].ports.len() > 0 {
            let cidr = parse_mask(&ws[2]);
            state.devices[i].ports[0].config.ip_address = Some(string_of(&ws[1]));
            state.devices[i].ports[0].config.subnet_mask = Some(cidr);
        }
        let mut out = word_msg("IP configuration set:\n  Address: ", &ws[1], "\n  Mask: ");
        append_chars(&mut out, &ws[2]);
        append_str(&mut out, "\n  Gateway: ");
        append_chars(&mut out, &ws[3]);
        return Some(CommandResult::success(out));
    }
    if host_ip && n == 2 {
        assert(views(ws@)[1] == ws@[1]@);
        if is_lit(&ws[1], "dhcp") {
            return Some(ok_lit(DHCP_LEASE));
        }
    }
    if is_lit(&c, "ipconfig") || is_lit(&c, "ifconfig") || is_lit(&c, "ip a") || is_lit(&c, "ip addr") {
        return Some(CommandResult::success(generate_ipconfig_output(&state.devices[i])));
    }
    if is_lit(&c, "ipconfig /all") || is_lit(&c, "ifconfig -a") {
        return Some(CommandResult::success(generate_ipconfig_detailed(&state.devices[i])));
    }
    if is_lit(&c, "arp -a") || is_lit(&c, "display arp") || is_lit(&c, "show arp") {
        return Some(CommandResult::success(generate_arp_table()));
    }
    if has_prefix(&c, "nslookup ") && n >= 2 {
        assert(views(ws@)[1] == ws@[1]@);
        return Some(
            CommandResult::success(
                word_msg(
                    "Server:  dns.netsim.local\nAddress: 8.8.8.8\n\nNon-authoritative answer:\nName:    ",
                    &ws[1],
                    "\nAddress: 93.184.216.34 (simulated)",
                ),
            ),
        );
    }
    if is_lit(&c, "netstat") || is_lit(&c, "netstat -an") {
        return Some(ok_lit(NETSTAT));
    }
    None
}

/// The ARP table display.
pub fn generate_arp_table() -> (r: String)
    ensures
        r@ == ARP_TABLE@,
{
    String::from_str(ARP_TABLE)
}

} // verus!
