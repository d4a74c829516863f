//! Static routes, OSPF and BGP switches, and routing displays.

use vstd::prelude::*;
use crate::addr::{calculate_network, is_valid_ipv4, network_text, valid_ipv4};
use crate::cli::{fail, fail_lit, ok, ok_lit, opt_reply, CliView, CommandResult, Reply};
use crate::interface::{last_word_exec, mask_of, parse_mask, prefix_or_24};
use crate::network::{NetworkDevice, NetworkPort};
use crate::text::{
    append_chars, append_str, chars_of, contains, dec, has_prefix, has_sub, is_lit, pad,
    push_dec, push_padded, push_padded_str, push_repeat, repeat, split_ws, starts_with, views,
    words,
};
use crate::vlan::{last_word, NEED_SYSTEM_VIEW};

verus! {

/// A row of the routing table.
pub open spec fn route_row(a: Seq<char>, b: Seq<char>, c: Seq<char>, d: Seq<char>, e: Seq<char>, f: Seq<char>) -> Seq<char> {
    pad(a, 20) + seq![' '] + pad(b, 8) + seq![' '] + pad(c, 6) + seq![' '] + pad(d, 6) + seq![' '] + pad(e, 16)
        + seq![' '] + pad(f, 15)
}

/// The direct route of a port with an address, preceded by a line break; nothing otherwise.
pub open spec fn route_line(p: NetworkPort) -> Seq<char> {
    match p.config.ip_address {
        Some(ip) => seq!['\n'] + route_row(
            network_text(ip@, prefix_or_24(p.config.subnet_mask)) + seq!['/'] + dec(prefix_or_24(p.config.subnet_mask)),
            "Direct"@,
            "0"@,
            "0"@,
            "127.0.0.1"@,
            p.name@,
        ),
        None => seq![],
    }
}

pub open spec fn route_lines(ps: Seq<NetworkPort>) -> Seq<char>
    decreases ps.len(),
{
    if ps.len() == 0 {
        seq![]
    } else {
        route_lines(ps.drop_last()) + route_line(ps.last())
    }
}

/// The routing table: one direct route per addressed port.
pub open spec fn routing_table(d: NetworkDevice) -> Seq<char> {
    "Routing Table: Main\nDevice: "@ + d.hostname@ + "\n\n"@ + route_row(
        "Destination/Mask"@,
        "Proto"@,
        "Pre"@,
        "Cost"@,
        "NextHop"@,
        "Interface"@,
    ) + seq!['\n'] + repeat('-', 75) + route_lines(d.ports@)
        + "\n\n(Additional routes would appear here in full implementation)"@
}

pub open spec fn ospf_neighbors(d: NetworkDevice) -> Seq<char> {
    if d.ospf_enabled != Some(true) {
        "OSPF is not enabled on this device."@
    } else {
        "OSPF Neighbor Information\n\n(No OSPF neighbors discovered - connect routers to establish adjacencies)"@
    }
}

pub open spec fn bgp_summary(d: NetworkDevice) -> Seq<char> {
    if d.bgp_enabled != Some(true) {
        "BGP is not enabled on this device."@
    } else {
        "BGP Summary\nRouter ID: "@ + d.hostname@ + " (simulated)\nLocal AS: 65000 (simulated)\n\n(No BGP peers configured)"@
    }
}

/// The first position at or after `j` of a word naming the peer's AS.
pub open spec fn as_word_from(ws: Seq<Seq<char>>, j: int) -> Option<int>
    decreases ws.len() - j,
{
    if j < 0 || j >= ws.len() {
        None
    } else if ws[j] == "as-number"@ || ws[j] == "remote-as"@ {
        Some(j)
    } else {
        as_word_from(ws, j + 1)
    }
}

pub open spec fn is_static_add(c: Seq<char>) -> bool {
    starts_with(c, "ip route-static "@) || starts_with(c, "ip route "@)
}

pub open spec fn is_static_del(c: Seq<char>) -> bool {
    starts_with(c, "undo ip route-static "@) || starts_with(c, "no ip route "@)
}

pub open spec fn is_ospf_on(c: Seq<char>) -> bool {
    starts_with(c, "ospf "@) || starts_with(c, "router ospf "@)
}

pub open spec fn is_ospf_off(c: Seq<char>) -> bool {
    c == "undo ospf"@ || c == "no router ospf"@
}

pub open spec fn is_bgp_on(c: Seq<char>) -> bool {
    starts_with(c, "bgp "@) || starts_with(c, "router bgp "@)
}

pub open spec fn is_bgp_off(c: Seq<char>) -> bool {
    c == "undo bgp"@ || starts_with(c, "no router bgp"@)
}

/// The display commands of the routing handler, which any view may issue.
pub open spec fn routing_display(d: NetworkDevice, c: Seq<char>) -> Option<Seq<char>> {
    if c == "display ip routing-table"@ || c == "show ip route"@ || c == "show ip route static"@ {
        Some(routing_table(d))
    } else if c == "display ospf neighbor"@ || c == "show ip ospf neighbor"@ {
        Some(ospf_neighbors(d))
    } else if c == "display ospf lsdb"@ || c == "show ip ospf database"@ {
        Some("OSPF Link State Database - Area 0\n\n(No entries - simulation mode)"@)
    } else if c == "display bgp peer"@ || c == "show ip bgp summary"@ || c == "show bgp summary"@ {
        Some(bgp_summary(d))
    } else if c == "display bgp routing-table"@ || c == "show ip bgp"@ {
        Some("BGP Routing Table\n\n(No routes - simulation mode)"@)
    } else {
        None
    }
}

/// The reply to a static route command in system view.
pub open spec fn static_add_reply(c: Seq<char>) -> Reply {
    let ws = words(c);
    if ws.len() < 5 {
        fail("Error: Incomplete command. Usage: ip route-static <dest> <mask> <next-hop>"@)
    } else if !valid_ipv4(ws[2]) {
        fail("Error: Invalid destination address '"@ + ws[2] + "'"@)
    } else if !valid_ipv4(ws[4]) {
        fail("Error: Invalid next-hop address '"@ + ws[4] + "'"@)
    } else {
        ok("Static route added: "@ + ws[2] + seq!['/'] + dec(mask_of(ws[3])) + " via "@ + ws[4])
    }
}

/// The reply of the routing handler; `None` where the command is not a routing command.
pub open spec fn routing_reply(d: NetworkDevice, c: Seq<char>, v: CliView) -> Option<Reply> {
    let ws = words(c);
    let sys = v == CliView::SystemView;
    if routing_display(d, c) is Some {
        Some(ok(routing_display(d, c)->Some_0))
    } else if is_static_add(c) {
        if !sys { Some(fail(NEED_SYSTEM_VIEW@)) } else { Some(static_add_reply(c)) }
    } else if is_static_del(c) {
        if !sys {
            Some(fail(NEED_SYSTEM_VIEW@))
        } else if ws.len() >= 4 {
            Some(ok("Static route to "@ + ws[3] + " removed"@))
        } else {
            Some(fail("Error: Incomplete command"@))
        }
    } else if is_ospf_on(c) {
        if !sys { Some(fail(NEED_SYSTEM_VIEW@)) } else { Some(ok("OSPF process "@ + last_word(c) + " enabled"@)) }
    } else if is_ospf_off(c) {
        if !sys { Some(fail(NEED_SYSTEM_VIEW@)) } else { Some(ok("OSPF disabled"@)) }
    } else if starts_with(c, "area "@) {
        if !sys {
            Some(fail(NEED_SYSTEM_VIEW@))
        } else if ws.len() >= 2 {
            Some(ok("Entered OSPF area "@ + ws[1] + " configuration"@))
        } else {
            None
        }
    } else if starts_with(c, "network "@) {
        if !sys {
            Some(fail(NEED_SYSTEM_VIEW@))
        } else if contains(c, "area"@) && ws.len() >= 5 {
            Some(ok("Network "@ + ws[1] + " added to OSPF area "@ + last_word(c)))
        } else if !contains(c, "area"@) && ws.len() >= 2 {
            Some(ok("Network "@ + ws[1] + " added to OSPF"@))
        } else {
            None
        }
    } else if is_bgp_on(c) {
        if !sys { Some(fail(NEED_SYSTEM_VIEW@)) } else { Some(ok("BGP AS "@ + last_word(c) + " enabled"@)) }
    } else if is_bgp_off(c) {
        if !sys { Some(fail(NEED_SYSTEM_VIEW@)) } else { Some(ok("BGP disabled"@)) }
    } else if starts_with(c, "peer "@) || starts_with(c, "neighbor "@) {
        if !sys {
            Some(fail(NEED_SYSTEM_VIEW@))
        } else if ws.len() >= 4 && as_word_from(ws, 0) is Some && ws.len() > as_word_from(ws, 0)->Some_0 + 1 {
            Some(ok("BGP peer "@ + ws[1] + " AS "@ + ws[as_word_from(ws, 0)->Some_0 + 1] + " configured"@))
        } else {
            Some(fail("Error: Incomplete peer command. Usage: peer <ip> as-number <as>"@))
        }
    } else {
        None
    }
}

/// The device is the same but for its OSPF and BGP switches.
pub open spec fn same_but_protocols(a: NetworkDevice, b: NetworkDevice) -> bool {
    a.id == b.id && a.device_type == b.device_type && a.vendor == b.vendor && a.hostname == b.hostname
        && a.model == b.model && a.ports == b.ports && a.vlans == b.vlans && a.dhcp_enabled == b.dhcp_enabled
}

/// How the routing handler changes the device: in system view, enabling or disabling OSPF or
/// BGP sets that switch; nothing else changes it.
pub open spec fn routing_after(d: NetworkDevice, e: NetworkDevice, c: Seq<char>, v: CliView) -> bool {
    let pre = routing_display(d, c) is None && !is_static_add(c) && !is_static_del(c)
        && v == CliView::SystemView;
    if pre && is_ospf_on(c) {
        same_but_protocols(d, e) && e.bgp_enabled == d.bgp_enabled && e.ospf_enabled == Some(true)
    } else if pre && !is_ospf_on(c) && is_ospf_off(c) {
        same_but_protocols(d, e) && e.bgp_enabled == d.bgp_enabled && e.ospf_enabled == Some(false)
    } else if pre && !is_ospf_on(c) && !is_ospf_off(c) && !starts_with(c, "area "@) && !starts_with(c, "network "@)
        && is_bgp_on(c) {
        same_but_protocols(d, e) && e.ospf_enabled == d.ospf_enabled && e.bgp_enabled == Some(true)
    } else if pre && !is_ospf_on(c) && !is_ospf_off(c) && !starts_with(c, "area "@) && !starts_with(c, "network "@)
        && !is_bgp_on(c) && is_bgp_off(c) {
        same_but_protocols(d, e) && e.ospf_enabled == d.ospf_enabled && e.bgp_enabled == Some(false)
    } else {
        e == d
    }
}

fn push_route_row(out: &mut String, a: &Vec<char>, b: &str, c: &str, d: &str, e: &str, f: &str)
    ensures
        final(out)@ == old(out)@ + route_row(a@, b@, c@, d@, e@, f@),
{
    push_padded(out, a, 20);
    append_str(out, " ");
    push_padded_str(out, b, 8);
    append_str(out, " ");
    push_padded_str(out, c, 6);
    append_str(out, " ");
    push_padded_str(out, d, 6);
    append_str(out, " ");
    push_padded_str(out, e, 16);
    append_str(out, " ");
    push_padded_str(out, f, 15);
    proof { reveal_strlit(" "); }
    assert(final(out)@ =~= old(out)@ + route_row(a@, b@, c@, d@, e@, f@));
}

fn push_route_line(out: &mut String, p: &NetworkPort)
    ensures
        final(out)@ == old(out)@ + route_line(*p),
{
    match &p.config.ip_address {
        Some(ip) => {
            let m: u8 = match p.config.subnet_mask {
                Some(m) => m,
                None => 24,
            };
            let net = calculate_network(&chars_of(ip.as_str()), m);
            let mut dest = String::from_str(net.as_str());
            append_str(&mut dest, "/");
            push_dec(&mut dest, m as u64);
            proof { reveal_strlit("/"); reveal_strlit("\n"); }
            append_str(out, "\n");
            push_route_row(out, &chars_of(dest.as_str()), "Direct", "0", "0", "127.0.0.1", p.name.as_str());
            assert(final(out)@ =~= old(out)@ + route_line(*p));
        },
        None => {
            assert(out@ =~= old(out)@ + route_line(*p));
        },
    }
}

/// The routing table of a device.
pub fn generate_routing_table(device: &NetworkDevice) -> (r: String)
    ensures
        r@ == routing_table(*device),
{
    let mut out = String::from_str("Routing Table: Main\nDevice: ");
    append_str(&mut out, device.hostname.as_str());
    append_str(&mut out, "\n\n");
    push_route_row(&mut out, &chars_of("Destination/Mask"), "Proto", "Pre", "Cost", "NextHop", "Interface");
    append_str(&mut out, "\n");
    push_repeat(&mut out, '-', 75);
    proof { reveal_strlit("\n"); }
    let ghost head = out@;
    let mut i: usize = 0;
    while i < device.ports.len()
        invariant
            i <= device.ports@.len(),
            out@ == head + route_lines(device.ports@.take(i as int)),
        decreases device.ports.len() - i,
    {
        assert(device.ports@.take(i + 1).drop_last() =~= device.ports@.take(i as int));
        push_route_line(&mut out, &device.ports[i]);
        i = i + 1;
        assert(out@ =~= head + route_lines(device.ports@.take(i as int)));
    }
    assert(device.ports@.take(i as int) =~= device.ports@);
    append_str(&mut out, "\n\n(Additional routes would appear here in full implementation)");
    assert(out@ =~= routing_table(*device));
    out
}

/// The OSPF neighbour table of a device.
pub fn generate_ospf_neighbor_table(device: &NetworkDevice) -> (r: String)
    ensures
        r@ == ospf_neighbors(*device),
{
    if device.ospf_enabled != Some(true) {
        return String::from_str("OSPF is not enabled on this device.");
    }
    String::from_str("OSPF Neighbor Information\n\n(No OSPF neighbors discovered - connect routers to establish adjacencies)")
}

/// The BGP summary of a device.
pub fn generate_bgp_summary(device: &NetworkDevice) -> (r: String)
    ensures
        r@ == bgp_summary(*device),
{
    if device.bgp_enabled != Some(true) {
        return String::from_str("BGP is not enabled on this device.");
    }
    let mut out = String::from_str("BGP Summary\nRouter ID: ");
    append_str(&mut out, device.hostname.as_str());
    append_str(&mut out, " (simulated)\nLocal AS: 65000 (simulated)\n\n(No BGP peers configured)");
    out
}

fn routing_display_exec(device: &NetworkDevice, c: &Vec<char>) -> (r: Option<String>)
    ensures
        match r {
            Some(s) => routing_display(*device, c@) == Some(s@),
            None => routing_display(*device, c@) is None,
        },
{
    if is_lit(c, "display ip routing-table") || is_lit(c, "show ip route") || is_lit(c, "show ip route static") {
        Some(generate_routing_table(device))
    } else if is_lit(c, "display ospf neighbor") || is_lit(c, "show ip ospf neighbor") {
        Some(generate_ospf_neighbor_table(device))
    } else if is_lit(c, "display ospf lsdb") || is_lit(c, "show ip ospf database") {
        Some(String::from_str("OSPF Link State Database - Area 0\n\n(No entries - simulation mode)"))
    } else if is_lit(c, "display bgp peer") || is_lit(c, "show ip bgp summary") || is_lit(c, "show bgp summary") {
        Some(generate_bgp_summary(device))
    } else if is_lit(c, "display bgp routing-table") || is_lit(c, "show ip bgp") {
        Some(String::from_str("BGP Routing Table\n\n(No routes - simulation mode)"))
    } else {
        None
    }
}

fn find_as_word(ws: &Vec<Vec<char>>) -> (r: Option<usize>)
    ensures
        match r {
            Some(i) => as_word_from(views(ws@), 0) == Some(i as int) && i < ws@.len(),
            None => as_word_from(views(ws@), 0) is None,
        },
{
    let mut i: usize = 0;
    while i < ws.len()
        invariant
            i <= ws@.len(),
            as_word_from(views(ws@), 0) == as_word_from(views(ws@), i as int),
        decreases ws.len() - i,
    {
        assert(views(ws@)[i as int] == ws@[i as int]@);
        if is_lit(&ws[i], "as-number") || is_lit(&ws[i], "remote-as") {
            return Some(i);
        }
        i = i + 1;
    }
    None
}

/// Appends `a`, then word `k` of `ws`, then `b`.
fn word_msg(a: &str, ws: &Vec<Vec<char>>, k: usize, b: &str) -> (r: String)
    requires
        k < ws@.len(),
    ensures
        r@ == a@ + views(ws@)[k as int] + b@,
{
    let mut out = String::from_str(a);
    append_chars(&mut out, &ws[k]);
    append_str(&mut out, b);
    out
}

/// Handles routing commands; `None` where the command is not one of them.
pub fn handle_routing_commands(device: &mut NetworkDevice, cmd: &str, current_view: &CliView) -> (r:
    Option<CommandResult>)
    ensures
        opt_reply(r) == routing_reply(*old(device), cmd@, *current_view),
        routing_after(*old(device), *final(device), cmd@, *current_view),
{
    let c = chars_of(cmd);
    let sys = *current_view == CliView::SystemView;
    let ws = split_ws(&c);
    match routing_display_exec(device, &c) {
        Some(s) => return Some(CommandResult::success(s)),
        None => {},
    }
    if has_prefix(&c, "ip route-static ") || has_prefix(&c, "ip route ") {
        if !sys {
            return Some(fail_lit(NEED_SYSTEM_VIEW));
        }
        if ws.len() < 5 {
            return Some(fail_lit("Error: Incomplete command. Usage: ip route-static <dest> <mask> <next-hop>"));
        }
        assert(views(ws@)[2] == ws@[2]@ && views(ws@)[3] == ws@[3]@ && views(ws@)[4] == ws@[4]@);
        if !is_valid_ipv4(&ws[2]) {
            return Some(CommandResult::error(word_msg("Error: Invalid destination address '", &ws, 2, "'")));
        }
        if !is_valid_ipv4(&ws[4]) {
            return Some(CommandResult::error(word_msg("Error: Invalid next-hop address '", &ws, 4, "'")));
        }
        let mask = parse_mask(&ws[3]);
        let mut out = String::from_str("Static route added: ");
        append_chars(&mut out, &ws[2]);
        append_str(&mut out, "/");
        push_dec(&mut out, mask as u64);
        append_str(&mut out, " via ");
        append_chars(&mut out, &ws[4]);
        proof { reveal_strlit("/"); }
        assert(out@ =~= "Static route added: "@ + views(ws@)[2] + seq!['/'] + dec(mask_of(views(ws@)[3])) + " via "@ + views(ws@)[4]);
        return Some(CommandResult::success(out));
    }
    if has_prefix(&c, "undo ip route-static ") || has_prefix(&c, "no ip route ") {
        if !sys {
            return Some(fail_lit(NEED_SYSTEM_VIEW));
        }
        if ws.len() >= 4 {
            return Some(CommandResult::success(word_msg("Static route to ", &ws, 3, " removed")));
        }
        return Some(fail_lit("Error: Incomplete command"));
    }
    if has_prefix(&c, "ospf ") || has_prefix(&c, "router ospf ") {
        if !sys {
            return Some(fail_lit(NEED_SYSTEM_VIEW));
        }
        device.ospf_enabled = Some(true);
        let mut out = String::from_str("OSPF process ");
        append_chars(&mut out, &last_word_exec(&ws));
        append_str(&mut out, " enabled");
        return Some(CommandResult::success(out));
    }
    if is_lit(&c, "undo ospf") || is_lit(&c, "no router ospf") {
        if !sys {
            return Some(fail_lit(NEED_SYSTEM_VIEW));
        }
        device.ospf_enabled = Some(false);
        return Some(ok_lit("OSPF disabled"));
    }
    if has_prefix(&c, "area ") {
        if !sys {
            return Some(fail_lit(NEED_SYSTEM_VIEW));
        }
        if ws.len() >= 2 {
            return Some(CommandResult::success(word_msg("Entered OSPF area ", &ws, 1, " configuration")));
        }
        return None;
    }
    if has_prefix(&c, "network ") {
        if !sys {
            return Some(fail_lit(NEED_SYSTEM_VIEW));
        }
        if has_sub(&c, "area") {
            if ws.len() >= 5 {
                let mut out = word_msg("Network ", &ws, 1, " added to OSPF area ");
                append_chars(&mut out, &last_word_exec(&ws));
                return Some(CommandResult::success(out));
            }
        } else if ws.len() >= 2 {
            return Some(CommandResult::success(word_msg("Network ", &ws, 1, " added to OSPF")));
        }
        return None;
    }
    if has_prefix(&c, "bgp ") || has_prefix(&c, "router bgp ") {
        if !sys {
            return Some(fail_lit(NEED_SYSTEM_VIEW));
        }
        device.bgp_enabled = Some(true);
        let mut out = String::from_str("BGP AS ");
        append_chars(&mut out, &last_word_exec(&ws));
        append_str(&mut out, " enabled");
        return Some(CommandResult::success(out));
    }
    if is_lit(&c, "undo bgp") || has_prefix(&c, "no router bgp") {
        if !sys {
            return Some(fail_lit(NEED_SYSTEM_VIEW));
        }
        device.bgp_enabled = Some(false);
        return Some(ok_lit("BGP disabled"));
    }
    if has_prefix(&c, "peer ") || has_prefix(&c, "neighbor ") {
        if !sys {
            return Some(fail_lit(NEED_SYSTEM_VIEW));
        }
        if ws.len() >= 4 {
            match find_as_word(&ws) {
                Some(idx) => {
                    if ws.len() > idx + 1 {
                        let mut out = word_msg("BGP peer ", &ws, 1, " AS ");
                        append_chars(&mut out, &ws[idx + 1]);
                        append_str(&mut out, " configured");
                        return Some(CommandResult::success(out));
                    }
                },
                None => {},
            }
        }
        return Some(fail_lit("Error: Incomplete peer command. Usage: peer <ip> as-number <as>"));
    }
    None
}

} // verus!
