//! DHCP service switch, pool commands and relay commands.

use vstd::prelude::*;
use crate::addr::{is_valid_ipv4, valid_ipv4};
use crate::cli::{fail, fail_lit, ok, ok_lit, ok_to, opt_reply, CliView, CommandResult, Reply};
use crate::interface::last_word_exec;
use crate::network::NetworkDevice;
use crate::text::{
    after, after_chars, append_chars, append_str, chars_of, contains, has_prefix, has_sub,
    is_lit, join, push_join, split_ws, starts_with, trim, trim_chars, views, words,
};
use crate::vlan::{last_word, NEED_SYSTEM_VIEW};

verus! {

/// A DHCP address pool.
#[derive(Clone, Debug)]
pub struct DhcpPool {
    pub name: String,
    pub network: Option<String>,
    pub mask: Option<u8>,
    pub gateway: Option<String>,
    pub dns: Vec<String>,
    pub lease_days: u32,
    pub excluded: Vec<String>,
}

/// The pool table shown while the service is enabled.
pub const DHCP_POOL_TABLE: &'static str = "Pool Name       Network            Gateway         Leases    \n------------------------------------------------------------\nLAN_POOL        192.168.1.0/24     192.168.1.1     0/254     \nGUEST_POOL      10.0.0.0/24        10.0.0.1        0/254     \n\n(Showing simulated pools - configure with 'ip pool <name>')";

/// The address bindings display.
pub const DHCP_BINDINGS: &'static str = "DHCP Address Bindings\n\nIP Address       MAC Address        Type         Lease Expires       \n----------------------------------------------------------------------\n192.168.1.100    00:50:56:C0:00:01  Dynamic      Jan 18 2026 12:00   \n192.168.1.101    00:50:56:C0:00:02  Dynamic      Jan 18 2026 14:30   \n192.168.1.50     00:50:56:C0:00:10  Static       Infinite            \n\nTotal bindings: 3";

/// The server statistics display.
pub const DHCP_STATISTICS: &'static str = "DHCP Server Statistics\n\
     \n\
     Message         Received    Sent\n\
     ---------------------------------\n\
     DISCOVER        15          0\n\
     OFFER           0           15\n\
     REQUEST         12          0\n\
     ACK             0           12\n\
     NAK             0           0\n\
     DECLINE         0           0\n\
     RELEASE         3           0\n\
     INFORM          0           0\n\
     \n\
     Total leases: 3\n\
     Available addresses: 251\n\
     Utilization: 1.2%";

/// The pool display: the service state, then the pools when the service is enabled.
pub open spec fn pool_display(d: NetworkDevice) -> Seq<char> {
    if d.dhcp_enabled == Some(true) {
        "DHCP Server Pool Information\nDHCP Service: Enabled\n\n"@ + DHCP_POOL_TABLE@
    } else {
        "DHCP Server Pool Information\nDHCP Service: Disabled\n\n(DHCP service is not enabled. Use 'dhcp enable' to start.)"@
    }
}

/// The first word at or after `j` that is not an IPv4 literal.
pub open spec fn first_invalid_from(ws: Seq<Seq<char>>, j: int) -> Option<int>
    decreases ws.len() - j,
{
    if j < 0 || j >= ws.len() {
        None
    } else if !valid_ipv4(ws[j]) {
        Some(j)
    } else {
        first_invalid_from(ws, j + 1)
    }
}

/// The name given to `ip pool` / `ip dhcp pool`.
pub open spec fn pool_name(c: Seq<char>) -> Seq<char> {
    if starts_with(c, "ip pool "@) {
        trim(after(c, 8))
    } else {
        trim(after(c, 13))
    }
}

pub open spec fn is_dhcp_on(c: Seq<char>) -> bool {
    c == "dhcp enable"@ || c == "service dhcp"@
}

/// Creating (and entering) a pool: `ip pool <name>` or `ip dhcp pool <name>`.
pub open spec fn is_pool_create(c: Seq<char>) -> bool {
    starts_with(c, "ip pool "@) || starts_with(c, "ip dhcp pool "@)
}

pub open spec fn is_dhcp_off(c: Seq<char>) -> bool {
    c == "undo dhcp enable"@ || c == "no service dhcp"@
}

/// The display commands of the DHCP handler, which any view may issue.
pub open spec fn dhcp_display(d: NetworkDevice, c: Seq<char>) -> Option<Seq<char>> {
    if c == "display ip pool"@ || c == "show ip dhcp pool"@ {
        Some(pool_display(d))
    } else if c == "display ip pool interface"@ || c == "show ip dhcp binding"@ {
        Some(DHCP_BINDINGS@)
    } else if c == "display dhcp server statistics"@ || c == "show ip dhcp server statistics"@ {
        Some(DHCP_STATISTICS@)
    } else if c == "display dhcp server conflict"@ || c == "show ip dhcp conflict"@ {
        Some("No DHCP address conflicts detected."@)
    } else {
        None
    }
}

/// Pool and relay commands, acknowledged without being stored (pool creation only reaches
/// here in system view).
pub open spec fn pool_reply(c: Seq<char>) -> Option<Reply> {
    let ws = words(c);
    if starts_with(c, "ip pool "@) || starts_with(c, "ip dhcp pool "@) {
        if pool_name(c).len() == 0 {
            Some(fail("Error: Pool name required"@))
        } else {
            Some(ok_to("DHCP pool '"@ + pool_name(c) + "' created. Entering pool configuration."@, CliView::PoolView))
        }
    } else if starts_with(c, "undo ip pool "@) || starts_with(c, "no ip dhcp pool "@) {
        Some(ok("DHCP pool '"@ + last_word(c) + "' deleted"@))
    } else if starts_with(c, "network "@) {
        if contains(c, "mask"@) && ws.len() >= 4 {
            if !valid_ipv4(ws[1]) {
                Some(fail("Error: Invalid network address '"@ + ws[1] + "'"@))
            } else {
                Some(ok("Pool network set to "@ + ws[1] + " mask "@ + ws[3]))
            }
        } else if !contains(c, "mask"@) && !contains(c, "area"@) && ws.len() >= 3 {
            if !valid_ipv4(ws[1]) {
                Some(fail("Error: Invalid network address '"@ + ws[1] + "'"@))
            } else {
                Some(ok("Pool network set to "@ + ws[1] + seq![' '] + ws[2]))
            }
        } else {
            None
        }
    } else if starts_with(c, "gateway-list "@) || starts_with(c, "default-router "@) {
        if !valid_ipv4(last_word(c)) {
            Some(fail("Error: Invalid gateway address '"@ + last_word(c) + "'"@))
        } else {
            Some(ok("Default gateway set to "@ + last_word(c)))
        }
    } else if starts_with(c, "dns-list "@) || starts_with(c, "dns-server "@) {
        match first_invalid_from(ws, 1) {
            Some(i) => Some(fail("Error: Invalid DNS server address '"@ + ws[i] + "'"@)),
            None => Some(ok("DNS servers set to: "@ + join(
                if ws.len() >= 1 { ws.subrange(1, ws.len() as int) } else { seq![] },
                ", "@,
            ))),
        }
    } else if starts_with(c, "lease "@) {
        if ws.len() >= 2 {
            Some(ok("Lease time set to "@ + ws[1] + " days"@))
        } else {
            None
        }
    } else if starts_with(c, "excluded-ip-address "@) || starts_with(c, "ip dhcp excluded-address "@) {
        if ws.len() >= 2 {
            let s = ws[ws.len() - 2];
            let e = if ws.len() >= 3 { ws[ws.len() - 1] } else { s };
            Some(ok("Excluded addresses: "@ + s + " - "@ + e))
        } else {
            None
        }
    } else if starts_with(c, "domain-name "@) {
        Some(ok("Domain name set to '"@ + trim(after(c, 12)) + "'"@))
    } else if c == "reset ip pool"@ || c == "clear ip dhcp binding *"@ {
        Some(ok("All DHCP bindings cleared."@))
    } else if starts_with(c, "dhcp relay server-ip "@) || starts_with(c, "ip helper-address "@) {
        if !valid_ipv4(last_word(c)) {
            Some(fail("Error: Invalid server address '"@ + last_word(c) + "'"@))
        } else {
            Some(ok("DHCP relay configured to forward to "@ + last_word(c)))
        }
    } else if c == "dhcp select relay"@ {
        Some(ok("DHCP relay enabled on interface"@))
    } else if c == "dhcp select global"@ || c == "dhcp select interface"@ {
        Some(ok("DHCP server enabled on interface"@))
    } else {
        None
    }
}

/// The reply of the DHCP handler; `None` where the command is not a DHCP command.
pub open spec fn dhcp_reply(d: NetworkDevice, c: Seq<char>, v: CliView) -> Option<Reply> {
    if dhcp_display(d, c) is Some {
        Some(ok(dhcp_display(d, c)->Some_0))
    } else if is_dhcp_on(c) {
        if v != CliView::SystemView { Some(fail(NEED_SYSTEM_VIEW@)) } else { Some(ok("DHCP service enabled"@)) }
    } else if is_dhcp_off(c) {
        if v != CliView::SystemView { Some(fail(NEED_SYSTEM_VIEW@)) } else { Some(ok("DHCP service disabled"@)) }
    } else if is_pool_create(c) && v != CliView::SystemView {
        Some(fail(NEED_SYSTEM_VIEW@))
    } else {
        pool_reply(c)
    }
}

/// How the DHCP handler changes the device: in system view, enabling or disabling the
/// service sets that switch; nothing else changes it.
pub open spec fn dhcp_after(d: NetworkDevice, e: NetworkDevice, c: Seq<char>, v: CliView) -> bool {
    let same_rest = e.id == d.id && e.device_type == d.device_type && e.vendor == d.vendor
        && e.hostname == d.hostname && e.model == d.model && e.ports == d.ports && e.vlans == d.vlans
        && e.ospf_enabled == d.ospf_enabled && e.bgp_enabled == d.bgp_enabled;
    if dhcp_display(d, c) is None && is_dhcp_on(c) && v == CliView::SystemView {
        same_rest && e.dhcp_enabled == Some(true)
    } else if dhcp_display(d, c) is None && !is_dhcp_on(c) && is_dhcp_off(c) && v == CliView::SystemView {
        same_rest && e.dhcp_enabled == Some(false)
    } else {
        e == d
    }
}

/// The pool display of a device.
pub fn generate_dhcp_pool_display(device: &NetworkDevice) -> (r: String)
    ensures
        r@ == pool_display(*device),
{
    if device.dhcp_enabled == Some(true) {
        let mut out = String::from_str("DHCP Server Pool Information\nDHCP Service: Enabled\n\n");
        append_str(&mut out, DHCP_POOL_TABLE);
        out
    } else {
        String::from_str(
            "DHCP Server Pool Information\nDHCP Service: Disabled\n\n(DHCP service is not enabled. Use 'dhcp enable' to start.)",
        )
    }
}

/// The address bindings display.
pub fn generate_dhcp_binding_display() -> (r: String)
    ensures
        r@ == DHCP_BINDINGS@,
{
    String::from_str(DHCP_BINDINGS)
}

/// The server statistics display.
pub fn generate_dhcp_statistics() -> (r: String)
    ensures
        r@ == DHCP_STATISTICS@,
{
    String::from_str(DHCP_STATISTICS)
}

fn dhcp_display_exec(device: &NetworkDevice, c: &Vec<char>) -> (r: Option<String>)
    ensures
        match r {
            Some(s) => dhcp_display(*device, c@) == Some(s@),
            None => dhcp_display(*device, c@) is None,
        },
{
    if is_lit(c, "display ip pool") || is_lit(c, "show ip dhcp pool") {
        Some(generate_dhcp_pool_display(device))
    } else if is_lit(c, "display ip pool interface") || is_lit(c, "show ip dhcp binding") {
        Some(generate_dhcp_binding_display())
    } else if is_lit(c, "display dhcp server statistics") || is_lit(c, "show ip dhcp server statistics") {
        Some(generate_dhcp_statistics())
    } else if is_lit(c, "display dhcp server conflict") || is_lit(c, "show ip dhcp conflict") {
        Some(String::from_str("No DHCP address conflicts detected."))
    } else {
        None
    }
}

fn first_invalid(ws: &Vec<Vec<char>>, from: usize) -> (r: Option<usize>)
    ensures
        match r {
            Some(i) => first_invalid_from(views(ws@), from as int) == Some(i as int) && i < ws@.len(),
            None => first_invalid_from(views(ws@), from as int) is None,
        },
{
    let mut i: usize = from;
    if i >= ws.len() {
        return None;
    }
    while i < ws.len()
        invariant
            from <= i <= ws@.len(),
            first_invalid_from(views(ws@), from as int) == first_invalid_from(views(ws@), i as int),
        decreases ws.len() - i,
    {
        assert(views(ws@)[i as int] == ws@[i as int]@);
        if !is_valid_ipv4(&ws[i]) {
            return Some(i);
        }
        i = i + 1;
    }
    None
}

/// `a`, then `w`, then `b`.
fn msg3(a: &str, w: &Vec<char>, b: &str) -> (r: String)
    ensures
        r@ == a@ + w@ + b@,
{
    let mut out = String::from_str(a);
    append_chars(&mut out, w);
    append_str(&mut out, b);
    out
}

/// `a`, then `w`.
fn msg2(a: &str, w: &Vec<char>) -> (r: String)
    ensures
        r@ == a@ + w@,
{
    let mut out = String::from_str(a);
    append_chars(&mut out, w);
    out
}

fn pool_reply_exec(c: &Vec<char>) -> (r: Option<CommandResult>)
    ensures
        opt_reply(r) == pool_reply(c@),
{
    let ws = split_ws(c);
    if has_prefix(c, "ip pool ") || has_prefix(c, "ip dhcp pool ") {
        let skip: usize = if has_prefix(c, "ip pool ") { 8 } else { 13 };
        let name = trim_chars(&after_chars(c, skip));
        if name.len() == 0 {
            return Some(fail_lit("Error: Pool name required"));
        }
        let out = msg3("DHCP pool '", &name, "' created. Entering pool configuration.");
        return Some(CommandResult { success: true, output: out, new_view: Some(CliView::PoolView), new_hostname: None });
    }
    if has_prefix(c, "undo ip pool ") || has_prefix(c, "no ip dhcp pool ") {
        return Some(CommandResult::success(msg3("DHCP pool '", &last_word_exec(&ws), "' deleted")));
    }
    if has_prefix(c, "network ") {
        if has_sub(c, "mask") && ws.len() >= 4 {
            assert(views(ws@)[1] == ws@[1]@ && views(ws@)[3] == ws@[3]@);
            if !is_valid_ipv4(&ws[1]) {
                return Some(CommandResult::error(msg3("Error: Invalid network address '", &ws[1], "'")));
            }
            let mut out = msg3("Pool network set to ", &ws[1], " mask ");
            append_chars(&mut out, &ws[3]);
            return Some(CommandResult::success(out));
        } else if !has_sub(c, "mask") && !has_sub(c, "area") && ws.len() >= 3 {
            assert(views(ws@)[1] == ws@[1]@ && views(ws@)[2] == ws@[2]@);
            if !is_valid_ipv4(&ws[1]) {
                return Some(CommandResult::error(msg3("Error: Invalid network address '", &ws[1], "'")));
            }
            let mut out = msg3("Pool network set to ", &ws[1], " ");
            append_chars(&mut out, &ws[2]);
            proof { reveal_strlit(" "); }
            assert(out@ =~= "Pool network set to "@ + views(ws@)[1] + seq![' '] + views(ws@)[2]);
            return Some(CommandResult::success(out));
        }
        return None;
    }
    if has_prefix(c, "gateway-list ") || has_prefix(c, "default-router ") {
        let gw = last_word_exec(&ws);
        if !is_valid_ipv4(&gw) {
            return Some(CommandResult::error(msg3("Error: Invalid gateway address '", &gw, "'")));
        }
        return Some(CommandResult::success(msg2("Default gateway set to ", &gw)));
    }
    if has_prefix(c, "dns-list ") || has_prefix(c, "dns-server ") {
        return match first_invalid(&ws, 1) {
            Some(i) => {
                assert(views(ws@)[i as int] == ws@[i as int]@);
                Some(CommandResult::error(msg3("Error: Invalid DNS server address '", &ws[i], "'")))
            },
            None => {
                let mut out = String::from_str("DNS servers set to: ");
                if ws.len() >= 1 {
                    push_join(&mut out, &ws, 1, ", ");
                }
                Some(CommandResult::success(out))
            },
        };
    }
    if has_prefix(c, "lease ") {
        if ws.len() >= 2 {
            assert(views(ws@)[1] == ws@[1]@);
            return Some(CommandResult::success(msg3("Lease time set to ", &ws[1], " days")));
        }
        return None;
    }
    if has_prefix(c, "excluded-ip-address ") || has_prefix(c, "ip dhcp excluded-address ") {
        if ws.len() >= 2 {
            let n = ws.len();
            assert(views(ws@)[n - 2] == ws@[n - 2]@ && views(ws@)[n - 1] == ws@[n - 1]@);
            let mut out = msg3("Excluded addresses: ", &ws[n - 2], " - ");
            if n >= 3 {
                append_chars(&mut out, &ws[n - 1]);
            } else {
                append_chars(&mut out, &ws[n - 2]);
            }
            return Some(CommandResult::success(out));
        }
        return None;
    }
    if has_prefix(c, "domain-name ") {
        return Some(CommandResult::success(msg3("Domain name set to '", &trim_chars(&after_chars(c, 12)), "'")));
    }
    if is_lit(c, "reset ip pool") || is_lit(c, "clear ip dhcp binding *") {
        return Some(ok_lit("All DHCP bindings cleared."));
    }
    if has_prefix(c, "dhcp relay server-ip ") || has_prefix(c, "ip helper-address ") {
        let ip = last_word_exec(&ws);
        if !is_valid_ipv4(&ip) {
            return Some(CommandResult::error(msg3("Error: Invalid server address '", &ip, "'")));
        }
        return Some(CommandResult::success(msg2("DHCP relay configured to forward to ", &ip)));
    }
    if is_lit(c, "dhcp select relay") {
        return Some(ok_lit("DHCP relay enabled on interface"));
    }
    if is_lit(c, "dhcp select global") || is_lit(c, "dhcp select interface") {
        return Some(ok_lit("DHCP server enabled on interface"));
    }
    None
}

/// Handles DHCP commands; `None` where the command is not one of them.
pub fn handle_dhcp_commands(device: &mut NetworkDevice, cmd: &str, current_view: &CliView) -> (r:
    Option<CommandResult>)
    ensures
        opt_reply(r) == dhcp_reply(*old(device), cmd@, *current_view),
        dhcp_after(*old(device), *final(device), cmd@, *current_view),
{
    let c = chars_of(cmd);
    match dhcp_display_exec(device, &c) {
        Some(s) => return Some(CommandResult::success(s)),
        None => {},
    }
    if is_lit(&c, "dhcp enable") || is_lit(&c, "service dhcp") {
        if *current_view != CliView::SystemView {
            return Some(fail_lit(NEED_SYSTEM_VIEW));
        }
        device.dhcp_enabled = Some(true);
        return Some(ok_lit("DHCP service enabled"));
    }
    if is_lit(&c, "undo dhcp enable") || is_lit(&c, "no service dhcp") {
        if *current_view != CliView::SystemView {
            return Some(fail_lit(NEED_SYSTEM_VIEW));
        }
        device.dhcp_enabled = Some(false);
        return Some(ok_lit("DHCP service disabled"));
    }
    if (has_prefix(&c, "ip pool ") || has_prefix(&c, "ip dhcp pool ")) && *current_view != CliView::SystemView {
        return Some(fail_lit(NEED_SYSTEM_VIEW));
    }
    pool_reply_exec(&c)
}

} // verus!
