//! Entering interface view, per-port settings, and interface displays.

use vstd::prelude::*;
use crate::addr::{is_valid_ipv4, mask_bits, mask_to_cidr, valid_ipv4};
use crate::cli::{fail, fail_lit, ok, ok_lit, ok_to, opt_reply, CliView, CommandResult, Reply};
use crate::network::{
    ids_text, mode_name, mode_text, port_type_name, port_type_text, push_ids, status_name,
    status_text, LinkStatus, NetworkDevice, NetworkPort, PortMode,
};
use crate::text::{
    after, after_chars, append_chars, append_str, chars_of, concat_all, concat_from,
    contains_char, dec, eq_ic, eq_ignore_case, find, find_str, has_char, has_prefix, is_lit,
    pad, parse_uint, parse_unsigned, push_dec, push_padded, push_padded_str, push_repeat,
    repeat, split_ws, starts_with, string_of, trim, trim_chars, views, words, is_ws,
    lemma_words_append, lemma_words_space,
};
use crate::vlan::last_word;

verus! {

/// The message of a per-port command issued outside interface view.
pub const NEED_INTERFACE_VIEW: &'static str =
    "Error: Command requires interface-view. Enter 'interface <name>' first.";

/// The message for a command that needs the view `required`.
pub open spec fn view_error_text(required: Seq<char>) -> Seq<char> {
    "Error: Command requires "@ + required + ". Enter '"@ + (if required == "system-view"@ {
        "system-view"@
    } else {
        "interface <name>"@
    }) + "' first."@
}

/// A failed result naming the view that the command needs.
fn view_error(required: &str) -> (r: CommandResult)
    ensures
        r@ == fail(view_error_text(required@)),
{
    let mut out = String::from_str("Error: Command requires ");
    append_str(&mut out, required);
    append_str(&mut out, ". Enter '");
    if is_lit(&chars_of(required), "system-view") {
        append_str(&mut out, "system-view");
    } else {
        append_str(&mut out, "interface <name>");
    }
    append_str(&mut out, "' first.");
    CommandResult::error(out)
}

/// The first port at or after `j` whose name equals `name` up to ASCII case.
pub open spec fn named_from(ps: Seq<NetworkPort>, name: Seq<char>, j: int) -> Option<int>
    decreases ps.len() - j,
{
    if j < 0 || j >= ps.len() {
        None
    } else if eq_ignore_case(ps[j].name@, name) {
        Some(j)
    } else {
        named_from(ps, name, j + 1)
    }
}

/// The first routed port at or after `j`.
pub open spec fn routed_from(ps: Seq<NetworkPort>, j: int) -> Option<int>
    decreases ps.len() - j,
{
    if j < 0 || j >= ps.len() {
        None
    } else if ps[j].config.mode == PortMode::Routed {
        Some(j)
    } else {
        routed_from(ps, j + 1)
    }
}

/// The first port at or after `j` that has an address.
pub open spec fn addressed_from(ps: Seq<NetworkPort>, j: int) -> Option<int>
    decreases ps.len() - j,
{
    if j < 0 || j >= ps.len() {
        None
    } else if ps[j].config.ip_address is Some {
        Some(j)
    } else {
        addressed_from(ps, j + 1)
    }
}

/// The port name that the words after the first `k` words of `c` spell, run together.
pub open spec fn joined_name(c: Seq<char>, k: int) -> Seq<char> {
    concat_all(words(c).subrange(k, words(c).len() as int))
}

/// The text after the last `"vlan "` in `s` (all of `s` where there is none).
pub open spec fn after_last_vlan(s: Seq<char>) -> Seq<char>
    decreases s.len(),
{
    match find(s, "vlan "@) {
        Some(i) => if 0 <= i && i + 5 <= s.len() { after_last_vlan(after(s, (i + 5) as nat)) } else { s },
        None => s,
    }
}

/// A row of the brief interface table.
pub open spec fn brief_row(a: Seq<char>, b: Seq<char>, c: Seq<char>, d: Seq<char>, e: Seq<char>) -> Seq<char> {
    pad(a, 20) + seq![' '] + pad(b, 16) + seq![' '] + pad(c, 8) + seq![' '] + pad(d, 12) + seq![' '] + pad(e, 10)
}

pub open spec fn prefix_or_24(m: Option<u8>) -> nat {
    match m {
        Some(x) => x as nat,
        None => 24,
    }
}

/// The brief line of one port.
pub open spec fn brief_line(p: NetworkPort) -> Seq<char> {
    brief_row(
        p.name@,
        match p.config.ip_address {
            Some(ip) => ip@ + seq!['/'] + dec(prefix_or_24(p.config.subnet_mask)),
            None => "unassigned"@,
        },
        match p.status {
            LinkStatus::Up => "up"@,
            LinkStatus::Down => "down"@,
        },
        if p.config.enabled { "up"@ } else { "down"@ },
        match p.config.mode {
            PortMode::Access => "access"@,
            PortMode::Trunk => "trunk"@,
            PortMode::Hybrid => "hybrid"@,
            PortMode::Routed => "routed"@,
        },
    )
}

pub open spec fn brief_lines(ps: Seq<NetworkPort>) -> Seq<char>
    decreases ps.len(),
{
    if ps.len() == 0 {
        seq![]
    } else {
        brief_lines(ps.drop_last()) + seq!['\n'] + brief_line(ps.last())
    }
}

/// The brief interface table of a device.
pub open spec fn interface_brief(d: NetworkDevice) -> Seq<char> {
    brief_row("Interface"@, "IP-Address"@, "Status"@, "Protocol"@, "Mode"@) + seq!['\n'] + repeat('-', 70)
        + brief_lines(d.ports@)
}

/// The first five detail lines of a port: name, type, status, administrative state, mode.
pub open spec fn detail_head(p: NetworkPort) -> Seq<char> {
    "Interface: "@ + p.name@ + "\n  Type: "@ + port_type_name(p.port_type) + "\n  Status: "@
        + status_name(p.status) + "\n  Admin Status: "@ + (if p.config.enabled {
        "up"@
    } else {
        "administratively down"@
    }) + "\n  Mode: "@ + mode_name(p.config.mode)
}

/// The optional detail lines of a port: address, description, VLAN, allowed VLANs.
pub open spec fn detail_tail(p: NetworkPort) -> Seq<char> {
    (match p.config.ip_address {
        Some(ip) => "\n  IP Address: "@ + ip@ + seq!['/'] + dec(prefix_or_24(p.config.subnet_mask)),
        None => seq![],
    }) + detail_rest(p)
}

/// The detail lines of one port.
pub open spec fn interface_detail(p: NetworkPort) -> Seq<char> {
    detail_head(p) + detail_tail(p)
}

/// Every port's detail, each followed by a line break.
pub open spec fn all_details(ps: Seq<NetworkPort>) -> Seq<char>
    decreases ps.len(),
{
    if ps.len() == 0 {
        seq![]
    } else {
        all_details(ps.drop_last()) + interface_detail(ps.last()) + seq!['\n']
    }
}

/// The prefix length that `ip address` and the host `ip` command read from a mask word:
/// dotted masks by their bit count, others as a number, 24 where that fails.
pub open spec fn mask_of(m: Seq<char>) -> nat {
    if contains_char(m, '.') {
        mask_bits(m)
    } else {
        match parse_unsigned(m, 255) {
            Some(x) => x,
            None => 24,
        }
    }
}

/// Whether the command is one that needs interface view.
pub open spec fn is_port_setting(c: Seq<char>) -> bool {
    starts_with(c, "ip address "@) || c == "undo ip address"@ || c == "no ip address"@ || c
        == "shutdown"@ || c == "undo shutdown"@ || c == "no shutdown"@ || starts_with(c, "description "@)
        || starts_with(c, "port link-type "@) || starts_with(c, "switchport mode "@) || starts_with(
        c,
        "port default vlan "@,
    ) || starts_with(c, "switchport access vlan "@) || starts_with(c, "port trunk allow-pass vlan "@)
        || starts_with(c, "switchport trunk allowed vlan "@) || starts_with(c, "speed "@) || starts_with(
        c,
        "duplex "@,
    )
}

/// The reply to a port setting made in interface view.
pub open spec fn port_setting_reply(d: NetworkDevice, c: Seq<char>) -> Reply {
    let ws = words(c);
    if starts_with(c, "ip address "@) {
        if ws.len() < 4 {
            fail("Error: Incomplete command. Usage: ip address <ip> <mask>"@)
        } else if !valid_ipv4(ws[2]) {
            fail("Error: Invalid IP address '"@ + ws[2] + "'"@)
        } else if routed_from(d.ports@, 0) is Some {
            ok("IP address "@ + ws[2] + seq![' '] + ws[3] + " configured"@)
        } else {
            fail("Error: No routed interface available"@)
        }
    } else if c == "undo ip address"@ || c == "no ip address"@ {
        if addressed_from(d.ports@, 0) is Some {
            ok("IP address removed"@)
        } else {
            fail("Error: No IP address to remove"@)
        }
    } else if c == "shutdown"@ {
        ok("Interface administratively disabled"@)
    } else if c == "undo shutdown"@ || c == "no shutdown"@ {
        ok("Interface enabled"@)
    } else if starts_with(c, "description "@) {
        let desc = trim(after(c, 12));
        if desc.len() == 0 {
            fail("Error: Description cannot be empty"@)
        } else {
            ok("Description set to '"@ + desc + "'"@)
        }
    } else if starts_with(c, "port link-type "@) || starts_with(c, "switchport mode "@) {
        let m = last_word(c);
        if m == "access"@ || m == "trunk"@ || m == "hybrid"@ {
            ok("Port link-type set to "@ + m)
        } else {
            fail("Error: Invalid port mode '"@ + m + "'. Use access, trunk, or hybrid."@)
        }
    } else if starts_with(c, "port default vlan "@) || starts_with(c, "switchport access vlan "@) {
        match parse_unsigned(last_word(c), 65535) {
            Some(n) => if 1 <= n <= 4094 {
                ok("Access VLAN set to "@ + dec(n))
            } else {
                fail("Error: Invalid VLAN ID (1-4094)"@)
            },
            None => fail("Error: Invalid VLAN ID (1-4094)"@),
        }
    } else if starts_with(c, "port trunk allow-pass vlan "@) || starts_with(c, "switchport trunk allowed vlan "@) {
        ok("Trunk allowed VLANs set to: "@ + after_last_vlan(c))
    } else if starts_with(c, "speed "@) {
        ok("Speed set to "@ + trim(after(c, 6)))
    } else {
        ok("Duplex set to "@ + trim(after(c, 7)))
    }
}

/// The reply of the interface handler; `None` where the command is not an interface command.
pub open spec fn interface_reply(d: NetworkDevice, c: Seq<char>, v: CliView) -> Option<Reply> {
    let ws = words(c);
    if starts_with(c, "interface "@) {
        if v != CliView::SystemView && v != CliView::InterfaceView {
            Some(fail(view_error_text("system-view"@)))
        } else if ws.len() < 2 {
            Some(fail("Incomplete command. Usage: interface <type><number>"@))
        } else if named_from(d.ports@, joined_name(c, 1), 0) is Some {
            Some(ok_to("Entered interface view for "@ + joined_name(c, 1), CliView::InterfaceView))
        } else {
            Some(fail("Error: Interface "@ + joined_name(c, 1) + " not found."@))
        }
    } else if c == "display ip interface brief"@ || c == "show ip interface brief"@ {
        Some(ok(interface_brief(d)))
    } else if starts_with(c, "display interface"@) || starts_with(c, "show interface"@) {
        if ws.len() >= 3 {
            match named_from(d.ports@, joined_name(c, 2), 0) {
                Some(i) => Some(ok(interface_detail(d.ports@[i]))),
                None => Some(fail("Error: Interface "@ + joined_name(c, 2) + " not found."@)),
            }
        } else {
            Some(ok(all_details(d.ports@)))
        }
    } else if is_port_setting(c) {
        if v != CliView::InterfaceView {
            Some(fail(view_error_text("interface-view"@)))
        } else {
            Some(port_setting_reply(d, c))
        }
    } else {
        None
    }
}

/// `q` is `p` with its address set to `ip` and its prefix length to `m`.
pub open spec fn with_address(p: NetworkPort, q: NetworkPort, ip: Option<Seq<char>>, m: Option<u8>) -> bool {
    q.id == p.id && q.name == p.name && q.port_type == p.port_type && q.status == p.status
        && q.connected_cable_id == p.connected_cable_id && q.config.vlan == p.config.vlan
        && q.config.allowed_vlans == p.config.allowed_vlans && q.config.mode == p.config.mode
        && q.config.enabled == p.config.enabled && q.config.description == p.config.description
        && crate::network::opt_str(q.config.ip_address) == ip && q.config.subnet_mask == m
}

/// The device is the same but for port `i`.
pub open spec fn same_but_port(a: NetworkDevice, b: NetworkDevice, i: int) -> bool {
    a.id == b.id && a.device_type == b.device_type && a.vendor == b.vendor && a.hostname == b.hostname
        && a.model == b.model && a.vlans == b.vlans && a.ospf_enabled == b.ospf_enabled
        && a.bgp_enabled == b.bgp_enabled && a.dhcp_enabled == b.dhcp_enabled
        && 0 <= i < a.ports@.len() && b.ports@.len() == a.ports@.len()
        && forall|k: int| 0 <= k < a.ports@.len() && k != i ==> b.ports@[k] == a.ports@[k]
}

/// How the interface handler changes the device: `ip address` sets the address of the first
/// routed port, `undo ip address` clears the first address; nothing else changes it.
pub open spec fn interface_after(d: NetworkDevice, e: NetworkDevice, c: Seq<char>, v: CliView) -> bool {
    let ws = words(c);
    let setting = !starts_with(c, "interface "@) && !(c == "display ip interface brief"@ || c
        == "show ip interface brief"@) && !(starts_with(c, "display interface"@) || starts_with(
        c,
        "show interface"@,
    )) && v == CliView::InterfaceView;
    if setting && starts_with(c, "ip address "@) && ws.len() >= 4 && valid_ipv4(ws[2]) && routed_from(
        d.ports@,
        0,
    ) is Some {
        let i = routed_from(d.ports@, 0)->Some_0;
        same_but_port(d, e, i) && with_address(d.ports@[i], e.ports@[i], Some(ws[2]), Some(mask_of(ws[3]) as u8))
    } else if setting && !starts_with(c, "ip address "@) && (c == "undo ip address"@ || c == "no ip address"@)
        && addressed_from(d.ports@, 0) is Some {
        let i = addressed_from(d.ports@, 0)->Some_0;
        same_but_port(d, e, i) && with_address(d.ports@[i], e.ports@[i], None, None)
    } else {
        e == d
    }
}

/// Setting an address and reading it back: after `ip address <ip> <mask>` in interface view
/// on a device with a routed port, the first routed port holds `<ip>` with the prefix length
/// read from `<mask>`, and its details show `<ip>/<prefix>`.
pub proof fn lemma_address_round_trip(d: NetworkDevice, e: NetworkDevice, c: Seq<char>)
    requires
        starts_with(c, "ip address "@),
        words(c).len() >= 4,
        valid_ipv4(words(c)[2]),
        routed_from(d.ports@, 0) is Some,
        interface_after(d, e, c, CliView::InterfaceView),
    ensures
        interface_reply(d, c, CliView::InterfaceView) == Some(
            ok("IP address "@ + words(c)[2] + seq![' '] + words(c)[3] + " configured"@),
        ),
        ({
            let i = routed_from(d.ports@, 0)->Some_0;
            &&& crate::network::port_ip(e.ports@[i]) == Some(words(c)[2])
            &&& e.ports@[i].config.subnet_mask == Some(mask_of(words(c)[3]) as u8)
            &&& detail_tail(e.ports@[i]) == "\n  IP Address: "@ + words(c)[2] + seq!['/'] + dec(
                (mask_of(words(c)[3]) as u8) as nat,
            ) + detail_rest(e.ports@[i])
        }),
{
    reveal_strlit("ip address ");
    reveal_strlit("interface ");
    reveal_strlit("display ip interface brief");
    reveal_strlit("show ip interface brief");
    reveal_strlit("display interface");
    reveal_strlit("show interface");
    assert(c.take(11)[0] == c[0] && c.take(11)[1] == c[1]);
    assert(c[0] == 'i' && c[1] == 'p');
    assert(c.take(10)[1] == c[1]);
    if c.len() >= 14 {
        assert(c.take(14)[0] == c[0]);
    }
    if c.len() >= 17 {
        assert(c.take(17)[0] == c[0]);
    }
    assert(is_port_setting(c));
}

proof fn lemma_words_display_interface(n: Seq<char>)
    requires
        n.len() >= 1,
        forall|k: int| 0 <= k < n.len() ==> !is_ws(n[k]),
    ensures
        words("display interface "@ + n) == seq!["display"@, "interface"@, n],
{
    reveal_strlit("display interface ");
    reveal_strlit("display");
    reveal_strlit("interface");
    let w1 = "display"@;
    let w2 = "interface"@;
    let e = Seq::<char>::empty();
    assert(e + w1 =~= w1);
    lemma_words_append(e, w1);
    assert(words(e) =~= Seq::<Seq<char>>::empty());
    let s1 = w1.push(' ');
    lemma_words_space(w1, ' ');
    lemma_words_append(s1, w2);
    let s2 = s1 + w2;
    lemma_words_space(s2, ' ');
    let s3 = s2.push(' ');
    lemma_words_append(s3, n);
    assert("display interface "@ + n =~= s3 + n);
    assert(words(s3 + n) =~= seq![w1, w2, n]);
}

proof fn lemma_named_same_names(a: Seq<NetworkPort>, b: Seq<NetworkPort>, name: Seq<char>, j: int)
    requires
        a.len() == b.len(),
        forall|k: int| 0 <= k < a.len() ==> #[trigger] b[k].name == a[k].name,
    ensures
        named_from(a, name, j) == named_from(b, name, j),
    decreases a.len() - j,
{
    if 0 <= j < a.len() {
        assert(b[j].name == a[j].name);
        lemma_named_same_names(a, b, name, j + 1);
    }
}

/// Reading an address back by name: after `ip address <ip> <mask>` in interface view, where
/// the first routed port is also the first port named `n` (up to ASCII case),
/// `display interface n` from any view shows that port's details, whose address line reads
/// `<ip>/<prefix>`.
pub proof fn lemma_display_after_address(d: NetworkDevice, e: NetworkDevice, c: Seq<char>, n: Seq<char>, v: CliView)
    requires
        starts_with(c, "ip address "@),
        words(c).len() >= 4,
        valid_ipv4(words(c)[2]),
        routed_from(d.ports@, 0) is Some,
        interface_after(d, e, c, CliView::InterfaceView),
        n.len() >= 1,
        forall|k: int| 0 <= k < n.len() ==> !is_ws(n[k]),
        named_from(d.ports@, n, 0) == routed_from(d.ports@, 0),
    ensures
        ({
            let i = routed_from(d.ports@, 0)->Some_0;
            &&& interface_reply(e, "display interface "@ + n, v) == Some(ok(interface_detail(e.ports@[i])))
            &&& interface_detail(e.ports@[i]) == detail_head(e.ports@[i]) + "\n  IP Address: "@ + words(c)[2]
                + seq!['/'] + dec((mask_of(words(c)[3]) as u8) as nat) + detail_rest(e.ports@[i])
            &&& forall|f: NetworkDevice| #[trigger] interface_after(e, f, "display interface "@ + n, v) ==> f == e
        }),
{
    lemma_address_round_trip(d, e, c);
    let i = routed_from(d.ports@, 0)->Some_0;
    let q = "display interface "@ + n;
    lemma_words_display_interface(n);
    assert(words(q).subrange(2, 3) =~= seq![n]);
    assert(seq![n].drop_last() =~= Seq::<Seq<char>>::empty());
    assert(concat_all(Seq::<Seq<char>>::empty()) == Seq::<char>::empty());
    assert(concat_all(seq![n]) =~= n);
    assert(joined_name(q, 2) == n);
    assert forall|k: int| 0 <= k < d.ports@.len() implies #[trigger] e.ports@[k].name == d.ports@[k].name by {
        if k != i {
        }
    }
    lemma_named_same_names(d.ports@, e.ports@, n, 0);
    reveal_strlit("display interface ");
    reveal_strlit("display interface");
    reveal_strlit("interface ");
    reveal_strlit("display ip interface brief");
    reveal_strlit("show ip interface brief");
    reveal_strlit("show interface");
    assert(q.take(17) =~= "display interface"@);
    assert(q[0] == 'd' && q[9] == 'n');
    assert(q.take(10)[0] == 'd');
    if q.len() >= 14 {
        assert(q.take(14)[0] == 'd');
    }
}

/// The detail lines of a port after its address line.
pub open spec fn detail_rest(p: NetworkPort) -> Seq<char> {
    (match p.config.description {
        Some(d) => "\n  Description: "@ + d@,
        None => seq![],
    }) + (match p.config.vlan {
        Some(v) => "\n  VLAN: "@ + dec(v as nat),
        None => seq![],
    }) + (match p.config.allowed_vlans {
        Some(vs) => "\n  Allowed VLANs: "@ + ids_text(vs@, ","@),
        None => seq![],
    })
}

fn find_named(ps: &Vec<NetworkPort>, name: &Vec<char>) -> (r: Option<usize>)
    ensures
        match r {
            Some(i) => named_from(ps@, name@, 0) == Some(i as int),
            None => named_from(ps@, name@, 0) is None,
        },
{
    let mut i: usize = 0;
    while i < ps.len()
        invariant
            i <= ps@.len(),
            named_from(ps@, name@, 0) == named_from(ps@, name@, i as int),
        decreases ps.len() - i,
    {
        let pn = chars_of(ps[i].name.as_str());
        if eq_ic(&pn, name) {
            return Some(i);
        }
        i = i + 1;
    }
    None
}

fn find_routed(ps: &Vec<NetworkPort>) -> (r: Option<usize>)
    ensures
        match r {
            Some(i) => routed_from(ps@, 0) == Some(i as int),
            None => routed_from(ps@, 0) is None,
        },
{
    let mut i: usize = 0;
    while i < ps.len()
        invariant
            i <= ps@.len(),
            routed_from(ps@, 0) == routed_from(ps@, i as int),
        decreases ps.len() - i,
    {
        if ps[i].config.mode == PortMode::Routed {
            return Some(i);
        }
        i = i + 1;
    }
    None
}

fn find_addressed(ps: &Vec<NetworkPort>) -> (r: Option<usize>)
    ensures
        match r {
            Some(i) => addressed_from(ps@, 0) == Some(i as int),
            None => addressed_from(ps@, 0) is None,
        },
{
    let mut i: usize = 0;
    while i < ps.len()
        invariant
            i <= ps@.len(),
            addressed_from(ps@, 0) == addressed_from(ps@, i as int),
        decreases ps.len() - i,
    {
        if ps[i].config.ip_address.is_some() {
            return Some(i);
        }
        i = i + 1;
    }
    None
}

proof fn lemma_named_from_in_range(ps: Seq<NetworkPort>, name: Seq<char>, j: int)
    ensures
        named_from(ps, name, j) matches Some(i) ==> 0 <= i < ps.len(),
    decreases ps.len() - j,
{
    if 0 <= j < ps.len() && !eq_ignore_case(ps[j].name@, name) {
        lemma_named_from_in_range(ps, name, j + 1);
    }
}

proof fn lemma_routed_from_found(ps: Seq<NetworkPort>, j: int)
    ensures
        routed_from(ps, j) matches Some(i) ==> 0 <= i < ps.len(),
    decreases ps.len() - j,
{
    if 0 <= j < ps.len() && ps[j].config.mode != PortMode::Routed {
        lemma_routed_from_found(ps, j + 1);
    }
}

proof fn lemma_addressed_from_found(ps: Seq<NetworkPort>, j: int)
    ensures
        addressed_from(ps, j) matches Some(i) ==> 0 <= i < ps.len(),
    decreases ps.len() - j,
{
    if 0 <= j < ps.len() && ps[j].config.ip_address is None {
        lemma_addressed_from_found(ps, j + 1);
    }
}

/// The prefix length read from a mask word.
pub fn parse_mask(m: &Vec<char>) -> (r: u8)
    ensures
        r as nat == mask_of(m@),
{
    if has_char(m, '.') {
        mask_to_cidr(m)
    } else {
        match parse_uint(m, 255) {
            Some(x) => x as u8,
            None => 24,
        }
    }
}

/// The text after the last `"vlan "` in `s`.
fn after_last_vlan_exec(s: &Vec<char>) -> (r: Vec<char>)
    ensures
        r@ == after_last_vlan(s@),
    decreases s@.len(),
{
    proof { reveal_strlit("vlan "); }
    let n = s.len();
    match find_str(s, "vlan ") {
        Some(i) => {
            let rest = after_chars(s, i + 5);
            after_last_vlan_exec(&rest)
        },
        None => copy_all(s),
    }
}

fn copy_all(s: &Vec<char>) -> (r: Vec<char>)
    ensures
        r@ == s@,
{
    let r = crate::text::copy_range(s, 0, s.len());
    assert(s@.subrange(0, s@.len() as int) =~= s@);
    r
}

/// Appends a row of the brief interface table.
fn push_brief_row(out: &mut String, a: &str, b: &Vec<char>, c: &str, d: &str, e: &str)
    ensures
        final(out)@ == old(out)@ + brief_row(a@, b@, c@, d@, e@),
{
    let av = chars_of(a);
    push_padded(out, &av, 20);
    append_str(out, " ");
    push_padded(out, b, 16);
    append_str(out, " ");
    push_padded_str(out, c, 8);
    append_str(out, " ");
    push_padded_str(out, d, 12);
    append_str(out, " ");
    push_padded_str(out, e, 10);
    proof { reveal_strlit(" "); }
    assert(final(out)@ =~= old(out)@ + brief_row(a@, b@, c@, d@, e@));
}

/// The address column of a port: `ip/prefix` or `unassigned`.
fn address_column(p: &NetworkPort) -> (r: Vec<char>)
    ensures
        r@ == match p.config.ip_address {
            Some(ip) => ip@ + seq!['/'] + dec(prefix_or_24(p.config.subnet_mask)),
            None => "unassigned"@,
        },
{
    match &p.config.ip_address {
        Some(ip) => {
            let mut s = String::from_str(ip.as_str());
            append_str(&mut s, "/");
            let m: u8 = match p.config.subnet_mask {
                Some(m) => m,
                None => 24,
            };
            push_dec(&mut s, m as u64);
            proof { reveal_strlit("/"); }
            let r = chars_of(s.as_str());
            assert(r@ =~= ip@ + seq!['/'] + dec(prefix_or_24(p.config.subnet_mask)));
            r
        },
        None => chars_of("unassigned"),
    }
}

/// The brief interface table of a device.
pub fn generate_interface_brief(device: &NetworkDevice) -> (r: String)
    ensures
        r@ == interface_brief(*device),
{
    let mut out = String::new();
    push_brief_row(&mut out, "Interface", &chars_of("IP-Address"), "Status", "Protocol", "Mode");
    append_str(&mut out, "\n");
    push_repeat(&mut out, '-', 70);
    proof { reveal_strlit("\n"); }
    let ghost head = out@;
    let mut i: usize = 0;
    while i < device.ports.len()
        invariant
            i <= device.ports@.len(),
            out@ == head + brief_lines(device.ports@.take(i as int)),
        decreases device.ports.len() - i,
    {
        let p = &device.ports[i];
        assert(device.ports@.take(i + 1).drop_last() =~= device.ports@.take(i as int));
        let status = match p.status {
            LinkStatus::Up => "up",
            LinkStatus::Down => "down",
        };
        let protocol = if p.config.enabled { "up" } else { "down" };
        let mode = match p.config.mode {
            PortMode::Access => "access",
            PortMode::Trunk => "trunk",
            PortMode::Hybrid => "hybrid",
            PortMode::Routed => "routed",
        };
        proof { reveal_strlit("\n"); }
        append_str(&mut out, "\n");
        let name = p.name.as_str();
        push_brief_row(&mut out, name, &address_column(p), status, protocol, mode);
        i = i + 1;
        assert(out@ =~= head + brief_lines(device.ports@.take(i as int)));
    }
    assert(device.ports@.take(i as int) =~= device.ports@);
    out
}

fn push_detail_head(out: &mut String, port: &NetworkPort)
    ensures
        final(out)@ == old(out)@ + detail_head(*port),
{
    append_str(out, "Interface: ");
    append_str(out, port.name.as_str());
    append_str(out, "\n  Type: ");
    append_str(out, port_type_text(port.port_type));
    append_str(out, "\n  Status: ");
    append_str(out, status_text(port.status));
    append_str(out, "\n  Admin Status: ");
    append_str(out, if port.config.enabled { "up" } else { "administratively down" });
    append_str(out, "\n  Mode: ");
    append_str(out, mode_text(port.config.mode));
    assert(out@ =~= old(out)@ + detail_head(*port));
}

fn push_detail_address(out: &mut String, port: &NetworkPort)
    ensures
        final(out)@ == old(out)@ + match port.config.ip_address {
            Some(ip) => "\n  IP Address: "@ + ip@ + seq!['/'] + dec(prefix_or_24(port.config.subnet_mask)),
            None => seq![],
        },
{
    match &port.config.ip_address {
        Some(ip) => {
            append_str(out, "\n  IP Address: ");
            append_str(out, ip.as_str());
            append_str(out, "/");
            let m: u8 = match port.config.subnet_mask {
                Some(m) => m,
                None => 24,
            };
            push_dec(out, m as u64);
            proof { reveal_strlit("/"); }
            assert(out@ =~= old(out)@ + ("\n  IP Address: "@ + ip@ + seq!['/'] + dec(prefix_or_24(port.config.subnet_mask))));
        },
        None => {
            assert(out@ =~= old(out)@ + seq![]);
        },
    }
}

fn push_detail_rest(out: &mut String, port: &NetworkPort)
    ensures
        final(out)@ == old(out)@ + detail_rest(*port),
{
    match &port.config.description {
        Some(d) => {
            append_str(out, "\n  Description: ");
            append_str(out, d.as_str());
        },
        None => {},
    }
    match port.config.vlan {
        Some(v) => {
            append_str(out, "\n  VLAN: ");
            push_dec(out, v as u64);
        },
        None => {},
    }
    match &port.config.allowed_vlans {
        Some(vs) => {
            append_str(out, "\n  Allowed VLANs: ");
            push_ids(out, vs, ",");
        },
        None => {},
    }
    assert(out@ =~= old(out)@ + detail_rest(*port));
}

/// The detail lines of one port.
pub fn generate_interface_detail(port: &NetworkPort) -> (r: String)
    ensures
        r@ == interface_detail(*port),
{
    let mut out = String::new();
    push_detail_head(&mut out, port);
    push_detail_address(&mut out, port);
    push_detail_rest(&mut out, port);
    assert(out@ =~= interface_detail(*port));
    out
}

/// Handles interface commands; `None` where the command is not one of them.
pub fn handle_interface_commands(device: &mut NetworkDevice, cmd: &str, current_view: &CliView) -> (r:
    Option<CommandResult>)
    ensures
        opt_reply(r) == interface_reply(*old(device), cmd@, *current_view),
        interface_after(*old(device), *final(device), cmd@, *current_view),
{
    let c = chars_of(cmd);
    let view = *current_view;
    let ws = split_ws(&c);
    if has_prefix(&c, "interface ") {
        if view != CliView::SystemView && view != CliView::InterfaceView {
            return Some(view_error("system-view"));
        }
        if ws.len() < 2 {
            return Some(fail_lit("Incomplete command. Usage: interface <type><number>"));
        }
        let name = concat_from(&ws, 1);
        match find_named(&device.ports, &name) {
            Some(_) => {
                let mut out = String::from_str("Entered interface view for ");
                append_chars(&mut out, &name);
                return Some(
                    CommandResult { success: true, output: out, new_view: Some(CliView::InterfaceView), new_hostname: None },
                );
            },
            None => {
                let mut out = String::from_str("Error: Interface ");
                append_chars(&mut out, &name);
                append_str(&mut out, " not found.");
                return Some(CommandResult::error(out));
            },
        }
    }
    if is_lit(&c, "display ip interface brief") || is_lit(&c, "show ip interface brief") {
        return Some(CommandResult::success(generate_interface_brief(device)));
    }
    if has_prefix(&c, "display interface") || has_prefix(&c, "show interface") {
        if ws.len() >= 3 {
            let name = concat_from(&ws, 2);
            match find_named(&device.ports, &name) {
                Some(i) => {
                    proof { lemma_named_from_in_range(device.ports@, name@, 0); }
                    return Some(CommandResult::success(generate_interface_detail(&device.ports[i])));
                },
                None => {
                    let mut out = String::from_str("Error: Interface ");
                    append_chars(&mut out, &name);
                    append_str(&mut out, " not found.");
                    return Some(CommandResult::error(out));
                },
            }
        }
        let mut out = String::new();
        let mut i: usize = 0;
        while i < device.ports.len()
            invariant
                i <= device.ports@.len(),
                out@ == all_details(device.ports@.take(i as int)),
            decreases device.ports.len() - i,
        {
            assert(device.ports@.take(i + 1).drop_last() =~= device.ports@.take(i as int));
            let d = generate_interface_detail(&device.ports[i]);
            append_str(&mut out, d.as_str());
            append_str(&mut out, "\n");
            proof { reveal_strlit("\n"); }
            i = i + 1;
            assert(out@ =~= all_details(device.ports@.take(i as int)));
        }
        assert(device.ports@.take(i as int) =~= device.ports@);
        return Some(CommandResult::success(out));
    }
    let setting = is_port_setting_exec(&c);
    if !setting {
        return None;
    }
    if view != CliView::InterfaceView {
        return Some(view_error("interface-view"));
    }
    if has_prefix(&c, "ip address ") {
        if ws.len() < 4 {
            return Some(fail_lit("Error: Incomplete command. Usage: ip address <ip> <mask>"));
        }
        assert(views(ws@)[2] == ws@[2]@ && views(ws@)[3] == ws@[3]@);
        if !is_valid_ipv4(&ws[2]) {
            let mut out = String::from_str("Error: Invalid IP address '");
            append_chars(&mut out, &ws[2]);
            append_str(&mut out, "'");
            return Some(CommandResult::error(out));
        }
        let mask = parse_mask(&ws[3]);
        match find_routed(&device.ports) {
            Some(i) => {
                proof { lemma_routed_from_found(device.ports@, 0); }
                device.ports[i].config.ip_address = Some(string_of(&ws[2]));
                device.ports[i].config.subnet_mask = Some(mask);
                let mut out = String::from_str("IP address ");
                append_chars(&mut out, &ws[2]);
                append_str(&mut out, " ");
                append_chars(&mut out, &ws[3]);
                append_str(&mut out, " configured");
                proof { reveal_strlit(" "); }
                assert(out@ =~= "IP address "@ + views(ws@)[2] + seq![' '] + views(ws@)[3] + " configured"@);
                return Some(CommandResult::success(out));
            },
            None => {
                return Some(fail_lit("Error: No routed interface available"));
            },
        }
    }
    if is_lit(&c, "undo ip address") || is_lit(&c, "no ip address") {
        match find_addressed(&device.ports) {
            Some(i) => {
                proof { lemma_addressed_from_found(device.ports@, 0); }
                device.ports[i].config.ip_address = None;
                device.ports[i].config.subnet_mask = None;
                return Some(ok_lit("IP address removed"));
            },
            None => {
                return Some(fail_lit("Error: No IP address to remove"));
            },
        }
    }
    if is_lit(&c, "shutdown") {
        return Some(ok_lit("Interface administratively disabled"));
    }
    if is_lit(&c, "undo shutdown") || is_lit(&c, "no shutdown") {
        return Some(ok_lit("Interface enabled"));
    }
    if has_prefix(&c, "description ") {
        let desc = trim_chars(&after_chars(&c, 12));
        if desc.len() == 0 {
            return Some(fail_lit("Error: Description cannot be empty"));
        }
        let mut out = String::from_str("Description set to '");
        append_chars(&mut out, &desc);
        append_str(&mut out, "'");
        return Some(CommandResult::success(out));
    }
    if has_prefix(&c, "port link-type ") || has_prefix(&c, "switchport mode ") {
        let m = last_word_exec(&ws);
        if is_lit(&m, "access") || is_lit(&m, "trunk") || is_lit(&m, "hybrid") {
            let mut out = String::from_str("Port link-type set to ");
            append_chars(&mut out, &m);
            return Some(CommandResult::success(out));
        }
        let mut out = String::from_str("Error: Invalid port mode '");
        append_chars(&mut out, &m);
        append_str(&mut out, "'. Use access, trunk, or hybrid.");
        return Some(CommandResult::error(out));
    }
    if has_prefix(&c, "port default vlan ") || has_prefix(&c, "switchport access vlan ") {
        let m = last_word_exec(&ws);
        return match parse_uint(&m, 65535) {
            Some(n) => {
                if 1 <= n && n <= 4094 {
                    let mut out = String::from_str("Access VLAN set to ");
                    push_dec(&mut out, n);
                    Some(CommandResult::success(out))
                } else {
                    Some(fail_lit("Error: Invalid VLAN ID (1-4094)"))
                }
            },
            None => Some(fail_lit("Error: Invalid VLAN ID (1-4094)")),
        };
    }
    if has_prefix(&c, "port trunk allow-pass vlan ") || has_prefix(&c, "switchport trunk allowed vlan ") {
        let mut out = String::from_str("Trunk allowed VLANs set to: ");
        append_chars(&mut out, &after_last_vlan_exec(&c));
        return Some(CommandResult::success(out));
    }
    if has_prefix(&c, "speed ") {
        let mut out = String::from_str("Speed set to ");
        append_chars(&mut out, &trim_chars(&after_chars(&c, 6)));
        return Some(CommandResult::success(out));
    }
    let mut out = String::from_str("Duplex set to ");
    append_chars(&mut out, &trim_chars(&after_chars(&c, 7)));
    Some(CommandResult::success(out))
}

/// The last word, or nothing.
pub fn last_word_exec(ws: &Vec<Vec<char>>) -> (r: Vec<char>)
    ensures
        r@ == (if views(ws@).len() > 0 { views(ws@).last() } else { seq![] }),
{
    if ws.len() == 0 {
        Vec::new()
    } else {
        copy_all(&ws[ws.len() - 1])
    }
}

fn is_port_setting_exec(c: &Vec<char>) -> (r: bool)
    ensures
        r == is_port_setting(c@),
{
    has_prefix(c, "ip address ") || is_lit(c, "undo ip address") || is_lit(c, "no ip address") || is_lit(
        c,
        "shutdown",
    ) || is_lit(c, "undo shutdown") || is_lit(c, "no shutdown") || has_prefix(c, "description ")
        || has_prefix(c, "port link-type ") || has_prefix(c, "switchport mode ") || has_prefix(
        c,
        "port default vlan ",
    ) || has_prefix(c, "switchport access vlan ") || has_prefix(c, "port trunk allow-pass vlan ")
        || has_prefix(c, "switchport trunk allowed vlan ") || has_prefix(c, "speed ") || has_prefix(
        c,
        "duplex ",
    )
}

} // verus!
