//! Navigation, host name, version, saving and the running configuration.

use vstd::prelude::*;
use crate::addr::{cidr_to_mask, mask_text};
use crate::cli::{fail, fail_lit, ok, ok_lit, ok_to, opt_reply, CliView, CommandResult, Reply};
use crate::network::{
    ids_text, push_ids, vendor_name, vendor_text, NetworkDevice, NetworkPort, PortConfig,
    PortMode,
};
use crate::text::{
    after, after_chars, append_chars, append_str, utf8_longer_than, char_alnum, chars_of, dec,
    is_alnum, is_lit, has_prefix, push_dec, starts_with, string_of, trim, trim_chars, utf8_len,
};
use crate::vlan::NEED_SYSTEM_VIEW;

verus! {

/// The list of commands shown by `help`.
pub const HELP_TEXT: &'static str = "Available commands:\n\
     \n\
     Navigation:\n\
     - system-view / configure terminal  Enter configuration mode\n\
     - return / end                      Return to user view\n\
     - exit / quit                       Exit current view\n\
     \n\
     System:\n\
     - sysname <name> / hostname <name>  Set device hostname (requires system-view)\n\
     - display version / show version   Display system version\n\
     - display current-configuration    Show running config\n\
     - save / write memory              Save configuration\n\
     \n\
     Interface:\n\
     - interface <name>                 Enter interface config\n\
     - display ip interface brief       Show IP summary\n";

/// The host name that `undo sysname` restores.
pub const DEFAULT_HOSTNAME: &'static str = "Router";

/// Characters allowed in a host name: alphanumeric, `-` and `_`.
pub open spec fn hostname_chars_ok(s: Seq<char>) -> bool {
    forall|i: int| 0 <= i < s.len() ==> is_alnum(#[trigger] s[i]) || s[i] == '-' || s[i] == '_'
}

/// The host name that a `sysname` / `hostname` command gives.
pub open spec fn new_name(c: Seq<char>) -> Seq<char> {
    trim(after(c, if starts_with(c, "sysname "@) { 8 } else { 9 }))
}

pub open spec fn is_rename(c: Seq<char>) -> bool {
    c != "return"@ && c != "end"@ && (starts_with(c, "sysname "@) || starts_with(c, "hostname "@))
}

pub open spec fn is_reset_name(c: Seq<char>) -> bool {
    c != "return"@ && c != "end"@ && !starts_with(c, "sysname "@) && !starts_with(c, "hostname "@) && (c
        == "undo sysname"@ || c == "no hostname"@)
}

/// The version banner of a device.
pub open spec fn version_text(d: NetworkDevice) -> Seq<char> {
    "NetSim OS Software, Version 1.0.0\nCopyright (C) 2024-2026 NetSim Community\n\nDevice:    "@
        + d.hostname@ + "\nModel:     "@ + d.model@ + "\nVendor:    "@ + vendor_name(d.vendor)
        + "\nUptime:    0 days, 0 hours, 0 minutes\nWASM Engine: Rust/WebAssembly v0.1.0"@
}

/// The configuration lines of a port's mode.
pub open spec fn mode_lines(cfg: PortConfig) -> Seq<char> {
    match cfg.mode {
        PortMode::Access => "\n port link-type access"@ + match cfg.vlan {
            Some(v) => "\n port default vlan "@ + dec(v as nat),
            None => seq![],
        },
        PortMode::Trunk => "\n port link-type trunk"@ + match cfg.allowed_vlans {
            Some(vs) => "\n port trunk allow-pass vlan "@ + ids_text(vs@, " "@),
            None => seq![],
        },
        PortMode::Hybrid => "\n port link-type hybrid"@,
        PortMode::Routed => match cfg.ip_address {
            Some(ip) => "\n ip address "@ + ip@ + " "@ + mask_text(
                match cfg.subnet_mask {
                    Some(m) => m as nat,
                    None => 24,
                },
            ),
            None => seq![],
        },
    }
}

/// The configuration block of a port, preceded by a line break.
pub open spec fn port_block(p: NetworkPort) -> Seq<char> {
    "\ninterface "@ + p.name@ + match p.config.description {
        Some(d) => "\n description "@ + d@,
        None => seq![],
    } + mode_lines(p.config) + if !p.config.enabled {
        "\n shutdown"@
    } else {
        seq![]
    } + "\n!"@
}

pub open spec fn port_blocks(ps: Seq<NetworkPort>) -> Seq<char>
    decreases ps.len(),
{
    if ps.len() == 0 {
        seq![]
    } else {
        port_blocks(ps.drop_last()) + port_block(ps.last())
    }
}

pub open spec fn vlan_lines(vs: Seq<u16>) -> Seq<char>
    decreases vs.len(),
{
    if vs.len() == 0 {
        seq![]
    } else {
        vlan_lines(vs.drop_last()) + "\nvlan "@ + dec(vs.last() as nat)
    }
}

/// The running configuration of a device.
pub open spec fn running_config(d: NetworkDevice) -> Seq<char> {
    "!\n! NetSim Configuration - "@ + d.hostname@ + "\n! Generated by WASM Engine\n!\nhostname "@
        + d.hostname@ + "\n!"@ + (if d.vlans@.len() > 0 {
        vlan_lines(d.vlans@) + "\n!"@
    } else {
        seq![]
    }) + port_blocks(d.ports@) + (if d.ospf_enabled == Some(true) {
        "\nrouter ospf 1\n area 0\n!"@
    } else {
        seq![]
    }) + (if d.bgp_enabled == Some(true) {
        "\nbgp\n!"@
    } else {
        seq![]
    }) + "\n!\nend"@
}

/// The reply of the system handler; `None` where the command is not a system command.
pub open spec fn system_reply(d: NetworkDevice, c: Seq<char>, v: CliView) -> Option<Reply> {
    if c == "return"@ || c == "end"@ {
        Some(ok_to(seq![], CliView::UserView))
    } else if starts_with(c, "sysname "@) || starts_with(c, "hostname "@) {
        let name = new_name(c);
        if v != CliView::SystemView {
            Some(fail(NEED_SYSTEM_VIEW@))
        } else if name.len() == 0 {
            Some(fail("Error: Hostname cannot be empty."@))
        } else if utf8_len(name) > 64 {
            Some(fail("Error: Hostname too long (max 64 characters)."@))
        } else if !hostname_chars_ok(name) {
            Some(fail("Error: Invalid hostname. Use alphanumeric characters, hyphens, or underscores only."@))
        } else {
            Some(Reply { success: true, output: "Hostname set to '"@ + name + "'"@, new_view: None, new_hostname: Some(name) })
        }
    } else if c == "undo sysname"@ || c == "no hostname"@ {
        if v != CliView::SystemView {
            Some(fail(NEED_SYSTEM_VIEW@))
        } else {
            Some(Reply { success: true, output: "Hostname reset to default."@, new_view: None, new_hostname: Some(DEFAULT_HOSTNAME@) })
        }
    } else if c == "system-view"@ || c == "configure terminal"@ || c == "conf t"@ {
        Some(ok_to("Enter configuration commands, one per line. End with CNTL/Z."@, CliView::SystemView))
    } else if c == "display version"@ || c == "show version"@ {
        Some(ok(version_text(d)))
    } else if c == "display current-configuration"@ || c == "show running-config"@ || c == "show run"@ {
        Some(ok(running_config(d)))
    } else if c == "display saved-configuration"@ || c == "show startup-config"@ {
        Some(ok("!\n! Last saved configuration\n!\nhostname "@ + d.hostname@ + "\n!\n! (Saved configuration not available in simulation)"@))
    } else if c == "save"@ || c == "write"@ || c == "write memory"@ || c == "copy running-config startup-config"@ {
        Some(ok("Configuration saved successfully."@))
    } else if c == "display history-command"@ || c == "show history"@ {
        Some(ok("(Command history feature not yet implemented in WASM engine)"@))
    } else if c == "?"@ || c == "help"@ {
        Some(ok(HELP_TEXT@))
    } else {
        None
    }
}

/// The device is the same but for its host name.
pub open spec fn same_but_hostname(a: NetworkDevice, b: NetworkDevice) -> bool {
    a.id == b.id && a.device_type == b.device_type && a.vendor == b.vendor && a.model == b.model
        && a.ports == b.ports && a.vlans == b.vlans && a.ospf_enabled == b.ospf_enabled
        && a.bgp_enabled == b.bgp_enabled && a.dhcp_enabled == b.dhcp_enabled
}

/// How the system handler changes the device: only an accepted rename or a reset of the
/// name changes it, and only its host name.
pub open spec fn system_after(d: NetworkDevice, e: NetworkDevice, c: Seq<char>, v: CliView) -> bool {
    let name = new_name(c);
    if is_rename(c) && v == CliView::SystemView && name.len() > 0 && utf8_len(name) <= 64
        && hostname_chars_ok(name) {
        same_but_hostname(d, e) && e.hostname@ == name
    } else if is_reset_name(c) && v == CliView::SystemView {
        same_but_hostname(d, e) && e.hostname@ == DEFAULT_HOSTNAME@
    } else {
        e == d
    }
}

fn name_chars_ok(s: &Vec<char>) -> (r: bool)
    ensures
        r == hostname_chars_ok(s@),
{
    let mut i: usize = 0;
    while i < s.len()
        invariant
            i <= s@.len(),
            forall|k: int| 0 <= k < i ==> is_alnum(#[trigger] s@[k]) || s@[k] == '-' || s@[k] == '_',
        decreases s.len() - i,
    {
        let c = s[i];
        if !(char_alnum(c) || c == '-' || c == '_') {
            return false;
        }
        i = i + 1;
    }
    true
}

/// Appends the configuration block of a port.
fn push_port_block(out: &mut String, p: &NetworkPort)
    ensures
        final(out)@ == old(out)@ + port_block(*p),
{
    let ghost o = out@;
    append_str(out, "\ninterface ");
    append_str(out, p.name.as_str());
    match &p.config.description {
        Some(d) => {
            append_str(out, "\n description ");
            append_str(out, d.as_str());
        },
        None => {},
    }
    push_mode_lines(out, &p.config);
    if !p.config.enabled {
        append_str(out, "\n shutdown");
    }
    append_str(out, "\n!");
    assert(out@ =~= o + port_block(*p));
}

/// Appends the configuration lines of a port's mode.
fn push_mode_lines(out: &mut String, cfg: &PortConfig)
    ensures
        final(out)@ == old(out)@ + mode_lines(*cfg),
{
    let ghost b = out@;
    match cfg.mode {
        PortMode::Access => {
            append_str(out, "\n port link-type access");
            match cfg.vlan {
                Some(v) => {
                    append_str(out, "\n port default vlan ");
                    push_dec(out, v as u64);
                },
                None => {},
            }
        },
        PortMode::Trunk => {
            append_str(out, "\n port link-type trunk");
            match &cfg.allowed_vlans {
                Some(vs) => {
                    append_str(out, "\n port trunk allow-pass vlan ");
                    push_ids(out, vs, " ");
                },
                None => {},
            }
        },
        PortMode::Hybrid => {
            append_str(out, "\n port link-type hybrid");
        },
        PortMode::Routed => {
            match &cfg.ip_address {
                Some(ip) => {
                    let mask: u8 = match cfg.subnet_mask {
                        Some(m) => m,
                        None => 24,
                    };
                    append_str(out, "\n ip address ");
                    append_str(out, ip.as_str());
                    append_str(out, " ");
                    let m = cidr_to_mask(mask);
                    append_str(out, m.as_str());
                },
                None => {},
            }
        },
    }
    assert(out@ =~= b + mode_lines(*cfg));
}

/// The running configuration of a device, in its command syntax.
pub fn generate_running_config(device: &NetworkDevice) -> (r: String)
    ensures
        r@ == running_config(*device),
{
    let mut out = String::from_str("!\n! NetSim Configuration - ");
    append_str(&mut out, device.hostname.as_str());
    append_str(&mut out, "\n! Generated by WASM Engine\n!\nhostname ");
    append_str(&mut out, device.hostname.as_str());
    append_str(&mut out, "\n!");
    let ghost h = out@;
    if device.vlans.len() > 0 {
        let mut i: usize = 0;
        while i < device.vlans.len()
            invariant
                i <= device.vlans@.len(),
                out@ == h + vlan_lines(device.vlans@.take(i as int)),
            decreases device.vlans.len() - i,
        {
            assert(device.vlans@.take(i + 1).drop_last() =~= device.vlans@.take(i as int));
            append_str(&mut out, "\nvlan ");
            push_dec(&mut out, device.vlans[i] as u64);
            i = i + 1;
            assert(out@ =~= h + vlan_lines(device.vlans@.take(i as int)));
        }
        assert(device.vlans@.take(i as int) =~= device.vlans@);
        append_str(&mut out, "\n!");
    }
    let ghost g = out@;
    let mut i: usize = 0;
    while i < device.ports.len()
        invariant
            i <= device.ports@.len(),
            out@ == g + port_blocks(device.ports@.take(i as int)),
        decreases device.ports.len() - i,
    {
        assert(device.ports@.take(i + 1).drop_last() =~= device.ports@.take(i as int));
        push_port_block(&mut out, &device.ports[i]);
        i = i + 1;
        assert(out@ =~= g + port_blocks(device.ports@.take(i as int)));
    }
    assert(device.ports@.take(i as int) =~= device.ports@);
    if device.ospf_enabled == Some(true) {
        append_str(&mut out, "\nrouter ospf 1\n area 0\n!");
    }
    if device.bgp_enabled == Some(true) {
        append_str(&mut out, "\nbgp\n!");
    }
    append_str(&mut out, "\n!\nend");
    assert(out@ =~= running_config(*device));
    out
}

/// Handles navigation and system commands; `None` where the command is not one of them.
pub fn handle_system_commands(device: &mut NetworkDevice, cmd: &str, current_view: &CliView) -> (r:
    Option<CommandResult>)
    ensures
        opt_reply(r) == system_reply(*old(device), cmd@, *current_view),
        system_after(*old(device), *final(device), cmd@, *current_view),
{
    let c = chars_of(cmd);
    let view = *current_view;
    if is_lit(&c, "return") || is_lit(&c, "end") {
        return Some(
            CommandResult {
                success: true,
                output: String::new(),
                new_view: Some(CliView::UserView),
                new_hostname: None,
            },
        );
    }
    if has_prefix(&c, "sysname ") || has_prefix(&c, "hostname ") {
        if view != CliView::SystemView {
            return Some(fail_lit(NEED_SYSTEM_VIEW));
        }
        let skip: usize = if has_prefix(&c, "sysname ") { 8 } else { 9 };
        let name = trim_chars(&after_chars(&c, skip));
        if name.len() == 0 {
            return Some(fail_lit("Error: Hostname cannot be empty."));
        }
        if utf8_longer_than(&name, 64) {
            return Some(fail_lit("Error: Hostname too long (max 64 characters)."));
        }
        if !name_chars_ok(&name) {
            return Some(
                fail_lit("Error: Invalid hostname. Use alphanumeric characters, hyphens, or underscores only."),
            );
        }
        device.hostname = string_of(&name);
        let mut out = String::from_str("Hostname set to '");
        append_chars(&mut out, &name);
        append_str(&mut out, "'");
        return Some(
            CommandResult { success: true, output: out, new_view: None, new_hostname: Some(string_of(&name)) },
        );
    }
    if is_lit(&c, "undo sysname") || is_lit(&c, "no hostname") {
        if view != CliView::SystemView {
            return Some(fail_lit(NEED_SYSTEM_VIEW));
        }
        device.hostname = String::from_str(DEFAULT_HOSTNAME);
        return Some(
            CommandResult {
                success: true,
                output: String::from_str("Hostname reset to default."),
                new_view: None,
                new_hostname: Some(String::from_str(DEFAULT_HOSTNAME)),
            },
        );
    }
    if is_lit(&c, "system-view") || is_lit(&c, "configure terminal") || is_lit(&c, "conf t") {
        return Some(
            CommandResult {
                success: true,
                output: String::from_str("Enter configuration commands, one per line. End with CNTL/Z."),
                new_view: Some(CliView::SystemView),
                new_hostname: None,
            },
        );
    }
    if is_lit(&c, "display version") || is_lit(&c, "show version") {
        let mut out = String::from_str(
            "NetSim OS Software, Version 1.0.0\nCopyright (C) 2024-2026 NetSim Community\n\nDevice:    ",
        );
        append_str(&mut out, device.hostname.as_str());
        append_str(&mut out, "\nModel:     ");
        append_str(&mut out, device.model.as_str());
        append_str(&mut out, "\nVendor:    ");
        append_str(&mut out, vendor_text(device.vendor));
        append_str(&mut out, "\nUptime:    0 days, 0 hours, 0 minutes\nWASM Engine: Rust/WebAssembly v0.1.0");
        return Some(CommandResult::success(out));
    }
    if is_lit(&c, "display current-configuration") || is_lit(&c, "show running-config") || is_lit(&c, "show run") {
        return Some(CommandResult::success(generate_running_config(device)));
    }
    if is_lit(&c, "display saved-configuration") || is_lit(&c, "show startup-config") {
        let mut out = String::from_str("!\n! Last saved configuration\n!\nhostname ");
        append_str(&mut out, device.hostname.as_str());
        append_str(&mut out, "\n!\n! (Saved configuration not available in simulation)");
        return Some(CommandResult::success(out));
    }
    if is_lit(&c, "save") || is_lit(&c, "write") || is_lit(&c, "write memory") || is_lit(
        &c,
        "copy running-config startup-config",
    ) {
        return Some(ok_lit("Configuration saved successfully."));
    }
    if is_lit(&c, "display history-command") || is_lit(&c, "show history") {
        return Some(ok_lit("(Command history feature not yet implemented in WASM engine)"));
    }
    if is_lit(&c, "?") || is_lit(&c, "help") {
        return Some(ok_lit(HELP_TEXT));
    }
    None
}

} // verus!
