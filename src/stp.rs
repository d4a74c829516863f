//! Spanning-tree commands: checked and acknowledged; no tree is computed.

use vstd::prelude::*;
use crate::cli::{fail, fail_lit, ok, ok_lit, opt_reply, CliView, CommandResult, Reply};
use crate::interface::last_word_exec;
use crate::network::NetworkDevice;
use crate::text::{
    after, after_chars, append_chars, append_str, chars_of, contains, dec, has_prefix, has_sub,
    is_lit, parse_uint, parse_unsigned, push_dec, split_ws, starts_with, trim, trim_chars,
    views, words,
};
use crate::vlan::last_word;

verus! {

/// The spanning-tree status display.
pub const STP_DISPLAY: &'static str = "Spanning Tree Protocol Status\n\
     \n\
     Mode: RSTP (Rapid Spanning Tree)\n\
     Bridge ID: 32768.0050.5600.0001\n\
     Root Bridge: 32768.0050.5600.0001 (This bridge is root)\n\
     \n\
     Interface       Role       State      Cost   Priority\n\
     -------------------------------------------------------\n\
     GE0/0/1         Designated Forwarding 20000  128\n\
     GE0/0/2         Designated Forwarding 20000  128\n\
     GE0/0/3         Designated Forwarding 20000  128\n\
     GE0/0/4         Root       Forwarding 20000  128\n\
     \n\
     Forward Delay: 15s, Max Age: 20s, Hello Time: 2s";

/// The spanning-tree summary display.
pub const STP_SUMMARY: &'static str = "STP Summary\n\
     \n\
     Bridge Mode: RSTP\n\
     Root Bridge: Yes (this switch)\n\
     Bridge Priority: 32768\n\
     Bridge MAC: 0050.5600.0001\n\
     Total Ports: 24\n\
     Forwarding: 4\n\
     Blocking: 0\n\
     Topology Changes: 0";

/// The lines shown for one port after its name.
pub const STP_PORT_STATE: &'static str = "\nPort Role: Designated\nPort State: Forwarding\nPort Cost: 20000\nPort Priority: 128\nDesignated Bridge: 32768.0050.5600.0001";

/// The first position at or after `j` of the word `priority`.
pub open spec fn priority_word_from(ws: Seq<Seq<char>>, j: int) -> Option<int>
    decreases ws.len() - j,
{
    if j < 0 || j >= ws.len() {
        None
    } else if ws[j] == "priority"@ {
        Some(j)
    } else {
        priority_word_from(ws, j + 1)
    }
}

/// A bridge priority is accepted when it is at most 61440 and a multiple of 4096.
pub open spec fn priority_ok(p: Option<nat>) -> bool {
    p is Some && p->Some_0 <= 61440 && p->Some_0 % 4096 == 0
}

/// A VLAN priority command that names its value.
pub open spec fn vlan_priority(c: Seq<char>) -> bool {
    let ws = words(c);
    starts_with(c, "spanning-tree vlan "@) && contains(c, "priority"@) && priority_word_from(ws, 0) is Some
        && ws.len() > priority_word_from(ws, 0)->Some_0 + 1
}

/// Mode and priority commands.
pub open spec fn stp_setup_reply(c: Seq<char>) -> Option<Reply> {
    let ws = words(c);
    if c == "stp enable"@ || c == "spanning-tree"@ {
        Some(ok("Spanning Tree Protocol enabled"@))
    } else if c == "undo stp enable"@ || c == "no spanning-tree"@ {
        Some(ok("Spanning Tree Protocol disabled"@))
    } else if starts_with(c, "stp mode "@) {
        let m = trim(after(c, 9));
        if m == "stp"@ {
            Some(ok("STP mode set to STP"@))
        } else if m == "rstp"@ {
            Some(ok("STP mode set to RSTP"@))
        } else if m == "mstp"@ {
            Some(ok("STP mode set to MSTP"@))
        } else {
            Some(fail("Error: Invalid mode '"@ + m + "'. Use stp, rstp, or mstp."@))
        }
    } else if starts_with(c, "spanning-tree mode "@) {
        Some(ok("Spanning tree mode set to "@ + trim(after(c, 19))))
    } else if starts_with(c, "stp priority "@) {
        let p = parse_unsigned(trim(after(c, 13)), 0xffff_ffff);
        if priority_ok(p) {
            Some(ok("Bridge priority set to "@ + dec(p->Some_0)))
        } else {
            Some(fail("Error: Priority must be 0-61440 in increments of 4096"@))
        }
    } else if vlan_priority(c) {
        Some(ok("VLAN bridge priority set to "@ + ws[priority_word_from(ws, 0)->Some_0 + 1]))
    } else {
        None
    }
}

/// Root, port and guard commands, and the displays.
pub open spec fn stp_port_reply(c: Seq<char>) -> Option<Reply> {
    if c == "stp root primary"@ {
        Some(ok("This switch is configured as root bridge (priority 0)"@))
    } else if starts_with(c, "spanning-tree vlan"@) && contains(c, "root primary"@) {
        Some(ok("This switch is configured as root bridge for specified VLANs"@))
    } else if c == "stp root secondary"@ || contains(c, "root secondary"@) {
        Some(ok("This switch is configured as secondary root bridge"@))
    } else if starts_with(c, "stp cost "@) || starts_with(c, "spanning-tree cost "@) {
        Some(ok("Port cost set to "@ + last_word(c)))
    } else if starts_with(c, "stp port-priority "@) || starts_with(c, "spanning-tree port-priority "@) {
        Some(ok("Port priority set to "@ + last_word(c)))
    } else if c == "stp edged-port enable"@ {
        Some(ok("Port configured as edge port (fast transition to forwarding)"@))
    } else if c == "spanning-tree portfast"@ {
        Some(ok("PortFast enabled on interface"@))
    } else if c == "stp bpdu-protection"@ {
        Some(ok("BPDU protection enabled"@))
    } else if c == "spanning-tree bpduguard enable"@ || c == "spanning-tree portfast bpduguard default"@ {
        Some(ok("BPDU guard enabled"@))
    } else if c == "stp root-protection"@ || c == "spanning-tree guard root"@ {
        Some(ok("Root guard enabled on port"@))
    } else if c == "stp loop-protection"@ || c == "spanning-tree guard loop"@ {
        Some(ok("Loop guard enabled on port"@))
    } else if c == "display stp"@ || c == "show spanning-tree"@ {
        Some(ok(STP_DISPLAY@))
    } else if c == "display stp brief"@ || c == "show spanning-tree summary"@ {
        Some(ok(STP_SUMMARY@))
    } else if starts_with(c, "display stp interface"@) || starts_with(c, "show spanning-tree interface"@) {
        Some(ok("STP Port State for "@ + last_word(c) + STP_PORT_STATE@))
    } else {
        None
    }
}

/// The reply of the spanning-tree handler; `None` where the command is not one of its commands.
pub open spec fn stp_reply(c: Seq<char>) -> Option<Reply> {
    if stp_setup_reply(c) is Some {
        stp_setup_reply(c)
    } else {
        stp_port_reply(c)
    }
}

fn find_priority_word(ws: &Vec<Vec<char>>) -> (r: Option<usize>)
    ensures
        match r {
            Some(i) => priority_word_from(views(ws@), 0) == Some(i as int) && i < ws@.len(),
            None => priority_word_from(views(ws@), 0) is None,
        },
{
    let mut i: usize = 0;
    while i < ws.len()
        invariant
            i <= ws@.len(),
            priority_word_from(views(ws@), 0) == priority_word_from(views(ws@), i as int),
        decreases ws.len() - i,
    {
        assert(views(ws@)[i as int] == ws@[i as int]@);
        if is_lit(&ws[i], "priority") {
            return Some(i);
        }
        i = i + 1;
    }
    None
}

fn stp_setup_exec(c: &Vec<char>) -> (r: Option<CommandResult>)
    ensures
        opt_reply(r) == stp_setup_reply(c@),
{
    let ws = split_ws(c);
    if is_lit(c, "stp enable") || is_lit(c, "spanning-tree") {
        return Some(ok_lit("Spanning Tree Protocol enabled"));
    }
    if is_lit(c, "undo stp enable") || is_lit(c, "no spanning-tree") {
        return Some(ok_lit("Spanning Tree Protocol disabled"));
    }
    if has_prefix(c, "stp mode ") {
        let m = trim_chars(&after_chars(c, 9));
        if is_lit(&m, "stp") {
            return Some(ok_lit("STP mode set to STP"));
        } else if is_lit(&m, "rstp") {
            return Some(ok_lit("STP mode set to RSTP"));
        } else if is_lit(&m, "mstp") {
            return Some(ok_lit("STP mode set to MSTP"));
        }
        let mut o = String::from_str("Error: Invalid mode '");
        append_chars(&mut o, &m);
        append_str(&mut o, "'. Use stp, rstp, or mstp.");
        return Some(CommandResult::error(o));
    }
    if has_prefix(c, "spanning-tree mode ") {
        let mut o = String::from_str("Spanning tree mode set to ");
        append_chars(&mut o, &trim_chars(&after_chars(c, 19)));
        return Some(CommandResult::success(o));
    }
    if has_prefix(c, "stp priority ") {
        let p = parse_uint(&trim_chars(&after_chars(c, 13)), 0xffff_ffff);
        match p {
            Some(v) => {
                if v <= 61440 && v % 4096 == 0 {
                    let mut o = String::from_str("Bridge priority set to ");
                    push_dec(&mut o, v);
                    return Some(CommandResult::success(o));
                }
            },
            None => {},
        }
        return Some(fail_lit("Error: Priority must be 0-61440 in increments of 4096"));
    }
    if has_prefix(c, "spanning-tree vlan ") && has_sub(c, "priority") {
        match find_priority_word(&ws) {
            Some(i) => {
                if ws.len() > i + 1 {
                    assert(views(ws@)[i + 1] == ws@[i + 1]@);
                    let mut o = String::from_str("VLAN bridge priority set to ");
                    append_chars(&mut o, &ws[i + 1]);
                    return Some(CommandResult::success(o));
                }
            },
            None => {},
        }
    }
    None
}

fn stp_port_exec(c: &Vec<char>) -> (r: Option<CommandResult>)
    ensures
        opt_reply(r) == stp_port_reply(c@),
{
    let ws = split_ws(c);
    if is_lit(c, "stp root primary") {
        return Some(ok_lit("This switch is configured as root bridge (priority 0)"));
    }
    if has_prefix(c, "spanning-tree vlan") && has_sub(c, "root primary") {
        return Some(ok_lit("This switch is configured as root bridge for specified VLANs"));
    }
    if is_lit(c, "stp root secondary") || has_sub(c, "root secondary") {
        return Some(ok_lit("This switch is configured as secondary root bridge"));
    }
    if has_prefix(c, "stp cost ") || has_prefix(c, "spanning-tree cost ") {
        let mut o = String::from_str("Port cost set to ");
        append_chars(&mut o, &last_word_exec(&ws));
        return Some(CommandResult::success(o));
    }
    if has_prefix(c, "stp port-priority ") || has_prefix(c, "spanning-tree port-priority ") {
        let mut o = String::from_str("Port priority set to ");
        append_chars(&mut o, &last_word_exec(&ws));
        return Some(CommandResult::success(o));
    }
    if is_lit(c, "stp edged-port enable") {
        return Some(ok_lit("Port configured as edge port (fast transition to forwarding)"));
    }
    if is_lit(c, "spanning-tree portfast") {
        return Some(ok_lit("PortFast enabled on interface"));
    }
    if is_lit(c, "stp bpdu-protection") {
        return Some(ok_lit("BPDU protection enabled"));
    }
    if is_lit(c, "spanning-tree bpduguard enable") || is_lit(c, "spanning-tree portfast bpduguard default") {
        return Some(ok_lit("BPDU guard enabled"));
    }
    if is_lit(c, "stp root-protection") || is_lit(c, "spanning-tree guard root") {
        return Some(ok_lit("Root guard enabled on port"));
    }
    if is_lit(c, "stp loop-protection") || is_lit(c, "spanning-tree guard loop") {
        return Some(ok_lit("Loop guard enabled on port"));
    }
    if is_lit(c, "display stp") || is_lit(c, "show spanning-tree") {
        return Some(CommandResult::success(generate_stp_display()));
    }
    if is_lit(c, "display stp brief") || is_lit(c, "show spanning-tree summary") {
        return Some(CommandResult::success(generate_stp_summary()));
    }
    if has_prefix(c, "display stp interface") || has_prefix(c, "show spanning-tree interface") {
        let mut o = String::from_str("STP Port State for ");
        append_chars(&mut o, &last_word_exec(&ws));
        append_str(&mut o, STP_PORT_STATE);
        return Some(CommandResult::success(o));
    }
    None
}

/// Handles spanning-tree commands; they change nothing on the device.
pub fn handle_stp_commands(_device: &mut NetworkDevice, cmd: &str, _current_view: &CliView) -> (r:
    Option<CommandResult>)
    ensures
        opt_reply(r) == stp_reply(cmd@),
        *final(_device) == *old(_device),
{
    let c = chars_of(cmd);
    match stp_setup_exec(&c) {
        Some(r) => Some(r),
        None => stp_port_exec(&c),
    }
}

/// The spanning-tree status display.
pub fn generate_stp_display() -> (r: String)
    ensures
        r@ == STP_DISPLAY@,
{
    String::from_str(STP_DISPLAY)
}

/// The spanning-tree summary display.
pub fn generate_stp_summary() -> (r: String)
    ensures
        r@ == STP_SUMMARY@,
{
    String::from_str(STP_SUMMARY)
}

} // verus!
