//! Link-aggregation commands: acknowledged; no LACP state is kept.

use vstd::prelude::*;
use crate::cli::{ok, ok_lit, opt_reply, CliView, CommandResult, Reply};
use crate::interface::last_word_exec;
use crate::network::NetworkDevice;
use crate::text::{
    after, after_chars, append_chars, append_str, chars_of, has_prefix, is_lit, split_ws,
    starts_with, trim, trim_chars, views, words,
};
use crate::vlan::last_word;

verus! {

/// The Eth-Trunk summary.
pub const LAG_HUAWEI: &'static str = "Eth-Trunk Summary\n\
     \n\
     Trunk ID    Mode        Status    Member Ports\n\
     ------------------------------------------------\n\
     Eth-Trunk1  LACP        Up        GE0/0/1, GE0/0/2\n\
     Eth-Trunk2  Manual      Down      (no members)\n\
     \n\
     Load Balance: src-dst-mac\n\
     LACP Priority: 32768";

/// The EtherChannel summary.
pub const LAG_CISCO: &'static str = "EtherChannel Summary\n\
     \n\
     Group  Port-channel  Protocol    Ports\n\
     ------------------------------------------\n\
     1      Po1(SU)       LACP        Gi0/1(P) Gi0/2(P)\n\
     2      Po2(SD)       -           (none)\n\
     \n\
     Flags:  D - down        P - bundled in port-channel\n\
     I - stand-alone s - suspended\n\
     H - Hot-standby R - Layer3      S - Layer2\n\
     U - in use      N - not in use";

/// The EtherChannel detail display.
pub const ETHERCHANNEL_DETAIL: &'static str = "Port-Channel 1:\n\
     Ports: 2\n\
     Port-state: Port-channel Ag-Inuse\n\
     Protocol: LACP\n\
     \n\
     Age of the Port-channel: 0d:00h:15m:30s\n\
     Last bundled: 0d:00h:15m:30s\n\
     \n\
     Member Ports:\n\
     Port: Gi0/1 (Active)\n\
     Port: Gi0/2 (Active)";

/// The LACP display.
pub const LACP_INFO: &'static str = "LACP Information\n\
     \n\
     System Priority: 32768\n\
     System MAC: 0050.5600.0001\n\
     \n\
     Port          Partner     Partner  State\n\
     Port          System ID   Port\n\
     ------------------------------------------\n\
     GE0/0/1       32768.0050  Gi0/1    Active\n\
     GE0/0/2       32768.0050  Gi0/2    Active";

/// Creation and membership commands.
pub open spec fn lag_setup_reply(c: Seq<char>) -> Option<Reply> {
    let ws = words(c);
    if starts_with(c, "interface eth-trunk "@) {
        Some(ok("Eth-Trunk "@ + trim(after(c, 20)) + " created. Entering interface configuration."@))
    } else if starts_with(c, "interface port-channel "@) {
        Some(ok("Port-channel "@ + trim(after(c, 23)) + " created. Entering interface configuration."@))
    } else if starts_with(c, "eth-trunk "@) {
        Some(ok("Interface added to Eth-Trunk "@ + trim(after(c, 10))))
    } else if starts_with(c, "channel-group "@) && ws.len() >= 4 {
        Some(ok("Interface added to channel-group "@ + ws[1] + " mode "@ + ws[3]))
    } else if starts_with(c, "channel-group "@) && ws.len() >= 2 {
        Some(ok("Interface added to channel-group "@ + ws[1]))
    } else if starts_with(c, "mode lacp"@) || c == "mode lacp-static"@ {
        Some(ok("LACP mode configured"@))
    } else if c == "mode manual load-balance"@ {
        Some(ok("Manual load balance mode configured"@))
    } else {
        None
    }
}

/// Balancing, LACP and removal commands, and the displays.
pub open spec fn lag_tune_reply(c: Seq<char>) -> Option<Reply> {
    if starts_with(c, "load-balance "@) {
        Some(ok("Load balance method set to "@ + trim(after(c, 13))))
    } else if starts_with(c, "port-channel load-balance "@) {
        Some(ok("Port-channel load balance set to "@ + trim(after(c, 26))))
    } else if starts_with(c, "lacp priority "@) {
        Some(ok("LACP system priority set to "@ + trim(after(c, 14))))
    } else if starts_with(c, "lacp timeout "@) || starts_with(c, "lacp rate "@) {
        Some(ok("LACP timeout set to "@ + last_word(c)))
    } else if starts_with(c, "max active-linknumber "@) || starts_with(c, "lacp max-bundle "@) {
        Some(ok("Maximum active links set to "@ + last_word(c)))
    } else if starts_with(c, "undo interface eth-trunk "@) {
        Some(ok("Eth-Trunk "@ + last_word(c) + " deleted"@))
    } else if starts_with(c, "no interface port-channel "@) {
        Some(ok("Port-channel "@ + last_word(c) + " deleted"@))
    } else if c == "display eth-trunk"@ || starts_with(c, "display eth-trunk "@) {
        Some(ok(LAG_HUAWEI@))
    } else if c == "show etherchannel summary"@ || c == "show etherchannel"@ {
        Some(ok(LAG_CISCO@))
    } else if c == "show etherchannel detail"@ {
        Some(ok(ETHERCHANNEL_DETAIL@))
    } else if c == "display lacp"@ || c == "show lacp neighbor"@ {
        Some(ok(LACP_INFO@))
    } else {
        None
    }
}

/// The reply of the link-aggregation handler; `None` where the command is not one of its commands.
pub open spec fn lag_reply(c: Seq<char>) -> Option<Reply> {
    if lag_setup_reply(c) is Some {
        lag_setup_reply(c)
    } else {
        lag_tune_reply(c)
    }
}

/// `a`, then `t`, then `b`.
fn say(a: &str, t: &Vec<char>, b: &str) -> (r: CommandResult)
    ensures
        r@ == ok(a@ + t@ + b@),
{
    let mut o = String::from_str(a);
    append_chars(&mut o, t);
    append_str(&mut o, b);
    CommandResult::success(o)
}

/// `a`, then `t`.
fn say2(a: &str, t: &Vec<char>) -> (r: CommandResult)
    ensures
        r@ == ok(a@ + t@),
{
    let mut o = String::from_str(a);
    append_chars(&mut o, t);
    CommandResult::success(o)
}

fn lag_setup_exec(c: &Vec<char>) -> (r: Option<CommandResult>)
    ensures
        opt_reply(r) == lag_setup_reply(c@),
{
    let ws = split_ws(c);
    if has_prefix(c, "interface eth-trunk ") {
        return Some(say("Eth-Trunk ", &trim_chars(&after_chars(c, 20)), " created. Entering interface configuration."));
    }
    if has_prefix(c, "interface port-channel ") {
        return Some(say("Port-channel ", &trim_chars(&after_chars(c, 23)), " created. Entering interface configuration."));
    }
    if has_prefix(c, "eth-trunk ") {
        return Some(say2("Interface added to Eth-Trunk ", &trim_chars(&after_chars(c, 10))));
    }
    if has_prefix(c, "channel-group ") {
        if ws.len() >= 4 {
            assert(views(ws@)[1] == ws@[1]@ && views(ws@)[3] == ws@[3]@);
            let mut o = String::from_str("Interface added to channel-group ");
            append_chars(&mut o, &ws[1]);
            append_str(&mut o, " mode ");
            append_chars(&mut o, &ws[3]);
            return Some(CommandResult::success(o));
        }
        if ws.len() >= 2 {
            assert(views(ws@)[1] == ws@[1]@);
            return Some(say2("Interface added to channel-group ", &ws[1]));
        }
    }
    if has_prefix(c, "mode lacp") || is_lit(c, "mode lacp-static") {
        return Some(ok_lit("LACP mode configured"));
    }
    if is_lit(c, "mode manual load-balance") {
        return Some(ok_lit("Manual load balance mode configured"));
    }
    None
}

fn lag_tune_exec(c: &Vec<char>) -> (r: Option<CommandResult>)
    ensures
        opt_reply(r) == lag_tune_reply(c@),
{
    let ws = split_ws(c);
    if has_prefix(c, "load-balance ") {
        return Some(say2("Load balance method set to ", &trim_chars(&after_chars(c, 13))));
    }
    if has_prefix(c, "port-channel load-balance ") {
        return Some(say2("Port-channel load balance set to ", &trim_chars(&after_chars(c, 26))));
    }
    if has_prefix(c, "lacp priority ") {
        return Some(say2("LACP system priority set to ", &trim_chars(&after_chars(c, 14))));
    }
    if has_prefix(c, "lacp timeout ") || has_prefix(c, "lacp rate ") {
        return Some(say2("LACP timeout set to ", &last_word_exec(&ws)));
    }
    if has_prefix(c, "max active-linknumber ") || has_prefix(c, "lacp max-bundle ") {
        return Some(say2("Maximum active links set to ", &last_word_exec(&ws)));
    }
    if has_prefix(c, "undo interface eth-trunk ") {
        return Some(say("Eth-Trunk ", &last_word_exec(&ws), " deleted"));
    }
    if has_prefix(c, "no interface port-channel ") {
        return Some(say("Port-channel ", &last_word_exec(&ws), " deleted"));
    }
    if is_lit(c, "display eth-trunk") || has_prefix(c, "display eth-trunk ") {
        return Some(CommandResult::success(generate_lag_display_huawei()));
    }
    if is_lit(c, "show etherchannel summary") || is_lit(c, "show etherchannel") {
        return Some(CommandResult::success(generate_lag_display_cisco()));
    }
    if is_lit(c, "show etherchannel detail") {
        return Some(ok_lit(ETHERCHANNEL_DETAIL));
    }
    if is_lit(c, "display lacp") || is_lit(c, "show lacp neighbor") {
        return Some(ok_lit(LACP_INFO));
    }
    None
}

/// Handles link-aggregation commands; they change nothing on the device.
pub fn handle_lag_commands(_device: &mut NetworkDevice, cmd: &str, _current_view: &CliView) -> (r:
    Option<CommandResult>)
    ensures
        opt_reply(r) == lag_reply(cmd@),
        *final(_device) == *old(_device),
{
    let c = chars_of(cmd);
    match lag_setup_exec(&c) {
        Some(r) => Some(r),
        None => lag_tune_exec(&c),
    }
}

/// The Eth-Trunk summary.
pub fn generate_lag_display_huawei() -> (r: String)
    ensures
        r@ == LAG_HUAWEI@,
{
    String::from_str(LAG_HUAWEI)
}

/// The EtherChannel summary.
pub fn generate_lag_display_cisco() -> (r: String)
    ensures
        r@ == LAG_CISCO@,
{
    String::from_str(LAG_CISCO)
}

} // verus!
