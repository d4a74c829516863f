//! ACL, port-security, AAA and line commands: acknowledged, never stored or enforced.

use vstd::prelude::*;
use crate::cli::{ok, ok_lit, opt_reply, CliView, CommandResult, Reply};
use crate::interface::last_word_exec;
use crate::network::NetworkDevice;
use crate::text::{
    after, after_chars, append_chars, append_str, chars_of, contains, has_prefix, has_sub,
    is_lit, split_ws, starts_with, trim, trim_chars, views, words,
};
use crate::vlan::last_word;

verus! {

/// The ACL listing.
pub const ACL_DISPLAY: &'static str = "Access Control Lists\n\
     \n\
     ACL 2000 (Basic ACL)\n\
     Rule 5 permit source 192.168.1.0 0.0.0.255\n\
     Rule 10 permit source 10.0.0.0 0.255.255.255\n\
     Rule 100 deny source any\n\
     \n\
     ACL 3000 (Advanced ACL)\n\
     Rule 5 permit ip source 192.168.1.0 0.0.0.255 destination 172.16.0.0 0.0.255.255\n\
     Rule 10 deny ip source any destination any\n\
     \n\
     (Simulated ACLs - configure with 'acl number <id>')";

/// The port-security listing.
pub const PORT_SECURITY_DISPLAY: &'static str = "Port Security Status\n\
     \n\
     Interface       Max    Current  Violation  Action\n\
     -------------------------------------------------\n\
     GE0/0/1         3      1        0          Protect\n\
     GE0/0/2         5      2        0          Restrict\n\
     GE0/0/3         1      1        1          Shutdown\n\
     \n\
     Total ports with security: 3\n\
     Total violations: 1";

/// The lines shown for one ACL after its id.
pub const ACL_RULES: &'static str = "\nRule 5 permit source 192.168.1.0 0.0.0.255\nRule 10 deny source any\n(Simulated ACL - configure with 'acl number <id>')";

/// ACL commands.
pub open spec fn acl_reply(c: Seq<char>) -> Option<Reply> {
    let ws = words(c);
    if (starts_with(c, "acl number "@) || starts_with(c, "acl name "@)) && ws.len() >= 3 {
        Some(ok("ACL "@ + ws[2] + " created. Entering ACL configuration."@))
    } else if starts_with(c, "access-list "@) && ws.len() >= 4 {
        Some(ok("ACL "@ + ws[1] + " rule added: "@ + ws[2] + seq![' '] + ws[3]))
    } else if starts_with(c, "ip access-list "@) && ws.len() >= 4 {
        Some(ok(ws[2] + " ACL '"@ + ws[3] + "' created. Entering ACL configuration."@))
    } else if starts_with(c, "rule "@) && ws.len() >= 4 {
        Some(ok("Rule "@ + ws[1] + " ("@ + ws[2] + ") added successfully"@))
    } else if starts_with(c, "permit "@) {
        Some(ok("permit "@ + trim(after(c, 6)) + " - rule added"@))
    } else if starts_with(c, "deny "@) {
        Some(ok("deny "@ + trim(after(c, 4)) + " - rule added"@))
    } else if starts_with(c, "undo acl "@) || starts_with(c, "no access-list "@) || starts_with(c, "no ip access-list "@) {
        Some(ok("ACL "@ + last_word(c) + " deleted"@))
    } else if starts_with(c, "traffic-filter "@) && ws.len() >= 4 {
        Some(ok("ACL "@ + last_word(c) + " applied "@ + ws[1] + " on interface"@))
    } else if starts_with(c, "ip access-group "@) && ws.len() >= 4 {
        Some(ok("ACL "@ + ws[2] + " applied "@ + ws[3] + " on interface"@))
    } else if c == "display acl all"@ || c == "show access-lists"@ || c == "show ip access-lists"@ {
        Some(ok(ACL_DISPLAY@))
    } else if starts_with(c, "display acl "@) || starts_with(c, "show access-list "@) {
        Some(ok("ACL "@ + last_word(c) + ACL_RULES@))
    } else {
        None
    }
}

/// Port-security, AAA, line and SSH commands.
pub open spec fn access_reply(c: Seq<char>) -> Option<Reply> {
    let ws = words(c);
    if c == "port-security enable"@ || c == "switchport port-security"@ {
        Some(ok("Port security enabled on interface"@))
    } else if starts_with(c, "port-security max-mac-num "@) || starts_with(c, "switchport port-security maximum "@) {
        Some(ok("Maximum MAC addresses set to "@ + last_word(c)))
    } else if starts_with(c, "port-security protect-action "@) || starts_with(c, "switchport port-security violation "@) {
        Some(ok("Violation action set to '"@ + last_word(c) + "'"@))
    } else if c == "switchport port-security mac-address sticky"@ {
        Some(ok("Sticky MAC address learning enabled"@))
    } else if c == "display port-security"@ || c == "show port-security"@ || c == "show port-security interface"@ {
        Some(ok(PORT_SECURITY_DISPLAY@))
    } else if c == "aaa"@ || c == "aaa new-model"@ {
        Some(ok("AAA enabled"@))
    } else if starts_with(c, "local-user "@) && ws.len() >= 2 {
        Some(ok("Local user '"@ + ws[1] + "' configuration"@))
    } else if starts_with(c, "username "@) && ws.len() >= 2 {
        Some(ok("Username '"@ + ws[1] + "' configured"@))
    } else if starts_with(c, "enable secret "@) || starts_with(c, "enable password "@) {
        Some(ok("Enable password configured"@))
    } else if starts_with(c, "line console "@) || starts_with(c, "line vty "@) {
        Some(ok("Entering "@ + (if contains(c, "console"@) { "console"@ } else { "vty"@ }) + " line configuration"@))
    } else if c == "login local"@ || c == "login"@ {
        Some(ok("Login authentication configured"@))
    } else if starts_with(c, "password "@) {
        Some(ok("Password configured"@))
    } else if starts_with(c, "ssh server enable"@) || c == "ip ssh version 2"@ {
        Some(ok("SSH server enabled"@))
    } else if starts_with(c, "transport input "@) {
        Some(ok("Transport input set to: "@ + after(c, 16)))
    } else {
        None
    }
}

/// The reply of the security handler; `None` where the command is not a security command.
pub open spec fn security_reply(c: Seq<char>) -> Option<Reply> {
    if acl_reply(c) is Some {
        acl_reply(c)
    } else {
        access_reply(c)
    }
}

fn w(ws: &Vec<Vec<char>>, k: usize) -> (r: &Vec<char>)
    requires
        k < ws@.len(),
    ensures
        r@ == views(ws@)[k as int],
{
    &ws[k]
}

fn cat(out: &mut String, t: &Vec<char>)
    ensures
        final(out)@ == old(out)@ + t@,
{
    append_chars(out, t);
}

fn acl_exec(c: &Vec<char>) -> (r: Option<CommandResult>)
    ensures
        opt_reply(r) == acl_reply(c@),
{
    let ws = split_ws(c);
    let n = ws.len();
    if (has_prefix(c, "acl number ") || has_prefix(c, "acl name ")) && n >= 3 {
        let mut o = String::from_str("ACL ");
        cat(&mut o, w(&ws, 2));
        append_str(&mut o, " created. Entering ACL configuration.");
        return Some(CommandResult::success(o));
    }
    if has_prefix(c, "access-list ") && n >= 4 {
        let mut o = String::from_str("ACL ");
        cat(&mut o, w(&ws, 1));
        append_str(&mut o, " rule added: ");
        cat(&mut o, w(&ws, 2));
        append_str(&mut o, " ");
        cat(&mut o, w(&ws, 3));
        proof { reveal_strlit(" "); }
        assert(o@ =~= "ACL "@ + views(ws@)[1] + " rule added: "@ + views(ws@)[2] + seq![' '] + views(ws@)[3]);
        return Some(CommandResult::success(o));
    }
    if has_prefix(c, "ip access-list ") && n >= 4 {
        let mut o = String::new();
        cat(&mut o, w(&ws, 2));
        append_str(&mut o, " ACL '");
        cat(&mut o, w(&ws, 3));
        append_str(&mut o, "' created. Entering ACL configuration.");
        assert(o@ =~= views(ws@)[2] + " ACL '"@ + views(ws@)[3] + "' created. Entering ACL configuration."@);
        return Some(CommandResult::success(o));
    }
    if has_prefix(c, "rule ") && n >= 4 {
        let mut o = String::from_str("Rule ");
        cat(&mut o, w(&ws, 1));
        append_str(&mut o, " (");
        cat(&mut o, w(&ws, 2));
        append_str(&mut o, ") added successfully");
        return Some(CommandResult::success(o));
    }
    if has_prefix(c, "permit ") {
        let mut o = String::from_str("permit ");
        cat(&mut o, &trim_chars(&after_chars(c, 6)));
        append_str(&mut o, " - rule added");
        return Some(CommandResult::success(o));
    }
    if has_prefix(c, "deny ") {
        let mut o = String::from_str("deny ");
        cat(&mut o, &trim_chars(&after_chars(c, 4)));
        append_str(&mut o, " - rule added");
        return Some(CommandResult::success(o));
    }
    if has_prefix(c, "undo acl ") || has_prefix(c, "no access-list ") || has_prefix(c, "no ip access-list ") {
        let mut o = String::from_str("ACL ");
        cat(&mut o, &last_word_exec(&ws));
        append_str(&mut o, " deleted");
        return Some(CommandResult::success(o));
    }
    if has_prefix(c, "traffic-filter ") && n >= 4 {
        let mut o = String::from_str("ACL ");
        cat(&mut o, &last_word_exec(&ws));
        append_str(&mut o, " applied ");
        cat(&mut o, w(&ws, 1));
        append_str(&mut o, " on interface");
        return Some(CommandResult::success(o));
    }
    if has_prefix(c, "ip access-group ") && n >= 4 {
        let mut o = String::from_str("ACL ");
        cat(&mut o, w(&ws, 2));
        append_str(&mut o, " applied ");
        cat(&mut o, w(&ws, 3));
        append_str(&mut o, " on interface");
        return Some(CommandResult::success(o));
    }
    if is_lit(c, "display acl all") || is_lit(c, "show access-lists") || is_lit(c, "show ip access-lists") {
        return Some(CommandResult::success(generate_acl_display()));
    }
    if has_prefix(c, "display acl ") || has_prefix(c, "show access-list ") {
        let mut o = String::from_str("ACL ");
        cat(&mut o, &last_word_exec(&ws));
        append_str(&mut o, ACL_RULES);
        return Some(CommandResult::success(o));
    }
    None
}

fn access_exec(c: &Vec<char>) -> (r: Option<CommandResult>)
    ensures
        opt_reply(r) == access_reply(c@),
{
    let ws = split_ws(c);
    let n = ws.len();
    if is_lit(c, "port-security enable") || is_lit(c, "switchport port-security") {
        return Some(ok_lit("Port security enabled on interface"));
    }
    if has_prefix(c, "port-security max-mac-num ") || has_prefix(c, "switchport port-security maximum ") {
        let mut o = String::from_str("Maximum MAC addresses set to ");
        cat(&mut o, &last_word_exec(&ws));
        return Some(CommandResult::success(o));
    }
    if has_prefix(c, "port-security protect-action ") || has_prefix(c, "switchport port-security violation ") {
        let mut o = String::from_str("Violation action set to '");
        cat(&mut o, &last_word_exec(&ws));
        append_str(&mut o, "'");
        return Some(CommandResult::success(o));
    }
    if is_lit(c, "switchport port-security mac-address sticky") {
        return Some(ok_lit("Sticky MAC address learning enabled"));
    }
    if is_lit(c, "display port-security") || is_lit(c, "show port-security") || is_lit(c, "show port-security interface") {
        return Some(CommandResult::success(generate_port_security_display()));
    }
    if is_lit(c, "aaa") || is_lit(c, "aaa new-model") {
        return Some(ok_lit("AAA enabled"));
    }
    if has_prefix(c, "local-user ") && n >= 2 {
        let mut o = String::from_str("Local user '");
        cat(&mut o, w(&ws, 1));
        append_str(&mut o, "' configuration");
        return Some(CommandResult::success(o));
    }
    if has_prefix(c, "username ") && n >= 2 {
        let mut o = String::from_str("Username '");
        cat(&mut o, w(&ws, 1));
        append_str(&mut o, "' configured");
        return Some(CommandResult::success(o));
    }
    if has_prefix(c, "enable secret ") || has_prefix(c, "enable password ") {
        return Some(ok_lit("Enable password configured"));
    }
    if has_prefix(c, "line console ") || has_prefix(c, "line vty ") {
        let mut o = String::from_str("Entering ");
        append_str(&mut o, if has_sub(c, "console") { "console" } else { "vty" });
        append_str(&mut o, " line configuration");
        return Some(CommandResult::success(o));
    }
    if is_lit(c, "login local") || is_lit(c, "login") {
        return Some(ok_lit("Login authentication configured"));
    }
    if has_prefix(c, "password ") {
        return Some(ok_lit("Password configured"));
    }
    if has_prefix(c, "ssh server enable") || is_lit(c, "ip ssh version 2") {
        return Some(ok_lit("SSH server enabled"));
    }
    if has_prefix(c, "transport input ") {
        let mut o = String::from_str("Transport input set to: ");
        cat(&mut o, &after_chars(c, 16));
        return Some(CommandResult::success(o));
    }
    None
}

/// Handles ACL and access-security commands; they change nothing on the device.
pub fn handle_security_commands(_device: &mut NetworkDevice, cmd: &str, _current_view: &CliView) -> (r:
    Option<CommandResult>)
    ensures
        opt_reply(r) == security_reply(cmd@),
        *final(_device) == *old(_device),
{
    let c = chars_of(cmd);
    match acl_exec(&c) {
        Some(r) => Some(r),
        None => access_exec(&c),
    }
}

/// The ACL listing.
pub fn generate_acl_display() -> (r: String)
    ensures
        r@ == ACL_DISPLAY@,
{
    String::from_str(ACL_DISPLAY)
}

/// The port-security listing.
pub fn generate_port_security_display() -> (r: String)
    ensures
        r@ == PORT_SECURITY_DISPLAY@,
{
    String::from_str(PORT_SECURITY_DISPLAY)
}

} // verus!
