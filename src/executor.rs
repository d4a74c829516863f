//! The command dispatcher: device lookup, normalisation, navigation, then the handlers in
//! a fixed order, first claim wins.

use vstd::prelude::*;
use crate::cli::{fail, ok_to, CliView, CommandResult, Reply};
use crate::dhcp::{
    dhcp_after, dhcp_display, dhcp_reply, handle_dhcp_commands, is_dhcp_off, is_dhcp_on,
    is_pool_create,
};
use crate::interface::{handle_interface_commands, interface_after, interface_reply};
use crate::lag::{handle_lag_commands, lag_reply};
use crate::network::NetworkDevice;
use crate::pc::{handle_pc_commands, pc_after, pc_reply};
use crate::routing::{
    handle_routing_commands, is_bgp_off, is_bgp_on, is_ospf_off, is_ospf_on, is_static_add,
    is_static_del, routing_after, routing_display, routing_reply,
};
use crate::security::{handle_security_commands, security_reply};
use crate::state::{device_index, find_device, ids_unique, NetworkState};
use crate::stp::{handle_stp_commands, stp_reply};
use crate::system::{handle_system_commands, is_rename, is_reset_name, system_after, system_reply};
use crate::text::{
    append_str, chars_of, contains, is_lit, lower_of, lowercase, starts_with, string_of, trim,
    trim_chars,
};
use crate::vlan::{handle_vlan_commands, vlan_after, vlan_reply, NEED_SYSTEM_VIEW};

verus! {

/// The view that `exit` / `quit` returns to.
pub open spec fn parent_view(v: CliView) -> CliView {
    match v {
        CliView::InterfaceView => CliView::SystemView,
        CliView::SystemView => CliView::UserView,
        CliView::BgpView => CliView::SystemView,
        CliView::PoolView => CliView::SystemView,
        CliView::AclView => CliView::SystemView,
        _ => CliView::UserView,
    }
}

/// A command as the handlers read it: trimmed, then lower-cased.
pub open spec fn normalized(command: Seq<char>) -> Seq<char> {
    lower_of(trim(command))
}

/// The failure for a command that no handler claims; it quotes the command as given.
pub open spec fn unrecognized(command: Seq<char>) -> Seq<char> {
    "Error: Unrecognized command '"@ + command + "' (Engine Fallback Triggered)"@
}

pub open spec fn is_exit(c: Seq<char>) -> bool {
    c == "exit"@ || c == "quit"@
}

/// The reply to normalised command `c`, issued to device `i` in view `v`: navigation first,
/// then the first handler that claims the command.
pub open spec fn dispatch_reply(st: NetworkState, i: int, c: Seq<char>, v: CliView, command: Seq<char>) -> Reply {
    let d = st.devices@[i];
    if is_exit(c) {
        ok_to(seq![], parent_view(v))
    } else if system_reply(d, c, v) is Some {
        system_reply(d, c, v)->Some_0
    } else if interface_reply(d, c, v) is Some {
        interface_reply(d, c, v)->Some_0
    } else if vlan_reply(d, c, v) is Some {
        vlan_reply(d, c, v)->Some_0
    } else if routing_reply(d, c, v) is Some {
        routing_reply(d, c, v)->Some_0
    } else if pc_reply(st, i, c) is Some {
        pc_reply(st, i, c)->Some_0
    } else if dhcp_reply(d, c, v) is Some {
        dhcp_reply(d, c, v)->Some_0
    } else if security_reply(c) is Some {
        security_reply(c)->Some_0
    } else if stp_reply(c) is Some {
        stp_reply(c)->Some_0
    } else if lag_reply(c) is Some {
        lag_reply(c)->Some_0
    } else {
        fail(unrecognized(command))
    }
}

/// Every device but `i` is as it was, and the cables too.
pub open spec fn others_kept(st: NetworkState, st2: NetworkState, i: int) -> bool {
    st2.cables == st.cables && st2.devices@.len() == st.devices@.len() && forall|k: int|
        0 <= k < st.devices@.len() && k != i ==> st2.devices@[k] == st.devices@[k]
}

/// How the store changes: the claiming handler's change to device `i`, nothing else.
pub open spec fn dispatch_after(st: NetworkState, st2: NetworkState, i: int, c: Seq<char>, v: CliView) -> bool {
    let d = st.devices@[i];
    let e = st2.devices@[i];
    if is_exit(c) {
        st2.devices@ == st.devices@ && st2.cables == st.cables
    } else if system_reply(d, c, v) is Some {
        others_kept(st, st2, i) && system_after(d, e, c, v)
    } else if interface_reply(d, c, v) is Some {
        others_kept(st, st2, i) && interface_after(d, e, c, v)
    } else if vlan_reply(d, c, v) is Some {
        others_kept(st, st2, i) && vlan_after(d, e, c, v)
    } else if routing_reply(d, c, v) is Some {
        others_kept(st, st2, i) && routing_after(d, e, c, v)
    } else if pc_reply(st, i, c) is Some {
        pc_after(st, st2, i, c)
    } else if dhcp_reply(d, c, v) is Some {
        others_kept(st, st2, i) && dhcp_after(d, e, c, v)
    } else {
        st2.devices@ == st.devices@ && st2.cables == st.cables
    }
}

/// VLAN creation, batch creation and deletion, as the VLAN handler reads them.
pub open spec fn vlan_gated(c: Seq<char>) -> bool {
    !(c == "display vlan"@ || c == "show vlan"@ || c == "show vlan brief"@) && !(starts_with(c, "display vlan "@)
        || starts_with(c, "show vlan id "@)) && ((starts_with(c, "vlan "@) && !contains(c, "batch"@))
        || starts_with(c, "vlan batch "@) || starts_with(c, "undo vlan "@) || starts_with(c, "no vlan "@))
}

/// Static routes and the OSPF and BGP commands, as the routing handler reads them.
pub open spec fn routing_gated(d: NetworkDevice, c: Seq<char>) -> bool {
    routing_display(d, c) is None && (is_static_add(c) || is_static_del(c) || is_ospf_on(c) || is_ospf_off(c)
        || starts_with(c, "area "@) || starts_with(c, "network "@) || is_bgp_on(c) || is_bgp_off(c)
        || starts_with(c, "peer "@) || starts_with(c, "neighbor "@))
}

/// The DHCP service switch and pool creation, as the DHCP handler reads them.
pub open spec fn dhcp_gated(d: NetworkDevice, c: Seq<char>) -> bool {
    dhcp_display(d, c) is None && (is_dhcp_on(c) || is_dhcp_off(c) || is_pool_create(c))
}

/// The handler that claims `c` reserves it for system view.
pub open spec fn needs_system_view(st: NetworkState, i: int, c: Seq<char>, v: CliView) -> bool {
    let d = st.devices@[i];
    !is_exit(c) && if system_reply(d, c, v) is Some {
        is_rename(c) || is_reset_name(c)
    } else if interface_reply(d, c, v) is Some {
        false
    } else if vlan_reply(d, c, v) is Some {
        vlan_gated(c)
    } else if routing_reply(d, c, v) is Some {
        routing_gated(d, c)
    } else if pc_reply(st, i, c) is Some {
        false
    } else if dhcp_reply(d, c, v) is Some {
        dhcp_gated(d, c)
    } else {
        false
    }
}

/// A command reserved for system view, issued from user view or interface view, fails with
/// the message that names system view and leaves every device and cable as it was.
pub proof fn lemma_system_view_gate(st: NetworkState, st2: NetworkState, i: int, c: Seq<char>, v: CliView, command: Seq<char>)
    requires
        0 <= i < st.devices@.len(),
        v == CliView::UserView || v == CliView::InterfaceView,
        needs_system_view(st, i, c, v),
        dispatch_after(st, st2, i, c, v),
    ensures
        !dispatch_reply(st, i, c, v, command).success,
        dispatch_reply(st, i, c, v, command).output == NEED_SYSTEM_VIEW@,
        st2.devices@ == st.devices@,
        st2.cables == st.cables,
{
    assert(st2.devices@ =~= st.devices@);
}

/// Runs the normalised command `c` on device `i`; `command` is the text as given, which the
/// failure for an unclaimed command quotes.
pub fn dispatch(state: &mut NetworkState, i: usize, c: &str, current_view: CliView, command: &str) -> (r: CommandResult)
    requires
        i < old(state).devices@.len(),
    ensures
        r@ == dispatch_reply(*old(state), i as int, c@, current_view, command@),
        dispatch_after(*old(state), *final(state), i as int, c@, current_view),
{
    let cv = chars_of(c);
    if is_lit(&cv, "exit") || is_lit(&cv, "quit") {
        let new_view = match current_view {
            CliView::InterfaceView => CliView::SystemView,
            CliView::SystemView => CliView::UserView,
            CliView::BgpView => CliView::SystemView,
            CliView::PoolView => CliView::SystemView,
            CliView::AclView => CliView::SystemView,
            _ => CliView::UserView,
        };
        return CommandResult { success: true, output: String::new(), new_view: Some(new_view), new_hostname: None };
    }
    let ghost st0 = *state;
    match handle_system_commands(&mut state.devices[i], c, &current_view) {
        Some(res) => return res,
        None => {},
    }
    assert(state.devices@ =~= st0.devices@);
    match handle_interface_commands(&mut state.devices[i], c, &current_view) {
        Some(res) => return res,
        None => {},
    }
    assert(state.devices@ =~= st0.devices@);
    match handle_vlan_commands(&mut state.devices[i], c, &current_view) {
        Some(res) => return res,
        None => {},
    }
    assert(state.devices@ =~= st0.devices@);
    match handle_routing_commands(&mut state.devices[i], c, &current_view) {
        Some(res) => return res,
        None => {},
    }
    assert(state.devices@ =~= st0.devices@);
    proof { crate::pc::lemma_pc_views(st0, *state, i as int, c@); }
    match handle_pc_commands(state, i, c) {
        Some(res) => return res,
        None => {},
    }
    match handle_dhcp_commands(&mut state.devices[i], c, &current_view) {
        Some(res) => return res,
        None => {},
    }
    assert(state.devices@ =~= st0.devices@);
    match handle_security_commands(&mut state.devices[i], c, &current_view) {
        Some(res) => return res,
        None => {},
    }
    match handle_stp_commands(&mut state.devices[i], c, &current_view) {
        Some(res) => return res,
        None => {},
    }
    match handle_lag_commands(&mut state.devices[i], c, &current_view) {
        Some(res) => return res,
        None => {},
    }
    assert(state.devices@ =~= st0.devices@);
    let mut out = String::from_str("Error: Unrecognized command '");
    append_str(&mut out, command);
    append_str(&mut out, "' (Engine Fallback Triggered)");
    CommandResult::error(out)
}

/// No command changes a device id, nor how many devices there are.
pub proof fn lemma_dispatch_keeps_ids(st: NetworkState, st2: NetworkState, i: int, c: Seq<char>, v: CliView)
    requires
        0 <= i < st.devices@.len(),
        dispatch_after(st, st2, i, c, v),
    ensures
        st2.devices@.len() == st.devices@.len(),
        forall|k: int| 0 <= k < st.devices@.len() ==> #[trigger] st2.devices@[k].id == st.devices@[k].id,
        ids_unique(st.devices@) ==> ids_unique(st2.devices@),
{
    assert forall|k: int| 0 <= k < st.devices@.len() implies #[trigger] st2.devices@[k].id == st.devices@[k].id by {
        if k != i {
        }
    }
    if ids_unique(st.devices@) {
        assert forall|a: int, b: int| 0 <= a < b < st2.devices@.len() implies st2.devices@[a].id@
            != st2.devices@[b].id@ by {
            assert(st2.devices@[a].id == st.devices@[a].id);
            assert(st2.devices@[b].id == st.devices@[b].id);
        }
    }
}

/// Runs `command` on the device `device_id` in view `current_view`. An unknown device gives
/// a failure and changes nothing; otherwise the command is trimmed and lower-cased and
/// dispatched.
pub fn execute_command(state: &mut NetworkState, device_id: &str, command: &str, current_view: CliView) -> (r:
    CommandResult)
    ensures
        match find_device(old(state).devices@, device_id@) {
            None => r@ == fail("Device not found"@) && *final(state) == *old(state),
            Some(i) => r@ == dispatch_reply(*old(state), i, normalized(command@), current_view, command@)
                && dispatch_after(*old(state), *final(state), i, normalized(command@), current_view),
        },
        old(state).wf() ==> final(state).wf(),
{
    let i = match device_index(&state.devices, device_id) {
        Some(i) => i,
        None => return CommandResult::error(String::from_str("Device not found")),
    };
    let trimmed = string_of(&trim_chars(&chars_of(command)));
    let c = lowercase(trimmed.as_str());
    let ghost st0 = *state;
    let r = dispatch(state, i, c.as_str(), current_view, command);
    proof { lemma_dispatch_keeps_ids(st0, *state, i as int, c@, current_view); }
    r
}

} // verus!

