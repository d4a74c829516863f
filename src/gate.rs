//! Which handler claims a command: each handler declines commands that begin unlike its
//! keywords, so the commands reserved for system view reach the handler that refuses them.

use vstd::prelude::*;
use crate::cli::CliView;
use crate::dhcp::dhcp_display;
use crate::executor::{
    dispatch_after, dispatch_reply, is_exit, lemma_system_view_gate, needs_system_view,
};
use crate::interface::interface_reply;
use crate::network::NetworkDevice;
use crate::pc::pc_reply;
use crate::routing::{routing_display, routing_reply};
use crate::state::NetworkState;
use crate::system::system_reply;
use crate::text::{after, contains, lemma_find_skip, lemma_lit_head, lemma_mismatch, starts_with};
use crate::vlan::{vlan_reply, NEED_SYSTEM_VIEW};

verus! {

/// Host-name changes and resets.
pub open spec fn host_only(c: Seq<char>) -> bool {
    starts_with(c, "sysname "@) || starts_with(c, "hostname "@) || c == "undo sysname"@
        || c == "no hostname"@
}

/// VLAN creation, batch creation and deletion.
pub open spec fn vlan_only(c: Seq<char>) -> bool {
    (starts_with(c, "vlan "@) && !contains(c, "batch"@)) || starts_with(c, "vlan batch "@)
        || starts_with(c, "undo vlan "@) || starts_with(c, "no vlan "@)
}

/// Static routes and the OSPF and BGP switches.
pub open spec fn route_only(c: Seq<char>) -> bool {
    starts_with(c, "ip route-static "@) || starts_with(c, "ip route "@)
        || starts_with(c, "undo ip route-static "@) || starts_with(c, "no ip route "@)
        || starts_with(c, "ospf "@) || starts_with(c, "router ospf "@) || c == "undo ospf"@
        || c == "no router ospf"@ || starts_with(c, "bgp "@) || starts_with(c, "router bgp "@)
        || c == "undo bgp"@ || starts_with(c, "no router bgp"@)
}

/// The DHCP service switch.
pub open spec fn dhcp_only(c: Seq<char>) -> bool {
    c == "dhcp enable"@ || c == "service dhcp"@ || c == "undo dhcp enable"@
        || c == "no service dhcp"@
}

/// Normalised commands that only system view may issue: host-name changes, VLAN creation,
/// batch creation and deletion, static routes, the OSPF and BGP switches and the DHCP switch,
/// in the dialects that the handlers read.
pub open spec fn system_only(c: Seq<char>) -> bool {
    host_only(c) || vlan_only(c) || route_only(c) || dhcp_only(c)
}

/// Issued from user view or interface view, each command that only system view may issue
/// reaches a handler that refuses it: the reply fails with the message naming system view, and
/// every device and cable stays as it was. (`execute_command` hands the dispatcher the command
/// trimmed and lower-cased.)
pub proof fn lemma_system_only_refused(
    st: NetworkState,
    st2: NetworkState,
    i: int,
    c: Seq<char>,
    v: CliView,
    command: Seq<char>,
)
    requires
        0 <= i < st.devices@.len(),
        v == CliView::UserView || v == CliView::InterfaceView,
        system_only(c),
        dispatch_after(st, st2, i, c, v),
    ensures
        !dispatch_reply(st, i, c, v, command).success,
        dispatch_reply(st, i, c, v, command).output == NEED_SYSTEM_VIEW@,
        st2.devices@ == st.devices@,
        st2.cables == st.cables,
{
    if host_only(c) {
        lemma_host_group(st, i, c, v);
    } else if vlan_only(c) {
        lemma_vlan_group(st, i, c, v);
    } else if route_only(c) {
        lemma_route_group(st, i, c, v);
    } else {
        lemma_dhcp_group(st, i, c, v);
    }
    lemma_system_view_gate(st, st2, i, c, v, command);
}

proof fn lemma_host_group(st: NetworkState, i: int, c: Seq<char>, v: CliView)
    requires
        0 <= i < st.devices@.len(),
        v == CliView::UserView || v == CliView::InterfaceView,
        host_only(c),
    ensures
        needs_system_view(st, i, c, v),
{
    reveal_strlit("sysname ");
    reveal_strlit("hostname ");
    reveal_strlit("undo sysname");
    reveal_strlit("no hostname");
    if starts_with(c, "sysname "@) {
        assert(c =~= "sysname "@ + after(c, 8));
        lemma_refused_sysname(st, i, after(c, 8), v);
    } else if starts_with(c, "hostname "@) {
        assert(c =~= "hostname "@ + after(c, 9));
        lemma_refused_hostname(st, i, after(c, 9), v);
    } else if c == "undo sysname"@ {
        lemma_refused_undo_sysname(st, i, v);
    } else if c == "no hostname"@ {
        lemma_refused_no_hostname(st, i, v);
    }
}

proof fn lemma_vlan_group(st: NetworkState, i: int, c: Seq<char>, v: CliView)
    requires
        0 <= i < st.devices@.len(),
        v == CliView::UserView || v == CliView::InterfaceView,
        vlan_only(c),
    ensures
        needs_system_view(st, i, c, v),
{
    reveal_strlit("vlan ");
    reveal_strlit("vlan batch ");
    reveal_strlit("undo vlan ");
    reveal_strlit("no vlan ");
    if (starts_with(c, "vlan "@) && !contains(c, "batch"@)) {
        assert(c =~= "vlan "@ + after(c, 5));
        lemma_refused_vlan(st, i, after(c, 5), v);
    } else if starts_with(c, "vlan batch "@) {
        assert(c =~= "vlan batch "@ + after(c, 11));
        lemma_refused_vlan_batch(st, i, after(c, 11), v);
    } else if starts_with(c, "undo vlan "@) {
        assert(c =~= "undo vlan "@ + after(c, 10));
        lemma_refused_undo_vlan(st, i, after(c, 10), v);
    } else if starts_with(c, "no vlan "@) {
        assert(c =~= "no vlan "@ + after(c, 8));
        lemma_refused_no_vlan(st, i, after(c, 8), v);
    }
}

proof fn lemma_route_group(st: NetworkState, i: int, c: Seq<char>, v: CliView)
    requires
        0 <= i < st.devices@.len(),
        v == CliView::UserView || v == CliView::InterfaceView,
        route_only(c),
    ensures
        needs_system_view(st, i, c, v),
{
    reveal_strlit("ip route-static ");
    reveal_strlit("ip route ");
    reveal_strlit("undo ip route-static ");
    reveal_strlit("no ip route ");
    reveal_strlit("ospf ");
    reveal_strlit("router ospf ");
    reveal_strlit("undo ospf");
    reveal_strlit("no router ospf");
    reveal_strlit("bgp ");
    reveal_strlit("router bgp ");
    reveal_strlit("undo bgp");
    reveal_strlit("no router bgp");
    if starts_with(c, "ip route-static "@) {
        assert(c =~= "ip route-static "@ + after(c, 16));
        lemma_refused_ip_route_static(st, i, after(c, 16), v);
    } else if starts_with(c, "ip route "@) {
        assert(c =~= "ip route "@ + after(c, 9));
        lemma_refused_ip_route(st, i, after(c, 9), v);
    } else if starts_with(c, "undo ip route-static "@) {
        assert(c =~= "undo ip route-static "@ + after(c, 21));
        lemma_refused_undo_ip_route_static(st, i, after(c, 21), v);
    } else if starts_with(c, "no ip route "@) {
        assert(c =~= "no ip route "@ + after(c, 12));
        lemma_refused_no_ip_route(st, i, after(c, 12), v);
    } else if starts_with(c, "ospf "@) {
        assert(c =~= "ospf "@ + after(c, 5));
        lemma_refused_ospf(st, i, after(c, 5), v);
    } else if starts_with(c, "router ospf "@) {
        assert(c =~= "router ospf "@ + after(c, 12));
        lemma_refused_router_ospf(st, i, after(c, 12), v);
    } else if c == "undo ospf"@ {
        lemma_refused_undo_ospf(st, i, v);
    } else if c == "no router ospf"@ {
        lemma_refused_no_router_ospf(st, i, v);
    } else if starts_with(c, "bgp "@) {
        assert(c =~= "bgp "@ + after(c, 4));
        lemma_refused_bgp(st, i, after(c, 4), v);
    } else if starts_with(c, "router bgp "@) {
        assert(c =~= "router bgp "@ + after(c, 11));
        lemma_refused_router_bgp(st, i, after(c, 11), v);
    } else if c == "undo bgp"@ {
        lemma_refused_undo_bgp(st, i, v);
    } else if starts_with(c, "no router bgp"@) {
        assert(c =~= "no router bgp"@ + after(c, 13));
        lemma_refused_no_router_bgp(st, i, after(c, 13), v);
    }
}

proof fn lemma_dhcp_group(st: NetworkState, i: int, c: Seq<char>, v: CliView)
    requires
        0 <= i < st.devices@.len(),
        v == CliView::UserView || v == CliView::InterfaceView,
        dhcp_only(c),
    ensures
        needs_system_view(st, i, c, v),
{
    reveal_strlit("dhcp enable");
    reveal_strlit("service dhcp");
    reveal_strlit("undo dhcp enable");
    reveal_strlit("no service dhcp");
    if c == "dhcp enable"@ {
        lemma_refused_dhcp_enable(st, i, v);
    } else if c == "service dhcp"@ {
        lemma_refused_service_dhcp(st, i, v);
    } else if c == "undo dhcp enable"@ {
        lemma_refused_undo_dhcp_enable(st, i, v);
    } else if c == "no service dhcp"@ {
        lemma_refused_no_service_dhcp(st, i, v);
    }
}

/// `c` begins like one of the keywords that the routing display checks look for.
pub open spec fn routing_display_head(c: Seq<char>) -> bool {
    (c.len() > 10 && c[0] == 'd' && c[1] == 'i' && c[2] == 's' && c[3] == 'p' && c[4] == 'l'
        && c[5] == 'a' && c[6] == 'y' && c[7] == ' ' && c[8] == 'i' && c[9] == 'p'
        && c[10] == ' ')
        || (c.len() > 10 && c[0] == 's' && c[1] == 'h' && c[2] == 'o' && c[3] == 'w'
            && c[4] == ' ' && c[5] == 'i' && c[6] == 'p' && c[7] == ' ' && c[8] == 'r'
            && c[9] == 'o' && c[10] == 'u')
        || (c.len() > 10 && c[0] == 'd' && c[1] == 'i' && c[2] == 's' && c[3] == 'p'
            && c[4] == 'l' && c[5] == 'a' && c[6] == 'y' && c[7] == ' ' && c[8] == 'o'
            && c[9] == 's' && c[10] == 'p')
        || (c.len() > 10 && c[0] == 's' && c[1] == 'h' && c[2] == 'o' && c[3] == 'w'
            && c[4] == ' ' && c[5] == 'i' && c[6] == 'p' && c[7] == ' ' && c[8] == 'o'
            && c[9] == 's' && c[10] == 'p')
        || (c.len() > 10 && c[0] == 'd' && c[1] == 'i' && c[2] == 's' && c[3] == 'p'
            && c[4] == 'l' && c[5] == 'a' && c[6] == 'y' && c[7] == ' ' && c[8] == 'b'
            && c[9] == 'g' && c[10] == 'p')
        || (c.len() > 10 && c[0] == 's' && c[1] == 'h' && c[2] == 'o' && c[3] == 'w'
            && c[4] == ' ' && c[5] == 'i' && c[6] == 'p' && c[7] == ' ' && c[8] == 'b'
            && c[9] == 'g' && c[10] == 'p')
        || (c.len() > 10 && c[0] == 's' && c[1] == 'h' && c[2] == 'o' && c[3] == 'w'
            && c[4] == ' ' && c[5] == 'b' && c[6] == 'g' && c[7] == 'p' && c[8] == ' '
            && c[9] == 's' && c[10] == 'u')
}

proof fn lemma_routing_display_declines(d: NetworkDevice, c: Seq<char>)
    requires
        !routing_display_head(c),
    ensures
        routing_display(d, c) is None,
{
    reveal_strlit("display ip routing-table");
    if starts_with(c, "display ip routing-table"@) || c == "display ip routing-table"@ {
        lemma_lit_head(c, "display ip routing-table"@, 11);
    }
    reveal_strlit("show ip route");
    if starts_with(c, "show ip route"@) || c == "show ip route"@ {
        lemma_lit_head(c, "show ip route"@, 11);
    }
    reveal_strlit("show ip route static");
    if starts_with(c, "show ip route static"@) || c == "show ip route static"@ {
        lemma_lit_head(c, "show ip route static"@, 11);
    }
    reveal_strlit("display ospf neighbor");
    if starts_with(c, "display ospf neighbor"@) || c == "display ospf neighbor"@ {
        lemma_lit_head(c, "display ospf neighbor"@, 11);
    }
    reveal_strlit("show ip ospf neighbor");
    if starts_with(c, "show ip ospf neighbor"@) || c == "show ip ospf neighbor"@ {
        lemma_lit_head(c, "show ip ospf neighbor"@, 11);
    }
    reveal_strlit("display ospf lsdb");
    if starts_with(c, "display ospf lsdb"@) || c == "display ospf lsdb"@ {
        lemma_lit_head(c, "display ospf lsdb"@, 11);
    }
    reveal_strlit("show ip ospf database");
    if starts_with(c, "show ip ospf database"@) || c == "show ip ospf database"@ {
        lemma_lit_head(c, "show ip ospf database"@, 11);
    }
    reveal_strlit("display bgp peer");
    if starts_with(c, "display bgp peer"@) || c == "display bgp peer"@ {
        lemma_lit_head(c, "display bgp peer"@, 11);
    }
    reveal_strlit("show ip bgp summary");
    if starts_with(c, "show ip bgp summary"@) || c == "show ip bgp summary"@ {
        lemma_lit_head(c, "show ip bgp summary"@, 11);
    }
    reveal_strlit("show bgp summary");
    if starts_with(c, "show bgp summary"@) || c == "show bgp summary"@ {
        lemma_lit_head(c, "show bgp summary"@, 11);
    }
    reveal_strlit("display bgp routing-table");
    if starts_with(c, "display bgp routing-table"@) || c == "display bgp routing-table"@ {
        lemma_lit_head(c, "display bgp routing-table"@, 11);
    }
    reveal_strlit("show ip bgp");
    if starts_with(c, "show ip bgp"@) || c == "show ip bgp"@ {
        lemma_lit_head(c, "show ip bgp"@, 11);
    }
}

/// `c` begins like one of the keywords that the vlan display checks look for.
pub open spec fn vlan_display_head(c: Seq<char>) -> bool {
    (c.len() > 10 && c[0] == 'd' && c[1] == 'i' && c[2] == 's' && c[3] == 'p' && c[4] == 'l'
        && c[5] == 'a' && c[6] == 'y' && c[7] == ' ' && c[8] == 'v' && c[9] == 'l'
        && c[10] == 'a')
        || (c.len() > 8 && c[0] == 's' && c[1] == 'h' && c[2] == 'o' && c[3] == 'w'
            && c[4] == ' ' && c[5] == 'v' && c[6] == 'l' && c[7] == 'a' && c[8] == 'n')
        || (c.len() > 10 && c[0] == 's' && c[1] == 'h' && c[2] == 'o' && c[3] == 'w'
            && c[4] == ' ' && c[5] == 'v' && c[6] == 'l' && c[7] == 'a' && c[8] == 'n'
            && c[9] == ' ' && c[10] == 'b')
        || (c.len() > 10 && c[0] == 's' && c[1] == 'h' && c[2] == 'o' && c[3] == 'w'
            && c[4] == ' ' && c[5] == 'v' && c[6] == 'l' && c[7] == 'a' && c[8] == 'n'
            && c[9] == ' ' && c[10] == 'i')
}

proof fn lemma_vlan_display_declines(c: Seq<char>)
    requires
        !vlan_display_head(c),
    ensures
        !(c == "display vlan"@ || c == "show vlan"@ || c == "show vlan brief"@),
        !(starts_with(c, "display vlan "@) || starts_with(c, "show vlan id "@)),
{
    reveal_strlit("display vlan");
    if starts_with(c, "display vlan"@) || c == "display vlan"@ {
        lemma_lit_head(c, "display vlan"@, 11);
    }
    reveal_strlit("show vlan");
    if starts_with(c, "show vlan"@) || c == "show vlan"@ {
        lemma_lit_head(c, "show vlan"@, 9);
    }
    reveal_strlit("show vlan brief");
    if starts_with(c, "show vlan brief"@) || c == "show vlan brief"@ {
        lemma_lit_head(c, "show vlan brief"@, 11);
    }
    reveal_strlit("display vlan ");
    if starts_with(c, "display vlan "@) || c == "display vlan "@ {
        lemma_lit_head(c, "display vlan "@, 11);
    }
    reveal_strlit("show vlan id ");
    if starts_with(c, "show vlan id "@) || c == "show vlan id "@ {
        lemma_lit_head(c, "show vlan id "@, 11);
    }
}

/// `c` begins like one of the keywords that the dhcp display checks look for.
pub open spec fn dhcp_display_head(c: Seq<char>) -> bool {
    (c.len() > 10 && c[0] == 'd' && c[1] == 'i' && c[2] == 's' && c[3] == 'p' && c[4] == 'l'
        && c[5] == 'a' && c[6] == 'y' && c[7] == ' ' && c[8] == 'i' && c[9] == 'p'
        && c[10] == ' ')
        || (c.len() > 10 && c[0] == 's' && c[1] == 'h' && c[2] == 'o' && c[3] == 'w'
            && c[4] == ' ' && c[5] == 'i' && c[6] == 'p' && c[7] == ' ' && c[8] == 'd'
            && c[9] == 'h' && c[10] == 'c')
        || (c.len() > 10 && c[0] == 'd' && c[1] == 'i' && c[2] == 's' && c[3] == 'p'
            && c[4] == 'l' && c[5] == 'a' && c[6] == 'y' && c[7] == ' ' && c[8] == 'd'
            && c[9] == 'h' && c[10] == 'c')
}

proof fn lemma_dhcp_display_declines(d: NetworkDevice, c: Seq<char>)
    requires
        !dhcp_display_head(c),
    ensures
        dhcp_display(d, c) is None,
{
    reveal_strlit("display ip pool");
    if starts_with(c, "display ip pool"@) || c == "display ip pool"@ {
        lemma_lit_head(c, "display ip pool"@, 11);
    }
    reveal_strlit("show ip dhcp pool");
    if starts_with(c, "show ip dhcp pool"@) || c == "show ip dhcp pool"@ {
        lemma_lit_head(c, "show ip dhcp pool"@, 11);
    }
    reveal_strlit("display ip pool interface");
    if starts_with(c, "display ip pool interface"@) || c == "display ip pool interface"@ {
        lemma_lit_head(c, "display ip pool interface"@, 11);
    }
    reveal_strlit("show ip dhcp binding");
    if starts_with(c, "show ip dhcp binding"@) || c == "show ip dhcp binding"@ {
        lemma_lit_head(c, "show ip dhcp binding"@, 11);
    }
    reveal_strlit("display dhcp server statistics");
    if starts_with(c, "display dhcp server statistics"@) || c == "display dhcp server statistics"@ {
        lemma_lit_head(c, "display dhcp server statistics"@, 11);
    }
    reveal_strlit("show ip dhcp server statistics");
    if starts_with(c, "show ip dhcp server statistics"@) || c == "show ip dhcp server statistics"@ {
        lemma_lit_head(c, "show ip dhcp server statistics"@, 11);
    }
    reveal_strlit("display dhcp server conflict");
    if starts_with(c, "display dhcp server conflict"@) || c == "display dhcp server conflict"@ {
        lemma_lit_head(c, "display dhcp server conflict"@, 11);
    }
    reveal_strlit("show ip dhcp conflict");
    if starts_with(c, "show ip dhcp conflict"@) || c == "show ip dhcp conflict"@ {
        lemma_lit_head(c, "show ip dhcp conflict"@, 11);
    }
}

/// `c` begins like one of the keywords that the exit checks look for.
pub open spec fn exit_head(c: Seq<char>) -> bool {
    (c.len() > 3 && c[0] == 'e' && c[1] == 'x' && c[2] == 'i' && c[3] == 't')
        || (c.len() > 3 && c[0] == 'q' && c[1] == 'u' && c[2] == 'i' && c[3] == 't')
}

proof fn lemma_exit_declines(c: Seq<char>)
    requires
        !exit_head(c),
    ensures
        !is_exit(c),
{
    reveal_strlit("exit");
    if starts_with(c, "exit"@) || c == "exit"@ {
        lemma_lit_head(c, "exit"@, 4);
    }
    reveal_strlit("quit");
    if starts_with(c, "quit"@) || c == "quit"@ {
        lemma_lit_head(c, "quit"@, 4);
    }
}

/// `c` begins like one of the keywords that the system checks look for.
pub open spec fn system_head(c: Seq<char>) -> bool {
    (c.len() > 5 && c[0] == 'r' && c[1] == 'e' && c[2] == 't' && c[3] == 'u' && c[4] == 'r'
        && c[5] == 'n')
        || (c.len() > 2 && c[0] == 'e' && c[1] == 'n' && c[2] == 'd')
        || (c.len() > 7 && c[0] == 's' && c[1] == 'y' && c[2] == 's' && c[3] == 'n'
            && c[4] == 'a' && c[5] == 'm' && c[6] == 'e' && c[7] == ' ')
        || (c.len() > 8 && c[0] == 'h' && c[1] == 'o' && c[2] == 's' && c[3] == 't'
            && c[4] == 'n' && c[5] == 'a' && c[6] == 'm' && c[7] == 'e' && c[8] == ' ')
        || (c.len() > 10 && c[0] == 'u' && c[1] == 'n' && c[2] == 'd' && c[3] == 'o'
            && c[4] == ' ' && c[5] == 's' && c[6] == 'y' && c[7] == 's' && c[8] == 'n'
            && c[9] == 'a' && c[10] == 'm')
        || (c.len() > 10 && c[0] == 'n' && c[1] == 'o' && c[2] == ' ' && c[3] == 'h'
            && c[4] == 'o' && c[5] == 's' && c[6] == 't' && c[7] == 'n' && c[8] == 'a'
            && c[9] == 'm' && c[10] == 'e')
        || (c.len() > 10 && c[0] == 's' && c[1] == 'y' && c[2] == 's' && c[3] == 't'
            && c[4] == 'e' && c[5] == 'm' && c[6] == '-' && c[7] == 'v' && c[8] == 'i'
            && c[9] == 'e' && c[10] == 'w')
        || (c.len() > 10 && c[0] == 'c' && c[1] == 'o' && c[2] == 'n' && c[3] == 'f'
            && c[4] == 'i' && c[5] == 'g' && c[6] == 'u' && c[7] == 'r' && c[8] == 'e'
            && c[9] == ' ' && c[10] == 't')
        || (c.len() > 5 && c[0] == 'c' && c[1] == 'o' && c[2] == 'n' && c[3] == 'f'
            && c[4] == ' ' && c[5] == 't')
        || (c.len() > 10 && c[0] == 'd' && c[1] == 'i' && c[2] == 's' && c[3] == 'p'
            && c[4] == 'l' && c[5] == 'a' && c[6] == 'y' && c[7] == ' ' && c[8] == 'v'
            && c[9] == 'e' && c[10] == 'r')
        || (c.len() > 10 && c[0] == 's' && c[1] == 'h' && c[2] == 'o' && c[3] == 'w'
            && c[4] == ' ' && c[5] == 'v' && c[6] == 'e' && c[7] == 'r' && c[8] == 's'
            && c[9] == 'i' && c[10] == 'o')
        || (c.len() > 10 && c[0] == 'd' && c[1] == 'i' && c[2] == 's' && c[3] == 'p'
            && c[4] == 'l' && c[5] == 'a' && c[6] == 'y' && c[7] == ' ' && c[8] == 'c'
            && c[9] == 'u' && c[10] == 'r')
        || (c.len() > 10 && c[0] == 's' && c[1] == 'h' && c[2] == 'o' && c[3] == 'w'
            && c[4] == ' ' && c[5] == 'r' && c[6] == 'u' && c[7] == 'n' && c[8] == 'n'
            && c[9] == 'i' && c[10] == 'n')
        || (c.len() > 7 && c[0] == 's' && c[1] == 'h' && c[2] == 'o' && c[3] == 'w'
            && c[4] == ' ' && c[5] == 'r' && c[6] == 'u' && c[7] == 'n')
        || (c.len() > 10 && c[0] == 'd' && c[1] == 'i' && c[2] == 's' && c[3] == 'p'
            && c[4] == 'l' && c[5] == 'a' && c[6] == 'y' && c[7] == ' ' && c[8] == 's'
            && c[9] == 'a' && c[10] == 'v')
        || (c.len() > 10 && c[0] == 's' && c[1] == 'h' && c[2] == 'o' && c[3] == 'w'
            && c[4] == ' ' && c[5] == 's' && c[6] == 't' && c[7] == 'a' && c[8] == 'r'
            && c[9] == 't' && c[10] == 'u')
        || (c.len() > 3 && c[0] == 's' && c[1] == 'a' && c[2] == 'v' && c[3] == 'e')
        || (c.len() > 4 && c[0] == 'w' && c[1] == 'r' && c[2] == 'i' && c[3] == 't' && c[4] == 'e')
        || (c.len() > 10 && c[0] == 'w' && c[1] == 'r' && c[2] == 'i' && c[3] == 't'
            && c[4] == 'e' && c[5] == ' ' && c[6] == 'm' && c[7] == 'e' && c[8] == 'm'
            && c[9] == 'o' && c[10] == 'r')
        || (c.len() > 10 && c[0] == 'c' && c[1] == 'o' && c[2] == 'p' && c[3] == 'y'
            && c[4] == ' ' && c[5] == 'r' && c[6] == 'u' && c[7] == 'n' && c[8] == 'n'
            && c[9] == 'i' && c[10] == 'n')
        || (c.len() > 10 && c[0] == 'd' && c[1] == 'i' && c[2] == 's' && c[3] == 'p'
            && c[4] == 'l' && c[5] == 'a' && c[6] == 'y' && c[7] == ' ' && c[8] == 'h'
            && c[9] == 'i' && c[10] == 's')
        || (c.len() > 10 && c[0] == 's' && c[1] == 'h' && c[2] == 'o' && c[3] == 'w'
            && c[4] == ' ' && c[5] == 'h' && c[6] == 'i' && c[7] == 's' && c[8] == 't'
            && c[9] == 'o' && c[10] == 'r')
        || (c.len() > 0 && c[0] == '?')
        || (c.len() > 3 && c[0] == 'h' && c[1] == 'e' && c[2] == 'l' && c[3] == 'p')
}

proof fn lemma_system_declines(d: NetworkDevice, c: Seq<char>, v: CliView)
    requires
        !system_head(c),
    ensures
        system_reply(d, c, v) is None,
{
    reveal_strlit("return");
    if starts_with(c, "return"@) || c == "return"@ {
        lemma_lit_head(c, "return"@, 6);
    }
    reveal_strlit("end");
    if starts_with(c, "end"@) || c == "end"@ {
        lemma_lit_head(c, "end"@, 3);
    }
    reveal_strlit("sysname ");
    if starts_with(c, "sysname "@) || c == "sysname "@ {
        lemma_lit_head(c, "sysname "@, 8);
    }
    reveal_strlit("hostname ");
    if starts_with(c, "hostname "@) || c == "hostname "@ {
        lemma_lit_head(c, "hostname "@, 9);
    }
    reveal_strlit("undo sysname");
    if starts_with(c, "undo sysname"@) || c == "undo sysname"@ {
        lemma_lit_head(c, "undo sysname"@, 11);
    }
    reveal_strlit("no hostname");
    if starts_with(c, "no hostname"@) || c == "no hostname"@ {
        lemma_lit_head(c, "no hostname"@, 11);
    }
    reveal_strlit("system-view");
    if starts_with(c, "system-view"@) || c == "system-view"@ {
        lemma_lit_head(c, "system-view"@, 11);
    }
    reveal_strlit("configure terminal");
    if starts_with(c, "configure terminal"@) || c == "configure terminal"@ {
        lemma_lit_head(c, "configure terminal"@, 11);
    }
    reveal_strlit("conf t");
    if starts_with(c, "conf t"@) || c == "conf t"@ {
        lemma_lit_head(c, "conf t"@, 6);
    }
    reveal_strlit("display version");
    if starts_with(c, "display version"@) || c == "display version"@ {
        lemma_lit_head(c, "display version"@, 11);
    }
    reveal_strlit("show version");
    if starts_with(c, "show version"@) || c == "show version"@ {
        lemma_lit_head(c, "show version"@, 11);
    }
    reveal_strlit("display current-configuration");
    if starts_with(c, "display current-configuration"@) || c == "display current-configuration"@ {
        lemma_lit_head(c, "display current-configuration"@, 11);
    }
    reveal_strlit("show running-config");
    if starts_with(c, "show running-config"@) || c == "show running-config"@ {
        lemma_lit_head(c, "show running-config"@, 11);
    }
    reveal_strlit("show run");
    if starts_with(c, "show run"@) || c == "show run"@ {
        lemma_lit_head(c, "show run"@, 8);
    }
    reveal_strlit("display saved-configuration");
    if starts_with(c, "display saved-configuration"@) || c == "display saved-configuration"@ {
        lemma_lit_head(c, "display saved-configuration"@, 11);
    }
    reveal_strlit("show startup-config");
    if starts_with(c, "show startup-config"@) || c == "show startup-config"@ {
        lemma_lit_head(c, "show startup-config"@, 11);
    }
    reveal_strlit("save");
    if starts_with(c, "save"@) || c == "save"@ {
        lemma_lit_head(c, "save"@, 4);
    }
    reveal_strlit("write");
    if starts_with(c, "write"@) || c == "write"@ {
        lemma_lit_head(c, "write"@, 5);
    }
    reveal_strlit("write memory");
    if starts_with(c, "write memory"@) || c == "write memory"@ {
        lemma_lit_head(c, "write memory"@, 11);
    }
    reveal_strlit("copy running-config startup-config");
    if starts_with(c, "copy running-config startup-config"@)
        || c == "copy running-config startup-config"@ {
        lemma_lit_head(c, "copy running-config startup-config"@, 11);
    }
    reveal_strlit("display history-command");
    if starts_with(c, "display history-command"@) || c == "display history-command"@ {
        lemma_lit_head(c, "display history-command"@, 11);
    }
    reveal_strlit("show history");
    if starts_with(c, "show history"@) || c == "show history"@ {
        lemma_lit_head(c, "show history"@, 11);
    }
    reveal_strlit("?");
    if starts_with(c, "?"@) || c == "?"@ {
        lemma_lit_head(c, "?"@, 1);
    }
    reveal_strlit("help");
    if starts_with(c, "help"@) || c == "help"@ {
        lemma_lit_head(c, "help"@, 4);
    }
}

/// `c` begins like one of the keywords that the interface checks look for.
pub open spec fn interface_head(c: Seq<char>) -> bool {
    (c.len() > 9 && c[0] == 'i' && c[1] == 'n' && c[2] == 't' && c[3] == 'e' && c[4] == 'r'
        && c[5] == 'f' && c[6] == 'a' && c[7] == 'c' && c[8] == 'e' && c[9] == ' ')
        || (c.len() > 10 && c[0] == 'd' && c[1] == 'i' && c[2] == 's' && c[3] == 'p'
            && c[4] == 'l' && c[5] == 'a' && c[6] == 'y' && c[7] == ' ' && c[8] == 'i'
            && c[9] == 'n' && c[10] == 't')
        || (c.len() > 10 && c[0] == 's' && c[1] == 'h' && c[2] == 'o' && c[3] == 'w'
            && c[4] == ' ' && c[5] == 'i' && c[6] == 'n' && c[7] == 't' && c[8] == 'e'
            && c[9] == 'r' && c[10] == 'f')
        || (c.len() > 10 && c[0] == 'i' && c[1] == 'p' && c[2] == ' ' && c[3] == 'a'
            && c[4] == 'd' && c[5] == 'd' && c[6] == 'r' && c[7] == 'e' && c[8] == 's'
            && c[9] == 's' && c[10] == ' ')
        || (c.len() > 10 && c[0] == 'd' && c[1] == 'e' && c[2] == 's' && c[3] == 'c'
            && c[4] == 'r' && c[5] == 'i' && c[6] == 'p' && c[7] == 't' && c[8] == 'i'
            && c[9] == 'o' && c[10] == 'n')
        || (c.len() > 10 && c[0] == 'p' && c[1] == 'o' && c[2] == 'r' && c[3] == 't'
            && c[4] == ' ' && c[5] == 'l' && c[6] == 'i' && c[7] == 'n' && c[8] == 'k'
            && c[9] == '-' && c[10] == 't')
        || (c.len() > 10 && c[0] == 's' && c[1] == 'w' && c[2] == 'i' && c[3] == 't'
            && c[4] == 'c' && c[5] == 'h' && c[6] == 'p' && c[7] == 'o' && c[8] == 'r'
            && c[9] == 't' && c[10] == ' ')
        || (c.len() > 10 && c[0] == 'p' && c[1] == 'o' && c[2] == 'r' && c[3] == 't'
            && c[4] == ' ' && c[5] == 'd' && c[6] == 'e' && c[7] == 'f' && c[8] == 'a'
            && c[9] == 'u' && c[10] == 'l')
        || (c.len() > 10 && c[0] == 'p' && c[1] == 'o' && c[2] == 'r' && c[3] == 't'
            && c[4] == ' ' && c[5] == 't' && c[6] == 'r' && c[7] == 'u' && c[8] == 'n'
            && c[9] == 'k' && c[10] == ' ')
        || (c.len() > 5 && c[0] == 's' && c[1] == 'p' && c[2] == 'e' && c[3] == 'e'
            && c[4] == 'd' && c[5] == ' ')
        || (c.len() > 6 && c[0] == 'd' && c[1] == 'u' && c[2] == 'p' && c[3] == 'l'
            && c[4] == 'e' && c[5] == 'x' && c[6] == ' ')
        || (c.len() > 10 && c[0] == 'd' && c[1] == 'i' && c[2] == 's' && c[3] == 'p'
            && c[4] == 'l' && c[5] == 'a' && c[6] == 'y' && c[7] == ' ' && c[8] == 'i'
            && c[9] == 'p' && c[10] == ' ')
        || (c.len() > 10 && c[0] == 's' && c[1] == 'h' && c[2] == 'o' && c[3] == 'w'
            && c[4] == ' ' && c[5] == 'i' && c[6] == 'p' && c[7] == ' ' && c[8] == 'i'
            && c[9] == 'n' && c[10] == 't')
        || (c.len() > 10 && c[0] == 'u' && c[1] == 'n' && c[2] == 'd' && c[3] == 'o'
            && c[4] == ' ' && c[5] == 'i' && c[6] == 'p' && c[7] == ' ' && c[8] == 'a'
            && c[9] == 'd' && c[10] == 'd')
        || (c.len() > 10 && c[0] == 'n' && c[1] == 'o' && c[2] == ' ' && c[3] == 'i'
            && c[4] == 'p' && c[5] == ' ' && c[6] == 'a' && c[7] == 'd' && c[8] == 'd'
            && c[9] == 'r' && c[10] == 'e')
        || (c.len() > 7 && c[0] == 's' && c[1] == 'h' && c[2] == 'u' && c[3] == 't'
            && c[4] == 'd' && c[5] == 'o' && c[6] == 'w' && c[7] == 'n')
        || (c.len() > 10 && c[0] == 'u' && c[1] == 'n' && c[2] == 'd' && c[3] == 'o'
            && c[4] == ' ' && c[5] == 's' && c[6] == 'h' && c[7] == 'u' && c[8] == 't'
            && c[9] == 'd' && c[10] == 'o')
        || (c.len() > 10 && c[0] == 'n' && c[1] == 'o' && c[2] == ' ' && c[3] == 's'
            && c[4] == 'h' && c[5] == 'u' && c[6] == 't' && c[7] == 'd' && c[8] == 'o'
            && c[9] == 'w' && c[10] == 'n')
}

proof fn lemma_interface_declines(d: NetworkDevice, c: Seq<char>, v: CliView)
    requires
        !interface_head(c),
    ensures
        interface_reply(d, c, v) is None,
{
    reveal_strlit("interface ");
    if starts_with(c, "interface "@) || c == "interface "@ {
        lemma_lit_head(c, "interface "@, 10);
    }
    reveal_strlit("display interface");
    if starts_with(c, "display interface"@) || c == "display interface"@ {
        lemma_lit_head(c, "display interface"@, 11);
    }
    reveal_strlit("show interface");
    if starts_with(c, "show interface"@) || c == "show interface"@ {
        lemma_lit_head(c, "show interface"@, 11);
    }
    reveal_strlit("ip address ");
    if starts_with(c, "ip address "@) || c == "ip address "@ {
        lemma_lit_head(c, "ip address "@, 11);
    }
    reveal_strlit("description ");
    if starts_with(c, "description "@) || c == "description "@ {
        lemma_lit_head(c, "description "@, 11);
    }
    reveal_strlit("port link-type ");
    if starts_with(c, "port link-type "@) || c == "port link-type "@ {
        lemma_lit_head(c, "port link-type "@, 11);
    }
    reveal_strlit("switchport mode ");
    if starts_with(c, "switchport mode "@) || c == "switchport mode "@ {
        lemma_lit_head(c, "switchport mode "@, 11);
    }
    reveal_strlit("port default vlan ");
    if starts_with(c, "port default vlan "@) || c == "port default vlan "@ {
        lemma_lit_head(c, "port default vlan "@, 11);
    }
    reveal_strlit("switchport access vlan ");
    if starts_with(c, "switchport access vlan "@) || c == "switchport access vlan "@ {
        lemma_lit_head(c, "switchport access vlan "@, 11);
    }
    reveal_strlit("port trunk allow-pass vlan ");
    if starts_with(c, "port trunk allow-pass vlan "@) || c == "port trunk allow-pass vlan "@ {
        lemma_lit_head(c, "port trunk allow-pass vlan "@, 11);
    }
    reveal_strlit("switchport trunk allowed vlan ");
    if starts_with(c, "switchport trunk allowed vlan "@) || c == "switchport trunk allowed vlan "@ {
        lemma_lit_head(c, "switchport trunk allowed vlan "@, 11);
    }
    reveal_strlit("speed ");
    if starts_with(c, "speed "@) || c == "speed "@ {
        lemma_lit_head(c, "speed "@, 6);
    }
    reveal_strlit("duplex ");
    if starts_with(c, "duplex "@) || c == "duplex "@ {
        lemma_lit_head(c, "duplex "@, 7);
    }
    reveal_strlit("display ip interface brief");
    if starts_with(c, "display ip interface brief"@) || c == "display ip interface brief"@ {
        lemma_lit_head(c, "display ip interface brief"@, 11);
    }
    reveal_strlit("show ip interface brief");
    if starts_with(c, "show ip interface brief"@) || c == "show ip interface brief"@ {
        lemma_lit_head(c, "show ip interface brief"@, 11);
    }
    reveal_strlit("undo ip address");
    if starts_with(c, "undo ip address"@) || c == "undo ip address"@ {
        lemma_lit_head(c, "undo ip address"@, 11);
    }
    reveal_strlit("no ip address");
    if starts_with(c, "no ip address"@) || c == "no ip address"@ {
        lemma_lit_head(c, "no ip address"@, 11);
    }
    reveal_strlit("shutdown");
    if starts_with(c, "shutdown"@) || c == "shutdown"@ {
        lemma_lit_head(c, "shutdown"@, 8);
    }
    reveal_strlit("undo shutdown");
    if starts_with(c, "undo shutdown"@) || c == "undo shutdown"@ {
        lemma_lit_head(c, "undo shutdown"@, 11);
    }
    reveal_strlit("no shutdown");
    if starts_with(c, "no shutdown"@) || c == "no shutdown"@ {
        lemma_lit_head(c, "no shutdown"@, 11);
    }
}

/// `c` begins like one of the keywords that the vlan checks look for.
pub open spec fn vlan_head(c: Seq<char>) -> bool {
    (c.len() > 10 && c[0] == 'd' && c[1] == 'i' && c[2] == 's' && c[3] == 'p' && c[4] == 'l'
        && c[5] == 'a' && c[6] == 'y' && c[7] == ' ' && c[8] == 'v' && c[9] == 'l'
        && c[10] == 'a')
        || (c.len() > 8 && c[0] == 's' && c[1] == 'h' && c[2] == 'o' && c[3] == 'w'
            && c[4] == ' ' && c[5] == 'v' && c[6] == 'l' && c[7] == 'a' && c[8] == 'n')
        || (c.len() > 10 && c[0] == 's' && c[1] == 'h' && c[2] == 'o' && c[3] == 'w'
            && c[4] == ' ' && c[5] == 'v' && c[6] == 'l' && c[7] == 'a' && c[8] == 'n'
            && c[9] == ' ' && c[10] == 'b')
        || (c.len() > 10 && c[0] == 's' && c[1] == 'h' && c[2] == 'o' && c[3] == 'w'
            && c[4] == ' ' && c[5] == 'v' && c[6] == 'l' && c[7] == 'a' && c[8] == 'n'
            && c[9] == ' ' && c[10] == 'i')
        || (c.len() > 4 && c[0] == 'v' && c[1] == 'l' && c[2] == 'a' && c[3] == 'n' && c[4] == ' ')
        || (c.len() > 10 && c[0] == 'v' && c[1] == 'l' && c[2] == 'a' && c[3] == 'n'
            && c[4] == ' ' && c[5] == 'b' && c[6] == 'a' && c[7] == 't' && c[8] == 'c'
            && c[9] == 'h' && c[10] == ' ')
        || (c.len() > 9 && c[0] == 'u' && c[1] == 'n' && c[2] == 'd' && c[3] == 'o'
            && c[4] == ' ' && c[5] == 'v' && c[6] == 'l' && c[7] == 'a' && c[8] == 'n'
            && c[9] == ' ')
        || (c.len() > 7 && c[0] == 'n' && c[1] == 'o' && c[2] == ' ' && c[3] == 'v'
            && c[4] == 'l' && c[5] == 'a' && c[6] == 'n' && c[7] == ' ')
        || (c.len() > 4 && c[0] == 'n' && c[1] == 'a' && c[2] == 'm' && c[3] == 'e' && c[4] == ' ')
}

proof fn lemma_vlan_declines(d: NetworkDevice, c: Seq<char>, v: CliView)
    requires
        !vlan_head(c),
    ensures
        vlan_reply(d, c, v) is None,
{
    reveal_strlit("display vlan");
    if starts_with(c, "display vlan"@) || c == "display vlan"@ {
        lemma_lit_head(c, "display vlan"@, 11);
    }
    reveal_strlit("show vlan");
    if starts_with(c, "show vlan"@) || c == "show vlan"@ {
        lemma_lit_head(c, "show vlan"@, 9);
    }
    reveal_strlit("show vlan brief");
    if starts_with(c, "show vlan brief"@) || c == "show vlan brief"@ {
        lemma_lit_head(c, "show vlan brief"@, 11);
    }
    reveal_strlit("display vlan ");
    if starts_with(c, "display vlan "@) || c == "display vlan "@ {
        lemma_lit_head(c, "display vlan "@, 11);
    }
    reveal_strlit("show vlan id ");
    if starts_with(c, "show vlan id "@) || c == "show vlan id "@ {
        lemma_lit_head(c, "show vlan id "@, 11);
    }
    reveal_strlit("vlan ");
    if starts_with(c, "vlan "@) || c == "vlan "@ {
        lemma_lit_head(c, "vlan "@, 5);
    }
    reveal_strlit("vlan batch ");
    if starts_with(c, "vlan batch "@) || c == "vlan batch "@ {
        lemma_lit_head(c, "vlan batch "@, 11);
    }
    reveal_strlit("undo vlan ");
    if starts_with(c, "undo vlan "@) || c == "undo vlan "@ {
        lemma_lit_head(c, "undo vlan "@, 10);
    }
    reveal_strlit("no vlan ");
    if starts_with(c, "no vlan "@) || c == "no vlan "@ {
        lemma_lit_head(c, "no vlan "@, 8);
    }
    reveal_strlit("name ");
    if starts_with(c, "name "@) || c == "name "@ {
        lemma_lit_head(c, "name "@, 5);
    }
}

/// `c` begins like one of the keywords that the routing checks look for.
pub open spec fn routing_head(c: Seq<char>) -> bool {
    (c.len() > 10 && c[0] == 'd' && c[1] == 'i' && c[2] == 's' && c[3] == 'p' && c[4] == 'l'
        && c[5] == 'a' && c[6] == 'y' && c[7] == ' ' && c[8] == 'i' && c[9] == 'p'
        && c[10] == ' ')
        || (c.len() > 10 && c[0] == 's' && c[1] == 'h' && c[2] == 'o' && c[3] == 'w'
            && c[4] == ' ' && c[5] == 'i' && c[6] == 'p' && c[7] == ' ' && c[8] == 'r'
            && c[9] == 'o' && c[10] == 'u')
        || (c.len() > 10 && c[0] == 'd' && c[1] == 'i' && c[2] == 's' && c[3] == 'p'
            && c[4] == 'l' && c[5] == 'a' && c[6] == 'y' && c[7] == ' ' && c[8] == 'o'
            && c[9] == 's' && c[10] == 'p')
        || (c.len() > 10 && c[0] == 's' && c[1] == 'h' && c[2] == 'o' && c[3] == 'w'
            && c[4] == ' ' && c[5] == 'i' && c[6] == 'p' && c[7] == ' ' && c[8] == 'o'
            && c[9] == 's' && c[10] == 'p')
        || (c.len() > 10 && c[0] == 'd' && c[1] == 'i' && c[2] == 's' && c[3] == 'p'
            && c[4] == 'l' && c[5] == 'a' && c[6] == 'y' && c[7] == ' ' && c[8] == 'b'
            && c[9] == 'g' && c[10] == 'p')
        || (c.len() > 10 && c[0] == 's' && c[1] == 'h' && c[2] == 'o' && c[3] == 'w'
            && c[4] == ' ' && c[5] == 'i' && c[6] == 'p' && c[7] == ' ' && c[8] == 'b'
            && c[9] == 'g' && c[10] == 'p')
        || (c.len() > 10 && c[0] == 's' && c[1] == 'h' && c[2] == 'o' && c[3] == 'w'
            && c[4] == ' ' && c[5] == 'b' && c[6] == 'g' && c[7] == 'p' && c[8] == ' '
            && c[9] == 's' && c[10] == 'u')
        || (c.len() > 10 && c[0] == 'i' && c[1] == 'p' && c[2] == ' ' && c[3] == 'r'
            && c[4] == 'o' && c[5] == 'u' && c[6] == 't' && c[7] == 'e' && c[8] == '-'
            && c[9] == 's' && c[10] == 't')
        || (c.len() > 8 && c[0] == 'i' && c[1] == 'p' && c[2] == ' ' && c[3] == 'r'
            && c[4] == 'o' && c[5] == 'u' && c[6] == 't' && c[7] == 'e' && c[8] == ' ')
        || (c.len() > 10 && c[0] == 'u' && c[1] == 'n' && c[2] == 'd' && c[3] == 'o'
            && c[4] == ' ' && c[5] == 'i' && c[6] == 'p' && c[7] == ' ' && c[8] == 'r'
            && c[9] == 'o' && c[10] == 'u')
        || (c.len() > 10 && c[0] == 'n' && c[1] == 'o' && c[2] == ' ' && c[3] == 'i'
            && c[4] == 'p' && c[5] == ' ' && c[6] == 'r' && c[7] == 'o' && c[8] == 'u'
            && c[9] == 't' && c[10] == 'e')
        || (c.len() > 4 && c[0] == 'o' && c[1] == 's' && c[2] == 'p' && c[3] == 'f' && c[4] == ' ')
        || (c.len() > 10 && c[0] == 'r' && c[1] == 'o' && c[2] == 'u' && c[3] == 't'
            && c[4] == 'e' && c[5] == 'r' && c[6] == ' ' && c[7] == 'o' && c[8] == 's'
            && c[9] == 'p' && c[10] == 'f')
        || (c.len() > 8 && c[0] == 'u' && c[1] == 'n' && c[2] == 'd' && c[3] == 'o'
            && c[4] == ' ' && c[5] == 'o' && c[6] == 's' && c[7] == 'p' && c[8] == 'f')
        || (c.len() > 10 && c[0] == 'n' && c[1] == 'o' && c[2] == ' ' && c[3] == 'r'
            && c[4] == 'o' && c[5] == 'u' && c[6] == 't' && c[7] == 'e' && c[8] == 'r'
            && c[9] == ' ' && c[10] == 'o')
        || (c.len() > 4 && c[0] == 'a' && c[1] == 'r' && c[2] == 'e' && c[3] == 'a' && c[4] == ' ')
        || (c.len() > 7 && c[0] == 'n' && c[1] == 'e' && c[2] == 't' && c[3] == 'w'
            && c[4] == 'o' && c[5] == 'r' && c[6] == 'k' && c[7] == ' ')
        || (c.len() > 3 && c[0] == 'b' && c[1] == 'g' && c[2] == 'p' && c[3] == ' ')
        || (c.len() > 10 && c[0] == 'r' && c[1] == 'o' && c[2] == 'u' && c[3] == 't'
            && c[4] == 'e' && c[5] == 'r' && c[6] == ' ' && c[7] == 'b' && c[8] == 'g'
            && c[9] == 'p' && c[10] == ' ')
        || (c.len() > 7 && c[0] == 'u' && c[1] == 'n' && c[2] == 'd' && c[3] == 'o'
            && c[4] == ' ' && c[5] == 'b' && c[6] == 'g' && c[7] == 'p')
        || (c.len() > 10 && c[0] == 'n' && c[1] == 'o' && c[2] == ' ' && c[3] == 'r'
            && c[4] == 'o' && c[5] == 'u' && c[6] == 't' && c[7] == 'e' && c[8] == 'r'
            && c[9] == ' ' && c[10] == 'b')
        || (c.len() > 4 && c[0] == 'p' && c[1] == 'e' && c[2] == 'e' && c[3] == 'r' && c[4] == ' ')
        || (c.len() > 8 && c[0] == 'n' && c[1] == 'e' && c[2] == 'i' && c[3] == 'g'
            && c[4] == 'h' && c[5] == 'b' && c[6] == 'o' && c[7] == 'r' && c[8] == ' ')
}

proof fn lemma_routing_declines(d: NetworkDevice, c: Seq<char>, v: CliView)
    requires
        !routing_head(c),
    ensures
        routing_reply(d, c, v) is None,
{
    reveal_strlit("display ip routing-table");
    if starts_with(c, "display ip routing-table"@) || c == "display ip routing-table"@ {
        lemma_lit_head(c, "display ip routing-table"@, 11);
    }
    reveal_strlit("show ip route");
    if starts_with(c, "show ip route"@) || c == "show ip route"@ {
        lemma_lit_head(c, "show ip route"@, 11);
    }
    reveal_strlit("show ip route static");
    if starts_with(c, "show ip route static"@) || c == "show ip route static"@ {
        lemma_lit_head(c, "show ip route static"@, 11);
    }
    reveal_strlit("display ospf neighbor");
    if starts_with(c, "display ospf neighbor"@) || c == "display ospf neighbor"@ {
        lemma_lit_head(c, "display ospf neighbor"@, 11);
    }
    reveal_strlit("show ip ospf neighbor");
    if starts_with(c, "show ip ospf neighbor"@) || c == "show ip ospf neighbor"@ {
        lemma_lit_head(c, "show ip ospf neighbor"@, 11);
    }
    reveal_strlit("display ospf lsdb");
    if starts_with(c, "display ospf lsdb"@) || c == "display ospf lsdb"@ {
        lemma_lit_head(c, "display ospf lsdb"@, 11);
    }
    reveal_strlit("show ip ospf database");
    if starts_with(c, "show ip ospf database"@) || c == "show ip ospf database"@ {
        lemma_lit_head(c, "show ip ospf database"@, 11);
    }
    reveal_strlit("display bgp peer");
    if starts_with(c, "display bgp peer"@) || c == "display bgp peer"@ {
        lemma_lit_head(c, "display bgp peer"@, 11);
    }
    reveal_strlit("show ip bgp summary");
    if starts_with(c, "show ip bgp summary"@) || c == "show ip bgp summary"@ {
        lemma_lit_head(c, "show ip bgp summary"@, 11);
    }
    reveal_strlit("show bgp summary");
    if starts_with(c, "show bgp summary"@) || c == "show bgp summary"@ {
        lemma_lit_head(c, "show bgp summary"@, 11);
    }
    reveal_strlit("display bgp routing-table");
    if starts_with(c, "display bgp routing-table"@) || c == "display bgp routing-table"@ {
        lemma_lit_head(c, "display bgp routing-table"@, 11);
    }
    reveal_strlit("show ip bgp");
    if starts_with(c, "show ip bgp"@) || c == "show ip bgp"@ {
        lemma_lit_head(c, "show ip bgp"@, 11);
    }
    reveal_strlit("ip route-static ");
    if starts_with(c, "ip route-static "@) || c == "ip route-static "@ {
        lemma_lit_head(c, "ip route-static "@, 11);
    }
    reveal_strlit("ip route ");
    if starts_with(c, "ip route "@) || c == "ip route "@ {
        lemma_lit_head(c, "ip route "@, 9);
    }
    reveal_strlit("undo ip route-static ");
    if starts_with(c, "undo ip route-static "@) || c == "undo ip route-static "@ {
        lemma_lit_head(c, "undo ip route-static "@, 11);
    }
    reveal_strlit("no ip route ");
    if starts_with(c, "no ip route "@) || c == "no ip route "@ {
        lemma_lit_head(c, "no ip route "@, 11);
    }
    reveal_strlit("ospf ");
    if starts_with(c, "ospf "@) || c == "ospf "@ {
        lemma_lit_head(c, "ospf "@, 5);
    }
    reveal_strlit("router ospf ");
    if starts_with(c, "router ospf "@) || c == "router ospf "@ {
        lemma_lit_head(c, "router ospf "@, 11);
    }
    reveal_strlit("undo ospf");
    if starts_with(c, "undo ospf"@) || c == "undo ospf"@ {
        lemma_lit_head(c, "undo ospf"@, 9);
    }
    reveal_strlit("no router ospf");
    if starts_with(c, "no router ospf"@) || c == "no router ospf"@ {
        lemma_lit_head(c, "no router ospf"@, 11);
    }
    reveal_strlit("area ");
    if starts_with(c, "area "@) || c == "area "@ {
        lemma_lit_head(c, "area "@, 5);
    }
    reveal_strlit("network ");
    if starts_with(c, "network "@) || c == "network "@ {
        lemma_lit_head(c, "network "@, 8);
    }
    reveal_strlit("bgp ");
    if starts_with(c, "bgp "@) || c == "bgp "@ {
        lemma_lit_head(c, "bgp "@, 4);
    }
    reveal_strlit("router bgp ");
    if starts_with(c, "router bgp "@) || c == "router bgp "@ {
        lemma_lit_head(c, "router bgp "@, 11);
    }
    reveal_strlit("undo bgp");
    if starts_with(c, "undo bgp"@) || c == "undo bgp"@ {
        lemma_lit_head(c, "undo bgp"@, 8);
    }
    reveal_strlit("no router bgp");
    if starts_with(c, "no router bgp"@) || c == "no router bgp"@ {
        lemma_lit_head(c, "no router bgp"@, 11);
    }
    reveal_strlit("peer ");
    if starts_with(c, "peer "@) || c == "peer "@ {
        lemma_lit_head(c, "peer "@, 5);
    }
    reveal_strlit("neighbor ");
    if starts_with(c, "neighbor "@) || c == "neighbor "@ {
        lemma_lit_head(c, "neighbor "@, 9);
    }
}

/// `c` begins like one of the keywords that the pc checks look for.
pub open spec fn pc_head(c: Seq<char>) -> bool {
    (c.len() > 4 && c[0] == 'p' && c[1] == 'i' && c[2] == 'n' && c[3] == 'g' && c[4] == ' ')
        || (c.len() > 10 && c[0] == 't' && c[1] == 'r' && c[2] == 'a' && c[3] == 'c'
            && c[4] == 'e' && c[5] == 'r' && c[6] == 'o' && c[7] == 'u' && c[8] == 't'
            && c[9] == 'e' && c[10] == ' ')
        || (c.len() > 7 && c[0] == 't' && c[1] == 'r' && c[2] == 'a' && c[3] == 'c'
            && c[4] == 'e' && c[5] == 'r' && c[6] == 't' && c[7] == ' ')
        || (c.len() > 2 && c[0] == 'i' && c[1] == 'p' && c[2] == ' ')
        || (c.len() > 8 && c[0] == 'n' && c[1] == 's' && c[2] == 'l' && c[3] == 'o'
            && c[4] == 'o' && c[5] == 'k' && c[6] == 'u' && c[7] == 'p' && c[8] == ' ')
        || (c.len() > 7 && c[0] == 'i' && c[1] == 'p' && c[2] == 'c' && c[3] == 'o'
            && c[4] == 'n' && c[5] == 'f' && c[6] == 'i' && c[7] == 'g')
        || (c.len() > 7 && c[0] == 'i' && c[1] == 'f' && c[2] == 'c' && c[3] == 'o'
            && c[4] == 'n' && c[5] == 'f' && c[6] == 'i' && c[7] == 'g')
        || (c.len() > 3 && c[0] == 'i' && c[1] == 'p' && c[2] == ' ' && c[3] == 'a')
        || (c.len() > 6 && c[0] == 'i' && c[1] == 'p' && c[2] == ' ' && c[3] == 'a'
            && c[4] == 'd' && c[5] == 'd' && c[6] == 'r')
        || (c.len() > 10 && c[0] == 'i' && c[1] == 'p' && c[2] == 'c' && c[3] == 'o'
            && c[4] == 'n' && c[5] == 'f' && c[6] == 'i' && c[7] == 'g' && c[8] == ' '
            && c[9] == '/' && c[10] == 'a')
        || (c.len() > 10 && c[0] == 'i' && c[1] == 'f' && c[2] == 'c' && c[3] == 'o'
            && c[4] == 'n' && c[5] == 'f' && c[6] == 'i' && c[7] == 'g' && c[8] == ' '
            && c[9] == '-' && c[10] == 'a')
        || (c.len() > 5 && c[0] == 'a' && c[1] == 'r' && c[2] == 'p' && c[3] == ' '
            && c[4] == '-' && c[5] == 'a')
        || (c.len() > 10 && c[0] == 'd' && c[1] == 'i' && c[2] == 's' && c[3] == 'p'
            && c[4] == 'l' && c[5] == 'a' && c[6] == 'y' && c[7] == ' ' && c[8] == 'a'
            && c[9] == 'r' && c[10] == 'p')
        || (c.len() > 7 && c[0] == 's' && c[1] == 'h' && c[2] == 'o' && c[3] == 'w'
            && c[4] == ' ' && c[5] == 'a' && c[6] == 'r' && c[7] == 'p')
        || (c.len() > 6 && c[0] == 'n' && c[1] == 'e' && c[2] == 't' && c[3] == 's'
            && c[4] == 't' && c[5] == 'a' && c[6] == 't')
        || (c.len() > 10 && c[0] == 'n' && c[1] == 'e' && c[2] == 't' && c[3] == 's'
            && c[4] == 't' && c[5] == 'a' && c[6] == 't' && c[7] == ' ' && c[8] == '-'
            && c[9] == 'a' && c[10] == 'n')
}

proof fn lemma_pc_declines(st: NetworkState, i: int, c: Seq<char>)
    requires
        0 <= i < st.devices@.len(),
        !pc_head(c),
    ensures
        pc_reply(st, i, c) is None,
{
    let d = st.devices@[i];
    reveal_strlit("ping ");
    if starts_with(c, "ping "@) || c == "ping "@ {
        lemma_lit_head(c, "ping "@, 5);
    }
    reveal_strlit("traceroute ");
    if starts_with(c, "traceroute "@) || c == "traceroute "@ {
        lemma_lit_head(c, "traceroute "@, 11);
    }
    reveal_strlit("tracert ");
    if starts_with(c, "tracert "@) || c == "tracert "@ {
        lemma_lit_head(c, "tracert "@, 8);
    }
    reveal_strlit("ip ");
    if starts_with(c, "ip "@) || c == "ip "@ {
        lemma_lit_head(c, "ip "@, 3);
    }
    reveal_strlit("nslookup ");
    if starts_with(c, "nslookup "@) || c == "nslookup "@ {
        lemma_lit_head(c, "nslookup "@, 9);
    }
    reveal_strlit("ipconfig");
    if starts_with(c, "ipconfig"@) || c == "ipconfig"@ {
        lemma_lit_head(c, "ipconfig"@, 8);
    }
    reveal_strlit("ifconfig");
    if starts_with(c, "ifconfig"@) || c == "ifconfig"@ {
        lemma_lit_head(c, "ifconfig"@, 8);
    }
    reveal_strlit("ip a");
    if starts_with(c, "ip a"@) || c == "ip a"@ {
        lemma_lit_head(c, "ip a"@, 4);
    }
    reveal_strlit("ip addr");
    if starts_with(c, "ip addr"@) || c == "ip addr"@ {
        lemma_lit_head(c, "ip addr"@, 7);
    }
    reveal_strlit("ipconfig /all");
    if starts_with(c, "ipconfig /all"@) || c == "ipconfig /all"@ {
        lemma_lit_head(c, "ipconfig /all"@, 11);
    }
    reveal_strlit("ifconfig -a");
    if starts_with(c, "ifconfig -a"@) || c == "ifconfig -a"@ {
        lemma_lit_head(c, "ifconfig -a"@, 11);
    }
    reveal_strlit("arp -a");
    if starts_with(c, "arp -a"@) || c == "arp -a"@ {
        lemma_lit_head(c, "arp -a"@, 6);
    }
    reveal_strlit("display arp");
    if starts_with(c, "display arp"@) || c == "display arp"@ {
        lemma_lit_head(c, "display arp"@, 11);
    }
    reveal_strlit("show arp");
    if starts_with(c, "show arp"@) || c == "show arp"@ {
        lemma_lit_head(c, "show arp"@, 8);
    }
    reveal_strlit("netstat");
    if starts_with(c, "netstat"@) || c == "netstat"@ {
        lemma_lit_head(c, "netstat"@, 7);
    }
    reveal_strlit("netstat -an");
    if starts_with(c, "netstat -an"@) || c == "netstat -an"@ {
        lemma_lit_head(c, "netstat -an"@, 11);
    }
}

proof fn lemma_refused_sysname(st: NetworkState, i: int, x: Seq<char>, v: CliView)
    requires
        0 <= i < st.devices@.len(),
        v == CliView::UserView || v == CliView::InterfaceView,
    ensures
        needs_system_view(st, i, "sysname "@ + x, v),
{
    let c = "sysname "@ + x;
    let d = st.devices@[i];
    reveal_strlit("sysname ");
    assert(c.take(8) =~= "sysname "@);
    lemma_exit_declines(c);
    reveal_strlit("return");
    lemma_mismatch(c, "return"@, 0);
    reveal_strlit("end");
    lemma_mismatch(c, "end"@, 0);
}

proof fn lemma_refused_hostname(st: NetworkState, i: int, x: Seq<char>, v: CliView)
    requires
        0 <= i < st.devices@.len(),
        v == CliView::UserView || v == CliView::InterfaceView,
    ensures
        needs_system_view(st, i, "hostname "@ + x, v),
{
    let c = "hostname "@ + x;
    let d = st.devices@[i];
    reveal_strlit("hostname ");
    assert(c.take(9) =~= "hostname "@);
    lemma_exit_declines(c);
    reveal_strlit("return");
    lemma_mismatch(c, "return"@, 0);
    reveal_strlit("end");
    lemma_mismatch(c, "end"@, 0);
    reveal_strlit("sysname ");
    lemma_mismatch(c, "sysname "@, 0);
}

proof fn lemma_refused_undo_sysname(st: NetworkState, i: int, v: CliView)
    requires
        0 <= i < st.devices@.len(),
        v == CliView::UserView || v == CliView::InterfaceView,
    ensures
        needs_system_view(st, i, "undo sysname"@, v),
{
    let c = "undo sysname"@;
    let d = st.devices@[i];
    reveal_strlit("undo sysname");
    lemma_exit_declines(c);
    reveal_strlit("return");
    lemma_mismatch(c, "return"@, 0);
    reveal_strlit("end");
    lemma_mismatch(c, "end"@, 0);
    reveal_strlit("sysname ");
    lemma_mismatch(c, "sysname "@, 0);
    reveal_strlit("hostname ");
    lemma_mismatch(c, "hostname "@, 0);
}

proof fn lemma_refused_no_hostname(st: NetworkState, i: int, v: CliView)
    requires
        0 <= i < st.devices@.len(),
        v == CliView::UserView || v == CliView::InterfaceView,
    ensures
        needs_system_view(st, i, "no hostname"@, v),
{
    let c = "no hostname"@;
    let d = st.devices@[i];
    reveal_strlit("no hostname");
    lemma_exit_declines(c);
    reveal_strlit("return");
    lemma_mismatch(c, "return"@, 0);
    reveal_strlit("end");
    lemma_mismatch(c, "end"@, 0);
    reveal_strlit("sysname ");
    lemma_mismatch(c, "sysname "@, 0);
    reveal_strlit("hostname ");
    lemma_mismatch(c, "hostname "@, 0);
}

proof fn lemma_refused_vlan(st: NetworkState, i: int, x: Seq<char>, v: CliView)
    requires
        0 <= i < st.devices@.len(),
        v == CliView::UserView || v == CliView::InterfaceView,
        !contains("vlan "@ + x, "batch"@),
    ensures
        needs_system_view(st, i, "vlan "@ + x, v),
{
    let c = "vlan "@ + x;
    let d = st.devices@[i];
    reveal_strlit("vlan ");
    assert(c.take(5) =~= "vlan "@);
    lemma_exit_declines(c);
    lemma_system_declines(d, c, v);
    lemma_interface_declines(d, c, v);
    lemma_vlan_display_declines(c);
}

proof fn lemma_refused_vlan_batch(st: NetworkState, i: int, x: Seq<char>, v: CliView)
    requires
        0 <= i < st.devices@.len(),
        v == CliView::UserView || v == CliView::InterfaceView,
    ensures
        needs_system_view(st, i, "vlan batch "@ + x, v),
{
    let c = "vlan batch "@ + x;
    let d = st.devices@[i];
    reveal_strlit("vlan batch ");
    assert(c.take(11) =~= "vlan batch "@);
    lemma_exit_declines(c);
    lemma_system_declines(d, c, v);
    lemma_interface_declines(d, c, v);
    lemma_vlan_display_declines(c);
    reveal_strlit("batch");
    assert(c.subrange(5, 10) =~= "batch"@);
    lemma_find_skip(c, "batch"@, 0, 5);
}

proof fn lemma_refused_undo_vlan(st: NetworkState, i: int, x: Seq<char>, v: CliView)
    requires
        0 <= i < st.devices@.len(),
        v == CliView::UserView || v == CliView::InterfaceView,
    ensures
        needs_system_view(st, i, "undo vlan "@ + x, v),
{
    let c = "undo vlan "@ + x;
    let d = st.devices@[i];
    reveal_strlit("undo vlan ");
    assert(c.take(10) =~= "undo vlan "@);
    lemma_exit_declines(c);
    lemma_system_declines(d, c, v);
    lemma_interface_declines(d, c, v);
    lemma_vlan_display_declines(c);
    reveal_strlit("vlan ");
    lemma_mismatch(c, "vlan "@, 0);
    reveal_strlit("vlan batch ");
    lemma_mismatch(c, "vlan batch "@, 0);
}

proof fn lemma_refused_no_vlan(st: NetworkState, i: int, x: Seq<char>, v: CliView)
    requires
        0 <= i < st.devices@.len(),
        v == CliView::UserView || v == CliView::InterfaceView,
    ensures
        needs_system_view(st, i, "no vlan "@ + x, v),
{
    let c = "no vlan "@ + x;
    let d = st.devices@[i];
    reveal_strlit("no vlan ");
    assert(c.take(8) =~= "no vlan "@);
    lemma_exit_declines(c);
    lemma_system_declines(d, c, v);
    lemma_interface_declines(d, c, v);
    lemma_vlan_display_declines(c);
    reveal_strlit("vlan ");
    lemma_mismatch(c, "vlan "@, 0);
    reveal_strlit("vlan batch ");
    lemma_mismatch(c, "vlan batch "@, 0);
}

proof fn lemma_refused_ip_route_static(st: NetworkState, i: int, x: Seq<char>, v: CliView)
    requires
        0 <= i < st.devices@.len(),
        v == CliView::UserView || v == CliView::InterfaceView,
    ensures
        needs_system_view(st, i, "ip route-static "@ + x, v),
{
    let c = "ip route-static "@ + x;
    let d = st.devices@[i];
    reveal_strlit("ip route-static ");
    assert(c.take(16) =~= "ip route-static "@);
    lemma_exit_declines(c);
    lemma_system_declines(d, c, v);
    lemma_interface_declines(d, c, v);
    lemma_vlan_declines(d, c, v);
    lemma_routing_display_declines(d, c);
}

proof fn lemma_refused_ip_route(st: NetworkState, i: int, x: Seq<char>, v: CliView)
    requires
        0 <= i < st.devices@.len(),
        v == CliView::UserView || v == CliView::InterfaceView,
    ensures
        needs_system_view(st, i, "ip route "@ + x, v),
{
    let c = "ip route "@ + x;
    let d = st.devices@[i];
    reveal_strlit("ip route ");
    assert(c.take(9) =~= "ip route "@);
    lemma_exit_declines(c);
    lemma_system_declines(d, c, v);
    lemma_interface_declines(d, c, v);
    lemma_vlan_declines(d, c, v);
    lemma_routing_display_declines(d, c);
    reveal_strlit("ip route-static ");
    lemma_mismatch(c, "ip route-static "@, 8);
}

proof fn lemma_refused_undo_ip_route_static(st: NetworkState, i: int, x: Seq<char>, v: CliView)
    requires
        0 <= i < st.devices@.len(),
        v == CliView::UserView || v == CliView::InterfaceView,
    ensures
        needs_system_view(st, i, "undo ip route-static "@ + x, v),
{
    let c = "undo ip route-static "@ + x;
    let d = st.devices@[i];
    reveal_strlit("undo ip route-static ");
    assert(c.take(21) =~= "undo ip route-static "@);
    lemma_exit_declines(c);
    lemma_system_declines(d, c, v);
    lemma_interface_declines(d, c, v);
    lemma_vlan_declines(d, c, v);
    lemma_routing_display_declines(d, c);
    reveal_strlit("ip route-static ");
    lemma_mismatch(c, "ip route-static "@, 0);
    reveal_strlit("ip route ");
    lemma_mismatch(c, "ip route "@, 0);
}

proof fn lemma_refused_no_ip_route(st: NetworkState, i: int, x: Seq<char>, v: CliView)
    requires
        0 <= i < st.devices@.len(),
        v == CliView::UserView || v == CliView::InterfaceView,
    ensures
        needs_system_view(st, i, "no ip route "@ + x, v),
{
    let c = "no ip route "@ + x;
    let d = st.devices@[i];
    reveal_strlit("no ip route ");
    assert(c.take(12) =~= "no ip route "@);
    lemma_exit_declines(c);
    lemma_system_declines(d, c, v);
    lemma_interface_declines(d, c, v);
    lemma_vlan_declines(d, c, v);
    lemma_routing_display_declines(d, c);
    reveal_strlit("ip route-static ");
    lemma_mismatch(c, "ip route-static "@, 0);
    reveal_strlit("ip route ");
    lemma_mismatch(c, "ip route "@, 0);
    reveal_strlit("undo ip route-static ");
    lemma_mismatch(c, "undo ip route-static "@, 0);
}

proof fn lemma_refused_ospf(st: NetworkState, i: int, x: Seq<char>, v: CliView)
    requires
        0 <= i < st.devices@.len(),
        v == CliView::UserView || v == CliView::InterfaceView,
    ensures
        needs_system_view(st, i, "ospf "@ + x, v),
{
    let c = "ospf "@ + x;
    let d = st.devices@[i];
    reveal_strlit("ospf ");
    assert(c.take(5) =~= "ospf "@);
    lemma_exit_declines(c);
    lemma_system_declines(d, c, v);
    lemma_interface_declines(d, c, v);
    lemma_vlan_declines(d, c, v);
    lemma_routing_display_declines(d, c);
    reveal_strlit("ip route-static ");
    lemma_mismatch(c, "ip route-static "@, 0);
    reveal_strlit("ip route ");
    lemma_mismatch(c, "ip route "@, 0);
    reveal_strlit("undo ip route-static ");
    lemma_mismatch(c, "undo ip route-static "@, 0);
    reveal_strlit("no ip route ");
    lemma_mismatch(c, "no ip route "@, 0);
}

proof fn lemma_refused_router_ospf(st: NetworkState, i: int, x: Seq<char>, v: CliView)
    requires
        0 <= i < st.devices@.len(),
        v == CliView::UserView || v == CliView::InterfaceView,
    ensures
        needs_system_view(st, i, "router ospf "@ + x, v),
{
    let c = "router ospf "@ + x;
    let d = st.devices@[i];
    reveal_strlit("router ospf ");
    assert(c.take(12) =~= "router ospf "@);
    lemma_exit_declines(c);
    lemma_system_declines(d, c, v);
    lemma_interface_declines(d, c, v);
    lemma_vlan_declines(d, c, v);
    lemma_routing_display_declines(d, c);
    reveal_strlit("ip route-static ");
    lemma_mismatch(c, "ip route-static "@, 0);
    reveal_strlit("ip route ");
    lemma_mismatch(c, "ip route "@, 0);
    reveal_strlit("undo ip route-static ");
    lemma_mismatch(c, "undo ip route-static "@, 0);
    reveal_strlit("no ip route ");
    lemma_mismatch(c, "no ip route "@, 0);
    reveal_strlit("ospf ");
    lemma_mismatch(c, "ospf "@, 0);
}

proof fn lemma_refused_undo_ospf(st: NetworkState, i: int, v: CliView)
    requires
        0 <= i < st.devices@.len(),
        v == CliView::UserView || v == CliView::InterfaceView,
    ensures
        needs_system_view(st, i, "undo ospf"@, v),
{
    let c = "undo ospf"@;
    let d = st.devices@[i];
    reveal_strlit("undo ospf");
    lemma_exit_declines(c);
    lemma_system_declines(d, c, v);
    lemma_interface_declines(d, c, v);
    lemma_vlan_declines(d, c, v);
    lemma_routing_display_declines(d, c);
    reveal_strlit("ip route-static ");
    lemma_mismatch(c, "ip route-static "@, 0);
    reveal_strlit("ip route ");
    lemma_mismatch(c, "ip route "@, 0);
    reveal_strlit("undo ip route-static ");
    lemma_mismatch(c, "undo ip route-static "@, 5);
    reveal_strlit("no ip route ");
    lemma_mismatch(c, "no ip route "@, 0);
    reveal_strlit("ospf ");
    lemma_mismatch(c, "ospf "@, 0);
    reveal_strlit("router ospf ");
    lemma_mismatch(c, "router ospf "@, 0);
}

proof fn lemma_refused_no_router_ospf(st: NetworkState, i: int, v: CliView)
    requires
        0 <= i < st.devices@.len(),
        v == CliView::UserView || v == CliView::InterfaceView,
    ensures
        needs_system_view(st, i, "no router ospf"@, v),
{
    let c = "no router ospf"@;
    let d = st.devices@[i];
    reveal_strlit("no router ospf");
    lemma_exit_declines(c);
    lemma_system_declines(d, c, v);
    lemma_interface_declines(d, c, v);
    lemma_vlan_declines(d, c, v);
    lemma_routing_display_declines(d, c);
    reveal_strlit("ip route-static ");
    lemma_mismatch(c, "ip route-static "@, 0);
    reveal_strlit("ip route ");
    lemma_mismatch(c, "ip route "@, 0);
    reveal_strlit("undo ip route-static ");
    lemma_mismatch(c, "undo ip route-static "@, 0);
    reveal_strlit("no ip route ");
    lemma_mismatch(c, "no ip route "@, 3);
    reveal_strlit("ospf ");
    lemma_mismatch(c, "ospf "@, 0);
    reveal_strlit("router ospf ");
    lemma_mismatch(c, "router ospf "@, 0);
    reveal_strlit("undo ospf");
    lemma_mismatch(c, "undo ospf"@, 0);
}

proof fn lemma_refused_bgp(st: NetworkState, i: int, x: Seq<char>, v: CliView)
    requires
        0 <= i < st.devices@.len(),
        v == CliView::UserView || v == CliView::InterfaceView,
    ensures
        needs_system_view(st, i, "bgp "@ + x, v),
{
    let c = "bgp "@ + x;
    let d = st.devices@[i];
    reveal_strlit("bgp ");
    assert(c.take(4) =~= "bgp "@);
    lemma_exit_declines(c);
    lemma_system_declines(d, c, v);
    lemma_interface_declines(d, c, v);
    lemma_vlan_declines(d, c, v);
    lemma_routing_display_declines(d, c);
    reveal_strlit("ip route-static ");
    lemma_mismatch(c, "ip route-static "@, 0);
    reveal_strlit("ip route ");
    lemma_mismatch(c, "ip route "@, 0);
    reveal_strlit("undo ip route-static ");
    lemma_mismatch(c, "undo ip route-static "@, 0);
    reveal_strlit("no ip route ");
    lemma_mismatch(c, "no ip route "@, 0);
    reveal_strlit("ospf ");
    lemma_mismatch(c, "ospf "@, 0);
    reveal_strlit("router ospf ");
    lemma_mismatch(c, "router ospf "@, 0);
    reveal_strlit("undo ospf");
    lemma_mismatch(c, "undo ospf"@, 0);
    reveal_strlit("no router ospf");
    lemma_mismatch(c, "no router ospf"@, 0);
    reveal_strlit("area ");
    lemma_mismatch(c, "area "@, 0);
    reveal_strlit("network ");
    lemma_mismatch(c, "network "@, 0);
}

proof fn lemma_refused_router_bgp(st: NetworkState, i: int, x: Seq<char>, v: CliView)
    requires
        0 <= i < st.devices@.len(),
        v == CliView::UserView || v == CliView::InterfaceView,
    ensures
        needs_system_view(st, i, "router bgp "@ + x, v),
{
    let c = "router bgp "@ + x;
    let d = st.devices@[i];
    reveal_strlit("router bgp ");
    assert(c.take(11) =~= "router bgp "@);
    lemma_exit_declines(c);
    lemma_system_declines(d, c, v);
    lemma_interface_declines(d, c, v);
    lemma_vlan_declines(d, c, v);
    lemma_routing_display_declines(d, c);
    reveal_strlit("ip route-static ");
    lemma_mismatch(c, "ip route-static "@, 0);
    reveal_strlit("ip route ");
    lemma_mismatch(c, "ip route "@, 0);
    reveal_strlit("undo ip route-static ");
    lemma_mismatch(c, "undo ip route-static "@, 0);
    reveal_strlit("no ip route ");
    lemma_mismatch(c, "no ip route "@, 0);
    reveal_strlit("ospf ");
    lemma_mismatch(c, "ospf "@, 0);
    reveal_strlit("router ospf ");
    lemma_mismatch(c, "router ospf "@, 7);
    reveal_strlit("undo ospf");
    lemma_mismatch(c, "undo ospf"@, 0);
    reveal_strlit("no router ospf");
    lemma_mismatch(c, "no router ospf"@, 0);
    reveal_strlit("area ");
    lemma_mismatch(c, "area "@, 0);
    reveal_strlit("network ");
    lemma_mismatch(c, "network "@, 0);
    reveal_strlit("bgp ");
    lemma_mismatch(c, "bgp "@, 0);
}

proof fn lemma_refused_undo_bgp(st: NetworkState, i: int, v: CliView)
    requires
        0 <= i < st.devices@.len(),
        v == CliView::UserView || v == CliView::InterfaceView,
    ensures
        needs_system_view(st, i, "undo bgp"@, v),
{
    let c = "undo bgp"@;
    let d = st.devices@[i];
    reveal_strlit("undo bgp");
    lemma_exit_declines(c);
    lemma_system_declines(d, c, v);
    lemma_interface_declines(d, c, v);
    lemma_vlan_declines(d, c, v);
    lemma_routing_display_declines(d, c);
    reveal_strlit("ip route-static ");
    lemma_mismatch(c, "ip route-static "@, 0);
    reveal_strlit("ip route ");
    lemma_mismatch(c, "ip route "@, 0);
    reveal_strlit("undo ip route-static ");
    lemma_mismatch(c, "undo ip route-static "@, 5);
    reveal_strlit("no ip route ");
    lemma_mismatch(c, "no ip route "@, 0);
    reveal_strlit("ospf ");
    lemma_mismatch(c, "ospf "@, 0);
    reveal_strlit("router ospf ");
    lemma_mismatch(c, "router ospf "@, 0);
    reveal_strlit("undo ospf");
    lemma_mismatch(c, "undo ospf"@, 5);
    reveal_strlit("no router ospf");
    lemma_mismatch(c, "no router ospf"@, 0);
    reveal_strlit("area ");
    lemma_mismatch(c, "area "@, 0);
    reveal_strlit("network ");
    lemma_mismatch(c, "network "@, 0);
    reveal_strlit("bgp ");
    lemma_mismatch(c, "bgp "@, 0);
    reveal_strlit("router bgp ");
    lemma_mismatch(c, "router bgp "@, 0);
}

proof fn lemma_refused_no_router_bgp(st: NetworkState, i: int, x: Seq<char>, v: CliView)
    requires
        0 <= i < st.devices@.len(),
        v == CliView::UserView || v == CliView::InterfaceView,
    ensures
        needs_system_view(st, i, "no router bgp"@ + x, v),
{
    let c = "no router bgp"@ + x;
    let d = st.devices@[i];
    reveal_strlit("no router bgp");
    assert(c.take(13) =~= "no router bgp"@);
    lemma_exit_declines(c);
    lemma_system_declines(d, c, v);
    lemma_interface_declines(d, c, v);
    lemma_vlan_declines(d, c, v);
    lemma_routing_display_declines(d, c);
    reveal_strlit("ip route-static ");
    lemma_mismatch(c, "ip route-static "@, 0);
    reveal_strlit("ip route ");
    lemma_mismatch(c, "ip route "@, 0);
    reveal_strlit("undo ip route-static ");
    lemma_mismatch(c, "undo ip route-static "@, 0);
    reveal_strlit("no ip route ");
    lemma_mismatch(c, "no ip route "@, 3);
    reveal_strlit("ospf ");
    lemma_mismatch(c, "ospf "@, 0);
    reveal_strlit("router ospf ");
    lemma_mismatch(c, "router ospf "@, 0);
    reveal_strlit("undo ospf");
    lemma_mismatch(c, "undo ospf"@, 0);
    reveal_strlit("no router ospf");
    lemma_mismatch(c, "no router ospf"@, 10);
    reveal_strlit("area ");
    lemma_mismatch(c, "area "@, 0);
    reveal_strlit("network ");
    lemma_mismatch(c, "network "@, 1);
    reveal_strlit("bgp ");
    lemma_mismatch(c, "bgp "@, 0);
    reveal_strlit("router bgp ");
    lemma_mismatch(c, "router bgp "@, 0);
    reveal_strlit("undo bgp");
    lemma_mismatch(c, "undo bgp"@, 0);
}

proof fn lemma_refused_dhcp_enable(st: NetworkState, i: int, v: CliView)
    requires
        0 <= i < st.devices@.len(),
        v == CliView::UserView || v == CliView::InterfaceView,
    ensures
        needs_system_view(st, i, "dhcp enable"@, v),
{
    let c = "dhcp enable"@;
    let d = st.devices@[i];
    reveal_strlit("dhcp enable");
    lemma_exit_declines(c);
    lemma_system_declines(d, c, v);
    lemma_interface_declines(d, c, v);
    lemma_vlan_declines(d, c, v);
    lemma_routing_declines(d, c, v);
    lemma_pc_declines(st, i, c);
    lemma_dhcp_display_declines(d, c);
}

proof fn lemma_refused_service_dhcp(st: NetworkState, i: int, v: CliView)
    requires
        0 <= i < st.devices@.len(),
        v == CliView::UserView || v == CliView::InterfaceView,
    ensures
        needs_system_view(st, i, "service dhcp"@, v),
{
    let c = "service dhcp"@;
    let d = st.devices@[i];
    reveal_strlit("service dhcp");
    lemma_exit_declines(c);
    lemma_system_declines(d, c, v);
    lemma_interface_declines(d, c, v);
    lemma_vlan_declines(d, c, v);
    lemma_routing_declines(d, c, v);
    lemma_pc_declines(st, i, c);
    lemma_dhcp_display_declines(d, c);
    reveal_strlit("dhcp enable");
    lemma_mismatch(c, "dhcp enable"@, 0);
}

proof fn lemma_refused_undo_dhcp_enable(st: NetworkState, i: int, v: CliView)
    requires
        0 <= i < st.devices@.len(),
        v == CliView::UserView || v == CliView::InterfaceView,
    ensures
        needs_system_view(st, i, "undo dhcp enable"@, v),
{
    let c = "undo dhcp enable"@;
    let d = st.devices@[i];
    reveal_strlit("undo dhcp enable");
    lemma_exit_declines(c);
    lemma_system_declines(d, c, v);
    lemma_interface_declines(d, c, v);
    lemma_vlan_declines(d, c, v);
    lemma_routing_declines(d, c, v);
    lemma_pc_declines(st, i, c);
    lemma_dhcp_display_declines(d, c);
    reveal_strlit("dhcp enable");
    lemma_mismatch(c, "dhcp enable"@, 0);
    reveal_strlit("service dhcp");
    lemma_mismatch(c, "service dhcp"@, 0);
}

proof fn lemma_refused_no_service_dhcp(st: NetworkState, i: int, v: CliView)
    requires
        0 <= i < st.devices@.len(),
        v == CliView::UserView || v == CliView::InterfaceView,
    ensures
        needs_system_view(st, i, "no service dhcp"@, v),
{
    let c = "no service dhcp"@;
    let d = st.devices@[i];
    reveal_strlit("no service dhcp");
    lemma_exit_declines(c);
    lemma_system_declines(d, c, v);
    lemma_interface_declines(d, c, v);
    lemma_vlan_declines(d, c, v);
    lemma_routing_declines(d, c, v);
    lemma_pc_declines(st, i, c);
    lemma_dhcp_display_declines(d, c);
    reveal_strlit("dhcp enable");
    lemma_mismatch(c, "dhcp enable"@, 0);
    reveal_strlit("service dhcp");
    lemma_mismatch(c, "service dhcp"@, 0);
    reveal_strlit("undo dhcp enable");
    lemma_mismatch(c, "undo dhcp enable"@, 0);
}

} // verus!
