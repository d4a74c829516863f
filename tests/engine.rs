use netsim_core::addr::{calculate_network, cidr_to_mask, is_valid_ipv4, mask_to_cidr};
use netsim_core::cli::{CliView, CommandResult};
use netsim_core::dhcp::handle_dhcp_commands;
use netsim_core::executor::execute_command;
use netsim_core::network::{
    CableType, DeviceType, LinkStatus, NetworkCable, NetworkDevice, NetworkPort, PortConfig, PortMode, PortType,
    Vendor,
};
use netsim_core::packet::Packet;
use netsim_core::simulation::SimulationEngine;
use netsim_core::state::NetworkState;
use netsim_core::vlan::parse_vlan_range;

fn chars(s: &str) -> Vec<char> {
    s.chars().collect()
}

fn port(id: &str, name: &str, mode: PortMode, ip: Option<&str>) -> NetworkPort {
    NetworkPort {
        id: id.to_string(),
        name: name.to_string(),
        port_type: PortType::RJ45,
        status: LinkStatus::Up,
        config: PortConfig {
            vlan: None,
            allowed_vlans: None,
            mode,
            ip_address: ip.map(|s| s.to_string()),
            subnet_mask: ip.map(|_| 24),
            enabled: true,
            description: None,
        },
        connected_cable_id: None,
    }
}

fn device(id: &str, hostname: &str, ports: Vec<NetworkPort>) -> NetworkDevice {
    NetworkDevice {
        id: id.to_string(),
        device_type: DeviceType::Router,
        vendor: Vendor::Huawei,
        hostname: hostname.to_string(),
        model: "AR2220".to_string(),
        ports,
        vlans: Vec::new(),
        ospf_enabled: None,
        bgp_enabled: None,
        dhcp_enabled: None,
    }
}

fn one_router() -> NetworkState {
    let mut st = NetworkState::new();
    st.set_topology(
        vec![device("r1", "R1", vec![port("p1", "GE0/0/1", PortMode::Routed, None), port("p2", "GE0/0/2", PortMode::Access, None)])],
        Vec::new(),
    );
    st
}

fn run(st: &mut NetworkState, cmd: &str, view: CliView) -> CommandResult {
    execute_command(st, "r1", cmd, view)
}

fn vlans(st: &NetworkState) -> Vec<u16> {
    st.devices[0].vlans.clone()
}

#[test]
fn unknown_device_fails_without_change() {
    let mut st = one_router();
    let r = execute_command(&mut st, "nope", "display version", CliView::UserView);
    assert!(!r.success);
    assert_eq!(r.output, "Device not found");
    let mut empty = NetworkState::new();
    let r = execute_command(&mut empty, "", "", CliView::SystemView);
    assert!(!r.success);
}

#[test]
fn system_view_commands_refused_elsewhere() {
    for view in [CliView::UserView, CliView::InterfaceView] {
        let mut st = one_router();
        let before = format!("{:?}", st.devices);
        for cmd in ["vlan 10", "vlan batch 10 to 12", "undo vlan 10", "sysname core", "ospf 1", "bgp 65001", "ip route-static 10.0.0.0 255.0.0.0 192.168.1.1", "dhcp enable"] {
            let r = run(&mut st, cmd, view);
            assert!(!r.success, "{cmd}");
            assert_eq!(r.output, "Error: Command requires system-view. Enter 'system-view' first.");
        }
        assert_eq!(format!("{:?}", st.devices), before);
    }
}

#[test]
fn vlan_create_is_idempotent() {
    let mut st = one_router();
    let r1 = run(&mut st, "vlan 10", CliView::SystemView);
    let r2 = run(&mut st, "vlan 10", CliView::SystemView);
    assert!(r1.success && r2.success);
    assert_eq!(r1.output, "VLAN 10 created");
    assert_eq!(vlans(&st).iter().filter(|v| **v == 10).count(), 1);
    assert_eq!(vlans(&st), vec![10]);
}

#[test]
fn vlan_list_is_sorted_and_ranges_checked() {
    let mut st = one_router();
    assert!(run(&mut st, "vlan 30", CliView::SystemView).success);
    assert!(run(&mut st, "vlan 20", CliView::SystemView).success);
    assert_eq!(vlans(&st), vec![20, 30]);
    let r = run(&mut st, "vlan 4095", CliView::SystemView);
    assert!(!r.success);
    assert_eq!(r.output, "Error: Invalid VLAN ID. Must be 1-4094.");
    let r = run(&mut st, "vlan 0", CliView::SystemView);
    assert!(!r.success);
    assert!(run(&mut st, "vlan 4094", CliView::SystemView).success);
}

#[test]
fn vlan_one_cannot_be_deleted() {
    let mut st = one_router();
    let r = run(&mut st, "undo vlan 1", CliView::SystemView);
    assert!(!r.success);
    assert_eq!(r.output, "Error: Cannot delete VLAN 1 (default)");
    let r = run(&mut st, "no vlan 1", CliView::SystemView);
    assert!(!r.success);
}

#[test]
fn vlan_delete_missing_and_present() {
    let mut st = one_router();
    let r = run(&mut st, "undo vlan 5", CliView::SystemView);
    assert!(!r.success);
    assert_eq!(r.output, "Error: VLAN 5 does not exist");
    run(&mut st, "vlan 5", CliView::SystemView);
    let r = run(&mut st, "undo vlan 5", CliView::SystemView);
    assert!(r.success);
    assert_eq!(r.output, "VLAN 5 deleted");
    assert!(vlans(&st).is_empty());
}

#[test]
fn ip_address_round_trip() {
    let mut st = one_router();
    let r = run(&mut st, "interface GE0/0/1", CliView::SystemView);
    assert!(r.success);
    assert_eq!(r.new_view, Some(CliView::InterfaceView));
    let r = run(&mut st, "ip address 192.168.1.5 255.255.255.0", CliView::InterfaceView);
    assert!(r.success);
    assert_eq!(r.output, "IP address 192.168.1.5 255.255.255.0 configured");
    let r = run(&mut st, "display interface GE0/0/1", CliView::UserView);
    assert!(r.success);
    assert!(r.output.contains("IP Address: 192.168.1.5/24"));
    assert_eq!(mask_to_cidr(&chars("255.255.255.0")), 24);
}

#[test]
fn vlan_batch_forms_agree() {
    for text in ["10 to 12", "10-12", "10 11 12"] {
        assert_eq!(parse_vlan_range(&chars(text)).unwrap(), vec![10, 11, 12]);
        let mut st = one_router();
        let r = run(&mut st, &format!("vlan batch {text}"), CliView::SystemView);
        assert!(r.success);
        assert_eq!(r.output, "3 VLANs created");
        assert_eq!(vlans(&st), vec![10, 11, 12]);
    }
    let mut st = one_router();
    let r = run(&mut st, "vlan batch 20 to 10", CliView::SystemView);
    assert!(!r.success);
    assert_eq!(r.output, "Error: Invalid VLAN range");
    assert!(vlans(&st).is_empty());
}

#[test]
fn vlan_batch_errors_are_atomic() {
    let mut st = one_router();
    let r = run(&mut st, "vlan batch 10 abc 12", CliView::SystemView);
    assert!(!r.success);
    assert_eq!(r.output, "Error: Invalid VLAN: abc");
    let r = run(&mut st, "vlan batch 10 5000", CliView::SystemView);
    assert_eq!(r.output, "Error: VLAN 5000 out of range (1-4094)");
    assert!(vlans(&st).is_empty());
    assert_eq!(parse_vlan_range(&chars("x to 3")).unwrap_err(), "Invalid start VLAN");
    assert_eq!(parse_vlan_range(&chars("3 to y")).unwrap_err(), "Invalid end VLAN");
}

fn two_hosts() -> NetworkState {
    let a = device("a", "HostA", vec![port("a1", "eth0", PortMode::Routed, None)]);
    let b = device("b", "HostB", vec![port("b1", "eth0", PortMode::Routed, Some("10.0.0.2"))]);
    let cable = NetworkCable {
        id: "c1".to_string(),
        cable_type: CableType::Copper,
        source_device_id: "a".to_string(),
        source_port_id: "a1".to_string(),
        target_device_id: "b".to_string(),
        target_port_id: "b1".to_string(),
    };
    let mut st = NetworkState::new();
    st.set_topology(vec![a, b], vec![cable]);
    st
}

#[test]
fn ping_needs_address_then_succeeds() {
    let mut st = two_hosts();
    let r = execute_command(&mut st, "a", "ping 10.0.0.2", CliView::UserView);
    assert!(r.success);
    assert!(r.output.contains("Network is unreachable (no IP configured)"));
    assert!(r.output.ends_with("4 packets transmitted, 0 received, 100% packet loss"));
    let r = execute_command(&mut st, "a", "ip 10.0.0.1 255.255.255.0 10.0.0.254", CliView::UserView);
    assert!(r.success);
    let r = execute_command(&mut st, "a", "ping 10.0.0.2", CliView::UserView);
    assert!(r.success);
    let expected = "PING 10.0.0.2 (10.0.0.2) 56 bytes of data.\n\
        64 bytes from 10.0.0.2: icmp_seq=1 ttl=64 time=2ms\n\
        64 bytes from 10.0.0.2: icmp_seq=2 ttl=64 time=3ms\n\
        64 bytes from 10.0.0.2: icmp_seq=3 ttl=64 time=1ms\n\
        64 bytes from 10.0.0.2: icmp_seq=4 ttl=64 time=2ms\n\
        \n\
        --- 10.0.0.2 ping statistics ---\n\
        4 packets transmitted, 4 received, 0% packet loss";
    assert_eq!(r.output, expected);
}

#[test]
fn ping_works_across_cable_from_target_end() {
    let mut st = two_hosts();
    let r = execute_command(&mut st, "b", "ping 10.0.0.9", CliView::UserView);
    assert!(r.output.contains("Request timeout for icmp_seq=4"));
    assert!(r.output.ends_with("4 packets transmitted, 0 received, 100% packet loss"));
    execute_command(&mut st, "a", "ip 10.0.0.1 255.255.255.0 10.0.0.254", CliView::UserView);
    let r = execute_command(&mut st, "b", "ping 10.0.0.1", CliView::UserView);
    assert!(r.output.ends_with("4 received, 0% packet loss"));
}

#[test]
fn resolver_swaps_addresses() {
    let st = two_hosts();
    let mut engine = SimulationEngine::new();
    let q = Packet::new_icmp_echo("m1", "m2", "10.0.0.1", "10.0.0.2", 7);
    let r = engine.process_packet_immediate(&st, "a", q).unwrap();
    assert_eq!(r.src_ip, "10.0.0.2");
    assert_eq!(r.dst_ip, "10.0.0.1");
    assert_eq!(r.ttl, 64);
    let q = Packet::new_icmp_echo("m1", "m2", "10.0.0.1", "10.0.0.3", 1);
    assert!(engine.process_packet_immediate(&st, "a", q).is_none());
    let q = Packet::new_icmp_echo("m1", "m2", "10.0.0.1", "10.0.0.2", 1);
    assert!(engine.process_packet_immediate(&st, "zz", q).is_none());
}

#[test]
fn unrecognized_input_is_quoted() {
    let mut st = one_router();
    let r = run(&mut st, "banana", CliView::UserView);
    assert!(!r.success);
    assert!(r.output.contains("banana"));
    let r = run(&mut st, "  BaNaNa  ", CliView::UserView);
    assert_eq!(r.output, "Error: Unrecognized command '  BaNaNa  ' (Engine Fallback Triggered)");
}

#[test]
fn commands_are_case_insensitive() {
    let mut st = one_router();
    let r = run(&mut st, "  VLAN 10 ", CliView::SystemView);
    assert!(r.success);
    assert_eq!(r.output, "VLAN 10 created");
}

#[test]
fn exit_moves_up_one_view() {
    let mut st = one_router();
    assert_eq!(run(&mut st, "exit", CliView::InterfaceView).new_view, Some(CliView::SystemView));
    assert_eq!(run(&mut st, "quit", CliView::SystemView).new_view, Some(CliView::UserView));
    assert_eq!(run(&mut st, "exit", CliView::PoolView).new_view, Some(CliView::SystemView));
    assert_eq!(run(&mut st, "exit", CliView::UserView).new_view, Some(CliView::UserView));
    assert_eq!(run(&mut st, "system-view", CliView::UserView).new_view, Some(CliView::SystemView));
}

#[test]
fn hostname_rules() {
    let mut st = one_router();
    let r = run(&mut st, "sysname Core-1", CliView::SystemView);
    assert!(r.success);
    assert_eq!(r.output, "Hostname set to 'core-1'");
    assert_eq!(r.new_hostname.as_deref(), Some("core-1"));
    assert_eq!(st.devices[0].hostname, "core-1");
    let r = run(&mut st, "sysname a.b", CliView::SystemView);
    assert!(!r.success);
    let long = format!("hostname {}", "x".repeat(65));
    let r = run(&mut st, &long, CliView::SystemView);
    assert_eq!(r.output, "Error: Hostname too long (max 64 characters).");
    let r = run(&mut st, "undo sysname", CliView::SystemView);
    assert_eq!(r.new_hostname.as_deref(), Some("Router"));
}

#[test]
fn interface_lookup_joins_words() {
    let mut st = one_router();
    assert!(run(&mut st, "interface ge0/0/ 2", CliView::SystemView).success);
    let r = run(&mut st, "interface ge9", CliView::InterfaceView);
    assert!(!r.success);
    assert_eq!(r.output, "Error: Interface ge9 not found.");
    let r = run(&mut st, "interface ge0/0/1", CliView::UserView);
    assert!(!r.success);
}

#[test]
fn address_helpers() {
    assert!(is_valid_ipv4(&chars("192.168.1.1")));
    assert!(!is_valid_ipv4(&chars("192.168.1.256")));
    assert!(!is_valid_ipv4(&chars("1.2.3")));
    assert_eq!(cidr_to_mask(24), "255.255.255.0");
    assert_eq!(cidr_to_mask(0), "0.0.0.0");
    assert_eq!(cidr_to_mask(33), "255.255.255.255");
    assert_eq!(cidr_to_mask(20), "255.255.240.0");
    assert_eq!(mask_to_cidr(&chars("255.0.255.0")), 16);
    assert_eq!(mask_to_cidr(&chars("garbage")), 24);
    assert_eq!(calculate_network(&chars("192.168.1.77"), 24), "192.168.1.0");
    assert_eq!(calculate_network(&chars("10.1.2.3"), 8), "10.0.0.0");
}

#[test]
fn routing_toggles_and_table() {
    let mut st = one_router();
    run(&mut st, "interface GE0/0/1", CliView::SystemView);
    run(&mut st, "ip address 172.16.5.9 255.255.0.0", CliView::InterfaceView);
    let r = run(&mut st, "display ip routing-table", CliView::UserView);
    assert!(r.output.contains("172.16.0.0/16"));
    assert_eq!(run(&mut st, "display ospf neighbor", CliView::UserView).output, "OSPF is not enabled on this device.");
    assert_eq!(run(&mut st, "ospf 1", CliView::SystemView).output, "OSPF process 1 enabled");
    assert_eq!(st.devices[0].ospf_enabled, Some(true));
    run(&mut st, "undo ospf", CliView::SystemView);
    assert_eq!(st.devices[0].ospf_enabled, Some(false));
    let r = run(&mut st, "peer 1.1.1.1 as-number 100", CliView::SystemView);
    assert_eq!(r.output, "BGP peer 1.1.1.1 AS 100 configured");
    let r = run(&mut st, "network 10.0.0.0 0.0.0.255 area 0", CliView::SystemView);
    assert_eq!(r.output, "Network 10.0.0.0 added to OSPF area 0");
}

#[test]
fn dhcp_stp_security_lag_replies() {
    let mut st = one_router();
    assert_eq!(run(&mut st, "dhcp enable", CliView::SystemView).output, "DHCP service enabled");
    assert_eq!(st.devices[0].dhcp_enabled, Some(true));
    let r = run(&mut st, "ip pool lan", CliView::SystemView);
    assert_eq!(r.new_view, Some(CliView::PoolView));
    assert_eq!(run(&mut st, "dns-list 8.8.8.8 1.1.1.1", CliView::PoolView).output, "DNS servers set to: 8.8.8.8, 1.1.1.1");
    assert!(!run(&mut st, "dns-list 8.8.8.8 x", CliView::PoolView).success);
    assert_eq!(run(&mut st, "stp priority 4096", CliView::SystemView).output, "Bridge priority set to 4096");
    assert!(!run(&mut st, "stp priority 100", CliView::SystemView).success);
    assert_eq!(run(&mut st, "stp mode rstp", CliView::SystemView).output, "STP mode set to RSTP");
    assert_eq!(run(&mut st, "acl number 2000", CliView::SystemView).output, "ACL 2000 created. Entering ACL configuration.");
    assert_eq!(run(&mut st, "eth-trunk 1", CliView::InterfaceView).output, "Interface added to Eth-Trunk 1");
    assert!(run(&mut st, "display eth-trunk", CliView::UserView).output.starts_with("Eth-Trunk Summary"));
}

#[test]
fn topology_load_keeps_last_of_duplicate_ids() {
    let mut st = NetworkState::new();
    st.set_topology(vec![device("x", "First", vec![]), device("y", "Y", vec![]), device("x", "Second", vec![])], vec![]);
    assert_eq!(st.devices.len(), 2);
    assert_eq!(st.devices[0].hostname, "Second");
}

#[test]
fn vlan_table_lists_default() {
    let mut st = one_router();
    run(&mut st, "vlan 7", CliView::SystemView);
    let r = run(&mut st, "display vlan", CliView::UserView);
    assert!(r.output.contains("1      default              active"));
    assert!(r.output.contains("7      VLAN0007             active"));
    assert!(r.output.ends_with("Total VLANs: 1"));
}

#[test]
fn interface_errors_and_settings() {
    let mut st = one_router();
    let iv = CliView::InterfaceView;
    assert_eq!(run(&mut st, "shutdown", CliView::SystemView).output, "Error: Command requires interface-view. Enter 'interface <name>' first.");
    assert_eq!(run(&mut st, "ip address 1.2.3.4", iv).output, "Error: Incomplete command. Usage: ip address <ip> <mask>");
    assert_eq!(run(&mut st, "ip address 1.2.3 24", iv).output, "Error: Invalid IP address '1.2.3'");
    assert_eq!(run(&mut st, "undo ip address", iv).output, "Error: No IP address to remove");
    assert_eq!(run(&mut st, "ip address 10.1.1.1 16", iv).output, "IP address 10.1.1.1 16 configured");
    assert_eq!(st.devices[0].ports[0].config.subnet_mask, Some(16));
    assert_eq!(run(&mut st, "undo ip address", iv).output, "IP address removed");
    assert_eq!(st.devices[0].ports[0].config.ip_address, None);
    assert_eq!(run(&mut st, "port link-type bogus", iv).output, "Error: Invalid port mode 'bogus'. Use access, trunk, or hybrid.");
    assert_eq!(run(&mut st, "port link-type trunk", iv).output, "Port link-type set to trunk");
    assert_eq!(run(&mut st, "port default vlan 5000", iv).output, "Error: Invalid VLAN ID (1-4094)");
    assert_eq!(run(&mut st, "switchport access vlan 20", iv).output, "Access VLAN set to 20");
    assert_eq!(run(&mut st, "port trunk allow-pass vlan 10 20", iv).output, "Trunk allowed VLANs set to: 10 20");
    assert_eq!(run(&mut st, "speed 1000", iv).output, "Speed set to 1000");
    assert_eq!(run(&mut st, "duplex full", iv).output, "Duplex set to full");
    assert_eq!(run(&mut st, "description uplink", iv).output, "Description set to 'uplink'");
    let mut lone = NetworkState::new();
    lone.set_topology(vec![device("r1", "R1", vec![port("p", "eth0", PortMode::Access, None)])], vec![]);
    assert_eq!(run(&mut lone, "ip address 1.2.3.4 24", iv).output, "Error: No routed interface available");
}

#[test]
fn interface_brief_exact() {
    let mut st = one_router();
    run(&mut st, "ip address 10.0.0.1 255.255.255.0", CliView::InterfaceView);
    let r = run(&mut st, "display ip interface brief", CliView::UserView);
    let expected = format!(
        "{:<20} {:<16} {:<8} {:<12} {:<10}\n{}\n{:<20} {:<16} {:<8} {:<12} {:<10}\n{:<20} {:<16} {:<8} {:<12} {:<10}",
        "Interface", "IP-Address", "Status", "Protocol", "Mode",
        "-".repeat(70),
        "GE0/0/1", "10.0.0.1/24", "up", "up", "routed",
        "GE0/0/2", "unassigned", "up", "up", "access"
    );
    assert_eq!(r.output, expected);
}

#[test]
fn running_config_exact() {
    let mut st = one_router();
    run(&mut st, "vlan 10", CliView::SystemView);
    run(&mut st, "ip address 10.0.0.1 255.255.255.0", CliView::InterfaceView);
    run(&mut st, "ospf 1", CliView::SystemView);
    let r = run(&mut st, "show run", CliView::UserView);
    let expected = "!\n! NetSim Configuration - R1\n! Generated by WASM Engine\n!\nhostname R1\n!\nvlan 10\n!\n\
        interface GE0/0/1\n ip address 10.0.0.1 255.255.255.0\n!\n\
        interface GE0/0/2\n port link-type access\n!\n\
        router ospf 1\n area 0\n!\n!\nend";
    assert_eq!(r.output, expected);
}

#[test]
fn routing_errors() {
    let mut st = one_router();
    let sv = CliView::SystemView;
    assert_eq!(run(&mut st, "ip route-static 10.0.0.0 255.0.0.0", sv).output, "Error: Incomplete command. Usage: ip route-static <dest> <mask> <next-hop>");
    assert_eq!(run(&mut st, "ip route-static 10.0.0 255.0.0.0 1.1.1.1", sv).output, "Error: Invalid destination address '10.0.0'");
    assert_eq!(run(&mut st, "ip route-static 10.0.0.0 255.0.0.0 1.1.1", sv).output, "Error: Invalid next-hop address '1.1.1'");
    assert_eq!(run(&mut st, "ip route-static 10.0.0.0 255.0.0.0 1.1.1.1", sv).output, "Static route added: 10.0.0.0/8 via 1.1.1.1");
    assert_eq!(run(&mut st, "undo ip route-static 10.0.0.0 255.0.0.0", sv).output, "Static route to 10.0.0.0 removed");
    assert_eq!(run(&mut st, "peer 1.1.1.1 x y", sv).output, "Error: Incomplete peer command. Usage: peer <ip> as-number <as>");
    assert_eq!(run(&mut st, "bgp 65001", sv).output, "BGP AS 65001 enabled");
    let r = run(&mut st, "display bgp peer", CliView::UserView);
    assert_eq!(r.output, "BGP Summary\nRouter ID: R1 (simulated)\nLocal AS: 65000 (simulated)\n\n(No BGP peers configured)");
}

#[test]
fn vlan_display_errors() {
    let mut st = one_router();
    assert_eq!(run(&mut st, "display vlan 7", CliView::UserView).output, "Error: VLAN 7 not found");
    assert_eq!(run(&mut st, "display vlan x", CliView::UserView).output, "Error: Invalid VLAN ID");
    let r = run(&mut st, "display vlan 1", CliView::UserView);
    assert_eq!(r.output, "VLAN 1\n  Name: VLAN0001\n  Status: active\n  Ports: (none assigned)");
    assert_eq!(run(&mut st, "name users", CliView::SystemView).output, "VLAN name set to 'users'");
}

#[test]
fn host_commands() {
    let mut st = two_hosts();
    let r = execute_command(&mut st, "a", "ping 10.0.0", CliView::UserView);
    assert_eq!(r.output, "Error: Invalid IP address '10.0.0'");
    let r = execute_command(&mut st, "a", "ip 10.0.0.1 255.255.255.0 bad", CliView::UserView);
    assert_eq!(r.output, "Error: Invalid IP address format");
    let r = execute_command(&mut st, "a", "ip dhcp", CliView::UserView);
    assert!(r.output.starts_with("DHCP request sent..."));
    let r = execute_command(&mut st, "b", "ipconfig", CliView::UserView);
    assert_eq!(r.output, "Host: HostB\n\nInterface: eth0\n   IPv4 Address: 10.0.0.2\n   Subnet Mask:  255.255.255.0\n");
    let r = execute_command(&mut st, "a", "tracert 8.8.8.8", CliView::UserView);
    assert!(r.output.starts_with("traceroute to 8.8.8.8 (8.8.8.8), 30 hops max"));
    assert!(r.output.ends_with(" 4  8.8.8.8 (8.8.8.8)  10.234 ms  10.123 ms  10.456 ms"));
    let r = execute_command(&mut st, "a", "nslookup example.com", CliView::UserView);
    assert!(r.output.contains("Name:    example.com"));
    let r = execute_command(&mut st, "a", "ifconfig -a", CliView::UserView);
    assert!(r.output.contains("Ethernet adapter eth0:"));
    assert!(r.output.contains("Media State: Media disconnected"));
}

#[test]
fn dhcp_errors_and_display() {
    let mut st = one_router();
    let r = run(&mut st, "display ip pool", CliView::UserView);
    assert!(r.output.ends_with("(DHCP service is not enabled. Use 'dhcp enable' to start.)"));
    assert_eq!(run(&mut st, "gateway-list 1.2.3", CliView::PoolView).output, "Error: Invalid gateway address '1.2.3'");
    assert_eq!(run(&mut st, "ip helper-address 9.9.9", CliView::PoolView).output, "Error: Invalid server address '9.9.9'");
    assert_eq!(run(&mut st, "excluded-ip-address 10.0.0.1 10.0.0.9", CliView::SystemView).output, "Excluded addresses: 10.0.0.1 - 10.0.0.9");
    assert_eq!(run(&mut st, "undo dhcp enable", CliView::SystemView).output, "DHCP service disabled");
    assert_eq!(st.devices[0].dhcp_enabled, Some(false));
    assert!(!run(&mut st, "network 10.0.0.0 mask 255.0.0.0", CliView::PoolView).success);
}

#[test]
fn stp_and_security_errors() {
    let mut st = one_router();
    assert_eq!(run(&mut st, "stp mode fast", CliView::SystemView).output, "Error: Invalid mode 'fast'. Use stp, rstp, or mstp.");
    assert_eq!(run(&mut st, "spanning-tree vlan 1 priority 8192", CliView::SystemView).output, "VLAN bridge priority set to 8192");
    assert_eq!(run(&mut st, "access-list 10 permit any", CliView::SystemView).output, "ACL 10 rule added: permit any");
    assert_eq!(run(&mut st, "line vty 0 4", CliView::SystemView).output, "Entering vty line configuration");
    assert!(run(&mut st, "display stp", CliView::UserView).output.ends_with("Forward Delay: 15s, Max Age: 20s, Hello Time: 2s"));
    let r = run(&mut st, "show etherchannel", CliView::UserView);
    assert!(r.output.contains("\nI - stand-alone s - suspended\n"));
}

#[test]
fn pool_creation_needs_system_view() {
    for view in [CliView::UserView, CliView::InterfaceView] {
        let mut st = one_router();
        let before = format!("{:?}", st.devices);
        let r = run(&mut st, "ip pool p1", view);
        assert!(!r.success);
        assert_eq!(r.output, "Error: Command requires system-view. Enter 'system-view' first.");
        assert_eq!(r.new_view, None);
        for cmd in ["ip pool p1", "ip dhcp pool p1"] {
            let mut dev = st.devices[0].clone();
            let r = handle_dhcp_commands(&mut dev, cmd, &view).unwrap();
            assert!(!r.success, "{cmd}");
            assert_eq!(r.output, "Error: Command requires system-view. Enter 'system-view' first.");
            assert_eq!(r.new_view, None);
            assert_eq!(format!("{:?}", dev), format!("{:?}", st.devices[0]));
        }
        assert_eq!(format!("{:?}", st.devices), before);
    }
    let mut st = one_router();
    let r = run(&mut st, "ip pool p1", CliView::SystemView);
    assert!(r.success);
    assert_eq!(r.output, "DHCP pool 'p1' created. Entering pool configuration.");
    assert_eq!(r.new_view, Some(CliView::PoolView));
    let mut dev = st.devices[0].clone();
    let r = handle_dhcp_commands(&mut dev, "ip dhcp pool p1", &CliView::SystemView).unwrap();
    assert!(r.success);
    assert_eq!(r.new_view, Some(CliView::PoolView));
    // Four words: the host handler, which comes first, reads it as `ip <addr> <mask> <gw>`.
    let r = run(&mut st, "ip dhcp pool p1", CliView::SystemView);
    assert!(!r.success);
    assert_eq!(r.output, "Error: Invalid IP address format");
}

#[test]
fn more_system_only_commands_refused() {
    for view in [CliView::UserView, CliView::InterfaceView] {
        let mut st = one_router();
        let before = format!("{:?}", st.devices);
        for cmd in ["hostname x", "undo sysname", "undo ospf", "undo bgp", "undo dhcp enable", "undo ip route-static 10.0.0.0"] {
            let r = run(&mut st, cmd, view);
            assert!(!r.success, "{cmd}");
            assert!(r.output.contains("system-view"));
            assert_eq!(r.new_view, None);
            assert_eq!(r.new_hostname, None);
        }
        assert_eq!(format!("{:?}", st.devices), before);
    }
}
