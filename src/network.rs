//! Devices, ports, their configuration, and the cables between them.

use vstd::prelude::*;
use crate::text::{append_str, dec, push_dec};

verus! {

/// Kind of device.
#[derive(Clone, Copy, Debug, PartialEq, Eq, Structural)]
pub enum DeviceType {
    Switch,
    Router,
    PC,
    AP,
    Firewall,
    Wireless,
}

/// Vendor whose command dialect a device speaks.
#[derive(Clone, Copy, Debug, PartialEq, Eq, Structural)]
pub enum Vendor {
    Huawei,
    Cisco,
    DLink,
    NetSim,
    PC,
    Router,
    Aruba,
    MikroTik,
}

/// Physical kind of a port.
#[derive(Clone, Copy, Debug, PartialEq, Eq, Structural)]
pub enum PortType {
    RJ45,
    SFP,
    Console,
}

/// Physical kind of a cable.
#[derive(Clone, Copy, Debug, PartialEq, Eq, Structural)]
pub enum CableType {
    Copper,
    Fiber,
}

/// Link state of a port.
#[derive(Clone, Copy, Debug, PartialEq, Eq, Structural)]
pub enum LinkStatus {
    Up,
    Down,
}

/// Operating mode of a port; it decides which configuration fields are meaningful.
#[derive(Clone, Copy, Debug, PartialEq, Eq, Structural)]
pub enum PortMode {
    Access,
    Trunk,
    Hybrid,
    Routed,
}

/// Configuration of one port.
#[derive(Clone, Debug)]
pub struct PortConfig {
    pub vlan: Option<u16>,
    pub allowed_vlans: Option<Vec<u16>>,
    pub mode: PortMode,
    pub ip_address: Option<String>,
    pub subnet_mask: Option<u8>,
    pub enabled: bool,
    pub description: Option<String>,
}

/// One port of a device.
#[derive(Clone, Debug)]
pub struct NetworkPort {
    pub id: String,
    pub name: String,
    pub port_type: PortType,
    pub status: LinkStatus,
    pub config: PortConfig,
    pub connected_cable_id: Option<String>,
}

/// A device with its ports, VLANs and protocol switches (`None`: never set).
#[derive(Clone, Debug)]
pub struct NetworkDevice {
    pub id: String,
    pub device_type: DeviceType,
    pub vendor: Vendor,
    pub hostname: String,
    pub model: String,
    pub ports: Vec<NetworkPort>,
    pub vlans: Vec<u16>,
    pub ospf_enabled: Option<bool>,
    pub bgp_enabled: Option<bool>,
    pub dhcp_enabled: Option<bool>,
}

/// A cable between two ports; it carries traffic both ways.
#[derive(Clone, Debug)]
pub struct NetworkCable {
    pub id: String,
    pub cable_type: CableType,
    pub source_device_id: String,
    pub source_port_id: String,
    pub target_device_id: String,
    pub target_port_id: String,
}

/// The view of an optional string.
pub open spec fn opt_str(o: Option<String>) -> Option<Seq<char>> {
    match o {
        Some(s) => Some(s@),
        None => None,
    }
}

/// The address configured on a port, as text.
pub open spec fn port_ip(p: NetworkPort) -> Option<Seq<char>> {
    opt_str(p.config.ip_address)
}

} // verus!

verus! {

/// The name under which a vendor is displayed.
pub open spec fn vendor_name(v: Vendor) -> Seq<char> {
    match v {
        Vendor::Huawei => "Huawei"@,
        Vendor::Cisco => "Cisco"@,
        Vendor::DLink => "DLink"@,
        Vendor::NetSim => "NetSim"@,
        Vendor::PC => "PC"@,
        Vendor::Router => "Router"@,
        Vendor::Aruba => "Aruba"@,
        Vendor::MikroTik => "MikroTik"@,
    }
}

pub fn vendor_text(v: Vendor) -> (r: &'static str)
    ensures
        r@ == vendor_name(v),
{
    match v {
        Vendor::Huawei => "Huawei",
        Vendor::Cisco => "Cisco",
        Vendor::DLink => "DLink",
        Vendor::NetSim => "NetSim",
        Vendor::PC => "PC",
        Vendor::Router => "Router",
        Vendor::Aruba => "Aruba",
        Vendor::MikroTik => "MikroTik",
    }
}

/// The name under which a port type is displayed.
pub open spec fn port_type_name(t: PortType) -> Seq<char> {
    match t {
        PortType::RJ45 => "RJ45"@,
        PortType::SFP => "SFP"@,
        PortType::Console => "Console"@,
    }
}

pub fn port_type_text(t: PortType) -> (r: &'static str)
    ensures
        r@ == port_type_name(t),
{
    match t {
        PortType::RJ45 => "RJ45",
        PortType::SFP => "SFP",
        PortType::Console => "Console",
    }
}

/// The name under which a link status is displayed.
pub open spec fn status_name(s: LinkStatus) -> Seq<char> {
    match s {
        LinkStatus::Up => "Up"@,
        LinkStatus::Down => "Down"@,
    }
}

pub fn status_text(s: LinkStatus) -> (r: &'static str)
    ensures
        r@ == status_name(s),
{
    match s {
        LinkStatus::Up => "Up",
        LinkStatus::Down => "Down",
    }
}

/// The name under which a port mode is displayed.
pub open spec fn mode_name(m: PortMode) -> Seq<char> {
    match m {
        PortMode::Access => "Access"@,
        PortMode::Trunk => "Trunk"@,
        PortMode::Hybrid => "Hybrid"@,
        PortMode::Routed => "Routed"@,
    }
}

pub fn mode_text(m: PortMode) -> (r: &'static str)
    ensures
        r@ == mode_name(m),
{
    match m {
        PortMode::Access => "Access",
        PortMode::Trunk => "Trunk",
        PortMode::Hybrid => "Hybrid",
        PortMode::Routed => "Routed",
    }
}

/// The ids in decimal with `sep` between neighbours.
pub open spec fn ids_text(vs: Seq<u16>, sep: Seq<char>) -> Seq<char>
    decreases vs.len(),
{
    if vs.len() == 0 {
        seq![]
    } else if vs.len() == 1 {
        dec(vs[0] as nat)
    } else {
        ids_text(vs.drop_last(), sep) + sep + dec(vs.last() as nat)
    }
}

/// Appends the ids in decimal with the literal `sep` between neighbours.
pub fn push_ids(out: &mut String, vs: &Vec<u16>, sep: &str)
    ensures
        final(out)@ == old(out)@ + ids_text(vs@, sep@),
{
    let mut i: usize = 0;
    while i < vs.len()
        invariant
            i <= vs@.len(),
            out@ == old(out)@ + ids_text(vs@.take(i as int), sep@),
        decreases vs.len() - i,
    {
        if i > 0 {
            append_str(out, sep);
        }
        push_dec(out, vs[i] as u64);
        assert(vs@.take(i + 1).drop_last() =~= vs@.take(i as int));
        i = i + 1;
        assert(out@ =~= old(out)@ + ids_text(vs@.take(i as int), sep@));
    }
    assert(vs@.take(i as int) =~= vs@);
}

} // verus!
