//! Simulated packets (Ethernet, optional VLAN tag, IP, payload).

use vstd::prelude::*;

verus! {

/// A simulated packet.
#[derive(Clone, Debug)]
pub struct Packet {
    pub src_mac: String,
    pub dst_mac: String,
    pub vlan_id: Option<u16>,
    pub src_ip: String,
    pub dst_ip: String,
    pub ttl: u8,
    pub protocol: IpProtocol,
    pub payload: PacketPayload,
}

/// IP protocol of a packet.
#[derive(Clone, Copy, Debug, PartialEq, Eq, Structural)]
pub enum IpProtocol {
    ICMP,
    TCP,
    UDP,
    OSPF,
    Unknown,
}

/// What a packet carries.
#[derive(Clone, Debug)]
pub enum PacketPayload {
    Icmp(IcmpPacket),
    Raw(String),
}

/// An ICMP message.
#[derive(Clone, Debug)]
pub struct IcmpPacket {
    pub message_type: IcmpType,
    pub code: u8,
    pub id: u16,
    pub sequence: u16,
    pub data: String,
}

/// ICMP message types.
#[derive(Clone, Copy, Debug, PartialEq, Eq, Structural)]
pub enum IcmpType {
    EchoReply,
    DestinationUnreachable,
    EchoRequest,
    TimeExceeded,
}

/// The data that an echo request carries.
pub const PING_DATA: &'static str = "NetSimPingData";

/// `p` is an echo request from `src_ip` to `dst_ip` with sequence number `seq`.
pub open spec fn is_echo_request(p: Packet, src_mac: Seq<char>, dst_mac: Seq<char>, src_ip: Seq<char>, dst_ip: Seq<char>, seq: u16) -> bool {
    &&& p.src_mac@ == src_mac
    &&& p.dst_mac@ == dst_mac
    &&& p.vlan_id is None
    &&& p.src_ip@ == src_ip
    &&& p.dst_ip@ == dst_ip
    &&& p.ttl == 64
    &&& p.protocol == IpProtocol::ICMP
    &&& p.payload matches PacketPayload::Icmp(m) && m.message_type == IcmpType::EchoRequest && m.code == 0
        && m.id == 1 && m.sequence == seq && m.data@ == PING_DATA@
}

impl Packet {
    /// An ICMP echo request with TTL 64.
    pub fn new_icmp_echo(src_mac: &str, dst_mac: &str, src_ip: &str, dst_ip: &str, seq: u16) -> (r: Self)
        ensures
            is_echo_request(r, src_mac@, dst_mac@, src_ip@, dst_ip@, seq),
    {
        Packet {
            src_mac: String::from_str(src_mac),
            dst_mac: String::from_str(dst_mac),
            vlan_id: None,
            src_ip: String::from_str(src_ip),
            dst_ip: String::from_str(dst_ip),
            ttl: 64,
            protocol: IpProtocol::ICMP,
            payload: PacketPayload::Icmp(
                IcmpPacket {
                    message_type: IcmpType::EchoRequest,
                    code: 0,
                    id: 1,
                    sequence: seq,
                    data: String::from_str(PING_DATA),
                },
            ),
        }
    }
}

} // verus!
