//! The wire layout: field offsets of the Ethernet, ARP, IPv4 and ICMP
//! headers as spec functions over the raw frame bytes, and the small
//! enumerations those fields decode to. Unrecognized wire values decode
//! to an `Unknown`/`Unsupported` variant instead of failing.
//!
//! Offsets are from the start of the frame: the Ethernet header is
//! bytes 0..14, its payload (ARP or IPv4) starts at 14, and for IPv4
//! without options the ICMP message starts at 34.

use vstd::prelude::*;
use crate::bytes::word16;

verus! {

/// The protocol carried by an Ethernet frame, named by its ethertype.
#[derive(Clone, Copy, Debug, PartialEq, Eq, Structural)]
pub enum EtherType {
    Unknown,
    Ipv4,
    Arp,
    Ipv6,
}

/// The ethertype denoted by the wire value `v` (IPv4 = 0x0800,
/// ARP = 0x0806, IPv6 = 0x86DD).
pub open spec fn ether_type_of(v: int) -> EtherType {
    if v == 0x0800 {
        EtherType::Ipv4
    } else if v == 0x0806 {
        EtherType::Arp
    } else if v == 0x86DD {
        EtherType::Ipv6
    } else {
        EtherType::Unknown
    }
}

impl EtherType {
    /// Decode a 16-bit ethertype read in network order.
    pub fn from_wire(v: u16) -> (r: EtherType)
        ensures
            r == ether_type_of(v as int),
    {
        if v == 0x0800 {
            EtherType::Ipv4
        } else if v == 0x0806 {
            EtherType::Arp
        } else if v == 0x86DD {
            EtherType::Ipv6
        } else {
            EtherType::Unknown
        }
    }
}

/// The hardware type named in an ARP message.
#[derive(Clone, Copy, Debug, PartialEq, Eq, Structural)]
pub enum HwType {
    Unknown,
    Ethernet,
}

/// The hardware type denoted by the wire value `v` (Ethernet = 1).
pub open spec fn hw_type_of(v: int) -> HwType {
    if v == 1 {
        HwType::Ethernet
    } else {
        HwType::Unknown
    }
}

impl HwType {
    /// Decode a 16-bit ARP hardware type read in network order.
    pub fn from_wire(v: u16) -> (r: HwType)
        ensures
            r == hw_type_of(v as int),
    {
        if v == 1 {
            HwType::Ethernet
        } else {
            HwType::Unknown
        }
    }
}

/// The operation named in an ARP message.
#[derive(Clone, Copy, Debug, PartialEq, Eq, Structural)]
pub enum OpCode {
    Unknown,
    Request,
    Reply,
}

/// The ARP opcode denoted by the wire value `v` (Request = 1, Reply = 2).
pub open spec fn op_code_of(v: int) -> OpCode {
    if v == 1 {
        OpCode::Request
    } else if v == 2 {
        OpCode::Reply
    } else {
        OpCode::Unknown
    }
}

impl OpCode {
    /// Decode a 16-bit ARP opcode read in network order.
    pub fn from_wire(v: u16) -> (r: OpCode)
        ensures
            r == op_code_of(v as int),
    {
        if v == 1 {
            OpCode::Request
        } else if v == 2 {
            OpCode::Reply
        } else {
            OpCode::Unknown
        }
    }
}

/// The transport protocol named in an IPv4 header.
#[derive(Clone, Copy, Debug, PartialEq, Eq, Structural)]
pub enum Protocol {
    Unknown,
    Icmp,
    Igmp,
    Tcp,
    Udp,
    Encap,
    Ospf,
    Sctp,
}

/// The IPv4 protocol denoted by the wire value `v` (ICMP = 1).
pub open spec fn protocol_of(v: int) -> Protocol {
    if v == 0x01 {
        Protocol::Icmp
    } else if v == 0x02 {
        Protocol::Igmp
    } else if v == 0x06 {
        Protocol::Tcp
    } else if v == 0x11 {
        Protocol::Udp
    } else if v == 0x29 {
        Protocol::Encap
    } else if v == 0x59 {
        Protocol::Ospf
    } else if v == 0x84 {
        Protocol::Sctp
    } else {
        Protocol::Unknown
    }
}

impl Protocol {
    /// Decode the 1-byte IPv4 protocol field.
    pub fn from_wire(v: u8) -> (r: Protocol)
        ensures
            r == protocol_of(v as int),
    {
        if v == 0x01 {
            Protocol::Icmp
        } else if v == 0x02 {
            Protocol::Igmp
        } else if v == 0x06 {
            Protocol::Tcp
        } else if v == 0x11 {
            Protocol::Udp
        } else if v == 0x29 {
            Protocol::Encap
        } else if v == 0x59 {
            Protocol::Ospf
        } else if v == 0x84 {
            Protocol::Sctp
        } else {
            Protocol::Unknown
        }
    }
}

/// The kind of an ICMP message.
#[derive(Clone, Copy, Debug, PartialEq, Eq, Structural)]
pub enum IcmpType {
    Unsupported,
    EchoReply,
    EchoRequest,
}

/// The ICMP type denoted by the wire value `v` (EchoReply = 0,
/// EchoRequest = 8).
pub open spec fn icmp_type_of(v: int) -> IcmpType {
    if v == 0 {
        IcmpType::EchoReply
    } else if v == 8 {
        IcmpType::EchoRequest
    } else {
        IcmpType::Unsupported
    }
}

impl IcmpType {
    /// Decode the 1-byte ICMP type field.
    pub fn from_wire(v: u8) -> (r: IcmpType)
        ensures
            r == icmp_type_of(v as int),
    {
        if v == 0 {
            IcmpType::EchoReply
        } else if v == 8 {
            IcmpType::EchoRequest
        } else {
            IcmpType::Unsupported
        }
    }
}

/// The packed IPv4 version / header-length byte.
#[derive(Clone, Copy, Debug, PartialEq, Eq, Structural)]
pub struct VersionIhl {
    pub version_ihl: u8,
}

impl VersionIhl {
    /// The version nibble (high four bits).
    pub fn version(&self) -> (r: u8)
        ensures
            r == self.version_ihl / 16,
    {
        proof {
            let v = self.version_ihl;
            assert((v & 0b11110000) / 16 == v / 16) by (bit_vector);
        }
        (self.version_ihl & 0b11110000) / 16
    }

    /// The header-length nibble (low four bits), counted in 32-bit words.
    pub fn ihl(&self) -> (r: u8)
        ensures
            r == self.version_ihl % 16,
    {
        proof {
            let v = self.version_ihl;
            assert(v & 0b00001111 == v % 16) by (bit_vector);
        }
        self.version_ihl & 0b00001111
    }
}

/// The packed IPv4 flags / fragment-offset word, held as its logical
/// value: the caller reads the two wire bytes in network order (as
/// `get_u16_be` does) before constructing this.
#[derive(Clone, Copy, Debug, PartialEq, Eq, Structural)]
pub struct FlagsOffset {
    pub flags_offset: u16,
}

impl FlagsOffset {
    /// The reserved flag bit, always clear by protocol.
    pub fn bit0(&self) -> (r: bool)
        ensures
            !r,
    {
        false
    }

    /// Whether the don't-fragment flag (bit 14) is set.
    pub fn bit1(&self) -> (r: bool)
        ensures
            r == ((self.flags_offset & 0b0100000000000000) != 0),
    {
        (self.flags_offset & 0b0100000000000000) != 0
    }

    /// Whether the more-fragments flag (bit 13) is set.
    pub fn bit2(&self) -> (r: bool)
        ensures
            r == ((self.flags_offset & 0b0010000000000000) != 0),
    {
        (self.flags_offset & 0b0010000000000000) != 0
    }

    /// The 13-bit fragment offset.
    pub fn offset(&self) -> (r: u16)
        ensures
            r == self.flags_offset % 0x2000,
    {
        proof {
            let v = self.flags_offset;
            assert(v & 0b0001111111111111 == v % 0x2000) by (bit_vector);
        }
        self.flags_offset & 0b0001111111111111
    }
}

/// The ethertype field of the frame, as a wire value.
pub open spec fn eth_type_val(s: Seq<u8>) -> int {
    word16(s[12], s[13])
}

/// The ARP hardware-type field, as a wire value.
pub open spec fn arp_hw_val(s: Seq<u8>) -> int {
    word16(s[14], s[15])
}

/// The ARP protocol-type field, as a wire value.
pub open spec fn arp_pro_val(s: Seq<u8>) -> int {
    word16(s[16], s[17])
}

/// The ARP opcode field, as a wire value.
pub open spec fn arp_op_val(s: Seq<u8>) -> int {
    word16(s[20], s[21])
}

/// The ARP sender hardware address (six bytes).
pub open spec fn arp_sender_mac(s: Seq<u8>) -> Seq<u8> {
    s.subrange(22, 28)
}

/// The ARP sender protocol (IPv4) address (four bytes).
pub open spec fn arp_sender_ip(s: Seq<u8>) -> Seq<u8> {
    s.subrange(28, 32)
}

/// The ARP target hardware address (six bytes).
pub open spec fn arp_target_mac(s: Seq<u8>) -> Seq<u8> {
    s.subrange(32, 38)
}

/// The ARP target protocol (IPv4) address (four bytes).
pub open spec fn arp_target_ip(s: Seq<u8>) -> Seq<u8> {
    s.subrange(38, 42)
}

/// The IPv4 header-length nibble, counted in 32-bit words.
pub open spec fn ipv4_ihl(s: Seq<u8>) -> int {
    s[14] as int % 16
}

/// The IPv4 total-length field: header plus payload, in bytes.
pub open spec fn ipv4_total_len(s: Seq<u8>) -> int {
    word16(s[16], s[17])
}

/// The IPv4 protocol field, as a wire value.
pub open spec fn ipv4_protocol(s: Seq<u8>) -> int {
    s[23] as int
}

/// The IPv4 source address (four bytes).
pub open spec fn ipv4_src(s: Seq<u8>) -> Seq<u8> {
    s.subrange(26, 30)
}

/// The IPv4 destination address (four bytes).
pub open spec fn ipv4_dst(s: Seq<u8>) -> Seq<u8> {
    s.subrange(30, 34)
}

/// The ICMP type field of an IPv4 frame without options, as a wire value.
pub open spec fn icmp_type_val(s: Seq<u8>) -> int {
    s[34] as int
}

/// The Ethernet source address (six bytes).
pub open spec fn eth_src(s: Seq<u8>) -> Seq<u8> {
    s.subrange(6, 12)
}

/// The Ethernet destination address (six bytes).
pub open spec fn eth_dst(s: Seq<u8>) -> Seq<u8> {
    s.subrange(0, 6)
}

} // verus!
