//! A minimal link-layer responder: it parses raw Ethernet frames,
//! learns ARP mappings, and synthesizes in-place replies to ARP
//! requests and ICMP echo requests, with RFC 1071 checksums.
//!
//! The library works on plain byte buffers; reading frames from and
//! writing them to a network interface is the caller's concern.

pub mod bytes;
pub mod checksum;
pub mod headers;
pub mod arp;
pub mod icmp;
pub mod dispatch;
pub mod dump;
