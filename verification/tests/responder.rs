//! End-to-end behaviour of the dispatcher on concrete frames.

use etherecho::arp::ArpTable;
use etherecho::checksum::checksum;
use etherecho::dispatch::handle_frame;
use etherecho::icmp::FrameError;

const LOCAL_MAC: [u8; 6] = [0x00, 0x20, 0x91, 0x50, 0xe2, 0x43];
const LOCAL_IP: [u8; 4] = [10, 0, 0, 1];
const PEER_MAC: [u8; 6] = [0xaa, 0xbb, 0xcc, 0xdd, 0xee, 0xff];
const PEER_IP: [u8; 4] = [10, 0, 0, 5];

fn arp_frame(opcode: u16, hwtype: u16, protype: u16) -> Vec<u8> {
    let mut f = vec![0u8; 42];
    f[0..6].copy_from_slice(&[0xff; 6]); // Ethernet destination: broadcast
    f[6..12].copy_from_slice(&PEER_MAC);
    f[12..14].copy_from_slice(&0x0806u16.to_be_bytes());
    f[14..16].copy_from_slice(&hwtype.to_be_bytes());
    f[16..18].copy_from_slice(&protype.to_be_bytes());
    f[18] = 6; // hardware address length
    f[19] = 4; // protocol address length
    f[20..22].copy_from_slice(&opcode.to_be_bytes());
    f[22..28].copy_from_slice(&PEER_MAC); // sender MAC
    f[28..32].copy_from_slice(&PEER_IP); // sender IP
    f[38..42].copy_from_slice(&LOCAL_IP); // target IP
    f
}

fn echo_request(payload: &[u8]) -> Vec<u8> {
    let total: u16 = 20 + 8 + payload.len() as u16;
    let mut f = vec![0u8; 14 + total as usize];
    f[0..6].copy_from_slice(&LOCAL_MAC);
    f[6..12].copy_from_slice(&PEER_MAC);
    f[12..14].copy_from_slice(&0x0800u16.to_be_bytes());
    f[14] = 0x45; // version 4, header length 5
    f[16..18].copy_from_slice(&total.to_be_bytes());
    f[22] = 64; // time to live
    f[23] = 1; // protocol: ICMP
    f[26..30].copy_from_slice(&PEER_IP); // source
    f[30..34].copy_from_slice(&LOCAL_IP); // destination
    f[34] = 8; // ICMP type: echo request
    f[38..40].copy_from_slice(&0x1234u16.to_be_bytes()); // identifier
    f[40..42].copy_from_slice(&0x0001u16.to_be_bytes()); // sequence
    f[42..].copy_from_slice(payload);
    // Fill in both checksums so the request itself is wire-valid.
    let ics = checksum(&f[34..], (8 + payload.len()) as u16);
    f[36..38].copy_from_slice(&ics.to_be_bytes());
    let hcs = checksum(&f[14..34], 20);
    f[24..26].copy_from_slice(&hcs.to_be_bytes());
    f
}

fn peer_key() -> u64 {
    (1u64 << 32) | u64::from(u32::from_be_bytes(PEER_IP))
}

fn peer_mac_val() -> u64 {
    let mut v = 0u64;
    for b in PEER_MAC {
        v = v * 256 + u64::from(b);
    }
    v
}

#[test]
fn arp_request_gets_reply() {
    let mut frame = arp_frame(1, 1, 0x0800);
    let mut table = ArpTable::new();
    let r = handle_frame(&mut frame, &mut table, &LOCAL_MAC, &LOCAL_IP);
    assert_eq!(r, Ok(Some(42)));
    assert_eq!(&frame[0..6], &PEER_MAC); // Ethernet destination
    assert_eq!(&frame[6..12], &LOCAL_MAC); // Ethernet source
    assert_eq!(&frame[20..22], &[0, 2]); // opcode: reply
    assert_eq!(&frame[22..28], &LOCAL_MAC); // sender MAC
    assert_eq!(&frame[28..32], &LOCAL_IP); // sender IP
    assert_eq!(&frame[32..38], &PEER_MAC); // target MAC
    assert_eq!(&frame[38..42], &PEER_IP); // target IP
    assert_eq!(table.lookup(peer_key()), Some(peer_mac_val()));
}

#[test]
fn arp_reply_updates_table_without_response() {
    let mut frame = arp_frame(2, 1, 0x0800);
    let before = frame.clone();
    let mut table = ArpTable::new();
    let r = handle_frame(&mut frame, &mut table, &LOCAL_MAC, &LOCAL_IP);
    assert_eq!(r, Ok(None));
    assert_eq!(frame, before);
    assert_eq!(table.lookup(peer_key()), Some(peer_mac_val()));
    assert_eq!(table.len(), 1);
}

#[test]
fn arp_observation_is_idempotent() {
    let mut table = ArpTable::new();
    for _ in 0..3 {
        let mut frame = arp_frame(2, 1, 0x0800);
        let r = handle_frame(&mut frame, &mut table, &LOCAL_MAC, &LOCAL_IP);
        assert_eq!(r, Ok(None));
    }
    assert_eq!(table.len(), 1);
    assert_eq!(table.lookup(peer_key()), Some(peer_mac_val()));
}

#[test]
fn arp_unsupported_hardware_type_is_ignored() {
    let mut frame = arp_frame(1, 2, 0x0800);
    let before = frame.clone();
    let mut table = ArpTable::new();
    let r = handle_frame(&mut frame, &mut table, &LOCAL_MAC, &LOCAL_IP);
    assert_eq!(r, Ok(None));
    assert_eq!(frame, before);
    assert_eq!(table.len(), 0);
}

#[test]
fn icmp_echo_round_trip() {
    let payload = [0xde, 0xad, 0xbe, 0xef, 0x01, 0x02, 0x03, 0x04];
    let mut frame = echo_request(&payload);
    let mut table = ArpTable::new();
    let r = handle_frame(&mut frame, &mut table, &LOCAL_MAC, &LOCAL_IP);
    assert_eq!(r, Ok(Some(50)));
    assert_eq!(table.len(), 0);
    assert_eq!(&frame[0..6], &PEER_MAC); // Ethernet destination
    assert_eq!(&frame[6..12], &LOCAL_MAC); // Ethernet source
    assert_eq!(&frame[26..30], &LOCAL_IP); // IPv4 source
    assert_eq!(&frame[30..34], &PEER_IP); // IPv4 destination
    assert_eq!(frame[34], 0); // ICMP type: echo reply
    assert_eq!(&frame[38..40], &0x1234u16.to_be_bytes()); // identifier kept
    assert_eq!(&frame[40..42], &0x0001u16.to_be_bytes()); // sequence kept
    assert_eq!(&frame[42..50], &payload); // payload echoed verbatim
    // Both checksums verify: re-summing each region yields zero.
    assert_eq!(checksum(&frame[34..50], 16), 0);
    assert_eq!(checksum(&frame[14..34], 20), 0);
}

#[test]
fn ipv4_options_are_rejected() {
    let payload = [0u8; 8];
    let mut frame = echo_request(&payload);
    frame[14] = 0x46; // header length 6: options present
    let before = frame.clone();
    let mut table = ArpTable::new();
    let r = handle_frame(&mut frame, &mut table, &LOCAL_MAC, &LOCAL_IP);
    assert_eq!(r, Err(FrameError::UnsupportedOptions));
    assert_eq!(frame, before);
    assert_eq!(table.len(), 0);
}

#[test]
fn non_icmp_ipv4_is_dropped() {
    let payload = [0u8; 8];
    let mut frame = echo_request(&payload);
    frame[23] = 6; // protocol: TCP
    let before = frame.clone();
    let mut table = ArpTable::new();
    let r = handle_frame(&mut frame, &mut table, &LOCAL_MAC, &LOCAL_IP);
    assert_eq!(r, Ok(None));
    assert_eq!(frame, before);
}

#[test]
fn icmp_echo_reply_is_not_answered() {
    let payload = [0u8; 8];
    let mut frame = echo_request(&payload);
    frame[34] = 0; // ICMP type: echo reply
    let before = frame.clone();
    let mut table = ArpTable::new();
    let r = handle_frame(&mut frame, &mut table, &LOCAL_MAC, &LOCAL_IP);
    assert_eq!(r, Ok(None));
    assert_eq!(frame, before);
}

#[test]
fn unknown_ethertype_is_inert() {
    let mut frame = vec![0u8; 60];
    frame[12] = 0x12;
    frame[13] = 0x34;
    let before = frame.clone();
    let mut table = ArpTable::new();
    let r = handle_frame(&mut frame, &mut table, &LOCAL_MAC, &LOCAL_IP);
    assert_eq!(r, Ok(None));
    assert_eq!(frame, before);
    assert_eq!(table.len(), 0);
}

#[test]
fn ipv6_frame_is_inert() {
    let mut frame = vec![0u8; 60];
    frame[12..14].copy_from_slice(&0x86DDu16.to_be_bytes());
    let before = frame.clone();
    let mut table = ArpTable::new();
    let r = handle_frame(&mut frame, &mut table, &LOCAL_MAC, &LOCAL_IP);
    assert_eq!(r, Ok(None));
    assert_eq!(frame, before);
    assert_eq!(table.len(), 0);
}

#[test]
fn short_frame_is_dropped() {
    let mut frame = vec![0u8; 10];
    let before = frame.clone();
    let mut table = ArpTable::new();
    let r = handle_frame(&mut frame, &mut table, &LOCAL_MAC, &LOCAL_IP);
    assert_eq!(r, Ok(None));
    assert_eq!(frame, before);
}

#[test]
fn truncated_echo_request_is_dropped() {
    let payload = [0u8; 8];
    let full = echo_request(&payload);
    // Keep the headers but cut the frame short of the declared length.
    let mut frame = full[..44].to_vec();
    let before = frame.clone();
    let mut table = ArpTable::new();
    let r = handle_frame(&mut frame, &mut table, &LOCAL_MAC, &LOCAL_IP);
    assert_eq!(r, Ok(None));
    assert_eq!(frame, before);
}
