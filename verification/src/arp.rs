//! The ARP cache and responder: every supported ARP frame teaches the
//! table its sender mapping; a supported request addressed at this host
//! is turned, in place, into the reply.

use vstd::prelude::*;
use std::collections::HashMap;
use crate::bytes::{copy_within, get_u16_be, get_u32_be, word32, write_slice};
use crate::headers::{
    arp_hw_val, arp_op_val, arp_pro_val, arp_sender_ip, arp_sender_mac, arp_target_ip,
    arp_target_mac, eth_dst, eth_src, EtherType, HwType, OpCode,
};

verus! {

broadcast use vstd::std_specs::hash::group_hash_axioms;

/// A 48-bit MAC address as a single integer, high byte first.
pub open spec fn mac_val(m: Seq<u8>) -> int {
    ((((m[0] * 256 + m[1]) * 256 + m[2]) * 256 + m[3]) * 256 + m[4]) * 256 + m[5]
}

/// A 32-bit IPv4 address as a single integer, high byte first.
pub open spec fn ip_val(p: Seq<u8>) -> int {
    word32(p[0], p[1], p[2], p[3])
}

/// The table key for a (hardware type, protocol address) pair.
pub open spec fn arp_key(hw: int, ip: int) -> int {
    hw * 0x1_0000_0000 + ip
}

/// Whether an ARP frame names the one supported combination:
/// hardware type Ethernet, protocol type IPv4.
pub open spec fn arp_supported(s: Seq<u8>) -> bool {
    arp_hw_val(s) == 1 && arp_pro_val(s) == 0x0800
}

/// The table contents after one ARP frame has been observed: for a
/// supported frame the sender mapping is recorded (overwriting any
/// earlier one), otherwise nothing changes.
pub open spec fn table_after(t: Map<u64, u64>, s: Seq<u8>) -> Map<u64, u64> {
    if arp_supported(s) {
        t.insert(
            arp_key(arp_hw_val(s), ip_val(arp_sender_ip(s))) as u64,
            mac_val(arp_sender_mac(s)) as u64,
        )
    } else {
        t
    }
}

/// The mapping from (hardware type, protocol address) keys to hardware
/// addresses, learned from observed ARP frames. Entries are never
/// removed; a later observation for the same key overwrites the
/// earlier one.
pub struct ArpTable {
    map: HashMap<u64, u64>,
}

impl View for ArpTable {
    type V = Map<u64, u64>;

    closed spec fn view(&self) -> Map<u64, u64> {
        self.map@
    }
}

impl ArpTable {
    /// Create an empty table.
    pub fn new() -> (t: ArpTable)
        ensures
            t@ == Map::<u64, u64>::empty(),
    {
        ArpTable { map: HashMap::new() }
    }

    /// Record (or overwrite) the hardware address for one key.
    pub fn record(&mut self, key: u64, mac: u64)
        ensures
            final(self)@ == old(self)@.insert(key, mac),
    {
        self.map.insert(key, mac);
    }

    /// The hardware address recorded for `key`, if any.
    pub fn lookup(&self, key: u64) -> (r: Option<u64>)
        ensures
            r == if self@.contains_key(key) {
                Some(self@[key])
            } else {
                None::<u64>
            },
    {
        match self.map.get(&key) {
            Some(v) => Some(*v),
            None => None,
        }
    }

    /// The number of keys recorded so far.
    pub fn len(&self) -> (n: usize)
        ensures
            n == self@.len(),
    {
        self.map.len()
    }
}

/// Read the six bytes at offset `off` as a 48-bit integer.
pub fn get_mac48(b: &Vec<u8>, off: usize) -> (r: u64)
    requires
        off + 6 <= b.len(),
    ensures
        r == mac_val(b@.subrange(off as int, off as int + 6)),
{
    let r: u64 = ((((((b[off] as u64) * 256 + (b[off + 1] as u64)) * 256 + (b[off + 2] as u64))
        * 256 + (b[off + 3] as u64)) * 256 + (b[off + 4] as u64)) * 256) + (b[off + 5] as u64);
    proof {
        let m = b@.subrange(off as int, off as int + 6);
        assert(m[0] == b@[off as int] && m[1] == b@[off as int + 1] && m[2] == b@[off as int + 2]
            && m[3] == b@[off as int + 3] && m[4] == b@[off as int + 4] && m[5] == b@[off as int
            + 5]);
    }
    r
}

/// Learn from one ARP-classified frame: for the supported
/// Ethernet/IPv4 combination, record the sender's MAC under the
/// (hardware type, sender IP) key, whatever the opcode.
pub fn observe(frame: &Vec<u8>, table: &mut ArpTable)
    requires
        frame@.len() >= 42,
    ensures
        final(table)@ == table_after(old(table)@, frame@),
{
    let hw = get_u16_be(frame, 14);
    let pro = get_u16_be(frame, 16);
    match (HwType::from_wire(hw), EtherType::from_wire(pro)) {
        (HwType::Ethernet, EtherType::Ipv4) => {
            let ip = get_u32_be(frame, 28);
            let mac = get_mac48(frame, 22);
            let key: u64 = (hw as u64) * 0x1_0000_0000 + (ip as u64);
            table.record(key, mac);
        },
        _ => {},
    }
}

/// The reply synthesized in place from an ARP request `s`: Ethernet
/// destination and ARP target take the request's sender addresses, the
/// local MAC `m` and IP `p` become the sources, and the opcode becomes
/// Reply. All other bytes are untouched.
pub open spec fn arp_reply_bytes(s: Seq<u8>, m: Seq<u8>, p: Seq<u8>) -> Seq<u8> {
    Seq::new(
        s.len(),
        |i: int|
            {
                if 0 <= i < 6 {
                    s[i + 6]  // Ethernet destination <- request source
                } else if 6 <= i < 12 {
                    m[i - 6]  // Ethernet source <- local MAC
                } else if i == 20 {
                    0u8  // opcode, high byte
                } else if i == 21 {
                    2u8  // opcode <- Reply
                } else if 22 <= i < 28 {
                    m[i - 22]  // ARP sender MAC <- local MAC
                } else if 28 <= i < 32 {
                    p[i - 28]  // ARP sender IP <- local IP
                } else if 32 <= i < 38 {
                    s[i - 10]  // ARP target MAC <- request sender MAC
                } else if 38 <= i < 42 {
                    s[i - 10]  // ARP target IP <- request sender IP
                } else {
                    s[i]
                }
            },
    )
}

/// Reply in place to a supported ARP request; any other ARP frame is
/// left untouched and draws no reply.
pub fn respond(frame: &mut Vec<u8>, local_mac: &[u8], local_ip: &[u8]) -> (reply: bool)
    requires
        old(frame)@.len() >= 42,
        local_mac@.len() == 6,
        local_ip@.len() == 4,
    ensures
        final(frame)@.len() == old(frame)@.len(),
        reply <==> (arp_supported(old(frame)@) && arp_op_val(old(frame)@) == 1),
        reply ==> final(frame)@ == arp_reply_bytes(old(frame)@, local_mac@, local_ip@),
        !reply ==> final(frame)@ == old(frame)@,
{
    let hw = HwType::from_wire(get_u16_be(frame, 14));
    let pro = EtherType::from_wire(get_u16_be(frame, 16));
    let op = OpCode::from_wire(get_u16_be(frame, 20));
    match (hw, pro, op) {
        (HwType::Ethernet, EtherType::Ipv4, OpCode::Request) => {
            copy_within(frame, 0, 6, 6);  // Ethernet destination <- source
            write_slice(frame, 6, local_mac);  // Ethernet source <- local MAC
            frame[20] = 0;  // opcode, high byte
            frame[21] = 2;  // opcode <- Reply
            copy_within(frame, 32, 22, 6);  // ARP target MAC <- sender MAC
            write_slice(frame, 22, local_mac);  // ARP sender MAC <- local MAC
            copy_within(frame, 38, 28, 4);  // ARP target IP <- sender IP
            write_slice(frame, 28, local_ip);  // ARP sender IP <- local IP
            proof {
                assert(frame@ =~= arp_reply_bytes(old(frame)@, local_mac@, local_ip@));
            }
            true
        },
        _ => false,
    }
}

/// Handle one ARP-classified frame: always learn from it, then reply
/// in place when it is a supported request.
pub fn process_arp(frame: &mut Vec<u8>, table: &mut ArpTable, local_mac: &[u8], local_ip: &[u8])
    -> (reply: bool)
    requires
        old(frame)@.len() >= 42,
        local_mac@.len() == 6,
        local_ip@.len() == 4,
    ensures
        final(table)@ == table_after(old(table)@, old(frame)@),
        final(frame)@.len() == old(frame)@.len(),
        reply <==> (arp_supported(old(frame)@) && arp_op_val(old(frame)@) == 1),
        reply ==> final(frame)@ == arp_reply_bytes(old(frame)@, local_mac@, local_ip@),
        !reply ==> final(frame)@ == old(frame)@,
{
    observe(frame, table);
    respond(frame, local_mac, local_ip)
}

/// Reply correctness, field by field: the reply to a supported request
/// goes back to the request's sender, carries the local MAC `m` and IP
/// `p` as its sender addresses, and has opcode Reply.
pub proof fn lemma_arp_reply_fields(s: Seq<u8>, m: Seq<u8>, p: Seq<u8>)
    requires
        s.len() >= 42,
        m.len() == 6,
        p.len() == 4,
    ensures
        ({
            let r = arp_reply_bytes(s, m, p);
            &&& r.len() == s.len()
            &&& eth_dst(r) == eth_src(s)
            &&& eth_src(r) == m
            &&& arp_op_val(r) == 2
            &&& arp_sender_mac(r) == m
            &&& arp_sender_ip(r) == p
            &&& arp_target_mac(r) == arp_sender_mac(s)
            &&& arp_target_ip(r) == arp_sender_ip(s)
        }),
{
    let r = arp_reply_bytes(s, m, p);
    assert(eth_dst(r) =~= eth_src(s));
    assert(eth_src(r) =~= m);
    assert(arp_sender_mac(r) =~= m);
    assert(arp_sender_ip(r) =~= p);
    assert(arp_target_mac(r) =~= arp_sender_mac(s));
    assert(arp_target_ip(r) =~= arp_sender_ip(s));
}

/// Learning is idempotent: observing a frame a second time leaves the
/// table exactly as after the first observation.
pub proof fn lemma_observe_idempotent(t: Map<u64, u64>, s: Seq<u8>)
    ensures
        table_after(table_after(t, s), s) == table_after(t, s),
{
    if arp_supported(s) {
        assert(table_after(table_after(t, s), s) =~= table_after(t, s));
    }
}

/// The table after the same frame has been observed `n` times in a row.
pub open spec fn table_after_n(t: Map<u64, u64>, s: Seq<u8>, n: nat) -> Map<u64, u64>
    decreases n,
{
    if n == 0 {
        t
    } else {
        table_after(table_after_n(t, s, (n - 1) as nat), s)
    }
}

/// Observing the same ARP frame any number of times at least once
/// leaves the table identical to observing it once.
pub proof fn lemma_observe_n_times(t: Map<u64, u64>, s: Seq<u8>, n: nat)
    requires
        n >= 1,
    ensures
        table_after_n(t, s, n) == table_after(t, s),
    decreases n,
{
    if n == 1 {
        assert(table_after_n(t, s, 1) == table_after(table_after_n(t, s, 0), s));
        assert(table_after_n(t, s, 0) == t);
    } else {
        lemma_observe_n_times(t, s, (n - 1) as nat);
        lemma_observe_idempotent(t, s);
    }
}

} // verus!
