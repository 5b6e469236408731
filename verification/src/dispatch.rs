//! The frame dispatcher: classify one received frame by its ethertype
//! and route it to the ARP or ICMP responder. The caller owns the
//! read/write cycle; this function only decides and rewrites.

use vstd::prelude::*;
use crate::arp::{arp_reply_bytes, arp_supported, process_arp, table_after, ArpTable};
use crate::bytes::get_u16_be;
use crate::headers::{arp_op_val, eth_type_val, ipv4_ihl, ipv4_total_len, EtherType};
use crate::icmp::{echo_handled, icmp_reply_bytes, process_ipv4, FrameError};

verus! {

/// Handle one received frame against the local MAC and IP.
///
/// An ARP frame is always offered to the table and answered in place
/// when it is a supported request; an IPv4 frame is answered in place
/// when it is a supported echo request, and refused outright when its
/// header carries options. `Ok(Some(n))` asks the caller to transmit
/// the first `n` rewritten bytes; on `Ok(None)` the frame was dropped
/// and nothing changed except possibly the table. Frames of any other
/// or unknown ethertype, and frames too short for their own headers,
/// are dropped untouched.
pub fn handle_frame(frame: &mut Vec<u8>, table: &mut ArpTable, local_mac: &[u8], local_ip: &[u8])
    -> (r: Result<Option<usize>, FrameError>)
    requires
        local_mac@.len() == 6,
        local_ip@.len() == 4,
    ensures
        final(frame)@.len() == old(frame)@.len(),
        ({
            let s = old(frame)@;
            if s.len() >= 42 && eth_type_val(s) == 0x0806 {
                &&& final(table)@ == table_after(old(table)@, s)
                &&& if arp_supported(s) && arp_op_val(s) == 1 {
                    &&& r == Result::<Option<usize>, FrameError>::Ok(Some(42usize))
                    &&& final(frame)@ == arp_reply_bytes(s, local_mac@, local_ip@)
                } else {
                    &&& r == Result::<Option<usize>, FrameError>::Ok(None)
                    &&& final(frame)@ == s
                }
            } else if s.len() >= 34 && eth_type_val(s) == 0x0800 {
                &&& final(table)@ == old(table)@
                &&& if ipv4_ihl(s) != 5 {
                    &&& r == Result::<Option<usize>, FrameError>::Err(
                        FrameError::UnsupportedOptions,
                    )
                    &&& final(frame)@ == s
                } else if echo_handled(s) {
                    &&& r == Result::<Option<usize>, FrameError>::Ok(
                        Some((14 + ipv4_total_len(s)) as usize),
                    )
                    &&& final(frame)@ == icmp_reply_bytes(s, local_mac@, local_ip@)
                } else {
                    &&& r == Result::<Option<usize>, FrameError>::Ok(None)
                    &&& final(frame)@ == s
                }
            } else {
                &&& final(table)@ == old(table)@
                &&& r == Result::<Option<usize>, FrameError>::Ok(None)
                &&& final(frame)@ == s
            }
        }),
{
    if frame.len() < 14 {
        return Ok(None);
    }
    let et = EtherType::from_wire(get_u16_be(frame, 12));
    match et {
        EtherType::Arp => {
            if frame.len() < 42 {
                return Ok(None);
            }
            let reply = process_arp(frame, table, local_mac, local_ip);
            if reply {
                Ok(Some(42))
            } else {
                Ok(None)
            }
        },
        EtherType::Ipv4 => {
            if frame.len() < 34 {
                return Ok(None);
            }
            process_ipv4(frame, local_mac, local_ip)
        },
        _ => Ok(None),
    }
}

} // verus!
