//! The ICMP echo responder: an IPv4 frame carrying an echo request is
//! turned, in place, into the echo reply, with the ICMP checksum and
//! then the IPv4 header checksum recomputed in that order.

use vstd::prelude::*;
use crate::bytes::{copy_within, get_u16_be, set_u16_be, write_slice};
use crate::checksum::{checksum, checksum_spec, fold16, lemma_checksum_verifies, sum_words};
use crate::headers::{
    eth_dst, eth_src, icmp_type_val, ipv4_dst, ipv4_ihl, ipv4_protocol, ipv4_src, ipv4_total_len,
    IcmpType, Protocol, VersionIhl,
};

verus! {

/// The one condition this responder cannot interpret and refuses to
/// guess at: an IPv4 header whose header-length field is not 5 (that
/// is, a header with options).
#[derive(Clone, Copy, Debug, PartialEq, Eq, Structural)]
pub enum FrameError {
    UnsupportedOptions,
}

/// Whether an IPv4-classified frame is an echo request this responder
/// answers: no options, protocol ICMP, type EchoRequest, and a
/// total-length field that names an even-sized echo message lying
/// wholly inside the frame.
pub open spec fn echo_handled(s: Seq<u8>) -> bool {
    &&& s.len() >= 42
    &&& ipv4_ihl(s) == 5
    &&& ipv4_protocol(s) == 1
    &&& icmp_type_val(s) == 8
    &&& 28 <= ipv4_total_len(s)
    &&& ipv4_total_len(s) % 2 == 0
    &&& 14 + ipv4_total_len(s) <= s.len()
}

/// The staged echo reply, before checksums: Ethernet and IPv4
/// addresses swapped toward the sender with the local MAC `m` and IP
/// `p` as sources, ICMP type set to EchoReply, ICMP checksum zeroed.
/// Identifier, sequence number and payload are untouched.
pub open spec fn echo_stage(s: Seq<u8>, m: Seq<u8>, p: Seq<u8>) -> Seq<u8> {
    Seq::new(
        s.len(),
        |i: int|
            {
                if 0 <= i < 6 {
                    s[i + 6]  // Ethernet destination <- request source
                } else if 6 <= i < 12 {
                    m[i - 6]  // Ethernet source <- local MAC
                } else if 26 <= i < 30 {
                    p[i - 26]  // IPv4 source <- local IP
                } else if 30 <= i < 34 {
                    s[i - 4]  // IPv4 destination <- request source
                } else if i == 34 {
                    0u8  // ICMP type <- EchoReply
                } else if 36 <= i < 38 {
                    0u8  // ICMP checksum zeroed
                } else {
                    s[i]
                }
            },
    )
}

/// The finished echo reply: the staged bytes, then the ICMP checksum
/// computed over the ICMP message (whose length the IPv4 total length
/// gives) and stored big-endian, then the IPv4 header checksum
/// computed over the zeroed 20-byte header and stored big-endian.
pub open spec fn icmp_reply_bytes(s: Seq<u8>, m: Seq<u8>, p: Seq<u8>) -> Seq<u8> {
    let l = ipv4_total_len(s);
    let s1 = echo_stage(s, m, p);
    let c1 = checksum_spec(s1.subrange(34, 14 + l));
    let s2 = s1.update(36, (c1 / 256) as u8).update(37, (c1 % 256) as u8);
    let s3 = s2.update(24, 0u8).update(25, 0u8);
    let c2 = checksum_spec(s3.subrange(14, 34));
    s3.update(24, (c2 / 256) as u8).update(25, (c2 % 256) as u8)
}

/// Echo reply correctness, field by field: the reply goes back to the
/// request's sender with the local MAC `m` and IP `p` as its sources,
/// its type is EchoReply, its total length is the request's, and the
/// identifier, sequence number and payload bytes are echoed verbatim.
pub proof fn lemma_echo_reply_fields(s: Seq<u8>, m: Seq<u8>, p: Seq<u8>)
    requires
        echo_handled(s),
        m.len() == 6,
        p.len() == 4,
    ensures
        ({
            let r = icmp_reply_bytes(s, m, p);
            &&& r.len() == s.len()
            &&& eth_dst(r) == eth_src(s)
            &&& eth_src(r) == m
            &&& ipv4_src(r) == p
            &&& ipv4_dst(r) == ipv4_src(s)
            &&& ipv4_total_len(r) == ipv4_total_len(s)
            &&& icmp_type_val(r) == 0
            &&& forall|i: int| 38 <= i < s.len() ==> r[i] == s[i]
        }),
{
    let r = icmp_reply_bytes(s, m, p);
    assert(eth_dst(r) =~= eth_src(s));
    assert(eth_src(r) =~= m);
    assert(ipv4_src(r) =~= p);
    assert(ipv4_dst(r) =~= ipv4_src(s));
    assert forall|i: int| 38 <= i < s.len() implies r[i] == s[i] by {
        assert(echo_stage(s, m, p)[i] == s[i]);
    }
}

/// Both checksums of a finished echo reply verify: re-summing the ICMP
/// region with its stored checksum, and likewise the 20-byte IPv4
/// header, each folds to 0xFFFF.
pub proof fn lemma_echo_reply_checksums_verify(s: Seq<u8>, m: Seq<u8>, p: Seq<u8>)
    requires
        echo_handled(s),
        m.len() == 6,
        p.len() == 4,
    ensures
        ({
            let r = icmp_reply_bytes(s, m, p);
            let l = ipv4_total_len(s);
            &&& fold16(sum_words(r.subrange(34, 14 + l), (l - 20) / 2)) == 0xFFFF
            &&& fold16(sum_words(r.subrange(14, 34), 10)) == 0xFFFF
        }),
{
    let r = icmp_reply_bytes(s, m, p);
    let l = ipv4_total_len(s);
    let s1 = echo_stage(s, m, p);
    let region1 = s1.subrange(34, 14 + l);
    assert(region1[2] == 0 && region1[3] == 0);
    lemma_checksum_verifies(region1, 1);
    let c1 = checksum_spec(region1);
    let t1 = region1.update(2, (c1 / 256) as u8).update(3, (c1 % 256) as u8);
    assert(r.subrange(34, 14 + l) =~= t1);

    let s2 = s1.update(36, (c1 / 256) as u8).update(37, (c1 % 256) as u8);
    let s3 = s2.update(24, 0u8).update(25, 0u8);
    let region2 = s3.subrange(14, 34);
    assert(region2[10] == 0 && region2[11] == 0);
    lemma_checksum_verifies(region2, 5);
    let c2 = checksum_spec(region2);
    let t2 = region2.update(10, (c2 / 256) as u8).update(11, (c2 % 256) as u8);
    assert(r.subrange(14, 34) =~= t2);
}

/// Handle one IPv4-classified frame. A header with options is refused
/// outright; a supported echo request is rewritten in place into the
/// reply and its length (Ethernet header plus IPv4 total length)
/// returned; everything else is dropped untouched.
pub fn process_ipv4(frame: &mut Vec<u8>, local_mac: &[u8], local_ip: &[u8]) -> (r: Result<
    Option<usize>,
    FrameError,
>)
    requires
        old(frame)@.len() >= 34,
        local_mac@.len() == 6,
        local_ip@.len() == 4,
    ensures
        final(frame)@.len() == old(frame)@.len(),
        ipv4_ihl(old(frame)@) != 5 ==> r == Result::<Option<usize>, FrameError>::Err(
            FrameError::UnsupportedOptions,
        ) && final(frame)@ == old(frame)@,
        ipv4_ihl(old(frame)@) == 5 && !echo_handled(old(frame)@) ==> r == Result::<
            Option<usize>,
            FrameError,
        >::Ok(None) && final(frame)@ == old(frame)@,
        echo_handled(old(frame)@) ==> r == Result::<Option<usize>, FrameError>::Ok(
            Some((14 + ipv4_total_len(old(frame)@)) as usize),
        ) && final(frame)@ == icmp_reply_bytes(old(frame)@, local_mac@, local_ip@),
{
    let vi = VersionIhl { version_ihl: frame[14] };
    if vi.ihl() != 5 {
        return Err(FrameError::UnsupportedOptions);
    }
    match Protocol::from_wire(frame[23]) {
        Protocol::Icmp => {},
        _ => {
            return Ok(None);
        },
    }
    if frame.len() < 42 {
        return Ok(None);
    }
    match IcmpType::from_wire(frame[34]) {
        IcmpType::EchoRequest => {},
        _ => {
            return Ok(None);
        },
    }
    let total = get_u16_be(frame, 16);
    let total_us = total as usize;
    if total < 28 || total % 2 != 0 || 14 + total_us > frame.len() {
        return Ok(None);
    }
    // The frame is a supported echo request: rewrite it in place.
    copy_within(frame, 0, 6, 6);  // Ethernet destination <- source
    write_slice(frame, 6, local_mac);  // Ethernet source <- local MAC
    copy_within(frame, 30, 26, 4);  // IPv4 destination <- source
    write_slice(frame, 26, local_ip);  // IPv4 source <- local IP
    frame[34] = 0;  // ICMP type <- EchoReply
    frame[36] = 0;  // ICMP checksum zeroed
    frame[37] = 0;
    proof {
        assert(frame@ =~= echo_stage(old(frame)@, local_mac@, local_ip@));
    }
    let ghost s1 = frame@;
    let icmp_len: u16 = total - 20;
    let c1 = checksum(&frame.as_slice()[34..14 + total_us], icmp_len);
    proof {
        assert(s1.subrange(34, 14 + total as int).subrange(0, icmp_len as int) =~= s1.subrange(
            34,
            14 + ipv4_total_len(old(frame)@),
        ));
    }
    set_u16_be(frame, 36, c1);  // store the ICMP checksum
    frame[24] = 0;  // IPv4 header checksum zeroed
    frame[25] = 0;
    let ghost s3 = frame@;
    let c2 = checksum(&frame.as_slice()[14..34], 20);
    proof {
        assert(s3.subrange(14, 34).subrange(0, 20) =~= s3.subrange(14, 34));
    }
    set_u16_be(frame, 24, c2);  // store the IPv4 header checksum
    proof {
        assert(frame@ == icmp_reply_bytes(old(frame)@, local_mac@, local_ip@));
    }
    Ok(Some(14 + total_us))
}

} // verus!
