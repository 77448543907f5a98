//! IGMPv3 query construction and recognition.

use vstd::prelude::*;

use crate::packet::checksum::{
    add_words, fold_and_complement, internet_checksum, law_checksum_field_validates,
    lemma_word_sum_bound, with_checksum_field, word_sum,
};

verus! {

/// An IGMPv3 Membership Query message (RFC 3376, section 4.1) without
/// source addresses.
pub struct IgmpPacket {
    igmp_type: u8,
    max_resp_code: u8,
    checksum: u16,
    group_address: u32,
    /// 4 bits reserved, 1 bit S flag, 3 bits QRV.
    resv_s_qrv: u8,
    qqic: u8,
    num_sources: u16,
}

/// The field values of an [`IgmpPacket`].
pub struct IgmpPacketView {
    pub igmp_type: u8,
    pub max_resp_code: u8,
    pub checksum: u16,
    pub group_address: u32,
    pub resv_s_qrv: u8,
    pub qqic: u8,
    pub num_sources: u16,
}

impl View for IgmpPacket {
    type V = IgmpPacketView;

    closed spec fn view(&self) -> IgmpPacketView {
        IgmpPacketView {
            igmp_type: self.igmp_type,
            max_resp_code: self.max_resp_code,
            checksum: self.checksum,
            group_address: self.group_address,
            resv_s_qrv: self.resv_s_qrv,
            qqic: self.qqic,
            num_sources: self.num_sources,
        }
    }
}

/// IGMP message type of a Membership Query.
pub const IGMP_MEMBERSHIP_QUERY: u8 = 0x11;

/// The 12-byte wire form of an IGMPv3 query: all multi-byte fields big-endian.
pub open spec fn igmp_wire(p: IgmpPacketView) -> Seq<u8> {
    seq![
        p.igmp_type,
        p.max_resp_code,
        (p.checksum / 256) as u8,
        (p.checksum % 256) as u8,
        (p.group_address / 0x100_0000) as u8,
        (p.group_address / 0x1_0000 % 256) as u8,
        (p.group_address / 256 % 256) as u8,
        (p.group_address % 256) as u8,
        p.resv_s_qrv,
        p.qqic,
        (p.num_sources / 256) as u8,
        (p.num_sources % 256) as u8,
    ]
}

/// The general query this querier sends, with its checksum field set to `c`:
/// Max Resp Code 100 (10 s), group 0.0.0.0, S = 0, QRV = 2, QQIC = 125 s,
/// no sources.
pub open spec fn general_query_with_checksum(c: u16) -> IgmpPacketView {
    IgmpPacketView {
        igmp_type: IGMP_MEMBERSHIP_QUERY,
        max_resp_code: 100,
        checksum: c,
        group_address: 0,
        resv_s_qrv: 0x02,
        qqic: 125,
        num_sources: 0,
    }
}

/// The general query with its Internet checksum filled in.
pub open spec fn general_query() -> IgmpPacketView {
    general_query_with_checksum(internet_checksum(igmp_wire(general_query_with_checksum(0))))
}

/// The Internet checksum of `data`, computed with a 32-bit accumulator.
pub fn calculate_checksum(data: &[u8]) -> (r: u16)
    requires
        word_sum(data@) <= u32::MAX,
    ensures
        r == internet_checksum(data@),
{
    let sum = add_words(0, data);
    fold_and_complement(sum)
}

impl IgmpPacket {
    /// The general query, with its checksum computed over its own bytes; the
    /// resulting bytes check to zero under the Internet checksum.
    pub fn new() -> (r: IgmpPacket)
        ensures
            r@ == general_query(),
            internet_checksum(igmp_wire(r@)) == 0,
    {
        let mut packet = IgmpPacket {
            igmp_type: IGMP_MEMBERSHIP_QUERY,
            max_resp_code: 100,  // 10 seconds, in tenths of a second
            group_address: 0,  // 0.0.0.0: general query
            checksum: 0,
            resv_s_qrv: 0x02,  // reserved 0, S 0, QRV 2
            qqic: 125,  // query interval of 125 seconds
            num_sources: 0,  // a general query lists no sources
        };
        let bytes = packet.serialize();
        proof {
            lemma_word_sum_bound(bytes@);
        }
        packet.checksum = calculate_checksum(bytes.as_slice());
        proof {
            let zeroed = igmp_wire(general_query_with_checksum(0));
            law_checksum_field_validates(zeroed);
            assert(igmp_wire(packet@) =~= with_checksum_field(zeroed, packet.checksum));
        }
        packet
    }

    /// The 12 bytes of this message in network byte order.
    pub fn serialize(&self) -> (r: Vec<u8>)
        ensures
            r@ == igmp_wire(self@),
    {
        let mut buffer = Vec::new();
        buffer.push(self.igmp_type);
        buffer.push(self.max_resp_code);
        buffer.push((self.checksum / 256) as u8);
        buffer.push((self.checksum % 256) as u8);
        buffer.push((self.group_address / 0x100_0000) as u8);
        buffer.push((self.group_address / 0x1_0000 % 256) as u8);
        buffer.push((self.group_address / 256 % 256) as u8);
        buffer.push((self.group_address % 256) as u8);
        buffer.push(self.resv_s_qrv);
        buffer.push(self.qqic);
        buffer.push((self.num_sources / 256) as u8);
        buffer.push((self.num_sources % 256) as u8);
        assert(buffer@ =~= igmp_wire(self@));
        buffer
    }
}

/// The length in bytes of the IPv4 header that starts `data`, read from its
/// IHL field (the low four bits of the first byte, in 32-bit words).
pub open spec fn ip4_header_len(data: Seq<u8>) -> int {
    (data[0] % 16) as int * 4
}

/// The source address of the IPv4 header that starts `data`, as the 32-bit
/// big-endian number formed by bytes 12 to 15.
pub open spec fn ip4_source(data: Seq<u8>) -> u32 {
    (data[12] as nat * 0x100_0000 + data[13] as nat * 0x1_0000 + data[14] as nat * 256
        + data[15] as nat) as u32
}

/// Whether `data` is an IPv4 datagram (version 4) carrying IGMP (protocol 2)
/// whose payload starts with a Membership Query type byte, with room for a
/// header of at least 20 bytes, the 12 bytes of an IGMPv3 query after it, and
/// at least 32 bytes in all.
pub open spec fn is_igmp_query_datagram(data: Seq<u8>) -> bool {
    &&& data.len() >= 32
    &&& data[0] / 16 == 4
    &&& ip4_header_len(data) >= 20
    &&& data.len() >= ip4_header_len(data) + 12
    &&& data[9] == 2
    &&& data[ip4_header_len(data)] == IGMP_MEMBERSHIP_QUERY
}

/// The source of an IGMP query datagram, or nothing for any other data.
pub open spec fn ip4_from_query(data: Seq<u8>) -> Option<u32> {
    if is_igmp_query_datagram(data) {
        Some(ip4_source(data))
    } else {
        None
    }
}

/// If the raw data is an IPv4 datagram carrying an IGMP query, returns the
/// source address from its IP header (as the address's 32-bit number);
/// otherwise returns `None`.
pub fn get_ip4_from_query(data: &[u8]) -> (r: Option<u32>)
    ensures
        r == ip4_from_query(data@),
{
    // At least 20 bytes of IP header and 12 bytes of IGMPv3 query.
    if data.len() < 32 {
        return None;
    }
    let first = data[0];
    let version = (first >> 4) & 0x0F;
    assert((first >> 4) & 0x0F == first / 16) by (bit_vector);
    if version != 4 {
        return None;
    }
    assert(first & 0x0F == first % 16) by (bit_vector);
    let ihl = (first & 0x0F) as usize;
    let ip_header_len = ihl * 4;
    if ip_header_len < 20 || data.len() < ip_header_len + 12 {
        return None;
    }
    // Protocol field: 2 is IGMP.
    if data[9] != 2 {
        return None;
    }
    let src_ip = data[12] as u32 * 0x100_0000 + data[13] as u32 * 0x1_0000 + data[14] as u32 * 256
        + data[15] as u32;
    let igmp_type = data[ip_header_len];
    if igmp_type != IGMP_MEMBERSHIP_QUERY {
        return None;
    }
    Some(src_ip)
}

/// A query message put behind a well-formed IPv4 header for protocol 2 (whose
/// length is the one its IHL field states) is recognised as a query from the
/// header's source address.
pub proof fn law_query_behind_ip4_header_is_recognised(header: Seq<u8>, p: IgmpPacketView)
    requires
        header.len() >= 20,
        header.len() == ip4_header_len(header),
        header[0] / 16 == 4,
        header[9] == 2,
        p.igmp_type == IGMP_MEMBERSHIP_QUERY,
    ensures
        ip4_from_query(header + igmp_wire(p)) == Some(ip4_source(header)),
{
    let d = header + igmp_wire(p);
    assert(d[0] == header[0] && d[9] == header[9]);
    assert(d[12] == header[12] && d[13] == header[13] && d[14] == header[14] && d[15]
        == header[15]);
    assert(d[header.len() as int] == p.igmp_type);
}

/// Only Membership Queries are recognised, and only in a well-formed IPv4
/// datagram carrying IGMP: a recognised datagram is version 4, protocol 2,
/// has a header of 20 to 60 bytes followed by at least 12 bytes, has type
/// byte 0x11 right after its header, and the address returned is the
/// big-endian number of its bytes 12 to 15.  Any other type byte at that
/// place (a Membership Report 0x22, for one) is rejected, whatever the
/// header length.
pub proof fn law_only_queries_are_recognised(data: Seq<u8>)
    ensures
        ip4_from_query(data) matches Some(ip) ==> {
            &&& data.len() >= 32
            &&& data[0] / 16 == 4
            &&& data[9] == 2
            &&& 20 <= (data[0] % 16) as int * 4 <= 60
            &&& (data[0] % 16) as int * 4 + 12 <= data.len()
            &&& data[(data[0] % 16) as int * 4] == 0x11
            &&& ip as int == data[12] as int * 0x100_0000 + data[13] as int * 0x1_0000
                + data[14] as int * 256 + data[15] as int
        },
        data.len() > 0 && (data[0] % 16) as int * 4 < data.len() && data[(data[0] % 16) as int
            * 4] != 0x11 ==> ip4_from_query(data) is None,
        data.len() >= 32 && data[0] / 16 == 4 && data[9] == 2 && 20 <= (data[0] % 16) as int * 4
            && (data[0] % 16) as int * 4 + 12 <= data.len() && data[(data[0] % 16) as int * 4]
            == 0x11 ==> ip4_from_query(data) is Some,
{
}

/// The wire form carries every field, big-endian, at its place in RFC
/// 3376's layout: reading the fields back from the 12 bytes gives the
/// message's fields.
pub proof fn law_igmp_wire_decodes_to_fields(p: IgmpPacketView)
    ensures
        igmp_wire(p).len() == 12,
        igmp_wire(p)[0] == p.igmp_type,
        igmp_wire(p)[1] == p.max_resp_code,
        igmp_wire(p)[2] as int * 256 + igmp_wire(p)[3] as int == p.checksum as int,
        igmp_wire(p)[4] as int * 0x100_0000 + igmp_wire(p)[5] as int * 0x1_0000 + igmp_wire(
            p,
        )[6] as int * 256 + igmp_wire(p)[7] as int == p.group_address as int,
        igmp_wire(p)[8] == p.resv_s_qrv,
        igmp_wire(p)[9] == p.qqic,
        igmp_wire(p)[10] as int * 256 + igmp_wire(p)[11] as int == p.num_sources as int,
{
    let g = p.group_address as int;
    assert((g / 0x100_0000) * 0x100_0000 + (g / 0x1_0000 % 256) * 0x1_0000 + (g / 256 % 256) * 256
        + g % 256 == g) by (nonlinear_arith)
        requires
            0 <= g < 0x1_0000_0000,
    ;
}

} // verus!
