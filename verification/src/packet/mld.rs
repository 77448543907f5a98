//! MLDv2 query construction and its ICMPv6 checksum.

use vstd::prelude::*;

use crate::packet::checksum::{
    add_words, be16, complement_of_sum, internet_checksum, lemma_word_sum_append, fold_and_complement, lemma_sum_plus_complement_checks_zero,
    lemma_word_sum_bound, lemma_word_sum_with_checksum_field, with_checksum_field, word_sum,
};

verus! {

/// An MLDv2 Multicast Listener Query message (RFC 3810, section 5.1)
/// without source addresses.
pub struct MldQueryPacket {
    message_type: u8,
    code: u8,
    checksum: u16,
    max_response_code: u16,
    reserved: u16,
    multicast_address: [u8; 16],
    resv_s_qrv: u8,
    qqic: u8,
    number_of_sources: u16,
}

/// The field values of an [`MldQueryPacket`].
pub struct MldQueryPacketView {
    pub message_type: u8,
    pub code: u8,
    pub checksum: u16,
    pub max_response_code: u16,
    pub reserved: u16,
    pub multicast_address: Seq<u8>,
    pub resv_s_qrv: u8,
    pub qqic: u8,
    pub number_of_sources: u16,
}

impl View for MldQueryPacket {
    type V = MldQueryPacketView;

    closed spec fn view(&self) -> MldQueryPacketView {
        MldQueryPacketView {
            message_type: self.message_type,
            code: self.code,
            checksum: self.checksum,
            max_response_code: self.max_response_code,
            reserved: self.reserved,
            multicast_address: self.multicast_address@,
            resv_s_qrv: self.resv_s_qrv,
            qqic: self.qqic,
            number_of_sources: self.number_of_sources,
        }
    }
}

/// ICMPv6 message type of a Multicast Listener Query.
pub const MLD_LISTENER_QUERY: u8 = 130;

/// The unspecified address ::, which a general query names as its group.
pub const GENERAL_QUERY_IP6: [u8; 16] = [0, 0, 0, 0, 0, 0, 0, 0, 0, 0, 0, 0, 0, 0, 0, 0];

/// The IPv6 Next Header value that MLD messages are carried under (ICMPv6).
pub const NEXT_HEADER_FOR_MLD: u32 = 58;

/// The wire form of an MLDv2 query: all multi-byte fields big-endian, 28
/// bytes when the multicast address has its 16 bytes.
pub open spec fn mld_wire(p: MldQueryPacketView) -> Seq<u8> {
    seq![
        p.message_type,
        p.code,
        (p.checksum / 256) as u8,
        (p.checksum % 256) as u8,
        (p.max_response_code / 256) as u8,
        (p.max_response_code % 256) as u8,
        (p.reserved / 256) as u8,
        (p.reserved % 256) as u8,
    ] + p.multicast_address + seq![
        p.resv_s_qrv,
        p.qqic,
        (p.number_of_sources / 256) as u8,
        (p.number_of_sources % 256) as u8,
    ]
}

/// The general query: Maximum Response Code 10000 (10 s), group ::, S = 0,
/// QRV = 2, QQIC = 125 s, no sources, checksum not yet computed.
pub open spec fn mld_general_query() -> MldQueryPacketView {
    MldQueryPacketView {
        message_type: MLD_LISTENER_QUERY,
        code: 0,
        checksum: 0,
        max_response_code: 10_000,
        reserved: 0,
        multicast_address: GENERAL_QUERY_IP6@,
        resv_s_qrv: 0x02,
        qqic: 125,
        number_of_sources: 0,
    }
}

/// The one's-complement sum over the IPv6 pseudo-header (source,
/// destination, 32-bit upper-layer length, next header 58) and the ICMPv6
/// message itself.
pub open spec fn pseudo_header_sum(src: Seq<u8>, dst: Seq<u8>, message: Seq<u8>) -> nat {
    (word_sum(src) + word_sum(dst) + message.len() / 0x1_0000 % 0x1_0000 + message.len()
        % 0x1_0000 + NEXT_HEADER_FOR_MLD + word_sum(message)) as nat
}

/// The IPv6 pseudo-header of RFC 8200, section 8.1, for an upper-layer
/// message of `len` bytes from `src` to `dst`: source address, destination
/// address, the length as a 32-bit big-endian number, three zero bytes and
/// the next header value 58.
pub open spec fn pseudo_header(src: Seq<u8>, dst: Seq<u8>, len: nat) -> Seq<u8> {
    src + dst + seq![
        (len / 0x100_0000 % 256) as u8,
        (len / 0x1_0000 % 256) as u8,
        (len / 256 % 256) as u8,
        (len % 256) as u8,
        0u8,
        0u8,
        0u8,
        58u8,
    ]
}

/// The ICMPv6 checksum of `message` sent from `src` to `dst`.
pub open spec fn mld_checksum(src: Seq<u8>, dst: Seq<u8>, message: Seq<u8>) -> u16 {
    complement_of_sum(pseudo_header_sum(src, dst, message))
}

/// `p` with its checksum field replaced by `c`.
pub open spec fn with_checksum(p: MldQueryPacketView, c: u16) -> MldQueryPacketView {
    MldQueryPacketView { checksum: c, ..p }
}

impl MldQueryPacket {
    /// The general query, with a zero checksum.
    pub fn new() -> (r: MldQueryPacket)
        ensures
            r@ == mld_general_query(),
    {
        MldQueryPacket {
            message_type: MLD_LISTENER_QUERY,
            code: 0,
            checksum: 0,
            max_response_code: 10_000,
            reserved: 0,
            multicast_address: GENERAL_QUERY_IP6,
            resv_s_qrv: 0x02,
            qqic: 125,
            number_of_sources: 0,
        }
    }

    /// Sets the checksum field to the ICMPv6 checksum, over the IPv6
    /// pseudo-header for `src` and `dst`, of this message as it currently
    /// serializes (its present checksum field included), and returns it.
    /// When that field was zero, the result makes the message check to zero
    /// for a receiver.
    pub fn calculate_checksum(&mut self, src: &[u8; 16], dst: &[u8; 16]) -> (c: u16)
        ensures
            c == mld_checksum(src@, dst@, mld_wire(old(self)@)),
            c == internet_checksum(pseudo_header(src@, dst@, 28) + mld_wire(old(self)@)),
            final(self)@ == with_checksum(
                old(self)@,
                mld_checksum(src@, dst@, mld_wire(old(self)@)),
            ),
            old(self)@.checksum == 0 ==> mld_checksum(src@, dst@, mld_wire(final(self)@)) == 0,
    {
        let packet = self.serialize();
        proof {
            lemma_word_sum_bound(src@);
            lemma_word_sum_bound(dst@);
            lemma_word_sum_bound(packet@);
        }
        let mut sum: u32 = 0;
        // Source and destination addresses, eight words each.
        sum = add_words(sum, src.as_slice());
        sum = add_words(sum, dst.as_slice());
        // Upper-layer packet length as a 32-bit value, high then low word.
        let packet_len = packet.len() as u32;
        assert(packet_len == 28);
        sum = sum + (packet_len / 0x1_0000) % 0x1_0000;
        sum = sum + packet_len % 0x1_0000;
        // Three zero bytes, then the next header value.
        sum = sum + NEXT_HEADER_FOR_MLD;
        // The message itself.
        sum = add_words(sum, packet.as_slice());
        assert(sum == pseudo_header_sum(src@, dst@, packet@));
        let ghost old_view = self@;
        self.checksum = fold_and_complement(sum);
        proof {
            if old_view.checksum == 0 {
                let w = mld_wire(old_view);
                let c = self.checksum;
                lemma_sum_plus_complement_checks_zero(pseudo_header_sum(src@, dst@, w));
                assert(w[2] == 0 && w[3] == 0);
                lemma_word_sum_with_checksum_field(w, c);
                assert(mld_wire(self@) =~= with_checksum_field(w, c));
            }
        }
        proof {
            law_mld_checksum_is_internet_checksum_with_pseudo_header(
                src@,
                dst@,
                mld_wire(old_view),
            );
        }
        self.checksum
    }

    /// The 28 bytes of this message in network byte order.
    pub fn serialize(&self) -> (r: Vec<u8>)
        ensures
            r@ == mld_wire(self@),
            r@.len() == 28,
    {
        let mut buffer = Vec::new();
        buffer.push(self.message_type);
        buffer.push(self.code);
        buffer.push((self.checksum / 256) as u8);
        buffer.push((self.checksum % 256) as u8);
        buffer.push((self.max_response_code / 256) as u8);
        buffer.push((self.max_response_code % 256) as u8);
        buffer.push((self.reserved / 256) as u8);
        buffer.push((self.reserved % 256) as u8);
        let mut i: usize = 0;
        while i < 16
            invariant
                0 <= i <= 16,
                buffer@.len() == 8 + i,
                buffer@.take(8) == mld_wire(self@).take(8),
                forall|j: int| 0 <= j < i ==> buffer@[8 + j] == self.multicast_address@[j],
            decreases 16 - i,
        {
            buffer.push(self.multicast_address[i]);
            i = i + 1;
        }
        buffer.push(self.resv_s_qrv);
        buffer.push(self.qqic);
        buffer.push((self.number_of_sources / 256) as u8);
        buffer.push((self.number_of_sources % 256) as u8);
        let ghost w = mld_wire(self@);
        assert(self.multicast_address@.len() == 16);
        assert(w.len() == 28);
        assert forall|j: int| 0 <= j < 28 implies buffer@[j] == w[j] by {
            if j < 8 {
                assert(buffer@.take(8)[j] == w.take(8)[j]);
            }
        }
        assert(buffer@ =~= w);
        buffer
    }
}

/// Whether `data`, an ICMPv6 message as a raw ICMPv6 socket delivers it
/// (without the IPv6 header), is an MLD Multicast Listener Query with room
/// for at least the 28 bytes of an MLDv2 query.
pub open spec fn is_mld_query(data: Seq<u8>) -> bool {
    data.len() >= 28 && data[0] == MLD_LISTENER_QUERY
}

/// The source of an MLD query received from `source`, or nothing for any
/// other data.
pub open spec fn ip6_from_query(data: Seq<u8>, source: u128) -> Option<u128> {
    if is_mld_query(data) {
        Some(source)
    } else {
        None
    }
}

/// If `data`, an ICMPv6 message received from the IPv6 address `source` (as
/// its 128-bit number), is an MLD query, returns that source address;
/// otherwise returns `None`.
pub fn get_ip6_from_query(data: &[u8], source: u128) -> (r: Option<u128>)
    ensures
        r == ip6_from_query(data@, source),
{
    // At least the 28 bytes of a minimal MLDv2 query.
    if data.len() < 28 {
        return None;
    }
    if data[0] != MLD_LISTENER_QUERY {
        return None;
    }
    Some(source)
}

/// A query message built here, when received, is recognised as a query from
/// its sender.
pub proof fn law_own_mld_query_is_recognised(p: MldQueryPacketView, source: u128)
    requires
        p.message_type == MLD_LISTENER_QUERY,
        p.multicast_address.len() == 16,
    ensures
        ip6_from_query(mld_wire(p), source) == Some(source),
{
}

/// Only Multicast Listener Queries (ICMPv6 type 130) of at least 28 bytes
/// are recognised, and what is returned is the sender given: an Echo Request
/// (128), an Echo Reply (129) or a Listener Report (131, 143) never is.
pub proof fn law_only_mld_queries_are_recognised(data: Seq<u8>, source: u128)
    ensures
        ip6_from_query(data, source) matches Some(x) ==> data.len() >= 28 && data[0] == 130 && x
            == source,
        data.len() > 0 && data[0] != 130 ==> ip6_from_query(data, source) is None,
        data.len() >= 28 && data[0] == 130 ==> ip6_from_query(data, source) == Some(source),
{
}

/// The MLD checksum is the Internet checksum of the IPv6 pseudo-header
/// followed by the message: every word of both 16-byte addresses, the
/// 32-bit length and the next header value count, each exactly once.
pub proof fn law_mld_checksum_is_internet_checksum_with_pseudo_header(
    src: Seq<u8>,
    dst: Seq<u8>,
    message: Seq<u8>,
)
    requires
        src.len() == 16,
        dst.len() == 16,
        message.len() < 0x1_0000_0000,
    ensures
        pseudo_header_sum(src, dst, message) == word_sum(
            pseudo_header(src, dst, message.len()) + message,
        ),
        mld_checksum(src, dst, message) == internet_checksum(
            pseudo_header(src, dst, message.len()) + message,
        ),
{
    let len = message.len();
    let tail = seq![
        (len / 0x100_0000 % 256) as u8,
        (len / 0x1_0000 % 256) as u8,
        (len / 256 % 256) as u8,
        (len % 256) as u8,
        0u8,
        0u8,
        0u8,
        58u8,
    ];
    let hdr = pseudo_header(src, dst, len);
    assert(hdr =~= src + (dst + tail));
    assert(hdr + message =~= src + (dst + (tail + message)));
    lemma_word_sum_append(src, dst + (tail + message));
    lemma_word_sum_append(dst, tail + message);
    lemma_word_sum_append(tail, message);
    let t2 = tail.skip(2);
    let t4 = t2.skip(2);
    let t6 = t4.skip(2);
    assert(t6.skip(2) =~= Seq::<u8>::empty());
    assert(word_sum(tail) == be16(tail[0], tail[1]) + word_sum(t2));
    assert(word_sum(t2) == be16(t2[0], t2[1]) + word_sum(t4));
    assert(word_sum(t4) == be16(t4[0], t4[1]) + word_sum(t6));
    assert(word_sum(t6) == be16(t6[0], t6[1]) + word_sum(t6.skip(2)));
    assert(t6[0] == 0 && t6[1] == 58 && t4[0] == 0 && t4[1] == 0);
    assert(be16((len / 0x100_0000 % 256) as u8, (len / 0x1_0000 % 256) as u8) == len / 0x1_0000
        % 0x1_0000) by (nonlinear_arith)
        requires
            len < 0x1_0000_0000,
    ;
    assert(be16((len / 256 % 256) as u8, (len % 256) as u8) == len % 0x1_0000) by (
    nonlinear_arith)
        requires
            len < 0x1_0000_0000,
    ;
}

/// The wire form carries every field, big-endian, at its place in RFC
/// 3810's layout: reading the fields back from the 28 bytes gives the
/// message's fields.
pub proof fn law_mld_wire_decodes_to_fields(p: MldQueryPacketView)
    requires
        p.multicast_address.len() == 16,
    ensures
        mld_wire(p).len() == 28,
        mld_wire(p)[0] == p.message_type,
        mld_wire(p)[1] == p.code,
        mld_wire(p)[2] as int * 256 + mld_wire(p)[3] as int == p.checksum as int,
        mld_wire(p)[4] as int * 256 + mld_wire(p)[5] as int == p.max_response_code as int,
        mld_wire(p)[6] as int * 256 + mld_wire(p)[7] as int == p.reserved as int,
        mld_wire(p).subrange(8, 24) == p.multicast_address,
        mld_wire(p)[24] == p.resv_s_qrv,
        mld_wire(p)[25] == p.qqic,
        mld_wire(p)[26] as int * 256 + mld_wire(p)[27] as int == p.number_of_sources as int,
{
    assert(mld_wire(p).subrange(8, 24) =~= p.multicast_address);
}

} // verus!
