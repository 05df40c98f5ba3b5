use vstd::prelude::*;

use crate::errors::Error;

verus! {

/// The RTCP packet types registered with IANA, plus a sentinel for every
/// unregistered code. See:
/// https://www.iana.org/assignments/rtp-parameters/rtp-parameters.xhtml#rtp-parameters-4
#[derive(Debug, Copy, Clone, PartialEq, Eq, Structural)]
pub enum PacketType {
    TypeUnsupported,
    /// RFC 3550, 6.4.1
    TypeSenderReport,
    /// RFC 3550, 6.4.2
    TypeReceiverReport,
    /// RFC 3550, 6.5
    TypeSourceDescription,
    /// RFC 3550, 6.6
    TypeGoodbye,
    /// RFC 3550, 6.7 (body unimplemented)
    TypeApplicationDefined,
    /// RFC 4585, 6.1
    TypeTransportSpecificFeedback,
    /// RFC 4585, 6.3
    TypePayloadSpecificFeedback,
}

impl PacketType {
    /// The single-octet wire code of each variant; the sentinel maps to 0,
    /// a code the registry leaves unassigned.
    pub open spec fn spec_code(self) -> u8 {
        match self {
            PacketType::TypeUnsupported => 0,
            PacketType::TypeSenderReport => 200,
            PacketType::TypeReceiverReport => 201,
            PacketType::TypeSourceDescription => 202,
            PacketType::TypeGoodbye => 203,
            PacketType::TypeApplicationDefined => 204,
            PacketType::TypeTransportSpecificFeedback => 205,
            PacketType::TypePayloadSpecificFeedback => 206,
        }
    }

    /// The variant a wire code decodes to: total, with every unregistered
    /// code falling back to the sentinel.
    pub open spec fn spec_from_code(b: u8) -> PacketType {
        match b {
            200 => PacketType::TypeSenderReport,
            201 => PacketType::TypeReceiverReport,
            202 => PacketType::TypeSourceDescription,
            203 => PacketType::TypeGoodbye,
            204 => PacketType::TypeApplicationDefined,
            205 => PacketType::TypeTransportSpecificFeedback,
            206 => PacketType::TypePayloadSpecificFeedback,
            _ => PacketType::TypeUnsupported,
        }
    }

    /// The short display name of each variant.
    pub open spec fn spec_name(self) -> Seq<char> {
        match self {
            PacketType::TypeUnsupported => "Unsupported"@,
            PacketType::TypeSenderReport => "SR"@,
            PacketType::TypeReceiverReport => "RR"@,
            PacketType::TypeSourceDescription => "SDES"@,
            PacketType::TypeGoodbye => "BYE"@,
            PacketType::TypeApplicationDefined => "APP"@,
            PacketType::TypeTransportSpecificFeedback => "TSFB"@,
            PacketType::TypePayloadSpecificFeedback => "PSFB"@,
        }
    }

    /// Encodes the variant as its registered wire code.
    pub fn to_code(self) -> (r: u8)
        ensures
            r == self.spec_code(),
    {
        match self {
            PacketType::TypeUnsupported => 0,
            PacketType::TypeSenderReport => 200,
            PacketType::TypeReceiverReport => 201,
            PacketType::TypeSourceDescription => 202,
            PacketType::TypeGoodbye => 203,
            PacketType::TypeApplicationDefined => 204,
            PacketType::TypeTransportSpecificFeedback => 205,
            PacketType::TypePayloadSpecificFeedback => 206,
        }
    }

    /// Decodes a wire code; never fails, unregistered codes yield the
    /// sentinel.
    pub fn from_code(b: u8) -> (r: PacketType)
        ensures
            r == PacketType::spec_from_code(b),
    {
        match b {
            200 => PacketType::TypeSenderReport,
            201 => PacketType::TypeReceiverReport,
            202 => PacketType::TypeSourceDescription,
            203 => PacketType::TypeGoodbye,
            204 => PacketType::TypeApplicationDefined,
            205 => PacketType::TypeTransportSpecificFeedback,
            206 => PacketType::TypePayloadSpecificFeedback,
            _ => PacketType::TypeUnsupported,
        }
    }

    /// The human-readable name of the variant.
    pub fn display_name(self) -> (r: &'static str)
        ensures
            r@ == self.spec_name(),
    {
        match self {
            PacketType::TypeUnsupported => "Unsupported",
            PacketType::TypeSenderReport => "SR",
            PacketType::TypeReceiverReport => "RR",
            PacketType::TypeSourceDescription => "SDES",
            PacketType::TypeGoodbye => "BYE",
            PacketType::TypeApplicationDefined => "APP",
            PacketType::TypeTransportSpecificFeedback => "TSFB",
            PacketType::TypePayloadSpecificFeedback => "PSFB",
        }
    }
}

/// Decoding a variant's own wire code gives the variant back: the code
/// registry is an exact bidirectional mapping on every registered variant.
pub proof fn lemma_code_inverse(pt: PacketType)
    requires
        pt !is TypeUnsupported,
    ensures
        PacketType::spec_from_code(pt.spec_code()) == pt,
{
}

/// Re-encoding a successfully decoded wire code gives the code back: on
/// every registered code the two mappings are mutually inverse.
pub proof fn lemma_from_code_inverse(b: u8)
    requires
        PacketType::spec_from_code(b) !is TypeUnsupported,
    ensures
        PacketType::spec_from_code(b).spec_code() == b,
{
}

/// No two distinct variants share a wire code, the sentinel included:
/// the mapping variant-to-code is injective.
pub proof fn lemma_code_injective(a: PacketType, b: PacketType)
    requires
        a != b,
    ensures
        a.spec_code() != b.spec_code(),
{
}

/// Length of the common header on the wire, in octets.
pub const HEADER_LENGTH: usize = 4;

/// The protocol version this codec emits and accepts.
pub const RTP_VERSION: u8 = 2;

/// Bit position of the version field within octet 0.
pub const VERSION_SHIFT: u8 = 6;

/// Mask of the version field once shifted down.
pub const VERSION_MASK: u8 = 0x3;

/// Bit position of the padding flag within octet 0.
pub const PADDING_SHIFT: u8 = 5;

/// Mask of the padding flag once shifted down.
pub const PADDING_MASK: u8 = 0x1;

/// Bit position of the count field within octet 0.
pub const COUNT_SHIFT: u8 = 0;

/// Mask of the count field once shifted down.
pub const COUNT_MASK: u8 = 0x1f;

/// Largest value the 5-bit count field can carry.
pub const COUNT_MAX: u8 = 0x1f;

/// The common header shared by all RTCP packets:
///
/// ```text
///  0                   1                   2                   3
///  0 1 2 3 4 5 6 7 8 9 0 1 2 3 4 5 6 7 8 9 0 1 2 3 4 5 6 7 8 9 0 1
/// +-+-+-+-+-+-+-+-+-+-+-+-+-+-+-+-+-+-+-+-+-+-+-+-+-+-+-+-+-+-+-+-+
/// |V=2|P|    RC   |       PT      |            length             |
/// +-+-+-+-+-+-+-+-+-+-+-+-+-+-+-+-+-+-+-+-+-+-+-+-+-+-+-+-+-+-+-+-+
/// ```
#[derive(Debug, Copy, Clone, PartialEq, Eq, Structural)]
pub struct Header {
    /// Whether this packet carries additional padding octets at the end,
    /// which are not control information but are counted in `length`.
    pub padding: bool,
    /// The number of reception reports or sources in this packet, or the
    /// feedback format, depending on `packet_type`. Must fit in 5 bits to
    /// be encodable; the bound is checked at encode time, not stored.
    pub count: u8,
    /// The RTCP packet type of this packet.
    pub packet_type: PacketType,
    /// The length of this packet in 32-bit words minus one, including the
    /// header and any padding.
    pub length: u16,
}

impl Header {
    /// A header that every transform can represent on the wire: the count
    /// fits its 5-bit field, and the type is a registered one (the sentinel
    /// never decodes successfully, so it has no valid wire form).
    pub open spec fn is_valid(self) -> bool {
        &&& self.count <= COUNT_MAX
        &&& self.packet_type !is TypeUnsupported
    }

    /// Octet 0 of the wire form: version, padding flag and count packed
    /// most-significant-bit first.
    pub open spec fn spec_b0(self) -> u8 {
        (RTP_VERSION << VERSION_SHIFT) | (if self.padding {
            1u8 << PADDING_SHIFT
        } else {
            0u8
        }) | self.count
    }

    /// The full 4-octet wire form, length in big-endian order.
    pub open spec fn spec_marshal(self) -> Seq<u8> {
        seq![
            self.spec_b0(),
            self.packet_type.spec_code(),
            (self.length >> 8) as u8,
            (self.length & 0xff) as u8,
        ]
    }
}

/// The version bits of octet 0.
pub open spec fn wire_version(b0: u8) -> u8 {
    (b0 >> VERSION_SHIFT) & VERSION_MASK
}

/// The padding flag of octet 0.
pub open spec fn wire_padding(b0: u8) -> bool {
    ((b0 >> PADDING_SHIFT) & PADDING_MASK) > 0
}

/// The count field of octet 0; the mask keeps it within 5 bits.
pub open spec fn wire_count(b0: u8) -> u8 {
    (b0 >> COUNT_SHIFT) & COUNT_MASK
}

/// The 16-bit big-endian length carried by octets 2 and 3.
pub open spec fn wire_length(hi: u8, lo: u8) -> u16 {
    ((hi as u16) << 8) | (lo as u16)
}

impl Header {
    /// What decoding the first 4 octets of `s` yields: the version bits are
    /// checked first, then the type octet, and only then is a header built,
    /// so an input bad in both ways reports the bad version.
    pub open spec fn spec_unmarshal(s: Seq<u8>) -> Result<Header, Error>
        recommends
            s.len() >= HEADER_LENGTH,
    {
        if wire_version(s[0]) != RTP_VERSION {
            Err(Error::BadVersion)
        } else if PacketType::spec_from_code(s[1]) is TypeUnsupported {
            Err(Error::WrongType)
        } else {
            Ok(
                Header {
                    padding: wire_padding(s[0]),
                    count: wire_count(s[0]),
                    packet_type: PacketType::spec_from_code(s[1]),
                    length: wire_length(s[2], s[3]),
                },
            )
        }
    }

    /// Encodes the header as its 4-octet wire form. The count bound is
    /// checked before anything is produced, so rejection is all-or-nothing:
    /// an oversized count yields the error and no bytes at all.
    pub fn marshal(&self) -> (r: Result<Vec<u8>, Error>)
        ensures
            self.count > COUNT_MAX ==> r == Err::<Vec<u8>, Error>(Error::InvalidHeader),
            self.count <= COUNT_MAX ==> (r matches Ok(raw) && raw@ == self.spec_marshal()
                && raw@.len() == HEADER_LENGTH),
    {
        let mut b0: u8 = RTP_VERSION << VERSION_SHIFT;

        if self.padding {
            b0 = b0 | (1u8 << PADDING_SHIFT);
        }

        if self.count > COUNT_MAX {
            return Err(Error::InvalidHeader);
        }
        b0 = b0 | (self.count << COUNT_SHIFT);
        proof {
            let c = self.count;
            if self.padding {
                assert((((2u8 << 6) | (1u8 << 5)) | (c << 0u8)) == (((2u8 << 6) | (1u8 << 5))
                    | c)) by (bit_vector);
            } else {
                assert(((2u8 << 6) | (c << 0u8)) == (((2u8 << 6) | 0u8) | c)) by (bit_vector);
            }
            assert(b0 == self.spec_b0());
        }

        let b1 = self.packet_type.to_code();

        proof {
            let l = self.length;
            assert(l >> 8 < 256 && l & 0xff < 256) by (bit_vector);
        }
        let mut raw: Vec<u8> = Vec::with_capacity(HEADER_LENGTH);
        raw.push(b0);
        raw.push(b1);
        raw.push((self.length >> 8) as u8);
        raw.push((self.length & 0xff) as u8);

        assert(raw@ =~= self.spec_marshal());
        Ok(raw)
    }

    /// Decodes the header from its first 4 wire octets. The version bits
    /// are validated before anything else, then the type octet; either
    /// rejection returns an error and no header value at all.
    pub fn unmarshal(raw: &[u8]) -> (r: Result<Header, Error>)
        requires
            raw@.len() >= HEADER_LENGTH,
        ensures
            r == Header::spec_unmarshal(raw@),
    {
        let b0 = raw[0];
        let version = (b0 >> VERSION_SHIFT) & VERSION_MASK;
        if version != RTP_VERSION {
            return Err(Error::BadVersion);
        }

        let padding = ((b0 >> PADDING_SHIFT) & PADDING_MASK) > 0;
        let count = (b0 >> COUNT_SHIFT) & COUNT_MASK;

        let b1 = raw[1];
        let packet_type = PacketType::from_code(b1);
        if packet_type == PacketType::TypeUnsupported {
            return Err(Error::WrongType);
        }

        let length = ((raw[2] as u16) << 8) | (raw[3] as u16);

        Ok(Header { padding, count, packet_type, length })
    }
}

/// Round trip: every valid header decodes back from its own wire form.
/// Together with the codec contracts this says that for any header with
/// `count` within 5 bits and a registered packet type, unmarshalling what
/// marshal produced returns the header unchanged.
pub proof fn lemma_round_trip(h: Header)
    requires
        h.is_valid(),
    ensures
        h.spec_marshal().len() == HEADER_LENGTH,
        Header::spec_unmarshal(h.spec_marshal()) == Ok::<Header, Error>(h),
{
    let c = h.count;
    if h.padding {
        assert((((2u8 << 6) | (1u8 << 5) | c) >> 6) & 3 == 2) by (bit_vector)
            requires
                c <= 0x1f,
        ;
        assert(((((2u8 << 6) | (1u8 << 5) | c) >> 5) & 1) > 0) by (bit_vector)
            requires
                c <= 0x1f,
        ;
        assert((((2u8 << 6) | (1u8 << 5) | c) >> 0) & 0x1f == c) by (bit_vector)
            requires
                c <= 0x1f,
        ;
    } else {
        assert((((2u8 << 6) | 0u8 | c) >> 6) & 3 == 2) by (bit_vector)
            requires
                c <= 0x1f,
        ;
        assert(((((2u8 << 6) | 0u8 | c) >> 5) & 1) == 0) by (bit_vector)
            requires
                c <= 0x1f,
        ;
        assert((((2u8 << 6) | 0u8 | c) >> 0) & 0x1f == c) by (bit_vector)
            requires
                c <= 0x1f,
        ;
    }
    lemma_code_inverse(h.packet_type);
    let l = h.length;
    assert(((((l >> 8) as u8) as u16) << 8) | (((l & 0xff) as u8) as u16) == l) by (bit_vector);
}

/// Reverse round trip: re-encoding a successfully decoded header
/// reproduces the 4 octets it was decoded from. Together with
/// `lemma_round_trip` this makes the codec a bijection between valid
/// headers and their 4-octet wire forms.
pub proof fn lemma_marshal_of_unmarshal(s: Seq<u8>)
    requires
        s.len() == HEADER_LENGTH,
        Header::spec_unmarshal(s) is Ok,
    ensures
        (Header::spec_unmarshal(s)->Ok_0).spec_marshal() == s,
{
    let h = Header::spec_unmarshal(s)->Ok_0;
    let b0 = s[0];
    if h.padding {
        assert(((2u8 << 6) | (1u8 << 5)) | ((b0 >> 0) & 0x1f) == b0) by (bit_vector)
            requires
                (b0 >> 6) & 3 == 2 && ((b0 >> 5) & 1) > 0,
        ;
    } else {
        assert(((2u8 << 6) | 0u8) | ((b0 >> 0) & 0x1f) == b0) by (bit_vector)
            requires
                (b0 >> 6) & 3 == 2 && ((b0 >> 5) & 1) == 0,
        ;
    }
    lemma_from_code_inverse(s[1]);
    let hi = s[2];
    let lo = s[3];
    assert(((((hi as u16) << 8) | (lo as u16)) >> 8) as u8 == hi) by (bit_vector);
    assert(((((hi as u16) << 8) | (lo as u16)) & 0xff) as u8 == lo) by (bit_vector);
    assert(h.spec_marshal() =~= s);
}

} // verus!
