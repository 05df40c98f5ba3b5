use rtcp::errors::Error;
use rtcp::header::{Header, PacketType, HEADER_LENGTH};

#[test]
fn round_trip_every_registered_type() {
    let types = [
        PacketType::TypeSenderReport,
        PacketType::TypeReceiverReport,
        PacketType::TypeSourceDescription,
        PacketType::TypeGoodbye,
        PacketType::TypeApplicationDefined,
        PacketType::TypeTransportSpecificFeedback,
        PacketType::TypePayloadSpecificFeedback,
    ];
    for packet_type in types {
        let h = Header {
            padding: true,
            count: 31,
            packet_type,
            length: 4,
        };
        let raw = h.marshal().expect("valid header must marshal");
        assert_eq!(raw.len(), HEADER_LENGTH);
        let decoded = Header::unmarshal(&raw).expect("marshalled header must unmarshal");
        assert_eq!(decoded, h);
    }
}

#[test]
fn unmarshal_then_marshal_reproduces_bytes() {
    let raw = vec![0x95u8, 0xcd, 0x12, 0x34];
    let decoded = Header::unmarshal(&raw).expect("valid bytes must unmarshal");
    assert_eq!(decoded.count, 21);
    assert_eq!(
        decoded.packet_type,
        PacketType::TypeTransportSpecificFeedback
    );
    assert_eq!(decoded.marshal(), Ok(raw));
}

#[test]
fn bad_version_rejected() {
    let raw = [0x01u8, 0xc8, 0x00, 0x00];
    assert_eq!(Header::unmarshal(&raw), Err(Error::BadVersion));
}

#[test]
fn unknown_type_rejected() {
    let raw = [0x81u8, 0x00, 0x00, 0x01];
    assert_eq!(Header::unmarshal(&raw), Err(Error::WrongType));
}

#[test]
fn bad_version_reported_before_unknown_type() {
    let raw = [0x01u8, 0x00, 0x00, 0x00];
    assert_eq!(Header::unmarshal(&raw), Err(Error::BadVersion));
}

#[test]
fn oversized_count_rejected_at_encode() {
    let h = Header {
        padding: false,
        count: 32,
        packet_type: PacketType::TypeSenderReport,
        length: 0,
    };
    assert_eq!(h.marshal(), Err(Error::InvalidHeader));
}

#[test]
fn marshal_sender_report() {
    let h = Header {
        padding: false,
        count: 1,
        packet_type: PacketType::TypeSenderReport,
        length: 1,
    };
    assert_eq!(h.marshal(), Ok(vec![0x81u8, 0xc8, 0x00, 0x01]));
}

#[test]
fn marshal_and_unmarshal_padded_goodbye() {
    let h = Header {
        padding: true,
        count: 0,
        packet_type: PacketType::TypeGoodbye,
        length: 0,
    };
    let raw = h.marshal().expect("valid header must marshal");
    assert_eq!(raw, vec![0xa0u8, 0xcb, 0x00, 0x00]);
    assert_eq!(Header::unmarshal(&raw), Ok(h));
}

#[test]
fn length_is_big_endian() {
    let h = Header {
        padding: false,
        count: 0,
        packet_type: PacketType::TypeReceiverReport,
        length: 0xabcd,
    };
    let raw = h.marshal().expect("valid header must marshal");
    assert_eq!(raw, vec![0x80u8, 0xc9, 0xab, 0xcd]);
    let decoded = Header::unmarshal(&raw).expect("marshalled header must unmarshal");
    assert_eq!(decoded.length, 0xabcd);
}

#[test]
fn count_uses_the_low_five_bits() {
    let raw = [0x9fu8, 0xca, 0x00, 0x02];
    let decoded = Header::unmarshal(&raw).expect("valid bytes must unmarshal");
    assert_eq!(
        decoded,
        Header {
            padding: false,
            count: 31,
            packet_type: PacketType::TypeSourceDescription,
            length: 2,
        }
    );
}

#[test]
fn from_code_maps_every_registered_code() {
    assert_eq!(PacketType::from_code(200), PacketType::TypeSenderReport);
    assert_eq!(PacketType::from_code(201), PacketType::TypeReceiverReport);
    assert_eq!(PacketType::from_code(202), PacketType::TypeSourceDescription);
    assert_eq!(PacketType::from_code(203), PacketType::TypeGoodbye);
    assert_eq!(PacketType::from_code(204), PacketType::TypeApplicationDefined);
    assert_eq!(
        PacketType::from_code(205),
        PacketType::TypeTransportSpecificFeedback
    );
    assert_eq!(
        PacketType::from_code(206),
        PacketType::TypePayloadSpecificFeedback
    );
}

#[test]
fn unregistered_codes_are_unsupported() {
    assert_eq!(PacketType::from_code(0), PacketType::TypeUnsupported);
    assert_eq!(PacketType::from_code(199), PacketType::TypeUnsupported);
    assert_eq!(PacketType::from_code(207), PacketType::TypeUnsupported);
    assert_eq!(PacketType::from_code(255), PacketType::TypeUnsupported);
}

#[test]
fn to_code_is_the_exact_inverse_of_from_code() {
    let types = [
        PacketType::TypeUnsupported,
        PacketType::TypeSenderReport,
        PacketType::TypeReceiverReport,
        PacketType::TypeSourceDescription,
        PacketType::TypeGoodbye,
        PacketType::TypeApplicationDefined,
        PacketType::TypeTransportSpecificFeedback,
        PacketType::TypePayloadSpecificFeedback,
    ];
    for packet_type in types {
        if packet_type != PacketType::TypeUnsupported {
            assert_eq!(PacketType::from_code(packet_type.to_code()), packet_type);
        } else {
            assert_eq!(packet_type.to_code(), 0);
        }
    }
}

#[test]
fn display_names() {
    assert_eq!(PacketType::TypeUnsupported.display_name(), "Unsupported");
    assert_eq!(PacketType::TypeSenderReport.display_name(), "SR");
    assert_eq!(PacketType::TypeReceiverReport.display_name(), "RR");
    assert_eq!(PacketType::TypeSourceDescription.display_name(), "SDES");
    assert_eq!(PacketType::TypeGoodbye.display_name(), "BYE");
    assert_eq!(PacketType::TypeApplicationDefined.display_name(), "APP");
    assert_eq!(
        PacketType::TypeTransportSpecificFeedback.display_name(),
        "TSFB"
    );
    assert_eq!(
        PacketType::TypePayloadSpecificFeedback.display_name(),
        "PSFB"
    );
}
