//! Round-trip and error-path tests for the binary envelope codec.

use hexbridge::codec::{decode, encode, DecodeError};
use hexbridge::msg::{
    Bridge, CanMsg, DeviceConfig, DeviceInfo, MessageSourceConfig, MessageSourceInfo, Msg, Prop,
    Property,
};
use hexbridge::PROTOCOL_V1;

fn full_can_envelope() -> Bridge {
    Bridge {
        protocol_version: PROTOCOL_V1,
        msg: Some(Msg::CanMsg(CanMsg {
            id: 0x07FF01B0,
            data: vec![1, 2, 3, 4, 5, 6, 7, 8],
            ext_id: true,
            can_fd: false,
            source: 2,
            destination: Some(-1),
            receive_time: Some(123_456_789_012),
        })),
    }
}

#[test]
fn round_trip_can_frame() {
    let e = full_can_envelope();
    let bytes = encode(&e);
    let d = decode(&bytes).expect("decodes");
    assert_eq!(d.protocol_version, PROTOCOL_V1);
    match d.msg {
        Some(Msg::CanMsg(m)) => {
            assert_eq!(m.id, 0x07FF01B0);
            assert_eq!(m.data, vec![1, 2, 3, 4, 5, 6, 7, 8]);
            assert!(m.ext_id);
            assert!(!m.can_fd);
            assert_eq!(m.source, 2);
            assert_eq!(m.destination, Some(-1));
            assert_eq!(m.receive_time, Some(123_456_789_012));
        }
        _ => panic!("wrong variant"),
    }
}

#[test]
fn round_trip_empty_payload() {
    let e = Bridge { protocol_version: PROTOCOL_V1, msg: None };
    let bytes = encode(&e);
    let d = decode(&bytes).expect("an envelope with no payload is valid");
    assert_eq!(d.protocol_version, PROTOCOL_V1);
    assert!(d.msg.is_none());
}

#[test]
fn round_trip_device_config() {
    let e = Bridge {
        protocol_version: PROTOCOL_V1,
        msg: Some(Msg::PropertyResponse(Property {
            prop: Some(Prop::Config(DeviceConfig {
                name: Some(b"bridge-a".to_vec()),
                can_full_id: Some(0x1234),
            })),
        })),
    };
    let d = decode(&encode(&e)).expect("decodes");
    match d.msg {
        Some(Msg::PropertyResponse(Property { prop: Some(Prop::Config(c)) })) => {
            assert_eq!(c.name, Some(b"bridge-a".to_vec()));
            assert_eq!(c.can_full_id, Some(0x1234));
        }
        _ => panic!("wrong variant"),
    }
}

#[test]
fn round_trip_device_info() {
    let e = Bridge {
        protocol_version: PROTOCOL_V1,
        msg: Some(Msg::PropertyResponse(Property {
            prop: Some(Prop::Info(DeviceInfo { device_class: 1, version: None })),
        })),
    };
    let d = decode(&encode(&e)).expect("decodes");
    match d.msg {
        Some(Msg::PropertyResponse(Property { prop: Some(Prop::Info(i)) })) => {
            assert_eq!(i.device_class, 1);
            assert_eq!(i.version, None);
        }
        _ => panic!("wrong variant"),
    }
}

#[test]
fn round_trip_source_info_and_config() {
    let e = Bridge {
        protocol_version: PROTOCOL_V1,
        msg: Some(Msg::PropertyRequest(Property {
            prop: Some(Prop::MsgSourceInfo(MessageSourceInfo {
                channel: 0,
                available: true,
                can_ext_id_capable: true,
                can_fd_capable: false,
            })),
        })),
    };
    let d = decode(&encode(&e)).expect("decodes");
    assert!(matches!(
        d.msg,
        Some(Msg::PropertyRequest(Property { prop: Some(Prop::MsgSourceInfo(_)) }))
    ));

    let e = Bridge {
        protocol_version: PROTOCOL_V1,
        msg: Some(Msg::SetProperty(Property {
            prop: Some(Prop::MsgSourceConfig(MessageSourceConfig {
                channel: 0,
                baud_rate: 500000,
                enabled: true,
                filter_id: 0x7FF,
                filter_mask: 0x1F,
                term: Some(true),
            })),
        })),
    };
    let d = decode(&encode(&e)).expect("decodes");
    match d.msg {
        Some(Msg::SetProperty(Property { prop: Some(Prop::MsgSourceConfig(c)) })) => {
            assert_eq!(c.baud_rate, 500000);
            assert_eq!(c.filter_id, 0x7FF);
            assert_eq!(c.filter_mask, 0x1F);
            assert_eq!(c.term, Some(true));
        }
        _ => panic!("wrong variant"),
    }
}

#[test]
fn round_trip_version_request_and_loss() {
    let e = Bridge { protocol_version: 0, msg: Some(Msg::ProtocolVersionRequest(true)) };
    let d = decode(&encode(&e)).expect("decodes");
    assert!(matches!(d.msg, Some(Msg::ProtocolVersionRequest(true))));

    let e = Bridge { protocol_version: PROTOCOL_V1, msg: Some(Msg::LossIndication(7)) };
    let d = decode(&encode(&e)).expect("decodes");
    assert!(matches!(d.msg, Some(Msg::LossIndication(7))));
}

#[test]
fn encode_is_deterministic() {
    let a = encode(&full_can_envelope());
    let b = encode(&full_can_envelope());
    assert_eq!(a, b);
}

#[test]
fn decode_truncated_is_error() {
    let bytes = encode(&full_can_envelope());
    for cut in 0..bytes.len() {
        let r = decode(&bytes[..cut]);
        assert_eq!(r.unwrap_err(), DecodeError::Truncated);
    }
}

#[test]
fn decode_unknown_payload_tag_is_error() {
    // Version 1, then a payload tag outside the known set.
    let bytes = vec![1, 0, 0, 0, 99];
    assert_eq!(decode(&bytes).unwrap_err(), DecodeError::UnknownTag);
}

#[test]
fn decode_unknown_property_tag_is_error() {
    // Version 1, property-response payload, property tag outside the set.
    let bytes = vec![1, 0, 0, 0, 3, 9];
    assert_eq!(decode(&bytes).unwrap_err(), DecodeError::UnknownTag);
}

#[test]
fn decode_bad_marker_byte_is_error() {
    // Version 0, a version-request payload whose flag byte is neither
    // 0 nor 1.
    let bytes = vec![0, 0, 0, 0, 5, 7];
    assert_eq!(decode(&bytes).unwrap_err(), DecodeError::Constraint);
}

#[test]
fn decode_trailing_bytes_is_error() {
    let mut bytes = encode(&Bridge { protocol_version: PROTOCOL_V1, msg: None });
    bytes.push(0);
    assert_eq!(decode(&bytes).unwrap_err(), DecodeError::Trailing);
}
