//! Handshake tests: exactly five requests, in the fixed startup order.

use hexbridge::factory::{
    create_msg_ext_id_can_msg, create_msg_get_interface_info, create_msg_request_config,
    create_msg_request_info, create_msg_request_protocol_version,
    create_msg_set_interface_to_default_config,
};
use hexbridge::handshake::build_handshake;
use hexbridge::msg::{Msg, MsgSourceType, Prop, Property};
use hexbridge::{PROTOCOL_V1, PROTOCOL_VERSION_REQUEST};

#[test]
fn handshake_is_five_requests_in_order() {
    let hs = build_handshake();
    assert_eq!(hs.len(), 5);
    // (1) protocol-version request, under the version-request sentinel.
    assert_eq!(hs[0].protocol_version, PROTOCOL_VERSION_REQUEST);
    assert!(matches!(hs[0].msg, Some(Msg::ProtocolVersionRequest(true))));
    // (2) device-info request.
    assert!(matches!(
        hs[1].msg,
        Some(Msg::PropertyRequest(Property { prop: Some(Prop::Info(_)) }))
    ));
    // (3) device-config request.
    assert!(matches!(
        hs[2].msg,
        Some(Msg::PropertyRequest(Property { prop: Some(Prop::Config(_)) }))
    ));
    // (4) capability request for the external-CAN channel.
    match &hs[3].msg {
        Some(Msg::PropertyRequest(Property { prop: Some(Prop::MsgSourceInfo(i)) })) => {
            assert_eq!(i.channel, 0);
        }
        _ => panic!("fourth request must ask for interface capabilities"),
    }
    // (5) set-default-configuration for the external-CAN channel.
    match &hs[4].msg {
        Some(Msg::SetProperty(Property { prop: Some(Prop::MsgSourceConfig(c)) })) => {
            assert_eq!(c.channel, 0);
            assert_eq!(c.baud_rate, 500000);
            assert!(c.enabled);
            assert_eq!(c.filter_id, 0);
            assert_eq!(c.filter_mask, 0);
            assert_eq!(c.term, None);
        }
        _ => panic!("fifth request must set the default configuration"),
    }
}

#[test]
fn interface_info_request_fields() {
    let e = create_msg_get_interface_info(MsgSourceType::InternalCan);
    assert_eq!(e.protocol_version, PROTOCOL_V1);
    match e.msg {
        Some(Msg::PropertyRequest(Property { prop: Some(Prop::MsgSourceInfo(i)) })) => {
            assert_eq!(i.channel, 1);
            assert!(!i.available);
            assert!(!i.can_ext_id_capable);
            assert!(!i.can_fd_capable);
        }
        _ => panic!("wrong variant"),
    }
}

#[test]
fn default_config_request_fields() {
    let e = create_msg_set_interface_to_default_config(MsgSourceType::ExternalCan);
    assert_eq!(e.protocol_version, PROTOCOL_V1);
    match e.msg {
        Some(Msg::SetProperty(Property { prop: Some(Prop::MsgSourceConfig(c)) })) => {
            assert_eq!(c.channel, 0);
            assert_eq!(c.baud_rate, 500000);
            assert!(c.enabled);
            assert_eq!(c.filter_id, 0);
            assert_eq!(c.filter_mask, 0);
            assert_eq!(c.term, None);
        }
        _ => panic!("wrong variant"),
    }
}

#[test]
fn config_and_info_requests_are_empty_queries() {
    let e = create_msg_request_config();
    match e.msg {
        Some(Msg::PropertyRequest(Property { prop: Some(Prop::Config(c)) })) => {
            assert_eq!(c.name, None);
            assert_eq!(c.can_full_id, None);
        }
        _ => panic!("wrong variant"),
    }
    let e = create_msg_request_info();
    match e.msg {
        Some(Msg::PropertyRequest(Property { prop: Some(Prop::Info(i)) })) => {
            assert_eq!(i.device_class, 0);
            assert_eq!(i.version, None);
        }
        _ => panic!("wrong variant"),
    }
}

#[test]
fn version_request_uses_sentinel_version() {
    let e = create_msg_request_protocol_version();
    assert_eq!(e.protocol_version, PROTOCOL_VERSION_REQUEST);
    assert!(matches!(e.msg, Some(Msg::ProtocolVersionRequest(true))));
}

#[test]
fn ext_id_can_msg_fields() {
    let e = create_msg_ext_id_can_msg(0x07FF01B0, vec![0], 3);
    assert_eq!(e.protocol_version, PROTOCOL_V1);
    match e.msg {
        Some(Msg::CanMsg(m)) => {
            assert_eq!(m.id, 0x07FF01B0);
            assert_eq!(m.data, vec![0]);
            assert!(m.ext_id);
            assert!(!m.can_fd);
            assert_eq!(m.source, 3);
            assert_eq!(m.destination, None);
            assert_eq!(m.receive_time, None);
        }
        _ => panic!("wrong variant"),
    }
}
