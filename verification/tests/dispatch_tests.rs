//! Dispatcher tests: the version gate, the payload branches with their
//! display defaults, and frame-level severity.

use hexbridge::codec::{encode, DecodeError};
use hexbridge::dispatch::{
    device_class_of_wire, dispatch, frame_fatal, msg_source_type_of_wire, outcome_fatal,
    process_frame, termination_of, DispatchOutcome, FrameResult, Termination, WsFrame,
};
use hexbridge::msg::{
    Bridge, CanMsg, DeviceClass, DeviceConfig, DeviceInfo, MessageSourceConfig, MessageSourceInfo,
    Msg, MsgSourceType, Prop, Property,
};
use hexbridge::session::FATAL_EXIT_CODE;
use hexbridge::PROTOCOL_V1;

fn response(prop: Prop) -> Bridge {
    Bridge {
        protocol_version: PROTOCOL_V1,
        msg: Some(Msg::PropertyResponse(Property { prop: Some(prop) })),
    }
}

#[test]
fn version_mismatch_is_fatal_before_payload() {
    // An envelope with version 2 while version 1 is expected: flagged
    // fatal whatever the payload holds.
    let e = Bridge {
        protocol_version: 2,
        msg: Some(Msg::CanMsg(CanMsg {
            id: 1,
            data: vec![],
            ext_id: false,
            can_fd: false,
            source: 0,
            destination: None,
            receive_time: None,
        })),
    };
    let r = dispatch(e, PROTOCOL_V1);
    match r {
        DispatchOutcome::FatalVersionMismatch { got, expected } => {
            assert_eq!(got, 2);
            assert_eq!(expected, 1);
        }
        _ => panic!("payload must not be evaluated"),
    }
    assert!(outcome_fatal(&r));
    assert_eq!(FATAL_EXIT_CODE, 255);
}

#[test]
fn empty_payload_is_noop() {
    let e = Bridge { protocol_version: PROTOCOL_V1, msg: None };
    let r = dispatch(e, PROTOCOL_V1);
    assert!(matches!(r, DispatchOutcome::NoOp));
    assert!(!outcome_fatal(&r));
}

#[test]
fn info_response_unavailable_interface() {
    // MsgSourceInfo for the external-CAN channel with available=false:
    // one unavailability report, non-fatal, no further field inspected.
    let e = response(Prop::MsgSourceInfo(MessageSourceInfo {
        channel: 0,
        available: false,
        can_ext_id_capable: true,
        can_fd_capable: true,
    }));
    let r = dispatch(e, PROTOCOL_V1);
    match r {
        DispatchOutcome::InterfaceUnavailable { channel } => {
            assert_eq!(msg_source_type_of_wire(channel), Some(MsgSourceType::ExternalCan));
        }
        _ => panic!("expected the unavailability report"),
    }
    assert!(!outcome_fatal(&r));
}

#[test]
fn info_response_no_ext_id() {
    let e = response(Prop::MsgSourceInfo(MessageSourceInfo {
        channel: 0,
        available: true,
        can_ext_id_capable: false,
        can_fd_capable: true,
    }));
    assert!(matches!(
        dispatch(e, PROTOCOL_V1),
        DispatchOutcome::InterfaceNoExtId { channel: 0 }
    ));
}

#[test]
fn info_response_full_summary() {
    let e = response(Prop::MsgSourceInfo(MessageSourceInfo {
        channel: 0,
        available: true,
        can_ext_id_capable: true,
        can_fd_capable: true,
    }));
    assert!(matches!(
        dispatch(e, PROTOCOL_V1),
        DispatchOutcome::InterfaceSummary { channel: 0, can_fd_capable: true }
    ));
}

#[test]
fn config_response_reports_fields() {
    // MsgSourceConfig with baud 500000, no filter, absent termination:
    // reported as baud 500000, filter id 0x0, mask 0x0, termination
    // unknown.
    let e = response(Prop::MsgSourceConfig(MessageSourceConfig {
        channel: 0,
        baud_rate: 500000,
        enabled: true,
        filter_id: 0,
        filter_mask: 0,
        term: None,
    }));
    match dispatch(e, PROTOCOL_V1) {
        DispatchOutcome::SourceConfigReport { channel, baud_rate, filter_id, filter_mask, term } => {
            assert_eq!(channel, 0);
            assert_eq!(baud_rate, 500000);
            assert_eq!(filter_id, 0x0);
            assert_eq!(filter_mask, 0x0);
            assert_eq!(term, Termination::Unknown);
        }
        _ => panic!("expected the configuration report"),
    }
}

#[test]
fn device_config_defaults() {
    let e = response(Prop::Config(DeviceConfig { name: None, can_full_id: None }));
    match dispatch(e, PROTOCOL_V1) {
        DispatchOutcome::DeviceConfigReport { name, can_full_id } => {
            assert_eq!(name, b"None".to_vec());
            assert_eq!(can_full_id, 0);
        }
        _ => panic!("expected the device-configuration report"),
    }
}

#[test]
fn device_info_defaults() {
    let e = response(Prop::Info(DeviceInfo { device_class: 7, version: None }));
    match dispatch(e, PROTOCOL_V1) {
        DispatchOutcome::DeviceInfoReport { device_class, version } => {
            assert_eq!(device_class, 7);
            // Outside the closed set: renders as an unknown device.
            assert_eq!(device_class_of_wire(device_class), None);
            assert_eq!(version, b"Unknown".to_vec());
        }
        _ => panic!("expected the device-information report"),
    }
}

#[test]
fn can_frame_passthrough() {
    let e = Bridge {
        protocol_version: PROTOCOL_V1,
        msg: Some(Msg::CanMsg(CanMsg {
            id: 0x07FF01B0,
            data: vec![0],
            ext_id: true,
            can_fd: false,
            source: 0,
            destination: None,
            receive_time: None,
        })),
    };
    match dispatch(e, PROTOCOL_V1) {
        DispatchOutcome::ForwardFrame(m) => {
            assert_eq!(m.id, 0x07FF01B0);
            assert_eq!(m.data, vec![0]);
            assert!(m.ext_id);
            assert!(!m.can_fd);
        }
        _ => panic!("the frame must be forwarded unchanged"),
    }
}

#[test]
fn loss_indication_is_recoverable() {
    let e = Bridge { protocol_version: PROTOCOL_V1, msg: Some(Msg::LossIndication(3)) };
    let r = dispatch(e, PROTOCOL_V1);
    assert!(matches!(r, DispatchOutcome::RecoverableLoss { count: 3 }));
    assert!(!outcome_fatal(&r));
}

#[test]
fn request_variants_are_noops() {
    let e = Bridge {
        protocol_version: PROTOCOL_V1,
        msg: Some(Msg::PropertyRequest(Property { prop: None })),
    };
    assert!(matches!(dispatch(e, PROTOCOL_V1), DispatchOutcome::NoOp));
    let e = Bridge { protocol_version: PROTOCOL_V1, msg: Some(Msg::ProtocolVersionRequest(true)) };
    assert!(matches!(dispatch(e, PROTOCOL_V1), DispatchOutcome::NoOp));
}

#[test]
fn binary_frame_dispatches() {
    let e = Bridge { protocol_version: 2, msg: None };
    let bytes = encode(&e);
    let r = process_frame(WsFrame::Binary(bytes), PROTOCOL_V1);
    assert!(matches!(
        r,
        FrameResult::Dispatched(DispatchOutcome::FatalVersionMismatch { got: 2, expected: 1 })
    ));
    assert!(frame_fatal(&r));
}

#[test]
fn malformed_frame_is_non_fatal() {
    let r = process_frame(WsFrame::Binary(vec![1, 2]), PROTOCOL_V1);
    assert!(matches!(r, FrameResult::DecodeFailed(DecodeError::Truncated)));
    assert!(!frame_fatal(&r));
}

#[test]
fn text_frame_is_reported_non_fatal() {
    let r = process_frame(WsFrame::Text(b"hello".to_vec()), PROTOCOL_V1);
    assert!(matches!(r, FrameResult::UnexpectedText));
    assert!(!frame_fatal(&r));
}

#[test]
fn receive_error_and_close_are_non_fatal() {
    let r = process_frame(WsFrame::ReceiveError, PROTOCOL_V1);
    assert!(matches!(r, FrameResult::ReceiveFailed));
    assert!(!frame_fatal(&r));
    let r = process_frame(WsFrame::Closed, PROTOCOL_V1);
    assert!(matches!(r, FrameResult::StreamEnded));
    assert!(!frame_fatal(&r));
    let r = process_frame(WsFrame::Other, PROTOCOL_V1);
    assert!(matches!(r, FrameResult::Ignored));
    assert!(!frame_fatal(&r));
}

#[test]
fn closed_lookups() {
    assert_eq!(device_class_of_wire(0), Some(DeviceClass::OtherDevice));
    assert_eq!(device_class_of_wire(1), Some(DeviceClass::EspCanHub));
    assert_eq!(device_class_of_wire(2), Some(DeviceClass::RouterCanHub));
    assert_eq!(device_class_of_wire(3), Some(DeviceClass::Pc));
    assert_eq!(device_class_of_wire(99), None);
    assert_eq!(msg_source_type_of_wire(4), Some(MsgSourceType::XView));
    assert_eq!(msg_source_type_of_wire(-1), None);
    assert_eq!(termination_of(Some(true)), Termination::On);
    assert_eq!(termination_of(Some(false)), Termination::Off);
    assert_eq!(termination_of(None), Termination::Unknown);
}
