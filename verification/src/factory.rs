//! Builders for the request envelopes this client sends. Each builder's
//! contract pins the complete envelope value, so the handshake sequence
//! and the tests can speak of the exact messages on the wire.

use vstd::prelude::*;
use crate::msg::{
    spec_msg_source_type_wire, Bridge, BridgeV, CanMsg, CanMsgV, DeviceConfig, DeviceConfigV,
    DeviceInfo, DeviceInfoV, MessageSourceConfig, MessageSourceInfo, Msg, MsgSourceType, MsgV,
    Prop, PropV, Property, PropertyV, msg_source_type_wire, MAX_CAN_DATA_LEN,
};
use crate::{PROTOCOL_V1, PROTOCOL_VERSION_REQUEST};

verus! {

/// Baud rate the default interface configuration requests.
pub const DEFAULT_BAUD_RATE: u32 = 500000;

/// The envelope asking a channel for its capability report.
pub open spec fn spec_msg_get_interface_info(interface: MsgSourceType) -> BridgeV {
    BridgeV {
        protocol_version: PROTOCOL_V1,
        msg: Some(
            MsgV::PropertyRequest(
                PropertyV {
                    prop: Some(
                        PropV::MsgSourceInfo(
                            MessageSourceInfo {
                                channel: spec_msg_source_type_wire(interface),
                                available: false,
                                can_ext_id_capable: false,
                                can_fd_capable: false,
                            },
                        ),
                    ),
                },
            ),
        ),
    }
}

/// Builds the capability request for one channel.
pub fn create_msg_get_interface_info(interface: MsgSourceType) -> (r: Bridge)
    ensures
        r@ == spec_msg_get_interface_info(interface),
        r@.wf(),
{
    Bridge {
        protocol_version: PROTOCOL_V1,
        msg: Some(
            Msg::PropertyRequest(
                Property {
                    prop: Some(
                        Prop::MsgSourceInfo(
                            MessageSourceInfo {
                                channel: msg_source_type_wire(interface),
                                available: false,
                                can_ext_id_capable: false,
                                can_fd_capable: false,
                            },
                        ),
                    ),
                },
            ),
        ),
    }
}

/// The envelope putting a channel into its default configuration:
/// baud 500000, enabled, no filter, termination left unchanged.
pub open spec fn spec_msg_set_interface_to_default_config(interface: MsgSourceType) -> BridgeV {
    BridgeV {
        protocol_version: PROTOCOL_V1,
        msg: Some(
            MsgV::SetProperty(
                PropertyV {
                    prop: Some(
                        PropV::MsgSourceConfig(
                            MessageSourceConfig {
                                channel: spec_msg_source_type_wire(interface),
                                baud_rate: DEFAULT_BAUD_RATE,
                                enabled: true,
                                filter_id: 0,
                                filter_mask: 0,
                                term: None,
                            },
                        ),
                    ),
                },
            ),
        ),
    }
}

/// Builds the set-default-configuration request for one channel.
pub fn create_msg_set_interface_to_default_config(interface: MsgSourceType) -> (r: Bridge)
    ensures
        r@ == spec_msg_set_interface_to_default_config(interface),
        r@.wf(),
{
    Bridge {
        protocol_version: PROTOCOL_V1,
        msg: Some(
            Msg::SetProperty(
                Property {
                    prop: Some(
                        Prop::MsgSourceConfig(
                            MessageSourceConfig {
                                channel: msg_source_type_wire(interface),
                                baud_rate: DEFAULT_BAUD_RATE,
                                enabled: true,
                                filter_id: 0,
                                filter_mask: 0,
                                term: None,
                            },
                        ),
                    ),
                },
            ),
        ),
    }
}

/// The envelope asking the device for its configuration.
pub open spec fn spec_msg_request_config() -> BridgeV {
    BridgeV {
        protocol_version: PROTOCOL_V1,
        msg: Some(
            MsgV::PropertyRequest(
                PropertyV {
                    prop: Some(PropV::Config(DeviceConfigV { name: None, can_full_id: None })),
                },
            ),
        ),
    }
}

/// Builds the device-configuration request.
pub fn create_msg_request_config() -> (r: Bridge)
    ensures
        r@ == spec_msg_request_config(),
        r@.wf(),
{
    Bridge {
        protocol_version: PROTOCOL_V1,
        msg: Some(
            Msg::PropertyRequest(
                Property {
                    prop: Some(Prop::Config(DeviceConfig { name: None, can_full_id: None })),
                },
            ),
        ),
    }
}

/// The envelope asking which protocol version the peer speaks. It is the
/// one request sent under the version-request sentinel rather than
/// version 1.
pub open spec fn spec_msg_request_protocol_version() -> BridgeV {
    BridgeV {
        protocol_version: PROTOCOL_VERSION_REQUEST,
        msg: Some(MsgV::ProtocolVersionRequest(true)),
    }
}

/// Builds the protocol-version request.
pub fn create_msg_request_protocol_version() -> (r: Bridge)
    ensures
        r@ == spec_msg_request_protocol_version(),
        r@.wf(),
{
    Bridge {
        protocol_version: PROTOCOL_VERSION_REQUEST,
        msg: Some(Msg::ProtocolVersionRequest(true)),
    }
}

/// The envelope asking the device for its class and firmware version.
pub open spec fn spec_msg_request_info() -> BridgeV {
    BridgeV {
        protocol_version: PROTOCOL_V1,
        msg: Some(
            MsgV::PropertyRequest(
                PropertyV {
                    prop: Some(PropV::Info(DeviceInfoV { device_class: 0, version: None })),
                },
            ),
        ),
    }
}

/// Builds the device-information request.
pub fn create_msg_request_info() -> (r: Bridge)
    ensures
        r@ == spec_msg_request_info(),
        r@.wf(),
{
    Bridge {
        protocol_version: PROTOCOL_V1,
        msg: Some(
            Msg::PropertyRequest(
                Property { prop: Some(Prop::Info(DeviceInfo { device_class: 0, version: None })) },
            ),
        ),
    }
}

/// The envelope carrying one outgoing extended-identifier CAN frame.
pub open spec fn spec_msg_ext_id_can_msg(id: u32, data: Seq<u8>, source: i32) -> BridgeV {
    BridgeV {
        protocol_version: PROTOCOL_V1,
        msg: Some(
            MsgV::CanMsg(
                CanMsgV {
                    id,
                    data,
                    ext_id: true,
                    can_fd: false,
                    source,
                    destination: None,
                    receive_time: None,
                },
            ),
        ),
    }
}

/// Builds an envelope forwarding one extended-identifier CAN frame.
pub fn create_msg_ext_id_can_msg(id: u32, data: Vec<u8>, source: i32) -> (r: Bridge)
    requires
        data@.len() <= MAX_CAN_DATA_LEN,
    ensures
        r@ == spec_msg_ext_id_can_msg(id, data@, source),
        r@.wf(),
{
    Bridge {
        protocol_version: PROTOCOL_V1,
        msg: Some(
            Msg::CanMsg(
                CanMsg {
                    id,
                    data,
                    ext_id: true,
                    can_fd: false,
                    source,
                    destination: None,
                    receive_time: None,
                },
            ),
        ),
    }
}

} // verus!
