//! Payload dispatcher: the per-envelope state machine of the session.
//!
//! On every decoded envelope the protocol version is checked first; a
//! mismatch is fatal and short-circuits before any payload handling. On a
//! matching version the payload is pattern-matched into a structured
//! outcome for the caller to render or forward. Payload-level anomalies
//! (a decode failure, a text frame, a loss indication) are recoverable:
//! the session loop reports them and continues.

use vstd::prelude::*;
use crate::codec::{decode, spec_decode, DecodeError};
use crate::msg::{Bridge, BridgeV, CanMsg, CanMsgV, DeviceClass, Msg, MsgSourceType, MsgV, Prop, PropV};

verus! {

/// Termination state of a CAN channel as reported by the peer:
/// the wire value is optional, so the report is tri-state.
#[derive(Clone, Copy, PartialEq, Eq, Structural, Debug)]
pub enum Termination {
    On,
    Off,
    Unknown,
}

/// The tri-state termination report for an optional wire value.
pub open spec fn spec_termination_of(t: Option<bool>) -> Termination {
    match t {
        Some(true) => Termination::On,
        Some(false) => Termination::Off,
        None => Termination::Unknown,
    }
}

/// Maps the optional termination flag of a channel configuration to its
/// tri-state report.
pub fn termination_of(t: Option<bool>) -> (r: Termination)
    ensures
        r == spec_termination_of(t),
{
    match t {
        Some(true) => Termination::On,
        Some(false) => Termination::Off,
        None => Termination::Unknown,
    }
}

/// Device class for a wire value, through the closed lookup; values
/// outside the closed set yield `None` and render as an unknown device.
pub open spec fn spec_device_class_of_wire(v: i32) -> Option<DeviceClass> {
    if v == 0 {
        Some(DeviceClass::OtherDevice)
    } else if v == 1 {
        Some(DeviceClass::EspCanHub)
    } else if v == 2 {
        Some(DeviceClass::RouterCanHub)
    } else if v == 3 {
        Some(DeviceClass::Pc)
    } else {
        None
    }
}

/// Looks a wire value up in the closed device-class set.
pub fn device_class_of_wire(v: i32) -> (r: Option<DeviceClass>)
    ensures
        r == spec_device_class_of_wire(v),
{
    if v == 0 {
        Some(DeviceClass::OtherDevice)
    } else if v == 1 {
        Some(DeviceClass::EspCanHub)
    } else if v == 2 {
        Some(DeviceClass::RouterCanHub)
    } else if v == 3 {
        Some(DeviceClass::Pc)
    } else {
        None
    }
}

/// Channel for a wire value, through the closed lookup.
pub open spec fn spec_msg_source_type_of_wire(v: i32) -> Option<MsgSourceType> {
    if v == 0 {
        Some(MsgSourceType::ExternalCan)
    } else if v == 1 {
        Some(MsgSourceType::InternalCan)
    } else if v == 2 {
        Some(MsgSourceType::CanHub)
    } else if v == 3 {
        Some(MsgSourceType::PcRos)
    } else if v == 4 {
        Some(MsgSourceType::XView)
    } else {
        None
    }
}

/// Looks a wire value up in the closed channel set.
pub fn msg_source_type_of_wire(v: i32) -> (r: Option<MsgSourceType>)
    ensures
        r == spec_msg_source_type_of_wire(v),
{
    if v == 0 {
        Some(MsgSourceType::ExternalCan)
    } else if v == 1 {
        Some(MsgSourceType::InternalCan)
    } else if v == 2 {
        Some(MsgSourceType::CanHub)
    } else if v == 3 {
        Some(MsgSourceType::PcRos)
    } else if v == 4 {
        Some(MsgSourceType::XView)
    } else {
        None
    }
}

/// What the dispatcher decided for one envelope.
#[derive(Clone, Debug)]
pub enum DispatchOutcome {
    /// The envelope's version is not the one this client speaks; fatal,
    /// decided before the payload is looked at.
    FatalVersionMismatch { got: i32, expected: i32 },
    /// Empty payload, a request variant, or a bare version announcement:
    /// nothing to do, non-fatal.
    NoOp,
    /// Device configuration, with the display defaults applied: a missing
    /// name reports as the bytes of "None", a missing id as 0.
    DeviceConfigReport { name: Vec<u8>, can_full_id: u32 },
    /// Device information, with a missing firmware version reporting as
    /// the bytes of "Unknown".
    DeviceInfoReport { device_class: i32, version: Vec<u8> },
    /// The channel reported itself unavailable; no further field of the
    /// report is inspected.
    InterfaceUnavailable { channel: i32 },
    /// The channel is available but cannot carry extended identifiers;
    /// no further field is inspected.
    InterfaceNoExtId { channel: i32 },
    /// The channel is available and extended-identifier capable.
    InterfaceSummary { channel: i32, can_fd_capable: bool },
    /// A channel configuration report.
    SourceConfigReport {
        channel: i32,
        baud_rate: u32,
        filter_id: u32,
        filter_mask: u32,
        term: Termination,
    },
    /// A CAN frame, forwarded to the observer unchanged.
    ForwardFrame(CanMsg),
    /// A loss indication: reported, and the session continues.
    RecoverableLoss { count: u32 },
}

/// Mathematical view of a [`DispatchOutcome`].
pub ghost enum DispatchOutcomeV {
    FatalVersionMismatch { got: i32, expected: i32 },
    NoOp,
    DeviceConfigReport { name: Seq<u8>, can_full_id: u32 },
    DeviceInfoReport { device_class: i32, version: Seq<u8> },
    InterfaceUnavailable { channel: i32 },
    InterfaceNoExtId { channel: i32 },
    InterfaceSummary { channel: i32, can_fd_capable: bool },
    SourceConfigReport {
        channel: i32,
        baud_rate: u32,
        filter_id: u32,
        filter_mask: u32,
        term: Termination,
    },
    ForwardFrame(CanMsgV),
    RecoverableLoss { count: u32 },
}

impl View for DispatchOutcome {
    type V = DispatchOutcomeV;

    open spec fn view(&self) -> DispatchOutcomeV {
        match self {
            DispatchOutcome::FatalVersionMismatch { got, expected } => (
            DispatchOutcomeV::FatalVersionMismatch { got: *got, expected: *expected }),
            DispatchOutcome::NoOp => DispatchOutcomeV::NoOp,
            DispatchOutcome::DeviceConfigReport { name, can_full_id } => (
            DispatchOutcomeV::DeviceConfigReport { name: name@, can_full_id: *can_full_id }),
            DispatchOutcome::DeviceInfoReport { device_class, version } => (
            DispatchOutcomeV::DeviceInfoReport { device_class: *device_class, version: version@ }),
            DispatchOutcome::InterfaceUnavailable { channel } => (
            DispatchOutcomeV::InterfaceUnavailable { channel: *channel }),
            DispatchOutcome::InterfaceNoExtId { channel } => (
            DispatchOutcomeV::InterfaceNoExtId { channel: *channel }),
            DispatchOutcome::InterfaceSummary { channel, can_fd_capable } => (
            DispatchOutcomeV::InterfaceSummary {
                channel: *channel,
                can_fd_capable: *can_fd_capable,
            }),
            DispatchOutcome::SourceConfigReport {
                channel,
                baud_rate,
                filter_id,
                filter_mask,
                term,
            } => (
            DispatchOutcomeV::SourceConfigReport {
                channel: *channel,
                baud_rate: *baud_rate,
                filter_id: *filter_id,
                filter_mask: *filter_mask,
                term: *term,
            }),
            DispatchOutcome::ForwardFrame(m) => DispatchOutcomeV::ForwardFrame(m@),
            DispatchOutcome::RecoverableLoss { count } => (
            DispatchOutcomeV::RecoverableLoss { count: *count }),
        }
    }
}

/// The bytes of "None", the display default for a missing device name.
pub open spec fn spec_default_name() -> Seq<u8> {
    seq![78u8, 111u8, 110u8, 101u8]
}

/// The bytes of "Unknown", the display default for a missing firmware
/// version.
pub open spec fn spec_unknown_version() -> Seq<u8> {
    seq![85u8, 110u8, 107u8, 110u8, 111u8, 119u8, 110u8]
}

/// The dispatcher's decision for one envelope, given the version this
/// client expects.
pub open spec fn spec_dispatch(e: BridgeV, expected: i32) -> DispatchOutcomeV {
    if e.protocol_version != expected {
        DispatchOutcomeV::FatalVersionMismatch { got: e.protocol_version, expected }
    } else {
        match e.msg {
            None => DispatchOutcomeV::NoOp,
            Some(MsgV::PropertyResponse(p)) => match p.prop {
                None => DispatchOutcomeV::NoOp,
                Some(PropV::Config(c)) => DispatchOutcomeV::DeviceConfigReport {
                    name: match c.name {
                        Some(n) => n,
                        None => spec_default_name(),
                    },
                    can_full_id: match c.can_full_id {
                        Some(id) => id,
                        None => 0,
                    },
                },
                Some(PropV::Info(i)) => DispatchOutcomeV::DeviceInfoReport {
                    device_class: i.device_class,
                    version: match i.version {
                        Some(v) => v,
                        None => spec_unknown_version(),
                    },
                },
                Some(PropV::MsgSourceInfo(si)) => if !si.available {
                    DispatchOutcomeV::InterfaceUnavailable { channel: si.channel }
                } else if !si.can_ext_id_capable {
                    DispatchOutcomeV::InterfaceNoExtId { channel: si.channel }
                } else {
                    DispatchOutcomeV::InterfaceSummary {
                        channel: si.channel,
                        can_fd_capable: si.can_fd_capable,
                    }
                },
                Some(PropV::MsgSourceConfig(sc)) => DispatchOutcomeV::SourceConfigReport {
                    channel: sc.channel,
                    baud_rate: sc.baud_rate,
                    filter_id: sc.filter_id,
                    filter_mask: sc.filter_mask,
                    term: spec_termination_of(sc.term),
                },
            },
            Some(MsgV::CanMsg(m)) => DispatchOutcomeV::ForwardFrame(m),
            Some(MsgV::LossIndication(n)) => DispatchOutcomeV::RecoverableLoss { count: n },
            Some(MsgV::PropertyRequest(_)) => DispatchOutcomeV::NoOp,
            Some(MsgV::SetProperty(_)) => DispatchOutcomeV::NoOp,
            Some(MsgV::ProtocolVersionRequest(_)) => DispatchOutcomeV::NoOp,
        }
    }
}

/// Dispatches one decoded envelope: the version gate first, then the
/// payload match. The result is exactly [`spec_dispatch`] of the
/// envelope's view.
pub fn dispatch(e: Bridge, expected: i32) -> (r: DispatchOutcome)
    ensures
        r@ == spec_dispatch(e@, expected),
{
    if e.protocol_version != expected {
        return DispatchOutcome::FatalVersionMismatch { got: e.protocol_version, expected };
    }
    match e.msg {
        None => DispatchOutcome::NoOp,
        Some(Msg::PropertyResponse(p)) => match p.prop {
            None => DispatchOutcome::NoOp,
            Some(Prop::Config(c)) => DispatchOutcome::DeviceConfigReport {
                name: match c.name {
                    Some(n) => n,
                    None => {
                        let d: Vec<u8> = vec![78u8, 111u8, 110u8, 101u8];
                        proof {
                            assert(d@ =~= spec_default_name());
                        }
                        d
                    },
                },
                can_full_id: match c.can_full_id {
                    Some(id) => id,
                    None => 0,
                },
            },
            Some(Prop::Info(i)) => DispatchOutcome::DeviceInfoReport {
                device_class: i.device_class,
                version: match i.version {
                    Some(v) => v,
                    None => {
                        let d: Vec<u8> = vec![85u8, 110u8, 107u8, 110u8, 111u8, 119u8, 110u8];
                        proof {
                            assert(d@ =~= spec_unknown_version());
                        }
                        d
                    },
                },
            },
            Some(Prop::MsgSourceInfo(si)) => if !si.available {
                DispatchOutcome::InterfaceUnavailable { channel: si.channel }
            } else if !si.can_ext_id_capable {
                DispatchOutcome::InterfaceNoExtId { channel: si.channel }
            } else {
                DispatchOutcome::InterfaceSummary {
                    channel: si.channel,
                    can_fd_capable: si.can_fd_capable,
                }
            },
            Some(Prop::MsgSourceConfig(sc)) => DispatchOutcome::SourceConfigReport {
                channel: sc.channel,
                baud_rate: sc.baud_rate,
                filter_id: sc.filter_id,
                filter_mask: sc.filter_mask,
                term: termination_of(sc.term),
            },
        },
        Some(Msg::CanMsg(m)) => DispatchOutcome::ForwardFrame(m),
        Some(Msg::LossIndication(n)) => DispatchOutcome::RecoverableLoss { count: n },
        Some(Msg::PropertyRequest(_)) => DispatchOutcome::NoOp,
        Some(Msg::SetProperty(_)) => DispatchOutcome::NoOp,
        Some(Msg::ProtocolVersionRequest(_)) => DispatchOutcome::NoOp,
    }
}

/// Whether an outcome ends the session. Only the version gate is fatal at
/// this level; every payload-level anomaly is recovered locally.
pub open spec fn spec_outcome_fatal(r: DispatchOutcomeV) -> bool {
    r is FatalVersionMismatch
}

/// Tells whether a dispatch outcome is fatal for the session.
pub fn outcome_fatal(r: &DispatchOutcome) -> (b: bool)
    ensures
        b == spec_outcome_fatal(r@),
{
    match r {
        DispatchOutcome::FatalVersionMismatch { .. } => true,
        _ => false,
    }
}

/// Version gate: an envelope whose version differs from the expected one
/// is flagged fatal before any payload handling, whatever the payload.
pub proof fn lemma_version_gate(e: BridgeV, expected: i32)
    requires
        e.protocol_version != expected,
    ensures
        spec_dispatch(e, expected) == (DispatchOutcomeV::FatalVersionMismatch {
            got: e.protocol_version,
            expected,
        }),
        spec_outcome_fatal(spec_dispatch(e, expected)),
{
}

/// An envelope with an absent payload and the right version is a no-op:
/// non-fatal, nothing forwarded.
pub proof fn lemma_empty_payload_noop(e: BridgeV, expected: i32)
    requires
        e.protocol_version == expected,
        e.msg is None,
    ensures
        spec_dispatch(e, expected) == DispatchOutcomeV::NoOp,
        !spec_outcome_fatal(spec_dispatch(e, expected)),
{
}

/// A CAN frame on a matching version is forwarded to the observer
/// unchanged.
pub proof fn lemma_can_frame_passthrough(e: BridgeV, m: CanMsgV, expected: i32)
    requires
        e.protocol_version == expected,
        e.msg == Some(MsgV::CanMsg(m)),
    ensures
        spec_dispatch(e, expected) == DispatchOutcomeV::ForwardFrame(m),
{
}

// ---------------------------------------------------------------------
// Transport-frame handling: what the session loop does with one received
// websocket frame before and after decoding.
// ---------------------------------------------------------------------

/// One received transport frame, as the session loop sees it.
#[derive(Clone, Debug)]
pub enum WsFrame {
    /// A binary frame: one encoded envelope.
    Binary(Vec<u8>),
    /// A text frame where a binary one was expected; carried as bytes.
    Text(Vec<u8>),
    /// Any other frame kind (control traffic): ignored.
    Other,
    /// The transport reported a receive error for this frame.
    ReceiveError,
    /// The stream ended: no further frames will arrive.
    Closed,
}

/// Mathematical view of a [`WsFrame`].
pub ghost enum WsFrameV {
    Binary(Seq<u8>),
    Text(Seq<u8>),
    Other,
    ReceiveError,
    Closed,
}

impl View for WsFrame {
    type V = WsFrameV;

    open spec fn view(&self) -> WsFrameV {
        match self {
            WsFrame::Binary(b) => WsFrameV::Binary(b@),
            WsFrame::Text(t) => WsFrameV::Text(t@),
            WsFrame::Other => WsFrameV::Other,
            WsFrame::ReceiveError => WsFrameV::ReceiveError,
            WsFrame::Closed => WsFrameV::Closed,
        }
    }
}

/// What handling one frame produced.
#[derive(Clone, Debug)]
pub enum FrameResult {
    /// The frame decoded; the dispatcher's decision is inside.
    Dispatched(DispatchOutcome),
    /// The frame was malformed: reported, dropped, the loop continues.
    DecodeFailed(DecodeError),
    /// A text frame where binary was expected: reported, non-fatal.
    UnexpectedText,
    /// A receive error: reported, non-fatal.
    ReceiveFailed,
    /// The stream ended: reported, non-fatal at this layer.
    StreamEnded,
    /// A control frame: nothing to do.
    Ignored,
}

/// Mathematical view of a [`FrameResult`].
pub ghost enum FrameResultV {
    Dispatched(DispatchOutcomeV),
    DecodeFailed(DecodeError),
    UnexpectedText,
    ReceiveFailed,
    StreamEnded,
    Ignored,
}

impl View for FrameResult {
    type V = FrameResultV;

    open spec fn view(&self) -> FrameResultV {
        match self {
            FrameResult::Dispatched(o) => FrameResultV::Dispatched(o@),
            FrameResult::DecodeFailed(e) => FrameResultV::DecodeFailed(*e),
            FrameResult::UnexpectedText => FrameResultV::UnexpectedText,
            FrameResult::ReceiveFailed => FrameResultV::ReceiveFailed,
            FrameResult::StreamEnded => FrameResultV::StreamEnded,
            FrameResult::Ignored => FrameResultV::Ignored,
        }
    }
}

/// The session loop's handling of one received frame.
pub open spec fn spec_process_frame(f: WsFrameV, expected: i32) -> FrameResultV {
    match f {
        WsFrameV::Binary(b) => match spec_decode(b) {
            Ok(e) => FrameResultV::Dispatched(spec_dispatch(e, expected)),
            Err(er) => FrameResultV::DecodeFailed(er),
        },
        WsFrameV::Text(_) => FrameResultV::UnexpectedText,
        WsFrameV::Other => FrameResultV::Ignored,
        WsFrameV::ReceiveError => FrameResultV::ReceiveFailed,
        WsFrameV::Closed => FrameResultV::StreamEnded,
    }
}

/// Handles one received frame: decode, then dispatch. The result is
/// exactly [`spec_process_frame`] of the frame's view.
pub fn process_frame(f: WsFrame, expected: i32) -> (r: FrameResult)
    ensures
        r@ == spec_process_frame(f@, expected),
{
    match f {
        WsFrame::Binary(b) => match decode(b.as_slice()) {
            Ok(e) => FrameResult::Dispatched(dispatch(e, expected)),
            Err(er) => FrameResult::DecodeFailed(er),
        },
        WsFrame::Text(_) => FrameResult::UnexpectedText,
        WsFrame::Other => FrameResult::Ignored,
        WsFrame::ReceiveError => FrameResult::ReceiveFailed,
        WsFrame::Closed => FrameResult::StreamEnded,
    }
}

/// Whether a frame result ends the session: only a version mismatch.
/// A decode failure, a text frame, a receive error and a loss indication
/// all leave the loop running.
pub open spec fn spec_frame_fatal(r: FrameResultV) -> bool {
    match r {
        FrameResultV::Dispatched(o) => spec_outcome_fatal(o),
        _ => false,
    }
}

/// Tells whether a frame result is fatal for the session.
pub fn frame_fatal(r: &FrameResult) -> (b: bool)
    ensures
        b == spec_frame_fatal(r@),
{
    match r {
        FrameResult::Dispatched(o) => outcome_fatal(o),
        _ => false,
    }
}

} // verus!
