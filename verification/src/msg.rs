//! Data model of the bridge protocol: the versioned envelope, its payload
//! variants, the nested property variants, and the closed channel / device
//! enumerations. Each type carrying a byte buffer has a mathematical view
//! (`@`) over `Seq<u8>`; the codec and dispatcher contracts are stated over
//! these views.

use vstd::prelude::*;

verus! {

/// Largest CAN payload this client accepts (CAN FD frame size).
pub const MAX_CAN_DATA_LEN: usize = 64;

/// Largest length of a device name or firmware version string, in bytes.
/// The wire format stores such lengths in a single byte.
pub const MAX_TEXT_LEN: usize = 255;

/// Closed set of message channels the bridge knows about. Used both as a
/// wire value (via [`msg_source_type_wire`]) and as a display key.
#[derive(Clone, Copy, PartialEq, Eq, Structural, Debug)]
pub enum MsgSourceType {
    ExternalCan,
    InternalCan,
    CanHub,
    PcRos,
    XView,
}

/// Wire encoding of a channel identifier.
pub open spec fn spec_msg_source_type_wire(t: MsgSourceType) -> i32 {
    match t {
        MsgSourceType::ExternalCan => 0,
        MsgSourceType::InternalCan => 1,
        MsgSourceType::CanHub => 2,
        MsgSourceType::PcRos => 3,
        MsgSourceType::XView => 4,
    }
}

/// Turns a channel into the integer the wire format carries.
pub fn msg_source_type_wire(t: MsgSourceType) -> (r: i32)
    ensures
        r == spec_msg_source_type_wire(t),
{
    match t {
        MsgSourceType::ExternalCan => 0,
        MsgSourceType::InternalCan => 1,
        MsgSourceType::CanHub => 2,
        MsgSourceType::PcRos => 3,
        MsgSourceType::XView => 4,
    }
}

/// Closed set of device classes a bridge peer can report.
#[derive(Clone, Copy, PartialEq, Eq, Structural, Debug)]
pub enum DeviceClass {
    OtherDevice,
    EspCanHub,
    RouterCanHub,
    Pc,
}

/// Wire encoding of a device class.
pub open spec fn spec_device_class_wire(c: DeviceClass) -> i32 {
    match c {
        DeviceClass::OtherDevice => 0,
        DeviceClass::EspCanHub => 1,
        DeviceClass::RouterCanHub => 2,
        DeviceClass::Pc => 3,
    }
}

/// Turns a device class into the integer the wire format carries.
pub fn device_class_wire(c: DeviceClass) -> (r: i32)
    ensures
        r == spec_device_class_wire(c),
{
    match c {
        DeviceClass::OtherDevice => 0,
        DeviceClass::EspCanHub => 1,
        DeviceClass::RouterCanHub => 2,
        DeviceClass::Pc => 3,
    }
}

/// One CAN frame as carried by the bridge.
#[derive(Clone, Debug)]
pub struct CanMsg {
    pub id: u32,
    pub data: Vec<u8>,
    pub ext_id: bool,
    pub can_fd: bool,
    pub source: i32,
    pub destination: Option<i32>,
    pub receive_time: Option<u64>,
}

/// Mathematical view of a [`CanMsg`].
pub ghost struct CanMsgV {
    pub id: u32,
    pub data: Seq<u8>,
    pub ext_id: bool,
    pub can_fd: bool,
    pub source: i32,
    pub destination: Option<i32>,
    pub receive_time: Option<u64>,
}

impl View for CanMsg {
    type V = CanMsgV;

    open spec fn view(&self) -> CanMsgV {
        CanMsgV {
            id: self.id,
            data: self.data@,
            ext_id: self.ext_id,
            can_fd: self.can_fd,
            source: self.source,
            destination: self.destination,
            receive_time: self.receive_time,
        }
    }
}

impl CanMsgV {
    /// A frame is constructible when its payload fits a CAN FD frame.
    pub open spec fn wf(self) -> bool {
        self.data.len() <= MAX_CAN_DATA_LEN
    }
}

/// Device configuration property: an optional name and an optional full
/// CAN identifier. Text fields are carried as UTF-8 bytes.
#[derive(Clone, Debug)]
pub struct DeviceConfig {
    pub name: Option<Vec<u8>>,
    pub can_full_id: Option<u32>,
}

/// Mathematical view of a [`DeviceConfig`].
pub ghost struct DeviceConfigV {
    pub name: Option<Seq<u8>>,
    pub can_full_id: Option<u32>,
}

impl View for DeviceConfig {
    type V = DeviceConfigV;

    open spec fn view(&self) -> DeviceConfigV {
        DeviceConfigV {
            name: match self.name {
                Some(ref n) => Some(n@),
                None => None,
            },
            can_full_id: self.can_full_id,
        }
    }
}

impl DeviceConfigV {
    pub open spec fn wf(self) -> bool {
        match self.name {
            Some(n) => n.len() <= MAX_TEXT_LEN,
            None => true,
        }
    }
}

/// Device information property: the reported device class and an optional
/// firmware version string, carried as UTF-8 bytes.
#[derive(Clone, Debug)]
pub struct DeviceInfo {
    pub device_class: i32,
    pub version: Option<Vec<u8>>,
}

/// Mathematical view of a [`DeviceInfo`].
pub ghost struct DeviceInfoV {
    pub device_class: i32,
    pub version: Option<Seq<u8>>,
}

impl View for DeviceInfo {
    type V = DeviceInfoV;

    open spec fn view(&self) -> DeviceInfoV {
        DeviceInfoV {
            device_class: self.device_class,
            version: match self.version {
                Some(ref v) => Some(v@),
                None => None,
            },
        }
    }
}

impl DeviceInfoV {
    pub open spec fn wf(self) -> bool {
        match self.version {
            Some(v) => v.len() <= MAX_TEXT_LEN,
            None => true,
        }
    }
}

/// Capability report for one message channel.
#[derive(Clone, Copy, PartialEq, Eq, Structural, Debug)]
pub struct MessageSourceInfo {
    pub channel: i32,
    pub available: bool,
    pub can_ext_id_capable: bool,
    pub can_fd_capable: bool,
}

/// Configuration of one message channel.
#[derive(Clone, Copy, PartialEq, Eq, Structural, Debug)]
pub struct MessageSourceConfig {
    pub channel: i32,
    pub baud_rate: u32,
    pub enabled: bool,
    pub filter_id: u32,
    pub filter_mask: u32,
    pub term: Option<bool>,
}

/// Second-level tagged property variant.
#[derive(Clone, Debug)]
pub enum Prop {
    Config(DeviceConfig),
    Info(DeviceInfo),
    MsgSourceInfo(MessageSourceInfo),
    MsgSourceConfig(MessageSourceConfig),
}

/// Mathematical view of a [`Prop`].
pub ghost enum PropV {
    Config(DeviceConfigV),
    Info(DeviceInfoV),
    MsgSourceInfo(MessageSourceInfo),
    MsgSourceConfig(MessageSourceConfig),
}

impl View for Prop {
    type V = PropV;

    open spec fn view(&self) -> PropV {
        match self {
            Prop::Config(c) => PropV::Config(c@),
            Prop::Info(i) => PropV::Info(i@),
            Prop::MsgSourceInfo(i) => PropV::MsgSourceInfo(*i),
            Prop::MsgSourceConfig(c) => PropV::MsgSourceConfig(*c),
        }
    }
}

impl PropV {
    pub open spec fn wf(self) -> bool {
        match self {
            PropV::Config(c) => c.wf(),
            PropV::Info(i) => i.wf(),
            PropV::MsgSourceInfo(_) => true,
            PropV::MsgSourceConfig(_) => true,
        }
    }
}

/// A property message: at most one property occupies the slot.
#[derive(Clone, Debug)]
pub struct Property {
    pub prop: Option<Prop>,
}

/// Mathematical view of a [`Property`].
pub ghost struct PropertyV {
    pub prop: Option<PropV>,
}

impl View for Property {
    type V = PropertyV;

    open spec fn view(&self) -> PropertyV {
        PropertyV {
            prop: match self.prop {
                Some(ref p) => Some(p@),
                None => None,
            },
        }
    }
}

impl PropertyV {
    pub open spec fn wf(self) -> bool {
        match self.prop {
            Some(p) => p.wf(),
            None => true,
        }
    }
}

/// Top-level payload variant of the envelope.
#[derive(Clone, Debug)]
pub enum Msg {
    CanMsg(CanMsg),
    PropertyRequest(Property),
    PropertyResponse(Property),
    SetProperty(Property),
    ProtocolVersionRequest(bool),
    LossIndication(u32),
}

/// Mathematical view of a [`Msg`].
pub ghost enum MsgV {
    CanMsg(CanMsgV),
    PropertyRequest(PropertyV),
    PropertyResponse(PropertyV),
    SetProperty(PropertyV),
    ProtocolVersionRequest(bool),
    LossIndication(u32),
}

impl View for Msg {
    type V = MsgV;

    open spec fn view(&self) -> MsgV {
        match self {
            Msg::CanMsg(m) => MsgV::CanMsg(m@),
            Msg::PropertyRequest(p) => MsgV::PropertyRequest(p@),
            Msg::PropertyResponse(p) => MsgV::PropertyResponse(p@),
            Msg::SetProperty(p) => MsgV::SetProperty(p@),
            Msg::ProtocolVersionRequest(b) => MsgV::ProtocolVersionRequest(*b),
            Msg::LossIndication(n) => MsgV::LossIndication(*n),
        }
    }
}

impl MsgV {
    pub open spec fn wf(self) -> bool {
        match self {
            MsgV::CanMsg(m) => m.wf(),
            MsgV::PropertyRequest(p) => p.wf(),
            MsgV::PropertyResponse(p) => p.wf(),
            MsgV::SetProperty(p) => p.wf(),
            MsgV::ProtocolVersionRequest(_) => true,
            MsgV::LossIndication(_) => true,
        }
    }
}

/// The envelope: a protocol version and at most one payload variant.
/// An envelope with no payload is valid and is handled as a no-op.
#[derive(Clone, Debug)]
pub struct Bridge {
    pub protocol_version: i32,
    pub msg: Option<Msg>,
}

/// Mathematical view of a [`Bridge`] envelope.
pub ghost struct BridgeV {
    pub protocol_version: i32,
    pub msg: Option<MsgV>,
}

impl View for Bridge {
    type V = BridgeV;

    open spec fn view(&self) -> BridgeV {
        BridgeV {
            protocol_version: self.protocol_version,
            msg: match self.msg {
                Some(ref m) => Some(m@),
                None => None,
            },
        }
    }
}

impl BridgeV {
    /// An envelope is constructible when its byte buffers fit the wire
    /// format's length fields.
    pub open spec fn wf(self) -> bool {
        match self.msg {
            Some(m) => m.wf(),
            None => true,
        }
    }
}

impl Bridge {
    /// Executable well-formedness check, mirroring [`BridgeV::wf`].
    pub fn check_wf(&self) -> (r: bool)
        ensures
            r == self@.wf(),
    {
        match self.msg {
            Some(ref m) => match m {
                Msg::CanMsg(c) => c.data.len() <= MAX_CAN_DATA_LEN,
                Msg::PropertyRequest(p) => Self::check_property_wf(p),
                Msg::PropertyResponse(p) => Self::check_property_wf(p),
                Msg::SetProperty(p) => Self::check_property_wf(p),
                Msg::ProtocolVersionRequest(_) => true,
                Msg::LossIndication(_) => true,
            },
            None => true,
        }
    }

    fn check_property_wf(p: &Property) -> (r: bool)
        ensures
            r == p@.wf(),
    {
        match p.prop {
            Some(ref pr) => match pr {
                Prop::Config(c) => match c.name {
                    Some(ref n) => n.len() <= MAX_TEXT_LEN,
                    None => true,
                },
                Prop::Info(i) => match i.version {
                    Some(ref v) => v.len() <= MAX_TEXT_LEN,
                    None => true,
                },
                Prop::MsgSourceInfo(_) => true,
                Prop::MsgSourceConfig(_) => true,
            },
            None => true,
        }
    }
}

} // verus!
