//! Binary envelope codec.
//!
//! `encode` is total and deterministic on well-formed envelopes; `decode`
//! fails with a [`DecodeError`] when bytes are truncated, carry an unknown
//! variant tag, violate a field constraint, or leave trailing bytes behind
//! (each transport frame carries exactly one encoded envelope). The
//! round-trip law `decode(encode(e)) == e` is proved in
//! [`lemma_round_trip`].
//!
//! Wire layout: all multi-byte integers are little-endian. The envelope is
//! the protocol version (4 bytes) followed by a one-byte payload tag and
//! the payload body. Optional fields carry a one-byte presence marker;
//! byte strings carry a one-byte length prefix.

use vstd::prelude::*;
use vstd::bytes::*;
use crate::msg::{
    Bridge, BridgeV, CanMsg, CanMsgV, DeviceConfig, DeviceConfigV, DeviceInfo, DeviceInfoV,
    MessageSourceConfig, MessageSourceInfo, Msg, MsgV, Prop, PropV, Property, PropertyV,
    MAX_CAN_DATA_LEN, MAX_TEXT_LEN,
};

verus! {

/// Why a byte sequence failed to decode.
#[derive(Clone, Copy, PartialEq, Eq, Structural, Debug)]
pub enum DecodeError {
    /// The bytes end before the envelope is complete.
    Truncated,
    /// A payload or property tag is outside the known set.
    UnknownTag,
    /// A field violates a schema constraint (a marker byte outside its
    /// range, or a CAN payload longer than [`MAX_CAN_DATA_LEN`]).
    Constraint,
    /// Bytes remain after one complete envelope.
    Trailing,
}

// ---------------------------------------------------------------------
// Specification-level encoders, over the mathematical views.
// ---------------------------------------------------------------------

pub open spec fn enc_u8(x: u8) -> Seq<u8> {
    seq![x]
}

pub open spec fn enc_bool(b: bool) -> Seq<u8> {
    seq![if b { 1u8 } else { 0u8 }]
}

pub open spec fn enc_u32(x: u32) -> Seq<u8> {
    spec_u32_to_le_bytes(x)
}

pub open spec fn enc_i32(x: i32) -> Seq<u8> {
    enc_u32(x as u32)
}

pub open spec fn enc_u64(x: u64) -> Seq<u8> {
    spec_u64_to_le_bytes(x)
}

pub open spec fn enc_opt_u32(x: Option<u32>) -> Seq<u8> {
    match x {
        None => seq![0u8],
        Some(v) => seq![1u8] + enc_u32(v),
    }
}

pub open spec fn enc_opt_i32(x: Option<i32>) -> Seq<u8> {
    match x {
        None => seq![0u8],
        Some(v) => seq![1u8] + enc_i32(v),
    }
}

pub open spec fn enc_opt_u64(x: Option<u64>) -> Seq<u8> {
    match x {
        None => seq![0u8],
        Some(v) => seq![1u8] + enc_u64(v),
    }
}

/// Tri-state marker: absent, present-false, present-true.
pub open spec fn enc_opt_bool(x: Option<bool>) -> Seq<u8> {
    match x {
        None => seq![0u8],
        Some(false) => seq![1u8],
        Some(true) => seq![2u8],
    }
}

/// Length-prefixed byte string; the length must fit in one byte.
pub open spec fn enc_bytes(b: Seq<u8>) -> Seq<u8>
    recommends
        b.len() <= MAX_TEXT_LEN,
{
    seq![b.len() as u8] + b
}

pub open spec fn enc_opt_bytes(b: Option<Seq<u8>>) -> Seq<u8> {
    match b {
        None => seq![0u8],
        Some(s) => seq![1u8] + enc_bytes(s),
    }
}

pub open spec fn enc_can_msg(m: CanMsgV) -> Seq<u8> {
    enc_u32(m.id) + enc_bool(m.ext_id) + enc_bool(m.can_fd) + enc_i32(m.source) + enc_opt_i32(
        m.destination,
    ) + enc_opt_u64(m.receive_time) + enc_bytes(m.data)
}

pub open spec fn enc_device_config(c: DeviceConfigV) -> Seq<u8> {
    enc_opt_bytes(c.name) + enc_opt_u32(c.can_full_id)
}

pub open spec fn enc_device_info(i: DeviceInfoV) -> Seq<u8> {
    enc_i32(i.device_class) + enc_opt_bytes(i.version)
}

pub open spec fn enc_source_info(i: MessageSourceInfo) -> Seq<u8> {
    enc_i32(i.channel) + enc_bool(i.available) + enc_bool(i.can_ext_id_capable) + enc_bool(
        i.can_fd_capable,
    )
}

pub open spec fn enc_source_config(c: MessageSourceConfig) -> Seq<u8> {
    enc_i32(c.channel) + enc_u32(c.baud_rate) + enc_bool(c.enabled) + enc_u32(c.filter_id)
        + enc_u32(c.filter_mask) + enc_opt_bool(c.term)
}

pub open spec fn enc_property(p: PropertyV) -> Seq<u8> {
    match p.prop {
        None => seq![0u8],
        Some(PropV::Config(c)) => seq![1u8] + enc_device_config(c),
        Some(PropV::Info(i)) => seq![2u8] + enc_device_info(i),
        Some(PropV::MsgSourceInfo(i)) => seq![3u8] + enc_source_info(i),
        Some(PropV::MsgSourceConfig(c)) => seq![4u8] + enc_source_config(c),
    }
}

pub open spec fn enc_msg(m: MsgV) -> Seq<u8> {
    match m {
        MsgV::CanMsg(c) => seq![1u8] + enc_can_msg(c),
        MsgV::PropertyRequest(p) => seq![2u8] + enc_property(p),
        MsgV::PropertyResponse(p) => seq![3u8] + enc_property(p),
        MsgV::SetProperty(p) => seq![4u8] + enc_property(p),
        MsgV::ProtocolVersionRequest(b) => seq![5u8] + enc_bool(b),
        MsgV::LossIndication(n) => seq![6u8] + enc_u32(n),
    }
}

/// The optional payload slot: a zero tag when absent.
pub open spec fn enc_opt_msg(m: Option<MsgV>) -> Seq<u8> {
    match m {
        None => seq![0u8],
        Some(m) => enc_msg(m),
    }
}

/// The complete wire image of an envelope.
pub open spec fn spec_encode(e: BridgeV) -> Seq<u8>
    recommends
        e.wf(),
{
    enc_i32(e.protocol_version) + enc_opt_msg(e.msg)
}

// ---------------------------------------------------------------------
// Specification-level decoders. Each consumes a prefix of `s` and hands
// back the remainder; the top-level decoder demands an empty remainder.
// ---------------------------------------------------------------------

pub open spec fn dec_u8(s: Seq<u8>) -> Result<(u8, Seq<u8>), DecodeError> {
    if s.len() >= 1 {
        Ok((s[0], s.skip(1)))
    } else {
        Err(DecodeError::Truncated)
    }
}

pub open spec fn dec_bool(s: Seq<u8>) -> Result<(bool, Seq<u8>), DecodeError> {
    match dec_u8(s) {
        Err(e) => Err(e),
        Ok((b, r)) => if b == 0 {
            Ok((false, r))
        } else if b == 1 {
            Ok((true, r))
        } else {
            Err(DecodeError::Constraint)
        },
    }
}

pub open spec fn dec_u32(s: Seq<u8>) -> Result<(u32, Seq<u8>), DecodeError> {
    if s.len() >= 4 {
        Ok((spec_u32_from_le_bytes(s.take(4)), s.skip(4)))
    } else {
        Err(DecodeError::Truncated)
    }
}

pub open spec fn dec_i32(s: Seq<u8>) -> Result<(i32, Seq<u8>), DecodeError> {
    match dec_u32(s) {
        Err(e) => Err(e),
        Ok((x, r)) => Ok((x as i32, r)),
    }
}

pub open spec fn dec_u64(s: Seq<u8>) -> Result<(u64, Seq<u8>), DecodeError> {
    if s.len() >= 8 {
        Ok((spec_u64_from_le_bytes(s.take(8)), s.skip(8)))
    } else {
        Err(DecodeError::Truncated)
    }
}

pub open spec fn dec_opt_u32(s: Seq<u8>) -> Result<(Option<u32>, Seq<u8>), DecodeError> {
    match dec_u8(s) {
        Err(e) => Err(e),
        Ok((m, r)) => if m == 0 {
            Ok((None, r))
        } else if m == 1 {
            match dec_u32(r) {
                Err(e) => Err(e),
                Ok((x, r2)) => Ok((Some(x), r2)),
            }
        } else {
            Err(DecodeError::Constraint)
        },
    }
}

pub open spec fn dec_opt_i32(s: Seq<u8>) -> Result<(Option<i32>, Seq<u8>), DecodeError> {
    match dec_u8(s) {
        Err(e) => Err(e),
        Ok((m, r)) => if m == 0 {
            Ok((None, r))
        } else if m == 1 {
            match dec_i32(r) {
                Err(e) => Err(e),
                Ok((x, r2)) => Ok((Some(x), r2)),
            }
        } else {
            Err(DecodeError::Constraint)
        },
    }
}

pub open spec fn dec_opt_u64(s: Seq<u8>) -> Result<(Option<u64>, Seq<u8>), DecodeError> {
    match dec_u8(s) {
        Err(e) => Err(e),
        Ok((m, r)) => if m == 0 {
            Ok((None, r))
        } else if m == 1 {
            match dec_u64(r) {
                Err(e) => Err(e),
                Ok((x, r2)) => Ok((Some(x), r2)),
            }
        } else {
            Err(DecodeError::Constraint)
        },
    }
}

pub open spec fn dec_opt_bool(s: Seq<u8>) -> Result<(Option<bool>, Seq<u8>), DecodeError> {
    match dec_u8(s) {
        Err(e) => Err(e),
        Ok((m, r)) => if m == 0 {
            Ok((None, r))
        } else if m == 1 {
            Ok((Some(false), r))
        } else if m == 2 {
            Ok((Some(true), r))
        } else {
            Err(DecodeError::Constraint)
        },
    }
}

pub open spec fn dec_bytes(s: Seq<u8>) -> Result<(Seq<u8>, Seq<u8>), DecodeError> {
    match dec_u8(s) {
        Err(e) => Err(e),
        Ok((n, r)) => if r.len() >= n {
            Ok((r.take(n as int), r.skip(n as int)))
        } else {
            Err(DecodeError::Truncated)
        },
    }
}

pub open spec fn dec_opt_bytes(s: Seq<u8>) -> Result<(Option<Seq<u8>>, Seq<u8>), DecodeError> {
    match dec_u8(s) {
        Err(e) => Err(e),
        Ok((m, r)) => if m == 0 {
            Ok((None, r))
        } else if m == 1 {
            match dec_bytes(r) {
                Err(e) => Err(e),
                Ok((b, r2)) => Ok((Some(b), r2)),
            }
        } else {
            Err(DecodeError::Constraint)
        },
    }
}

pub open spec fn dec_can_msg(s: Seq<u8>) -> Result<(CanMsgV, Seq<u8>), DecodeError> {
    match dec_u32(s) {
        Err(e) => Err(e),
        Ok((id, s1)) => match dec_bool(s1) {
            Err(e) => Err(e),
            Ok((ext_id, s2)) => match dec_bool(s2) {
                Err(e) => Err(e),
                Ok((can_fd, s3)) => match dec_i32(s3) {
                    Err(e) => Err(e),
                    Ok((source, s4)) => match dec_opt_i32(s4) {
                        Err(e) => Err(e),
                        Ok((destination, s5)) => match dec_opt_u64(s5) {
                            Err(e) => Err(e),
                            Ok((receive_time, s6)) => match dec_bytes(s6) {
                                Err(e) => Err(e),
                                Ok((data, s7)) => if data.len() <= MAX_CAN_DATA_LEN {
                                    Ok(
                                        (
                                            CanMsgV {
                                                id,
                                                data,
                                                ext_id,
                                                can_fd,
                                                source,
                                                destination,
                                                receive_time,
                                            },
                                            s7,
                                        ),
                                    )
                                } else {
                                    Err(DecodeError::Constraint)
                                },
                            },
                        },
                    },
                },
            },
        },
    }
}

pub open spec fn dec_device_config(s: Seq<u8>) -> Result<(DeviceConfigV, Seq<u8>), DecodeError> {
    match dec_opt_bytes(s) {
        Err(e) => Err(e),
        Ok((name, s1)) => match dec_opt_u32(s1) {
            Err(e) => Err(e),
            Ok((can_full_id, s2)) => Ok((DeviceConfigV { name, can_full_id }, s2)),
        },
    }
}

pub open spec fn dec_device_info(s: Seq<u8>) -> Result<(DeviceInfoV, Seq<u8>), DecodeError> {
    match dec_i32(s) {
        Err(e) => Err(e),
        Ok((device_class, s1)) => match dec_opt_bytes(s1) {
            Err(e) => Err(e),
            Ok((version, s2)) => Ok((DeviceInfoV { device_class, version }, s2)),
        },
    }
}

pub open spec fn dec_source_info(s: Seq<u8>) -> Result<(MessageSourceInfo, Seq<u8>), DecodeError> {
    match dec_i32(s) {
        Err(e) => Err(e),
        Ok((channel, s1)) => match dec_bool(s1) {
            Err(e) => Err(e),
            Ok((available, s2)) => match dec_bool(s2) {
                Err(e) => Err(e),
                Ok((can_ext_id_capable, s3)) => match dec_bool(s3) {
                    Err(e) => Err(e),
                    Ok((can_fd_capable, s4)) => Ok(
                        (
                            MessageSourceInfo {
                                channel,
                                available,
                                can_ext_id_capable,
                                can_fd_capable,
                            },
                            s4,
                        ),
                    ),
                },
            },
        },
    }
}

pub open spec fn dec_source_config(s: Seq<u8>) -> Result<
    (MessageSourceConfig, Seq<u8>),
    DecodeError,
> {
    match dec_i32(s) {
        Err(e) => Err(e),
        Ok((channel, s1)) => match dec_u32(s1) {
            Err(e) => Err(e),
            Ok((baud_rate, s2)) => match dec_bool(s2) {
                Err(e) => Err(e),
                Ok((enabled, s3)) => match dec_u32(s3) {
                    Err(e) => Err(e),
                    Ok((filter_id, s4)) => match dec_u32(s4) {
                        Err(e) => Err(e),
                        Ok((filter_mask, s5)) => match dec_opt_bool(s5) {
                            Err(e) => Err(e),
                            Ok((term, s6)) => Ok(
                                (
                                    MessageSourceConfig {
                                        channel,
                                        baud_rate,
                                        enabled,
                                        filter_id,
                                        filter_mask,
                                        term,
                                    },
                                    s6,
                                ),
                            ),
                        },
                    },
                },
            },
        },
    }
}

pub open spec fn dec_property(s: Seq<u8>) -> Result<(PropertyV, Seq<u8>), DecodeError> {
    match dec_u8(s) {
        Err(e) => Err(e),
        Ok((tag, s1)) => if tag == 0 {
            Ok((PropertyV { prop: None }, s1))
        } else if tag == 1 {
            match dec_device_config(s1) {
                Err(e) => Err(e),
                Ok((c, s2)) => Ok((PropertyV { prop: Some(PropV::Config(c)) }, s2)),
            }
        } else if tag == 2 {
            match dec_device_info(s1) {
                Err(e) => Err(e),
                Ok((i, s2)) => Ok((PropertyV { prop: Some(PropV::Info(i)) }, s2)),
            }
        } else if tag == 3 {
            match dec_source_info(s1) {
                Err(e) => Err(e),
                Ok((i, s2)) => Ok((PropertyV { prop: Some(PropV::MsgSourceInfo(i)) }, s2)),
            }
        } else if tag == 4 {
            match dec_source_config(s1) {
                Err(e) => Err(e),
                Ok((c, s2)) => Ok((PropertyV { prop: Some(PropV::MsgSourceConfig(c)) }, s2)),
            }
        } else {
            Err(DecodeError::UnknownTag)
        },
    }
}

pub open spec fn dec_msg(s: Seq<u8>) -> Result<(Option<MsgV>, Seq<u8>), DecodeError> {
    match dec_u8(s) {
        Err(e) => Err(e),
        Ok((tag, s1)) => if tag == 0 {
            Ok((None, s1))
        } else if tag == 1 {
            match dec_can_msg(s1) {
                Err(e) => Err(e),
                Ok((m, s2)) => Ok((Some(MsgV::CanMsg(m)), s2)),
            }
        } else if tag == 2 {
            match dec_property(s1) {
                Err(e) => Err(e),
                Ok((p, s2)) => Ok((Some(MsgV::PropertyRequest(p)), s2)),
            }
        } else if tag == 3 {
            match dec_property(s1) {
                Err(e) => Err(e),
                Ok((p, s2)) => Ok((Some(MsgV::PropertyResponse(p)), s2)),
            }
        } else if tag == 4 {
            match dec_property(s1) {
                Err(e) => Err(e),
                Ok((p, s2)) => Ok((Some(MsgV::SetProperty(p)), s2)),
            }
        } else if tag == 5 {
            match dec_bool(s1) {
                Err(e) => Err(e),
                Ok((b, s2)) => Ok((Some(MsgV::ProtocolVersionRequest(b)), s2)),
            }
        } else if tag == 6 {
            match dec_u32(s1) {
                Err(e) => Err(e),
                Ok((n, s2)) => Ok((Some(MsgV::LossIndication(n)), s2)),
            }
        } else {
            Err(DecodeError::UnknownTag)
        },
    }
}

/// The meaning of `decode`: one envelope, consuming the whole frame.
pub open spec fn spec_decode(s: Seq<u8>) -> Result<BridgeV, DecodeError> {
    match dec_i32(s) {
        Err(e) => Err(e),
        Ok((protocol_version, s1)) => match dec_msg(s1) {
            Err(e) => Err(e),
            Ok((msg, s2)) => if s2.len() == 0 {
                Ok(BridgeV { protocol_version, msg })
            } else {
                Err(DecodeError::Trailing)
            },
        },
    }
}

// ---------------------------------------------------------------------
// Round-trip proof: every decoder undoes its encoder, field by field.
// ---------------------------------------------------------------------

proof fn lemma_dec_u8(x: u8, rest: Seq<u8>)
    ensures
        dec_u8(enc_u8(x) + rest) == Ok::<(u8, Seq<u8>), DecodeError>((x, rest)),
{
    let s = enc_u8(x) + rest;
    assert(s[0] == x);
    assert(s.skip(1) =~= rest);
}

proof fn lemma_dec_bool(b: bool, rest: Seq<u8>)
    ensures
        dec_bool(enc_bool(b) + rest) == Ok::<(bool, Seq<u8>), DecodeError>((b, rest)),
{
    let s = enc_bool(b) + rest;
    assert(s[0] == if b {
        1u8
    } else {
        0u8
    });
    assert(s.skip(1) =~= rest);
}

proof fn lemma_dec_u32(x: u32, rest: Seq<u8>)
    ensures
        dec_u32(enc_u32(x) + rest) == Ok::<(u32, Seq<u8>), DecodeError>((x, rest)),
{
    lemma_auto_spec_u32_to_from_le_bytes();
    let s = enc_u32(x) + rest;
    assert(s.take(4) =~= enc_u32(x));
    assert(s.skip(4) =~= rest);
}

proof fn lemma_dec_i32(x: i32, rest: Seq<u8>)
    ensures
        dec_i32(enc_i32(x) + rest) == Ok::<(i32, Seq<u8>), DecodeError>((x, rest)),
{
    lemma_dec_u32(x as u32, rest);
    assert(((x as u32) as i32) == x) by (bit_vector);
}

proof fn lemma_dec_u64(x: u64, rest: Seq<u8>)
    ensures
        dec_u64(enc_u64(x) + rest) == Ok::<(u64, Seq<u8>), DecodeError>((x, rest)),
{
    lemma_auto_spec_u64_to_from_le_bytes();
    let s = enc_u64(x) + rest;
    assert(s.take(8) =~= enc_u64(x));
    assert(s.skip(8) =~= rest);
}

proof fn lemma_dec_opt_u32(x: Option<u32>, rest: Seq<u8>)
    ensures
        dec_opt_u32(enc_opt_u32(x) + rest) == Ok::<(Option<u32>, Seq<u8>), DecodeError>((x, rest)),
{
    match x {
        None => {
            lemma_dec_u8(0, rest);
            assert(enc_opt_u32(x) + rest =~= enc_u8(0) + rest);
        },
        Some(v) => {
            assert(enc_opt_u32(x) + rest =~= enc_u8(1) + (enc_u32(v) + rest));
            lemma_dec_u8(1, enc_u32(v) + rest);
            lemma_dec_u32(v, rest);
        },
    }
}

proof fn lemma_dec_opt_i32(x: Option<i32>, rest: Seq<u8>)
    ensures
        dec_opt_i32(enc_opt_i32(x) + rest) == Ok::<(Option<i32>, Seq<u8>), DecodeError>((x, rest)),
{
    match x {
        None => {
            lemma_dec_u8(0, rest);
            assert(enc_opt_i32(x) + rest =~= enc_u8(0) + rest);
        },
        Some(v) => {
            assert(enc_opt_i32(x) + rest =~= enc_u8(1) + (enc_i32(v) + rest));
            lemma_dec_u8(1, enc_i32(v) + rest);
            lemma_dec_i32(v, rest);
        },
    }
}

proof fn lemma_dec_opt_u64(x: Option<u64>, rest: Seq<u8>)
    ensures
        dec_opt_u64(enc_opt_u64(x) + rest) == Ok::<(Option<u64>, Seq<u8>), DecodeError>((x, rest)),
{
    match x {
        None => {
            lemma_dec_u8(0, rest);
            assert(enc_opt_u64(x) + rest =~= enc_u8(0) + rest);
        },
        Some(v) => {
            assert(enc_opt_u64(x) + rest =~= enc_u8(1) + (enc_u64(v) + rest));
            lemma_dec_u8(1, enc_u64(v) + rest);
            lemma_dec_u64(v, rest);
        },
    }
}

proof fn lemma_dec_opt_bool(x: Option<bool>, rest: Seq<u8>)
    ensures
        dec_opt_bool(enc_opt_bool(x) + rest) == Ok::<(Option<bool>, Seq<u8>), DecodeError>(
            (x, rest),
        ),
{
    let tag: u8 = match x {
        None => 0,
        Some(false) => 1,
        Some(true) => 2,
    };
    assert(enc_opt_bool(x) + rest =~= enc_u8(tag) + rest);
    lemma_dec_u8(tag, rest);
}

proof fn lemma_dec_bytes(b: Seq<u8>, rest: Seq<u8>)
    requires
        b.len() <= MAX_TEXT_LEN,
    ensures
        dec_bytes(enc_bytes(b) + rest) == Ok::<(Seq<u8>, Seq<u8>), DecodeError>((b, rest)),
{
    assert(enc_bytes(b) + rest =~= enc_u8(b.len() as u8) + (b + rest));
    lemma_dec_u8(b.len() as u8, b + rest);
    let r = b + rest;
    assert(b.len() as u8 == b.len());
    assert(r.take(b.len() as int) =~= b);
    assert(r.skip(b.len() as int) =~= rest);
}

proof fn lemma_dec_opt_bytes(b: Option<Seq<u8>>, rest: Seq<u8>)
    requires
        match b {
            Some(s) => s.len() <= MAX_TEXT_LEN,
            None => true,
        },
    ensures
        dec_opt_bytes(enc_opt_bytes(b) + rest) == Ok::<(Option<Seq<u8>>, Seq<u8>), DecodeError>(
            (b, rest),
        ),
{
    match b {
        None => {
            lemma_dec_u8(0, rest);
            assert(enc_opt_bytes(b) + rest =~= enc_u8(0) + rest);
        },
        Some(s) => {
            assert(enc_opt_bytes(b) + rest =~= enc_u8(1) + (enc_bytes(s) + rest));
            lemma_dec_u8(1, enc_bytes(s) + rest);
            lemma_dec_bytes(s, rest);
        },
    }
}

#[verifier::rlimit(100)]
proof fn lemma_dec_can_msg(m: CanMsgV, rest: Seq<u8>)
    requires
        m.wf(),
    ensures
        dec_can_msg(enc_can_msg(m) + rest) == Ok::<(CanMsgV, Seq<u8>), DecodeError>((m, rest)),
{
    let t7 = enc_bytes(m.data) + rest;
    let t6 = enc_opt_u64(m.receive_time) + t7;
    let t5 = enc_opt_i32(m.destination) + t6;
    let t4 = enc_i32(m.source) + t5;
    let t3 = enc_bool(m.can_fd) + t4;
    let t2 = enc_bool(m.ext_id) + t3;
    let s = enc_can_msg(m) + rest;
    assert(s =~= enc_u32(m.id) + t2);
    lemma_dec_u32(m.id, t2);
    assert(dec_u32(s) == Ok::<(u32, Seq<u8>), DecodeError>((m.id, t2)));
    lemma_dec_bool(m.ext_id, t3);
    assert(dec_bool(t2) == Ok::<(bool, Seq<u8>), DecodeError>((m.ext_id, t3)));
    lemma_dec_bool(m.can_fd, t4);
    assert(dec_bool(t3) == Ok::<(bool, Seq<u8>), DecodeError>((m.can_fd, t4)));
    lemma_dec_i32(m.source, t5);
    assert(dec_i32(t4) == Ok::<(i32, Seq<u8>), DecodeError>((m.source, t5)));
    lemma_dec_opt_i32(m.destination, t6);
    assert(dec_opt_i32(t5) == Ok::<(Option<i32>, Seq<u8>), DecodeError>((m.destination, t6)));
    lemma_dec_opt_u64(m.receive_time, t7);
    assert(dec_opt_u64(t6) == Ok::<(Option<u64>, Seq<u8>), DecodeError>((m.receive_time, t7)));
    lemma_dec_bytes(m.data, rest);
    assert(dec_bytes(t7) == Ok::<(Seq<u8>, Seq<u8>), DecodeError>((m.data, rest)));
}

proof fn lemma_dec_device_config(c: DeviceConfigV, rest: Seq<u8>)
    requires
        c.wf(),
    ensures
        dec_device_config(enc_device_config(c) + rest) == Ok::<(DeviceConfigV, Seq<u8>), DecodeError>(
            (c, rest),
        ),
{
    let t1 = enc_opt_u32(c.can_full_id) + rest;
    assert(enc_device_config(c) + rest =~= enc_opt_bytes(c.name) + t1);
    lemma_dec_opt_bytes(c.name, t1);
    lemma_dec_opt_u32(c.can_full_id, rest);
}

proof fn lemma_dec_device_info(i: DeviceInfoV, rest: Seq<u8>)
    requires
        i.wf(),
    ensures
        dec_device_info(enc_device_info(i) + rest) == Ok::<(DeviceInfoV, Seq<u8>), DecodeError>(
            (i, rest),
        ),
{
    let t1 = enc_opt_bytes(i.version) + rest;
    assert(enc_device_info(i) + rest =~= enc_i32(i.device_class) + t1);
    lemma_dec_i32(i.device_class, t1);
    lemma_dec_opt_bytes(i.version, rest);
}

proof fn lemma_dec_source_info(i: MessageSourceInfo, rest: Seq<u8>)
    ensures
        dec_source_info(enc_source_info(i) + rest) == Ok::<(MessageSourceInfo, Seq<u8>), DecodeError>(
            (i, rest),
        ),
{
    let t3 = enc_bool(i.can_fd_capable) + rest;
    let t2 = enc_bool(i.can_ext_id_capable) + t3;
    let t1 = enc_bool(i.available) + t2;
    assert(enc_source_info(i) + rest =~= enc_i32(i.channel) + t1);
    lemma_dec_i32(i.channel, t1);
    lemma_dec_bool(i.available, t2);
    lemma_dec_bool(i.can_ext_id_capable, t3);
    lemma_dec_bool(i.can_fd_capable, rest);
}

proof fn lemma_dec_source_config(c: MessageSourceConfig, rest: Seq<u8>)
    ensures
        dec_source_config(enc_source_config(c) + rest) == Ok::<
            (MessageSourceConfig, Seq<u8>),
            DecodeError,
        >((c, rest)),
{
    let t5 = enc_opt_bool(c.term) + rest;
    let t4 = enc_u32(c.filter_mask) + t5;
    let t3 = enc_u32(c.filter_id) + t4;
    let t2 = enc_bool(c.enabled) + t3;
    let t1 = enc_u32(c.baud_rate) + t2;
    assert(enc_source_config(c) + rest =~= enc_i32(c.channel) + t1);
    lemma_dec_i32(c.channel, t1);
    lemma_dec_u32(c.baud_rate, t2);
    lemma_dec_bool(c.enabled, t3);
    lemma_dec_u32(c.filter_id, t4);
    lemma_dec_u32(c.filter_mask, t5);
    lemma_dec_opt_bool(c.term, rest);
}

proof fn lemma_dec_property(p: PropertyV, rest: Seq<u8>)
    requires
        p.wf(),
    ensures
        dec_property(enc_property(p) + rest) == Ok::<(PropertyV, Seq<u8>), DecodeError>((p, rest)),
{
    match p.prop {
        None => {
            lemma_dec_u8(0, rest);
            assert(enc_property(p) + rest =~= enc_u8(0) + rest);
        },
        Some(PropV::Config(c)) => {
            assert(enc_property(p) + rest =~= enc_u8(1) + (enc_device_config(c) + rest));
            lemma_dec_u8(1, enc_device_config(c) + rest);
            lemma_dec_device_config(c, rest);
        },
        Some(PropV::Info(i)) => {
            assert(enc_property(p) + rest =~= enc_u8(2) + (enc_device_info(i) + rest));
            lemma_dec_u8(2, enc_device_info(i) + rest);
            lemma_dec_device_info(i, rest);
        },
        Some(PropV::MsgSourceInfo(i)) => {
            assert(enc_property(p) + rest =~= enc_u8(3) + (enc_source_info(i) + rest));
            lemma_dec_u8(3, enc_source_info(i) + rest);
            lemma_dec_source_info(i, rest);
        },
        Some(PropV::MsgSourceConfig(c)) => {
            assert(enc_property(p) + rest =~= enc_u8(4) + (enc_source_config(c) + rest));
            lemma_dec_u8(4, enc_source_config(c) + rest);
            lemma_dec_source_config(c, rest);
        },
    }
}

#[verifier::rlimit(100)]
proof fn lemma_dec_msg(m: Option<MsgV>, rest: Seq<u8>)
    requires
        match m {
            Some(mm) => mm.wf(),
            None => true,
        },
    ensures
        dec_msg(enc_opt_msg(m) + rest) == Ok::<(Option<MsgV>, Seq<u8>), DecodeError>((m, rest)),
{
    match m {
        None => {
            lemma_dec_u8(0, rest);
            assert(enc_opt_msg(m) + rest =~= enc_u8(0) + rest);
        },
        Some(MsgV::CanMsg(c)) => {
            assert(enc_opt_msg(m) + rest =~= enc_u8(1) + (enc_can_msg(c) + rest));
            lemma_dec_u8(1, enc_can_msg(c) + rest);
            lemma_dec_can_msg(c, rest);
        },
        Some(MsgV::PropertyRequest(p)) => {
            assert(enc_opt_msg(m) + rest =~= enc_u8(2) + (enc_property(p) + rest));
            lemma_dec_u8(2, enc_property(p) + rest);
            lemma_dec_property(p, rest);
        },
        Some(MsgV::PropertyResponse(p)) => {
            assert(enc_opt_msg(m) + rest =~= enc_u8(3) + (enc_property(p) + rest));
            lemma_dec_u8(3, enc_property(p) + rest);
            lemma_dec_property(p, rest);
        },
        Some(MsgV::SetProperty(p)) => {
            assert(enc_opt_msg(m) + rest =~= enc_u8(4) + (enc_property(p) + rest));
            lemma_dec_u8(4, enc_property(p) + rest);
            lemma_dec_property(p, rest);
        },
        Some(MsgV::ProtocolVersionRequest(b)) => {
            assert(enc_opt_msg(m) + rest =~= enc_u8(5) + (enc_bool(b) + rest));
            lemma_dec_u8(5, enc_bool(b) + rest);
            lemma_dec_bool(b, rest);
        },
        Some(MsgV::LossIndication(n)) => {
            assert(enc_opt_msg(m) + rest =~= enc_u8(6) + (enc_u32(n) + rest));
            lemma_dec_u8(6, enc_u32(n) + rest);
            lemma_dec_u32(n, rest);
        },
    }
}

// ---------------------------------------------------------------------
// Executable encoder. Each writer appends exactly the wire image of its
// value to the output buffer.
// ---------------------------------------------------------------------

fn push_u8(out: &mut Vec<u8>, x: u8)
    ensures
        final(out)@ == old(out)@ + enc_u8(x),
{
    let ghost g = out@;
    out.push(x);
    proof {
        assert(out@ =~= g + enc_u8(x));
    }
}

fn push_bool(out: &mut Vec<u8>, b: bool)
    ensures
        final(out)@ == old(out)@ + enc_bool(b),
{
    let ghost g = out@;
    if b {
        out.push(1);
    } else {
        out.push(0);
    }
    proof {
        assert(out@ =~= g + enc_bool(b));
    }
}

fn push_u32(out: &mut Vec<u8>, x: u32)
    ensures
        final(out)@ == old(out)@ + enc_u32(x),
{
    let mut bytes = u32_to_le_bytes(x);
    out.append(&mut bytes);
}

fn push_i32(out: &mut Vec<u8>, x: i32)
    ensures
        final(out)@ == old(out)@ + enc_i32(x),
{
    push_u32(out, #[verifier::truncate] (x as u32));
}

fn push_u64(out: &mut Vec<u8>, x: u64)
    ensures
        final(out)@ == old(out)@ + enc_u64(x),
{
    let mut bytes = u64_to_le_bytes(x);
    out.append(&mut bytes);
}

fn push_opt_u32(out: &mut Vec<u8>, x: &Option<u32>)
    ensures
        final(out)@ == old(out)@ + enc_opt_u32(*x),
{
    let ghost g = out@;
    match x {
        None => push_u8(out, 0),
        Some(v) => {
            push_u8(out, 1);
            push_u32(out, *v);
            proof {
                assert(out@ =~= g + enc_opt_u32(*x));
            }
        },
    }
}

fn push_opt_i32(out: &mut Vec<u8>, x: &Option<i32>)
    ensures
        final(out)@ == old(out)@ + enc_opt_i32(*x),
{
    let ghost g = out@;
    match x {
        None => push_u8(out, 0),
        Some(v) => {
            push_u8(out, 1);
            push_i32(out, *v);
            proof {
                assert(out@ =~= g + enc_opt_i32(*x));
            }
        },
    }
}

fn push_opt_u64(out: &mut Vec<u8>, x: &Option<u64>)
    ensures
        final(out)@ == old(out)@ + enc_opt_u64(*x),
{
    let ghost g = out@;
    match x {
        None => push_u8(out, 0),
        Some(v) => {
            push_u8(out, 1);
            push_u64(out, *v);
            proof {
                assert(out@ =~= g + enc_opt_u64(*x));
            }
        },
    }
}

fn push_opt_bool(out: &mut Vec<u8>, x: &Option<bool>)
    ensures
        final(out)@ == old(out)@ + enc_opt_bool(*x),
{
    match x {
        None => push_u8(out, 0),
        Some(false) => push_u8(out, 1),
        Some(true) => push_u8(out, 2),
    }
}

fn push_bytes(out: &mut Vec<u8>, b: &Vec<u8>)
    requires
        b@.len() <= MAX_TEXT_LEN,
    ensures
        final(out)@ == old(out)@ + enc_bytes(b@),
{
    let ghost g = out@;
    push_u8(out, b.len() as u8);
    let mut copy = vstd::slice::slice_to_vec(b.as_slice());
    out.append(&mut copy);
    proof {
        assert(out@ =~= g + enc_bytes(b@));
    }
}

fn push_opt_bytes(out: &mut Vec<u8>, b: &Option<Vec<u8>>)
    requires
        match b {
            Some(s) => s@.len() <= MAX_TEXT_LEN,
            None => true,
        },
    ensures
        final(out)@ == old(out)@ + enc_opt_bytes(
            match b {
                Some(s) => Some(s@),
                None => None,
            },
        ),
{
    let ghost g = out@;
    match b {
        None => push_u8(out, 0),
        Some(s) => {
            push_u8(out, 1);
            push_bytes(out, s);
            proof {
                assert(out@ =~= g + enc_opt_bytes(Some(s@)));
            }
        },
    }
}

fn encode_can_msg(out: &mut Vec<u8>, m: &CanMsg)
    requires
        m@.wf(),
    ensures
        final(out)@ == old(out)@ + enc_can_msg(m@),
{
    let ghost g = out@;
    push_u32(out, m.id);
    push_bool(out, m.ext_id);
    push_bool(out, m.can_fd);
    push_i32(out, m.source);
    push_opt_i32(out, &m.destination);
    push_opt_u64(out, &m.receive_time);
    push_bytes(out, &m.data);
    proof {
        assert(out@ =~= g + enc_can_msg(m@));
    }
}

fn encode_property(out: &mut Vec<u8>, p: &Property)
    requires
        p@.wf(),
    ensures
        final(out)@ == old(out)@ + enc_property(p@),
{
    let ghost g = out@;
    match p.prop {
        None => push_u8(out, 0),
        Some(ref pr) => match pr {
            Prop::Config(c) => {
                push_u8(out, 1);
                push_opt_bytes(out, &c.name);
                push_opt_u32(out, &c.can_full_id);
                proof {
                    assert(out@ =~= g + enc_property(p@));
                }
            },
            Prop::Info(i) => {
                push_u8(out, 2);
                push_i32(out, i.device_class);
                push_opt_bytes(out, &i.version);
                proof {
                    assert(out@ =~= g + enc_property(p@));
                }
            },
            Prop::MsgSourceInfo(i) => {
                push_u8(out, 3);
                push_i32(out, i.channel);
                push_bool(out, i.available);
                push_bool(out, i.can_ext_id_capable);
                push_bool(out, i.can_fd_capable);
                proof {
                    assert(out@ =~= g + enc_property(p@));
                }
            },
            Prop::MsgSourceConfig(c) => {
                push_u8(out, 4);
                push_i32(out, c.channel);
                push_u32(out, c.baud_rate);
                push_bool(out, c.enabled);
                push_u32(out, c.filter_id);
                push_u32(out, c.filter_mask);
                push_opt_bool(out, &c.term);
                proof {
                    assert(out@ =~= g + enc_property(p@));
                }
            },
        },
    }
}

/// Encodes an envelope into its wire image. Total and deterministic on
/// well-formed envelopes: the result is exactly [`spec_encode`] of the
/// envelope's view.
pub fn encode(e: &Bridge) -> (r: Vec<u8>)
    requires
        e@.wf(),
    ensures
        r@ == spec_encode(e@),
{
    let mut out: Vec<u8> = Vec::new();
    push_i32(&mut out, e.protocol_version);
    let ghost g = out@;
    match e.msg {
        None => push_u8(&mut out, 0),
        Some(ref m) => match m {
            Msg::CanMsg(c) => {
                push_u8(&mut out, 1);
                encode_can_msg(&mut out, c);
                proof {
                    assert(out@ =~= g + enc_opt_msg(e@.msg));
                }
            },
            Msg::PropertyRequest(p) => {
                push_u8(&mut out, 2);
                encode_property(&mut out, p);
                proof {
                    assert(out@ =~= g + enc_opt_msg(e@.msg));
                }
            },
            Msg::PropertyResponse(p) => {
                push_u8(&mut out, 3);
                encode_property(&mut out, p);
                proof {
                    assert(out@ =~= g + enc_opt_msg(e@.msg));
                }
            },
            Msg::SetProperty(p) => {
                push_u8(&mut out, 4);
                encode_property(&mut out, p);
                proof {
                    assert(out@ =~= g + enc_opt_msg(e@.msg));
                }
            },
            Msg::ProtocolVersionRequest(b) => {
                push_u8(&mut out, 5);
                push_bool(&mut out, *b);
                proof {
                    assert(out@ =~= g + enc_opt_msg(e@.msg));
                }
            },
            Msg::LossIndication(n) => {
                push_u8(&mut out, 6);
                push_u32(&mut out, *n);
                proof {
                    assert(out@ =~= g + enc_opt_msg(e@.msg));
                }
            },
        },
    }
    proof {
        assert(out@ =~= spec_encode(e@));
    }
    out
}

// ---------------------------------------------------------------------
// Executable decoder. Each reader consumes bytes at position `i` and is
// proved equal to its specification decoder on the remaining suffix.
// ---------------------------------------------------------------------

fn read_u8(s: &[u8], i: usize) -> (r: Result<(u8, usize), DecodeError>)
    requires
        i <= s@.len(),
    ensures
        match r {
            Ok((x, j)) => i < j <= s@.len() && dec_u8(s@.skip(i as int)) == Ok::<
                (u8, Seq<u8>),
                DecodeError,
            >((x, s@.skip(j as int))),
            Err(e) => dec_u8(s@.skip(i as int)) == Err::<(u8, Seq<u8>), DecodeError>(e),
        },
{
    if i < s.len() {
        let x = *vstd::slice::slice_index_get(s, i);
        proof {
            assert(s@.skip(i as int)[0] == s@[i as int]);
            assert(s@.skip(i as int).skip(1) =~= s@.skip(i as int + 1));
        }
        Ok((x, i + 1))
    } else {
        Err(DecodeError::Truncated)
    }
}

fn read_bool(s: &[u8], i: usize) -> (r: Result<(bool, usize), DecodeError>)
    requires
        i <= s@.len(),
    ensures
        match r {
            Ok((x, j)) => i < j <= s@.len() && dec_bool(s@.skip(i as int)) == Ok::<
                (bool, Seq<u8>),
                DecodeError,
            >((x, s@.skip(j as int))),
            Err(e) => dec_bool(s@.skip(i as int)) == Err::<(bool, Seq<u8>), DecodeError>(e),
        },
{
    match read_u8(s, i) {
        Err(e) => Err(e),
        Ok((b, j)) => if b == 0 {
            Ok((false, j))
        } else if b == 1 {
            Ok((true, j))
        } else {
            Err(DecodeError::Constraint)
        },
    }
}

fn read_u32(s: &[u8], i: usize) -> (r: Result<(u32, usize), DecodeError>)
    requires
        i <= s@.len(),
    ensures
        match r {
            Ok((x, j)) => i < j <= s@.len() && dec_u32(s@.skip(i as int)) == Ok::<
                (u32, Seq<u8>),
                DecodeError,
            >((x, s@.skip(j as int))),
            Err(e) => dec_u32(s@.skip(i as int)) == Err::<(u32, Seq<u8>), DecodeError>(e),
        },
{
    if s.len() - i >= 4 {
        let sub = vstd::slice::slice_subrange(s, i, i + 4);
        let x = u32_from_le_bytes(sub);
        proof {
            assert(s@.skip(i as int).take(4) =~= s@.subrange(i as int, i as int + 4));
            assert(s@.skip(i as int).skip(4) =~= s@.skip(i as int + 4));
        }
        Ok((x, i + 4))
    } else {
        Err(DecodeError::Truncated)
    }
}

fn read_i32(s: &[u8], i: usize) -> (r: Result<(i32, usize), DecodeError>)
    requires
        i <= s@.len(),
    ensures
        match r {
            Ok((x, j)) => i < j <= s@.len() && dec_i32(s@.skip(i as int)) == Ok::<
                (i32, Seq<u8>),
                DecodeError,
            >((x, s@.skip(j as int))),
            Err(e) => dec_i32(s@.skip(i as int)) == Err::<(i32, Seq<u8>), DecodeError>(e),
        },
{
    match read_u32(s, i) {
        Err(e) => Err(e),
        Ok((x, j)) => Ok((#[verifier::truncate] (x as i32), j)),
    }
}

fn read_u64(s: &[u8], i: usize) -> (r: Result<(u64, usize), DecodeError>)
    requires
        i <= s@.len(),
    ensures
        match r {
            Ok((x, j)) => i < j <= s@.len() && dec_u64(s@.skip(i as int)) == Ok::<
                (u64, Seq<u8>),
                DecodeError,
            >((x, s@.skip(j as int))),
            Err(e) => dec_u64(s@.skip(i as int)) == Err::<(u64, Seq<u8>), DecodeError>(e),
        },
{
    if s.len() - i >= 8 {
        let sub = vstd::slice::slice_subrange(s, i, i + 8);
        let x = u64_from_le_bytes(sub);
        proof {
            assert(s@.skip(i as int).take(8) =~= s@.subrange(i as int, i as int + 8));
            assert(s@.skip(i as int).skip(8) =~= s@.skip(i as int + 8));
        }
        Ok((x, i + 8))
    } else {
        Err(DecodeError::Truncated)
    }
}

fn read_opt_u32(s: &[u8], i: usize) -> (r: Result<(Option<u32>, usize), DecodeError>)
    requires
        i <= s@.len(),
    ensures
        match r {
            Ok((x, j)) => i < j <= s@.len() && dec_opt_u32(s@.skip(i as int)) == Ok::<
                (Option<u32>, Seq<u8>),
                DecodeError,
            >((x, s@.skip(j as int))),
            Err(e) => dec_opt_u32(s@.skip(i as int)) == Err::<(Option<u32>, Seq<u8>), DecodeError>(
                e,
            ),
        },
{
    match read_u8(s, i) {
        Err(e) => Err(e),
        Ok((m, j)) => if m == 0 {
            Ok((None, j))
        } else if m == 1 {
            match read_u32(s, j) {
                Err(e) => Err(e),
                Ok((x, j2)) => Ok((Some(x), j2)),
            }
        } else {
            Err(DecodeError::Constraint)
        },
    }
}

fn read_opt_i32(s: &[u8], i: usize) -> (r: Result<(Option<i32>, usize), DecodeError>)
    requires
        i <= s@.len(),
    ensures
        match r {
            Ok((x, j)) => i < j <= s@.len() && dec_opt_i32(s@.skip(i as int)) == Ok::<
                (Option<i32>, Seq<u8>),
                DecodeError,
            >((x, s@.skip(j as int))),
            Err(e) => dec_opt_i32(s@.skip(i as int)) == Err::<(Option<i32>, Seq<u8>), DecodeError>(
                e,
            ),
        },
{
    match read_u8(s, i) {
        Err(e) => Err(e),
        Ok((m, j)) => if m == 0 {
            Ok((None, j))
        } else if m == 1 {
            match read_i32(s, j) {
                Err(e) => Err(e),
                Ok((x, j2)) => Ok((Some(x), j2)),
            }
        } else {
            Err(DecodeError::Constraint)
        },
    }
}

fn read_opt_u64(s: &[u8], i: usize) -> (r: Result<(Option<u64>, usize), DecodeError>)
    requires
        i <= s@.len(),
    ensures
        match r {
            Ok((x, j)) => i < j <= s@.len() && dec_opt_u64(s@.skip(i as int)) == Ok::<
                (Option<u64>, Seq<u8>),
                DecodeError,
            >((x, s@.skip(j as int))),
            Err(e) => dec_opt_u64(s@.skip(i as int)) == Err::<(Option<u64>, Seq<u8>), DecodeError>(
                e,
            ),
        },
{
    match read_u8(s, i) {
        Err(e) => Err(e),
        Ok((m, j)) => if m == 0 {
            Ok((None, j))
        } else if m == 1 {
            match read_u64(s, j) {
                Err(e) => Err(e),
                Ok((x, j2)) => Ok((Some(x), j2)),
            }
        } else {
            Err(DecodeError::Constraint)
        },
    }
}

fn read_opt_bool(s: &[u8], i: usize) -> (r: Result<(Option<bool>, usize), DecodeError>)
    requires
        i <= s@.len(),
    ensures
        match r {
            Ok((x, j)) => i < j <= s@.len() && dec_opt_bool(s@.skip(i as int)) == Ok::<
                (Option<bool>, Seq<u8>),
                DecodeError,
            >((x, s@.skip(j as int))),
            Err(e) => dec_opt_bool(s@.skip(i as int)) == Err::<
                (Option<bool>, Seq<u8>),
                DecodeError,
            >(e),
        },
{
    match read_u8(s, i) {
        Err(e) => Err(e),
        Ok((m, j)) => if m == 0 {
            Ok((None, j))
        } else if m == 1 {
            Ok((Some(false), j))
        } else if m == 2 {
            Ok((Some(true), j))
        } else {
            Err(DecodeError::Constraint)
        },
    }
}

fn read_bytes(s: &[u8], i: usize) -> (r: Result<(Vec<u8>, usize), DecodeError>)
    requires
        i <= s@.len(),
    ensures
        match r {
            Ok((b, j)) => i < j <= s@.len() && b@.len() <= MAX_TEXT_LEN && dec_bytes(
                s@.skip(i as int),
            ) == Ok::<(Seq<u8>, Seq<u8>), DecodeError>((b@, s@.skip(j as int))),
            Err(e) => dec_bytes(s@.skip(i as int)) == Err::<(Seq<u8>, Seq<u8>), DecodeError>(e),
        },
{
    match read_u8(s, i) {
        Err(e) => Err(e),
        Ok((n, j)) => {
            let n_us = n as usize;
            if s.len() - j >= n_us {
                let sub = vstd::slice::slice_subrange(s, j, j + n_us);
                let b = vstd::slice::slice_to_vec(sub);
                proof {
                    assert(s@.skip(j as int).take(n as int) =~= s@.subrange(
                        j as int,
                        j as int + n as int,
                    ));
                    assert(s@.skip(j as int).skip(n as int) =~= s@.skip(j as int + n as int));
                }
                Ok((b, j + n_us))
            } else {
                Err(DecodeError::Truncated)
            }
        },
    }
}

fn read_opt_bytes(s: &[u8], i: usize) -> (r: Result<(Option<Vec<u8>>, usize), DecodeError>)
    requires
        i <= s@.len(),
    ensures
        match r {
            Ok((b, j)) => i < j <= s@.len() && dec_opt_bytes(s@.skip(i as int)) == Ok::<
                (Option<Seq<u8>>, Seq<u8>),
                DecodeError,
            >(
                (
                    match b {
                        Some(bb) => Some(bb@),
                        None => None,
                    },
                    s@.skip(j as int),
                ),
            ) && (match b {
                Some(bb) => bb@.len() <= MAX_TEXT_LEN,
                None => true,
            }),
            Err(e) => dec_opt_bytes(s@.skip(i as int)) == Err::<
                (Option<Seq<u8>>, Seq<u8>),
                DecodeError,
            >(e),
        },
{
    match read_u8(s, i) {
        Err(e) => Err(e),
        Ok((m, j)) => if m == 0 {
            Ok((None, j))
        } else if m == 1 {
            match read_bytes(s, j) {
                Err(e) => Err(e),
                Ok((b, j2)) => Ok((Some(b), j2)),
            }
        } else {
            Err(DecodeError::Constraint)
        },
    }
}

#[verifier::rlimit(50)]
fn decode_can_msg_at(s: &[u8], i: usize) -> (r: Result<(CanMsg, usize), DecodeError>)
    requires
        i <= s@.len(),
    ensures
        match r {
            Ok((m, j)) => i < j <= s@.len() && m@.wf() && dec_can_msg(s@.skip(i as int)) == Ok::<
                (CanMsgV, Seq<u8>),
                DecodeError,
            >((m@, s@.skip(j as int))),
            Err(e) => dec_can_msg(s@.skip(i as int)) == Err::<(CanMsgV, Seq<u8>), DecodeError>(e),
        },
{
    let (id, i1) = match read_u32(s, i) {
        Ok(v) => v,
        Err(e) => {
            return Err(e);
        },
    };
    let (ext_id, i2) = match read_bool(s, i1) {
        Ok(v) => v,
        Err(e) => {
            return Err(e);
        },
    };
    let (can_fd, i3) = match read_bool(s, i2) {
        Ok(v) => v,
        Err(e) => {
            return Err(e);
        },
    };
    let (source, i4) = match read_i32(s, i3) {
        Ok(v) => v,
        Err(e) => {
            return Err(e);
        },
    };
    let (destination, i5) = match read_opt_i32(s, i4) {
        Ok(v) => v,
        Err(e) => {
            return Err(e);
        },
    };
    let (receive_time, i6) = match read_opt_u64(s, i5) {
        Ok(v) => v,
        Err(e) => {
            return Err(e);
        },
    };
    let (data, i7) = match read_bytes(s, i6) {
        Ok(v) => v,
        Err(e) => {
            return Err(e);
        },
    };
    if data.len() <= MAX_CAN_DATA_LEN {
        Ok((CanMsg { id, data, ext_id, can_fd, source, destination, receive_time }, i7))
    } else {
        Err(DecodeError::Constraint)
    }
}

fn decode_device_config_at(s: &[u8], i: usize) -> (r: Result<(DeviceConfig, usize), DecodeError>)
    requires
        i <= s@.len(),
    ensures
        match r {
            Ok((c, j)) => i <= j <= s@.len() && c@.wf() && dec_device_config(s@.skip(i as int))
                == Ok::<(DeviceConfigV, Seq<u8>), DecodeError>((c@, s@.skip(j as int))),
            Err(e) => dec_device_config(s@.skip(i as int)) == Err::<
                (DeviceConfigV, Seq<u8>),
                DecodeError,
            >(e),
        },
{
    let (name, i1) = match read_opt_bytes(s, i) {
        Ok(v) => v,
        Err(e) => {
            return Err(e);
        },
    };
    let (can_full_id, i2) = match read_opt_u32(s, i1) {
        Ok(v) => v,
        Err(e) => {
            return Err(e);
        },
    };
    Ok((DeviceConfig { name, can_full_id }, i2))
}

fn decode_device_info_at(s: &[u8], i: usize) -> (r: Result<(DeviceInfo, usize), DecodeError>)
    requires
        i <= s@.len(),
    ensures
        match r {
            Ok((c, j)) => i <= j <= s@.len() && c@.wf() && dec_device_info(s@.skip(i as int))
                == Ok::<(DeviceInfoV, Seq<u8>), DecodeError>((c@, s@.skip(j as int))),
            Err(e) => dec_device_info(s@.skip(i as int)) == Err::<
                (DeviceInfoV, Seq<u8>),
                DecodeError,
            >(e),
        },
{
    let (device_class, i1) = match read_i32(s, i) {
        Ok(v) => v,
        Err(e) => {
            return Err(e);
        },
    };
    let (version, i2) = match read_opt_bytes(s, i1) {
        Ok(v) => v,
        Err(e) => {
            return Err(e);
        },
    };
    Ok((DeviceInfo { device_class, version }, i2))
}

fn decode_source_info_at(s: &[u8], i: usize) -> (r: Result<
    (MessageSourceInfo, usize),
    DecodeError,
>)
    requires
        i <= s@.len(),
    ensures
        match r {
            Ok((c, j)) => i <= j <= s@.len() && dec_source_info(s@.skip(i as int)) == Ok::<
                (MessageSourceInfo, Seq<u8>),
                DecodeError,
            >((c, s@.skip(j as int))),
            Err(e) => dec_source_info(s@.skip(i as int)) == Err::<
                (MessageSourceInfo, Seq<u8>),
                DecodeError,
            >(e),
        },
{
    let (channel, i1) = match read_i32(s, i) {
        Ok(v) => v,
        Err(e) => {
            return Err(e);
        },
    };
    let (available, i2) = match read_bool(s, i1) {
        Ok(v) => v,
        Err(e) => {
            return Err(e);
        },
    };
    let (can_ext_id_capable, i3) = match read_bool(s, i2) {
        Ok(v) => v,
        Err(e) => {
            return Err(e);
        },
    };
    let (can_fd_capable, i4) = match read_bool(s, i3) {
        Ok(v) => v,
        Err(e) => {
            return Err(e);
        },
    };
    Ok((MessageSourceInfo { channel, available, can_ext_id_capable, can_fd_capable }, i4))
}

fn decode_source_config_at(s: &[u8], i: usize) -> (r: Result<
    (MessageSourceConfig, usize),
    DecodeError,
>)
    requires
        i <= s@.len(),
    ensures
        match r {
            Ok((c, j)) => i <= j <= s@.len() && dec_source_config(s@.skip(i as int)) == Ok::<
                (MessageSourceConfig, Seq<u8>),
                DecodeError,
            >((c, s@.skip(j as int))),
            Err(e) => dec_source_config(s@.skip(i as int)) == Err::<
                (MessageSourceConfig, Seq<u8>),
                DecodeError,
            >(e),
        },
{
    let (channel, i1) = match read_i32(s, i) {
        Ok(v) => v,
        Err(e) => {
            return Err(e);
        },
    };
    let (baud_rate, i2) = match read_u32(s, i1) {
        Ok(v) => v,
        Err(e) => {
            return Err(e);
        },
    };
    let (enabled, i3) = match read_bool(s, i2) {
        Ok(v) => v,
        Err(e) => {
            return Err(e);
        },
    };
    let (filter_id, i4) = match read_u32(s, i3) {
        Ok(v) => v,
        Err(e) => {
            return Err(e);
        },
    };
    let (filter_mask, i5) = match read_u32(s, i4) {
        Ok(v) => v,
        Err(e) => {
            return Err(e);
        },
    };
    let (term, i6) = match read_opt_bool(s, i5) {
        Ok(v) => v,
        Err(e) => {
            return Err(e);
        },
    };
    Ok((MessageSourceConfig { channel, baud_rate, enabled, filter_id, filter_mask, term }, i6))
}

#[verifier::rlimit(50)]
fn decode_property_at(s: &[u8], i: usize) -> (r: Result<(Property, usize), DecodeError>)
    requires
        i <= s@.len(),
    ensures
        match r {
            Ok((p, j)) => i < j <= s@.len() && p@.wf() && dec_property(s@.skip(i as int)) == Ok::<
                (PropertyV, Seq<u8>),
                DecodeError,
            >((p@, s@.skip(j as int))),
            Err(e) => dec_property(s@.skip(i as int)) == Err::<(PropertyV, Seq<u8>), DecodeError>(
                e,
            ),
        },
{
    let (tag, i1) = match read_u8(s, i) {
        Ok(v) => v,
        Err(e) => {
            return Err(e);
        },
    };
    if tag == 0 {
        Ok((Property { prop: None }, i1))
    } else if tag == 1 {
        match decode_device_config_at(s, i1) {
            Err(e) => Err(e),
            Ok((c, j)) => Ok((Property { prop: Some(Prop::Config(c)) }, j)),
        }
    } else if tag == 2 {
        match decode_device_info_at(s, i1) {
            Err(e) => Err(e),
            Ok((c, j)) => Ok((Property { prop: Some(Prop::Info(c)) }, j)),
        }
    } else if tag == 3 {
        match decode_source_info_at(s, i1) {
            Err(e) => Err(e),
            Ok((c, j)) => Ok((Property { prop: Some(Prop::MsgSourceInfo(c)) }, j)),
        }
    } else if tag == 4 {
        match decode_source_config_at(s, i1) {
            Err(e) => Err(e),
            Ok((c, j)) => Ok((Property { prop: Some(Prop::MsgSourceConfig(c)) }, j)),
        }
    } else {
        Err(DecodeError::UnknownTag)
    }
}

#[verifier::rlimit(50)]
fn decode_msg_at(s: &[u8], i: usize) -> (r: Result<(Option<Msg>, usize), DecodeError>)
    requires
        i <= s@.len(),
    ensures
        match r {
            Ok((m, j)) => i < j <= s@.len() && dec_msg(s@.skip(i as int)) == Ok::<
                (Option<MsgV>, Seq<u8>),
                DecodeError,
            >(
                (
                    match m {
                        Some(mm) => Some(mm@),
                        None => None,
                    },
                    s@.skip(j as int),
                ),
            ) && (match m {
                Some(mm) => mm@.wf(),
                None => true,
            }),
            Err(e) => dec_msg(s@.skip(i as int)) == Err::<(Option<MsgV>, Seq<u8>), DecodeError>(e),
        },
{
    let (tag, i1) = match read_u8(s, i) {
        Ok(v) => v,
        Err(e) => {
            return Err(e);
        },
    };
    if tag == 0 {
        Ok((None, i1))
    } else if tag == 1 {
        match decode_can_msg_at(s, i1) {
            Err(e) => Err(e),
            Ok((m, j)) => Ok((Some(Msg::CanMsg(m)), j)),
        }
    } else if tag == 2 {
        match decode_property_at(s, i1) {
            Err(e) => Err(e),
            Ok((p, j)) => Ok((Some(Msg::PropertyRequest(p)), j)),
        }
    } else if tag == 3 {
        match decode_property_at(s, i1) {
            Err(e) => Err(e),
            Ok((p, j)) => Ok((Some(Msg::PropertyResponse(p)), j)),
        }
    } else if tag == 4 {
        match decode_property_at(s, i1) {
            Err(e) => Err(e),
            Ok((p, j)) => Ok((Some(Msg::SetProperty(p)), j)),
        }
    } else if tag == 5 {
        match read_bool(s, i1) {
            Err(e) => Err(e),
            Ok((b, j)) => Ok((Some(Msg::ProtocolVersionRequest(b)), j)),
        }
    } else if tag == 6 {
        match read_u32(s, i1) {
            Err(e) => Err(e),
            Ok((n, j)) => Ok((Some(Msg::LossIndication(n)), j)),
        }
    } else {
        Err(DecodeError::UnknownTag)
    }
}

/// Decodes one envelope from a transport frame, consuming every byte.
/// The result is exactly [`spec_decode`] of the frame, so together with
/// [`lemma_round_trip`] a decoded envelope is the one that was encoded.
pub fn decode(s: &[u8]) -> (r: Result<Bridge, DecodeError>)
    ensures
        match r {
            Ok(e) => e@.wf() && spec_decode(s@) == Ok::<BridgeV, DecodeError>(e@),
            Err(err) => spec_decode(s@) == Err::<BridgeV, DecodeError>(err),
        },
{
    proof {
        assert(s@.skip(0) =~= s@);
    }
    let (protocol_version, i1) = match read_i32(s, 0) {
        Ok(v) => v,
        Err(e) => {
            return Err(e);
        },
    };
    let (msg, i2) = match decode_msg_at(s, i1) {
        Ok(v) => v,
        Err(e) => {
            return Err(e);
        },
    };
    if i2 == s.len() {
        proof {
            assert(s@.skip(i2 as int).len() == 0);
        }
        Ok(Bridge { protocol_version, msg })
    } else {
        Err(DecodeError::Trailing)
    }
}

/// Round-trip law: decoding the wire image of any constructible envelope
/// yields that envelope back, with nothing left over.
pub proof fn lemma_round_trip(e: BridgeV)
    requires
        e.wf(),
    ensures
        spec_decode(spec_encode(e)) == Ok::<BridgeV, DecodeError>(e),
{
    let tail = enc_opt_msg(e.msg);
    lemma_dec_i32(e.protocol_version, tail);
    assert(tail + Seq::<u8>::empty() =~= tail);
    lemma_dec_msg(e.msg, Seq::<u8>::empty());
}

} // verus!
