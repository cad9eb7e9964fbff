//! Startup handshake: the fixed ordered sequence of requests sent right
//! after a connection becomes usable, with no waiting for a response
//! between sends.

use vstd::prelude::*;
use crate::factory::{
    create_msg_get_interface_info, create_msg_request_config, create_msg_request_info,
    create_msg_request_protocol_version, create_msg_set_interface_to_default_config,
    spec_msg_get_interface_info, spec_msg_request_config, spec_msg_request_info,
    spec_msg_request_protocol_version, spec_msg_set_interface_to_default_config,
};
use crate::msg::{Bridge, BridgeV, MsgSourceType};

verus! {

/// The handshake, in its fixed order: protocol-version request,
/// device-info request, device-config request, capability request for the
/// external-CAN channel, then set-default-configuration for that channel.
pub open spec fn spec_handshake() -> Seq<BridgeV> {
    seq![
        spec_msg_request_protocol_version(),
        spec_msg_request_info(),
        spec_msg_request_config(),
        spec_msg_get_interface_info(MsgSourceType::ExternalCan),
        spec_msg_set_interface_to_default_config(MsgSourceType::ExternalCan),
    ]
}

/// Builds the five handshake requests in their fixed order. The caller
/// writes them to the transport front to back; a send failure aborts the
/// whole startup.
pub fn build_handshake() -> (r: Vec<Bridge>)
    ensures
        r@.len() == 5,
        r@.map_values(|b: Bridge| b@) == spec_handshake(),
        forall|k: int| 0 <= k < r@.len() ==> (#[trigger] r@[k]@).wf(),
{
    let mut out: Vec<Bridge> = Vec::new();
    out.push(create_msg_request_protocol_version());
    out.push(create_msg_request_info());
    out.push(create_msg_request_config());
    out.push(create_msg_get_interface_info(MsgSourceType::ExternalCan));
    out.push(create_msg_set_interface_to_default_config(MsgSourceType::ExternalCan));
    proof {
        assert(out@.map_values(|b: Bridge| b@) =~= spec_handshake());
    }
    out
}

/// The five handshake requests are pairwise distinct messages.
pub proof fn lemma_handshake_requests_distinct(k1: int, k2: int)
    requires
        0 <= k1 < spec_handshake().len(),
        0 <= k2 < spec_handshake().len(),
        k1 != k2,
    ensures
        spec_handshake()[k1] != spec_handshake()[k2],
{
}

} // verus!
