//! Gates on the outgoing send path. Before a message leaves a
//! transport leg, the leg's gate decides whether the send may
//! proceed.

use vstd::prelude::*;
use crate::address::Address;
use crate::flow_control_id::FlowControlId;
use crate::registry::{flow_allows, FlowControls};

verus! {

/// Verdict of a gate on one outgoing message.
#[derive(Clone, Copy, Debug, PartialEq, Eq, Structural)]
pub enum AccessDecision {
    /// The message may be emitted onto the transport leg.
    Allow,
    /// The message is dropped at the send boundary.
    Deny,
}

/// Input to a gate decision: a claimed flow control id together with
/// the address the send should reach.
pub struct OutgoingMessage {
    pub flow_control_id: FlowControlId,
    pub destination: Address,
}

/// The capability consulted per outgoing message on a transport leg.
#[derive(Clone, Copy, Debug, PartialEq, Eq, Structural)]
pub enum OutgoingAccessControl {
    /// Allows every message unconditionally.
    AllowAll,
    /// Allows a message only when the registry authorizes its
    /// destination under the flow the sender claims.
    FlowGated,
}

impl OutgoingAccessControl {
    /// Decides one outgoing message. `AllowAll` always allows. The
    /// flow-gated variant allows exactly when some registry entry
    /// carries the flow control id the sender claims and has the
    /// destination in its trusted identity or its consumer set.
    pub fn check(&self, flow_controls: &FlowControls, message: &OutgoingMessage) -> (r:
        AccessDecision)
        ensures
            self is AllowAll ==> r == AccessDecision::Allow,
            self is FlowGated ==> (r == AccessDecision::Allow <==> flow_allows(
                flow_controls@,
                message.flow_control_id@,
                message.destination@,
            )),
    {
        match self {
            OutgoingAccessControl::AllowAll => AccessDecision::Allow,
            OutgoingAccessControl::FlowGated => {
                if flow_controls.is_authorized(&message.flow_control_id, &message.destination) {
                    AccessDecision::Allow
                } else {
                    AccessDecision::Deny
                }
            },
        }
    }
}

} // verus!
