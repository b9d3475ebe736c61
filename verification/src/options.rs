//! Tunnel options: per-tunnel configuration owning a freshly generated
//! flow control id, wiring the tunnel's addresses into the flow
//! registry at establishment time, and handing out the access-control
//! gate for the tunnel's receiver leg.

use vstd::prelude::*;
use crate::access_control::OutgoingAccessControl;
use crate::address::Address;
use crate::flow_control_id::{FlowControlId, FLOW_CONTROL_ID_LEN};
use crate::registry::{
    addr_views, has_id, is_last_owner, opt_id_view, owner_exists, producer_entry, with_consumer,
    FlowControlError, FlowControls,
};

verus! {

/// The addresses cooperating to implement one tunnel leg.
pub struct Addresses {
    /// The local endpoint that sends over the tunnel.
    pub sender_address: Address,
    /// The local endpoint that receives over the tunnel.
    pub receiver_address: Address,
    /// The correspondent endpoint on the remote side of the tunnel.
    pub remote_address: Address,
}

impl Addresses {
    /// Bundles the three addresses of one tunnel leg.
    pub fn new(sender_address: Address, receiver_address: Address, remote_address: Address) -> (r:
        Addresses)
        ensures
            r.sender_address == sender_address,
            r.receiver_address == receiver_address,
            r.remote_address == remote_address,
    {
        Addresses { sender_address, receiver_address, remote_address }
    }
}

/// Options for a UDP puncture tunnel. Each instance owns exactly one
/// flow control id, generated once at construction and immutable
/// thereafter: the tunnel is always a flow root in this design.
pub struct UdpPunctureOptions {
    flow_control_id: FlowControlId,
    spawner_flow_control_id: Option<FlowControlId>,
}

impl UdpPunctureOptions {
    /// The flow control id the tunnel produces traffic under.
    pub closed spec fn flow_id(&self) -> Seq<u8> {
        self.flow_control_id@
    }

    /// Provenance linkage of the tunnel's flow, when it was created
    /// beneath another flow.
    pub closed spec fn spawner_id(&self) -> Option<Seq<u8>> {
        opt_id_view(self.spawner_flow_control_id)
    }

    /// Marks this UDP puncture as a producer with a freshly generated
    /// random flow control id, and no spawner-flow linkage.
    pub fn new() -> (r: UdpPunctureOptions)
        ensures
            r.flow_id().len() == FLOW_CONTROL_ID_LEN,
            r.spawner_id() is None,
    {
        UdpPunctureOptions {
            flow_control_id: FlowControls::generate_flow_control_id(),
            spawner_flow_control_id: None,
        }
    }

    /// The tunnel's own flow control id, for tagging outgoing messages.
    pub fn producer_flow_control_id(&self) -> (r: FlowControlId)
        ensures
            r@ == self.flow_id(),
    {
        self.flow_control_id.clone()
    }

    /// Wires the tunnel into the flow registry, once, at tunnel
    /// establishment. When the next hop is already a known producer the
    /// tunnel is being chained onto that upstream flow, so the remote
    /// address is granted consumer access under the upstream flow
    /// control id; otherwise no consumer link is created, which is not
    /// an error. Either way the receiver address is registered as the
    /// producer of the tunnel's own flow, with the sender address as a
    /// linked identity. Re-registering an existing flow control id is a
    /// programming error: the call then fails fast with the registry
    /// unchanged.
    pub fn setup_flow_control(
        &self,
        flow_controls: &mut FlowControls,
        addresses: &Addresses,
        next: &Address,
    ) -> (r: Result<(), FlowControlError>)
        requires
            old(flow_controls).wf(),
        ensures
            final(flow_controls).wf(),
            r is Ok <==> !has_id(old(flow_controls)@, self.flow_id()),
            r is Err ==> final(flow_controls)@ == old(flow_controls)@ && r == Err::<
                (),
                FlowControlError,
            >(FlowControlError::DuplicateFlowControlId),
            r is Ok ==> final(flow_controls)@.len() == old(flow_controls)@.len() + 1,
            r is Ok ==> final(flow_controls)@[old(flow_controls)@.len() as int] == producer_entry(
                self.flow_id(),
                addresses.receiver_address@,
                seq![addresses.sender_address@],
                None,
            ),
            r is Ok && !owner_exists(old(flow_controls)@, next@) ==> forall|i: int|
                0 <= i < old(flow_controls)@.len() ==> final(flow_controls)@[i] == old(
                    flow_controls,
                )@[i],
            r is Ok && owner_exists(old(flow_controls)@, next@) ==> exists|u: int|
                is_last_owner(old(flow_controls)@, next@, u) && final(flow_controls)@[u]
                    == with_consumer(old(flow_controls)@[u], addresses.remote_address@) && (
                forall|i: int|
                    0 <= i < old(flow_controls)@.len() && i != u ==> final(flow_controls)@[i]
                        == old(flow_controls)@[i]),
    {
        if flow_controls.contains_flow_control_id(&self.flow_control_id) {
            return Err(FlowControlError::DuplicateFlowControlId);
        }
        let found = flow_controls.find_flow_control_with_producer_address(next);
        if let Some(upstream_flow_control_id) = &found {
            // Traffic legitimately flowing under the upstream flow may
            // be forwarded through this tunnel's remote leg without
            // separate re-authorization.
            flow_controls.add_consumer(addresses.remote_address.clone(), upstream_flow_control_id);
        }
        let ghost s0 = old(flow_controls)@;
        let ghost mid = flow_controls@;
        proof {
            if found is Some {
                let u = choose|u: int|
                    is_last_owner(s0, next@, u) && (found->0)@ == (#[trigger] s0[u]).id;
                assert(is_last_owner(s0, next@, u) && (found->0)@ == s0[u].id);
                assert(mid[u] == with_consumer(s0[u], addresses.remote_address@));
                assert forall|i: int| 0 <= i < s0.len() && i != u implies mid[i] == s0[i] by {
                    if s0[i].id == (found->0)@ {
                        if i < u {
                            assert(s0[i].id != s0[u].id);
                        } else {
                            assert(s0[u].id != s0[i].id);
                        }
                    }
                }
                assert(owner_exists(s0, next@));
            } else {
                assert(mid == s0);
            }
            assert forall|i: int| 0 <= i < mid.len() implies (#[trigger] mid[i]).id == s0[i].id by {
                if found is Some && s0[i].id == (found->0)@ {
                    assert(mid[i] == with_consumer(s0[i], addresses.remote_address@));
                }
            }
            assert(!has_id(mid, self.flow_id())) by {
                if has_id(mid, self.flow_id()) {
                    let w = choose|w: int|
                        0 <= w < mid.len() && (#[trigger] mid[w]).id == self.flow_id();
                    assert(s0[w].id == self.flow_id());
                }
            }
        }
        let mut linked_addresses: Vec<Address> = Vec::new();
        linked_addresses.push(addresses.sender_address.clone());
        proof {
            assert(addr_views(linked_addresses@) =~= seq![addresses.sender_address@]);
        }
        let result = flow_controls.add_producer(
            addresses.receiver_address.clone(),
            &self.flow_control_id,
            None,
            linked_addresses,
        );
        proof {
            let pe = producer_entry(
                self.flow_id(),
                addresses.receiver_address@,
                seq![addresses.sender_address@],
                None,
            );
            assert(result is Ok);
            assert(flow_controls@ == mid.push(pe));
            assert(flow_controls@[s0.len() as int] == pe);
            if owner_exists(s0, next@) {
                assert(found is Some);
                let u = choose|u: int|
                    is_last_owner(s0, next@, u) && (found->0)@ == (#[trigger] s0[u]).id;
                assert(flow_controls@[u] == with_consumer(s0[u], addresses.remote_address@));
                assert(forall|i: int|
                    0 <= i < s0.len() && i != u ==> flow_controls@[i] == s0[i]);
            } else {
                assert(forall|i: int| 0 <= i < s0.len() ==> flow_controls@[i] == s0[i]);
            }
        }
        result
    }

    /// The capability to attach to the tunnel's receiver leg. It
    /// currently allows every outgoing message unconditionally: the
    /// flow-gated variant exists and is checked, but is deliberately
    /// not wired to the puncture receiver leg yet.
    pub fn create_receiver_outgoing_access_control(&self, _flow_controls: &FlowControls) -> (r:
        OutgoingAccessControl)
        ensures
            r is AllowAll,
    {
        OutgoingAccessControl::AllowAll
    }
}

} // verus!
