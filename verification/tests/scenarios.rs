use flow_control::access_control::{AccessDecision, OutgoingAccessControl, OutgoingMessage};
use flow_control::address::Address;
use flow_control::options::{Addresses, UdpPunctureOptions};
use flow_control::registry::FlowControls;

fn addr(name: &str) -> Address {
    Address::new(name.as_bytes().to_vec())
}

fn tunnel_addresses(prefix: &str) -> Addresses {
    Addresses::new(
        addr(&format!("{prefix}_sender")),
        addr(&format!("{prefix}_receiver")),
        addr(&format!("{prefix}_remote")),
    )
}

#[test]
fn chained_tunnel_joins_upstream_flow() {
    let mut registry = FlowControls::new();

    // Tunnel one is established first and roots flow one at its
    // receiver, linked to its sender.
    let options1 = UdpPunctureOptions::new();
    let addresses1 = tunnel_addresses("t1");
    let flow1 = options1.producer_flow_control_id();
    options1.setup_flow_control(&mut registry, &addresses1, &addr("upstream_hop")).unwrap();

    // Tunnel two is established with the first tunnel's receiver as its
    // next hop, chaining onto flow one.
    let options2 = UdpPunctureOptions::new();
    let addresses2 = tunnel_addresses("t2");
    let flow2 = options2.producer_flow_control_id();
    options2.setup_flow_control(&mut registry, &addresses2, &addr("t1_receiver")).unwrap();

    // The first tunnel's receiver remains the producer of flow one.
    assert_eq!(
        registry.find_flow_control_with_producer_address(&addr("t1_receiver")),
        Some(flow1.clone())
    );
    // The second tunnel's remote address is now a consumer of flow one.
    let gate = OutgoingAccessControl::FlowGated;
    let msg = OutgoingMessage { flow_control_id: flow1.clone(), destination: addr("t2_remote") };
    assert_eq!(gate.check(&registry, &msg), AccessDecision::Allow);
    assert_eq!(registry.consumer_count(&flow1), Some(1));
    // A new flow is rooted at the second tunnel's receiver, linked to
    // its sender.
    assert_eq!(
        registry.find_flow_control_with_producer_address(&addr("t2_receiver")),
        Some(flow2.clone())
    );
    assert_eq!(
        registry.find_flow_control_with_producer_address(&addr("t2_sender")),
        Some(flow2.clone())
    );
    // The two flows are distinct.
    assert_ne!(flow1, flow2);
}

#[test]
fn unchained_tunnel_creates_no_consumer_link() {
    let mut registry = FlowControls::new();

    // Tunnel three is established with a next hop that was never
    // registered as any producer.
    let options3 = UdpPunctureOptions::new();
    let addresses3 = tunnel_addresses("t3");
    let flow3 = options3.producer_flow_control_id();
    options3.setup_flow_control(&mut registry, &addresses3, &addr("unknown_hop")).unwrap();

    // Only the tunnel's own flow exists, rooted at its receiver and
    // linked to its sender, and no consumer link was created anywhere.
    assert_eq!(
        registry.find_flow_control_with_producer_address(&addr("t3_receiver")),
        Some(flow3.clone())
    );
    assert_eq!(
        registry.find_flow_control_with_producer_address(&addr("t3_sender")),
        Some(flow3.clone())
    );
    assert_eq!(registry.find_flow_control_with_producer_address(&addr("unknown_hop")), None);
    assert_eq!(registry.find_flow_control_with_producer_address(&addr("t3_remote")), None);
    assert_eq!(registry.consumer_count(&flow3), Some(0));
}

#[test]
fn receiver_gate_is_currently_allow_all() {
    let mut registry = FlowControls::new();
    let options = UdpPunctureOptions::new();
    let addresses = tunnel_addresses("t");
    options.setup_flow_control(&mut registry, &addresses, &addr("hop")).unwrap();

    let gate = options.create_receiver_outgoing_access_control(&registry);
    assert_eq!(gate, OutgoingAccessControl::AllowAll);
    let msg = OutgoingMessage {
        flow_control_id: flow_control::flow_control_id::FlowControlId::new(vec![0; 16]),
        destination: addr("anyone"),
    };
    assert_eq!(gate.check(&registry, &msg), AccessDecision::Allow);
}

#[test]
fn setup_flow_control_rejects_reused_flow_id() {
    let mut registry = FlowControls::new();
    let options = UdpPunctureOptions::new();
    let addresses = tunnel_addresses("t4");
    options.setup_flow_control(&mut registry, &addresses, &addr("hop")).unwrap();
    // Wiring the same options object a second time re-registers its
    // flow control id, which is a programming error and fails fast.
    let again = options.setup_flow_control(&mut registry, &tunnel_addresses("t5"), &addr("hop"));
    assert!(again.is_err());
    assert_eq!(registry.find_flow_control_with_producer_address(&addr("t5_receiver")), None);
}

#[test]
fn producer_flow_control_id_is_stable() {
    let options = UdpPunctureOptions::new();
    assert_eq!(options.producer_flow_control_id(), options.producer_flow_control_id());
    assert_eq!(options.producer_flow_control_id().as_bytes().len(), 16);
}
