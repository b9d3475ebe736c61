use flow_control::access_control::{AccessDecision, OutgoingAccessControl, OutgoingMessage};
use flow_control::address::Address;
use flow_control::flow_control_id::FlowControlId;
use flow_control::registry::FlowControls;

fn addr(name: &str) -> Address {
    Address::new(name.as_bytes().to_vec())
}

fn id(bytes: &[u8]) -> FlowControlId {
    FlowControlId::new(bytes.to_vec())
}

fn message(flow: &FlowControlId, destination: &Address) -> OutgoingMessage {
    OutgoingMessage { flow_control_id: flow.clone(), destination: destination.clone() }
}

#[test]
fn consumer_grant_allows_only_the_tagged_flow() {
    let mut registry = FlowControls::new();
    let flow = id(&[1; 16]);
    let other_flow = id(&[2; 16]);
    let c = addr("c");
    registry.add_producer(addr("a"), &flow, None, vec![]).unwrap();
    registry.add_producer(addr("x"), &other_flow, None, vec![]).unwrap();
    registry.add_consumer(c.clone(), &flow);

    let gate = OutgoingAccessControl::FlowGated;
    // The grant lets the consumer receive traffic under this flow.
    assert_eq!(gate.check(&registry, &message(&flow, &c)), AccessDecision::Allow);
    // Under the other flow the same destination stays unauthorized.
    assert_eq!(gate.check(&registry, &message(&other_flow, &c)), AccessDecision::Deny);
}

#[test]
fn gate_allows_producer_and_linked_addresses() {
    let mut registry = FlowControls::new();
    let flow = id(&[3; 16]);
    let a = addr("a");
    let b = addr("b");
    registry.add_producer(a.clone(), &flow, None, vec![b.clone()]).unwrap();

    let gate = OutgoingAccessControl::FlowGated;
    assert_eq!(gate.check(&registry, &message(&flow, &a)), AccessDecision::Allow);
    assert_eq!(gate.check(&registry, &message(&flow, &b)), AccessDecision::Allow);
    assert_eq!(gate.check(&registry, &message(&flow, &addr("other"))), AccessDecision::Deny);
}

#[test]
fn allow_all_gate_does_not_enforce_flow_membership() {
    let registry = FlowControls::new();
    let never_registered = id(&[9; 16]);
    let destination = addr("anywhere");
    let msg = message(&never_registered, &destination);

    // The variant wired to a puncture receiver leg today lets every
    // message through, even one claiming an unknown flow.
    let wired = OutgoingAccessControl::AllowAll;
    assert_eq!(wired.check(&registry, &msg), AccessDecision::Allow);

    // Substituting the flow-gated variant denies the same message.
    let gated = OutgoingAccessControl::FlowGated;
    assert_eq!(gated.check(&registry, &msg), AccessDecision::Deny);
}
