use std::collections::HashSet;

use flow_control::flow_control_id::FlowControlId;
use flow_control::registry::FlowControls;

#[test]
fn generated_flow_ids_are_unique() {
    let n: usize = 1_000_000;
    let mut seen: HashSet<Vec<u8>> = HashSet::with_capacity(n);
    for _ in 0..n {
        let id = FlowControls::generate_flow_control_id();
        assert!(seen.insert(id.as_bytes().clone()), "two generated flow ids were equal");
    }
    assert_eq!(seen.len(), n);
}

#[test]
fn generated_flow_id_has_sixteen_bytes() {
    let id = FlowControls::generate_flow_control_id();
    assert_eq!(id.as_bytes().len(), 16);
}

#[test]
fn flow_ids_compare_by_value() {
    let a = FlowControlId::new(vec![1, 2, 3]);
    let b = FlowControlId::new(vec![1, 2, 3]);
    let c = FlowControlId::new(vec![1, 2, 4]);
    assert_eq!(a, b);
    assert_ne!(a, c);
    assert_eq!(a.clone(), b);
}
