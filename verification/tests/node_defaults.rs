use flow_control::node_defaults::NodeManagerDefaults;

#[test]
fn default_node_name_is_eight_hex_chars() {
    let defaults = NodeManagerDefaults::default();
    assert_eq!(defaults.node_name.len(), 8);
    assert!(defaults.node_name.chars().all(|c| c.is_ascii_hexdigit() && !c.is_ascii_uppercase()));
}

#[test]
fn default_listener_addresses_are_loopback() {
    let defaults = NodeManagerDefaults::default();
    assert_eq!(defaults.tcp_listener_address, "127.0.0.1:0");
    assert_eq!(defaults.udp_listener_address, "127.0.0.1:0");
}

#[test]
fn default_trust_opts_are_unset() {
    let defaults = NodeManagerDefaults::default();
    assert!(defaults.trust_opts.project_name.is_none());
    assert!(defaults.trust_opts.authority_identity.is_none());
    assert!(defaults.trust_opts.authority_route.is_none());
    assert!(defaults.trust_opts.credential_scope.is_none());
}

#[test]
fn default_node_names_are_random() {
    let one = NodeManagerDefaults::default();
    let two = NodeManagerDefaults::default();
    // Four random bytes: a collision is possible but overwhelmingly
    // unlikely for two draws.
    assert_ne!(one.node_name, two.node_name);
}
