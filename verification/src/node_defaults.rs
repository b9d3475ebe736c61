//! Default configuration for creating a node: a freshly generated node
//! name and loopback listener addresses.

use vstd::prelude::*;

verus! {

/// Lowercase hexadecimal digit for a nibble.
pub open spec fn hex_digit(n: u8) -> char
    recommends
        n < 16,
{
    if n == 0 {
        '0'
    } else if n == 1 {
        '1'
    } else if n == 2 {
        '2'
    } else if n == 3 {
        '3'
    } else if n == 4 {
        '4'
    } else if n == 5 {
        '5'
    } else if n == 6 {
        '6'
    } else if n == 7 {
        '7'
    } else if n == 8 {
        '8'
    } else if n == 9 {
        '9'
    } else if n == 10 {
        'a'
    } else if n == 11 {
        'b'
    } else if n == 12 {
        'c'
    } else if n == 13 {
        'd'
    } else if n == 14 {
        'e'
    } else {
        'f'
    }
}

/// Lowercase hexadecimal encoding: two digits per byte, high nibble
/// first.
pub open spec fn hex_of(bytes: Seq<u8>) -> Seq<char>
    decreases bytes.len(),
{
    if bytes.len() == 0 {
        Seq::empty()
    } else {
        seq![hex_digit(bytes[0] / 16), hex_digit(bytes[0] % 16)] + hex_of(bytes.drop_first())
    }
}

/// The hexadecimal encoding has two characters per input byte.
pub proof fn lemma_hex_of_len(bytes: Seq<u8>)
    ensures
        hex_of(bytes).len() == 2 * bytes.len(),
    decreases bytes.len(),
{
    if bytes.len() > 0 {
        lemma_hex_of_len(bytes.drop_first());
    }
}

/// Relies on hex::encode: lowercase hexadecimal, two digits per byte,
/// high nibble first.
#[verifier::external_body]
fn hex_encode(bytes: &Vec<u8>) -> (r: String)
    ensures
        r@ == hex_of(bytes@),
{
    hex::encode(bytes.as_slice())
}

/// Trust configuration for a node: optional project and authority
/// parameters, all unset by default.
pub struct TrustOpts {
    pub project_name: Option<String>,
    pub authority_identity: Option<String>,
    pub authority_route: Option<String>,
    pub credential_scope: Option<String>,
}

impl Default for TrustOpts {
    fn default() -> (r: TrustOpts)
        ensures
            r.project_name is None,
            r.authority_identity is None,
            r.authority_route is None,
            r.credential_scope is None,
    {
        TrustOpts {
            project_name: None,
            authority_identity: None,
            authority_route: None,
            credential_scope: None,
        }
    }
}

/// Defaults for creating a node: a random eight-character hexadecimal
/// node name, loopback listener addresses that let the system pick the
/// ports, and unset trust options.
pub struct NodeManagerDefaults {
    pub node_name: String,
    pub tcp_listener_address: String,
    pub udp_listener_address: String,
    pub trust_opts: TrustOpts,
}

impl Default for NodeManagerDefaults {
    fn default() -> (r: NodeManagerDefaults)
        ensures
            exists|b: Seq<u8>| b.len() == 4 && r.node_name@ == hex_of(b),
            r.node_name@.len() == 8,
            r.tcp_listener_address@ == "127.0.0.1:0"@,
            r.udp_listener_address@ == "127.0.0.1:0"@,
            r.trust_opts.project_name is None,
            r.trust_opts.authority_identity is None,
            r.trust_opts.authority_route is None,
            r.trust_opts.credential_scope is None,
    {
        let drawn: [u8; 4] = rand::random();
        let bytes = vstd::slice::slice_to_vec(drawn.as_slice());
        let node_name = hex_encode(&bytes);
        proof {
            lemma_hex_of_len(bytes@);
            assert(bytes@.len() == 4 && node_name@ == hex_of(bytes@));
        }
        NodeManagerDefaults {
            node_name,
            tcp_listener_address: "127.0.0.1:0".to_owned(),
            udp_listener_address: "127.0.0.1:0".to_owned(),
            trust_opts: TrustOpts::default(),
        }
    }
}

} // verus!
