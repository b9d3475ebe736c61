//! Flow-scoped access control for a messaging runtime.
//!
//! A transport tunnel owns a logical *flow*. At establishment it
//! registers in a shared registry which runtime endpoints (addresses)
//! produce traffic on the flow, grants other endpoints consumer access
//! where tunnels chain through one another, and attaches a gate to its
//! send path so that flow membership can be enforced on every outgoing
//! message.

pub mod access_control;
pub mod address;
pub mod flow_control_id;
pub mod laws;
pub mod node_defaults;
pub mod options;
pub mod registry;
