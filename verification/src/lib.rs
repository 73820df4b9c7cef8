//! Mode arbitration for a single wireless interface that is either an access
//! point or a client of a known network, together with the provisioning rules
//! and the helper logic of the appliance it runs on.
//!
//! Everything here is a function from plain values to plain values: what has
//! to be read from or done to the machine is asked for as a request and comes
//! back as a reply.

pub mod binary_initializer;
pub mod binary_sidecar;
pub mod desktop;
pub mod server;
pub mod system;
pub mod text;
pub mod ui_state_controller;
pub mod wifi_handshake;
pub mod wpa_events;
