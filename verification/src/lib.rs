//! Session credit-and-countdown controller for pay-per-use stations.
//!
//! An external coin/card acceptor reports credit over a local network call;
//! the controller converts credit into session time, counts it down once per
//! second, and announces every observable change to the presentation layer
//! through a narrow notification interface.  A licensing gate decides, from
//! the remote authority's record of a serial number, whether a session may
//! exist on this device at all.
//!
//! The crate holds the decision logic only: request validation, the countdown
//! state machine, the authorization rules, and the persisted configuration
//! records.  Network listeners, timers and storage live with the embedding
//! program, which feeds plain values in and carries notifications out.

pub mod config;
pub mod config_legacy;
pub mod countdown;
pub mod identity;
pub mod licensing;
pub mod server;
pub mod text;
