//! The adversarial actor: which probes it runs against a server, and how
//! the server's replies are judged.

pub mod config;
pub mod flood;
pub mod outcome;
pub mod port_reuse;
pub mod scenario;
pub mod session_hijack;
pub mod spectator_isolation;
