//! A DHCPv4 lease client runtime: classification of protocol-engine events,
//! client configuration, the dispatch loop's decisions, lease-state
//! publication and the observer service's replies.

pub mod event;
pub mod config;
pub mod identity;
pub mod dispatch;
pub mod lease;
pub mod observer;
pub mod startup;
