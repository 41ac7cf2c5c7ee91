//! A verified packet model and relay engine for ARP impersonation.
//!
//! The library represents a captured Ethernet frame as an ordered stack of
//! typed protocol layers, decides whether a frame warrants a forged ARP
//! reply, and synthesizes the exact bytes of that reply.

pub mod addr;
pub mod iface;
pub mod indicator;
pub mod layer;
pub mod relay;
