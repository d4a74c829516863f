//! A command engine for simulated switches, routers and hosts: command lines in the
//! vendor dialects change per-device configuration and come back as text, with view-gated
//! access and a one-hop connectivity check for `ping`.

pub mod text;
pub mod addr;
pub mod network;
pub mod cli;
pub mod vlan;
pub mod system;
pub mod interface;
pub mod routing;
pub mod dhcp;
pub mod security;
pub mod stp;
pub mod lag;
pub mod packet;
pub mod state;
pub mod simulation;
pub mod pc;
pub mod executor;
pub mod gate;
