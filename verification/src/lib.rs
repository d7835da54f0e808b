//! Versioned, fixed-layout state on a two-tier ledger: deterministic address
//! derivation, a fixed-size byte codec for storable values, pure instruction
//! builders, and a layer-routing facade that sequences them across the base
//! and ephemeral endpoints.

pub mod error;
pub mod pda;
pub mod codec;
pub mod instructions;
pub mod ledger;
pub mod world;
pub mod badges;
pub mod profile;
