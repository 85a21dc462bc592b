//! A gateway that lets one program-derived authority act for the creator of a
//! collection of assets: it decides whether a freeze, thaw or update request
//! may go ahead, and builds the one call into the asset protocol that carries
//! it out, signed by the collection's authority through its seeds.
//!
//! The library decides and builds; the host loads the accounts, issues the
//! call and reports how it ended.

pub mod address;
pub mod call;
pub mod derivation;
pub mod error;
pub mod guard;
pub mod instructions;
pub mod laws;
pub mod state;
