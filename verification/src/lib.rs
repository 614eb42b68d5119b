//! Federation activity pipeline: envelopes, bounded reference resolution,
//! verification of inbound activities and their application to local state.

pub mod activities;
pub mod announce;
pub mod dispatch;
pub mod error;
pub mod inbox;
pub mod laws;
pub mod iri;
pub mod moderation;
pub mod objects;
pub mod policy;
pub mod protocol;
pub mod relation;
pub mod resolver;
pub mod store;
pub mod voting;
