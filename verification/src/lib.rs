//! Federated moderation: undoing a block of a person from a community.
//!
//! This library models the inbound and outbound handling of an `Undo`
//! activity that wraps a prior `Block` of a person from a community, as
//! exchanged between federated servers.  Inbound envelopes pass a pipeline
//! of verification gates before the single moderation effect (removing the
//! ban row) is applied; outbound activities are fully constructed and
//! addressed before they are handed to the delivery layer.  Remote
//! references are resolved against a local cache under a per-operation
//! fetch budget, so maliciously deep or cyclic reference chains are cut
//! off with a bounded cost.

pub mod codec;
pub mod error;
pub mod model;
pub mod outbound;
pub mod resolver;
pub mod store;
pub mod uris;
pub mod verify;
