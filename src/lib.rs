//! A single-threaded view update runtime: opaque view identifiers backed by an
//! arena, ordered message queues that can be refilled while they are being
//! drained, deferred messages gated on a context view's subtree, and the
//! decision logic of two consumers (a selectable list and a hover tooltip).
pub mod arena;
pub mod id;
pub mod list;
pub mod message;
pub mod queue;
pub mod tooltip;

