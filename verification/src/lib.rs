//! Core of a personal jukebox server.
//!
//! The library owns the two algorithmic pieces of the service: the weighted
//! random selection engine that turns per-track ratings into a sampling
//! distribution and keeps recently served tracks from repeating, and the
//! schema migration engine that brings a catalog store from any earlier
//! layout to the current one through an ordered chain of idempotent steps.
//! Around them stand the catalog model itself (tracks with identity, path,
//! metadata and a bounded rating), the vote controller that moves ratings up
//! and down the scale, and small helpers such as the duration formatter.
//!
//! All I/O — the HTTP surface, the on-disk store, the file scanner — lives
//! outside this crate and talks to it through plain values.

pub mod duration;
pub mod migration;
pub mod replay;
pub mod selection;
pub mod service;
pub mod store;
pub mod vote;
