//! Face recognition service core: chunked model storage, model activation,
//! primary-face selection, nearest-neighbour person matching and the enrolled
//! person registry, together with a small keyed user registry.
//!
//! Everything numeric is integral. A confidence is counted in millionths and an
//! embedding component is a fixed-point integer, so that every comparison the
//! service makes is exact.

pub mod chunks;
pub mod detection;
pub mod embedding;
pub mod errors;
pub mod models;
pub mod pipeline;
pub mod registry;
pub mod reply;
pub mod service;
pub mod users;
