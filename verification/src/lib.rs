//! Core of a window-capture engine: a pure BGRA-to-RGBA pixel converter,
//! capture geometry, image/transport encoding, and the lifecycle state of an
//! ephemeral single-endpoint capture server.

pub mod capture;
pub mod encode;
pub mod error;
pub mod flow;
pub mod geometry;
pub mod guard;
pub mod http;
pub mod pixel;
pub mod server;
