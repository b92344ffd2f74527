//! A minimal application-shell library: the window-lifecycle state machine
//! and the GPU surface negotiation policy, verified. The platform event loop
//! and the asynchronous driver handshake live outside the library and feed it
//! plain events; the library decides every transition and derives the surface
//! configuration.

pub mod controller;
pub mod formats;
pub mod surface;
