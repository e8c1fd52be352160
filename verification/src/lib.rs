//! A minimal real-time rendering host, as a state machine. The host owns a
//! window's identity, the configuration of the surface bound to it and the
//! cycle of the frame renderer. Its caller owns the window and the graphics
//! device: it hands each window event and each report on its own work to the
//! host, and carries out the action it gets back.

pub mod device;
pub mod event;
pub mod frame;
pub mod host;
pub mod laws;
pub mod pipeline;
pub mod state;
pub mod surface;
