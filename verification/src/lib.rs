//! Decision core of an input-injection device.
//!
//! Normalized pointer, wheel and keyboard events go in; the native
//! input-injection primitives that replay them come out as plain values.
//! Nothing here talks to the operating system: the caller performs the
//! primitives that these functions decide on.

pub mod capture;
pub mod device;
pub mod emitter;
pub mod keyboard;
pub mod pointer;
pub mod protocol;
pub mod text;
pub mod trace;
pub mod wheel;
