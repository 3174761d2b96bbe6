//! Verified core of the NanoD haptic knob: LED rendering, button debouncing,
//! haptic detent bookkeeping, the host command protocol, profile storage and
//! firmware image validation.

pub mod led;
pub mod hmi;
pub mod text;
pub mod strings;
pub mod tool;
pub mod bounded;
pub mod haptic;
pub mod protocol;
pub mod profile;
pub mod firmware;
