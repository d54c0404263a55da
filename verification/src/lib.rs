//! Verified core of a camera barcode-scanning session.
//!
//! The library models one live scanning attempt: a state machine that owns a
//! camera-stream handle and a periodic sample timer, a pixel preprocessor that
//! turns raw RGBA frames into luminance buffers, a bounded-resolution policy
//! for the offscreen capture surface, and a thin adapter around the external
//! decode engine. A host drives the machine by feeding it messages and
//! performing the actions it returns; everything the machine decides is
//! specified and proved here.

pub mod decode;
pub mod device;
pub mod luma;
pub mod resolution;
pub mod session;
