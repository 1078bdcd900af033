//! Diagnostic console for a vehicle-component test fixture.
//!
//! An operator selects a device, optionally toggles a device-specific option,
//! and starts a test; the controller's reply code is decoded into a displayed
//! status. This crate holds the console's state machine, the request payload
//! it builds, and the decoding of the controller's replies; the surrounding
//! browser interface drives it through these types.

pub mod console;
pub mod device;
pub mod reply;
pub mod request;
pub mod status;
