//! Session management for a FIDO2 security key: PIN-gated access to the
//! resident credentials, single-flight admission of device calls, and the
//! recovery rules that follow a failed call.
use vstd::prelude::*;

pub mod credential;
pub mod device;
pub mod error;
pub mod gateway;
pub mod laws;
pub mod session;

verus! {

/// Whether the application window is maximized.
#[derive(Clone, Copy, Debug, PartialEq, Eq, Structural)]
pub struct WindowState {
    pub is_maximized: bool,
}

} // verus!
