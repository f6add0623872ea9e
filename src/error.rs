use vstd::prelude::*;

verus! {

/// The failures a session can report. The first nine come from the device
/// (through its driver); `SessionBusy` and `InvalidRequest` are raised locally,
/// before any device call is made.
#[derive(PartialEq, Eq, Structural, Clone, Copy, Debug)]
pub enum FidoError {
    /// No authenticator is connected.
    NoDevice,
    /// The authenticator is held by someone else.
    DeviceBusy,
    /// The PIN was refused by the authenticator.
    InvalidPin,
    /// Too many wrong PIN attempts; the PIN is blocked.
    Blocked,
    /// The credential to delete no longer exists.
    NotFound,
    /// A first PIN was to be set, but one is already configured.
    PinAlreadySet,
    /// A PIN was to be changed, but none is configured.
    NoPinSet,
    /// The authenticator refused the requested PIN policy.
    PolicyRejected,
    /// The exchange with the authenticator broke down.
    TransportFailure,
    /// Another device call of this session is still in flight.
    SessionBusy,
    /// The request is not valid here (a bad argument, or a state that does not allow it).
    InvalidRequest,
}

/// The text of `FidoError::describe`.
pub open spec fn error_text(e: FidoError) -> Seq<char> {
    match e {
        FidoError::NoDevice => "no security key is connected"@,
        FidoError::DeviceBusy => "the security key is busy"@,
        FidoError::InvalidPin => "the PIN was not accepted"@,
        FidoError::Blocked => "the PIN is blocked after too many attempts"@,
        FidoError::NotFound => "the credential no longer exists"@,
        FidoError::PinAlreadySet => "a PIN is already set"@,
        FidoError::NoPinSet => "no PIN is set"@,
        FidoError::PolicyRejected => "the security key refused the PIN policy"@,
        FidoError::TransportFailure => "communication with the security key failed"@,
        FidoError::SessionBusy => "another operation is still running"@,
        FidoError::InvalidRequest => "the request is not valid here"@,
    }
}

impl FidoError {
    /// The authenticator can no longer be trusted to be the same device.
    pub open spec fn loses_device(self) -> bool {
        self == FidoError::NoDevice || self == FidoError::TransportFailure
    }

    /// The PIN that was used is no longer accepted by the authenticator.
    pub open spec fn invalidates_pin(self) -> bool {
        self == FidoError::InvalidPin || self == FidoError::Blocked
    }

    /// Raised by the session itself, without a device call.
    pub open spec fn is_local(self) -> bool {
        self == FidoError::SessionBusy || self == FidoError::InvalidRequest
    }

    /// Whether a failure of a call made with the cached PIN ends the session.
    pub fn ends_session(&self) -> (r: bool)
        ensures
            r == (self.loses_device() || self.invalidates_pin()),
    {
        match self {
            FidoError::NoDevice | FidoError::TransportFailure => true,
            FidoError::InvalidPin | FidoError::Blocked => true,
            _ => false,
        }
    }

    /// Whether a failure of any device call ends the session.
    pub fn is_device_loss(&self) -> (r: bool)
        ensures
            r == self.loses_device(),
    {
        matches!(self, FidoError::NoDevice | FidoError::TransportFailure)
    }

    /// A short human-readable description, for notifications.
    pub fn describe(&self) -> (r: &'static str)
        ensures
            r@ == error_text(*self),
    {
        match self {
            FidoError::NoDevice => "no security key is connected",
            FidoError::DeviceBusy => "the security key is busy",
            FidoError::InvalidPin => "the PIN was not accepted",
            FidoError::Blocked => "the PIN is blocked after too many attempts",
            FidoError::NotFound => "the credential no longer exists",
            FidoError::PinAlreadySet => "a PIN is already set",
            FidoError::NoPinSet => "no PIN is set",
            FidoError::PolicyRejected => "the security key refused the PIN policy",
            FidoError::TransportFailure => "communication with the security key failed",
            FidoError::SessionBusy => "another operation is still running",
            FidoError::InvalidRequest => "the request is not valid here",
        }
    }
}

} // verus!
