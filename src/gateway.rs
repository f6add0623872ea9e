//! The uniform error type of device calls: how the authenticator's status
//! codes and the driver's failure messages map onto `FidoError`.
use vstd::prelude::*;

use crate::error::FidoError;

verus! {

/// The text that precedes the status byte when the authenticator answers a
/// command with an error status.
pub const STATUS_PREFIX: &'static str = "response_status err = 0x";

/// The driver's message when no authenticator is connected.
pub const NOT_FOUND_MESSAGE: &'static str = "FIDO device not found.";

/// The error that an authenticator status code stands for.
pub open spec fn status_error(status: u8) -> FidoError {
    if status == 0x31 || status == 0x33 || status == 0x36 || status == 0x38 {
        FidoError::InvalidPin
    } else if status == 0x32 || status == 0x34 {
        FidoError::Blocked
    } else if status == 0x35 {
        FidoError::NoPinSet
    } else if status == 0x37 {
        FidoError::PolicyRejected
    } else if status == 0x22 || status == 0x2E {
        FidoError::NotFound
    } else if status == 0x06 || status == 0x21 {
        FidoError::DeviceBusy
    } else {
        FidoError::TransportFailure
    }
}

/// Maps a CTAP status code to an error: PIN refused, expired or missing
/// (0x31, 0x33, 0x36, 0x38), PIN blocked (0x32, 0x34), no PIN set (0x35),
/// policy violation (0x37), unknown credential (0x22, 0x2E), busy (0x06,
/// 0x21); anything else is a transport failure.
pub fn error_of_status(status: u8) -> (r: FidoError)
    ensures
        r == status_error(status),
{
    match status {
        0x31 | 0x33 | 0x36 | 0x38 => FidoError::InvalidPin,
        0x32 | 0x34 => FidoError::Blocked,
        0x35 => FidoError::NoPinSet,
        0x37 => FidoError::PolicyRejected,
        0x22 | 0x2E => FidoError::NotFound,
        0x06 | 0x21 => FidoError::DeviceBusy,
        _ => FidoError::TransportFailure,
    }
}

/// The value of an ASCII hexadecimal digit.
pub open spec fn hex_value(c: char) -> Option<u8> {
    if '0' <= c && c <= '9' {
        Some((c as u32 - '0' as u32) as u8)
    } else if 'a' <= c && c <= 'f' {
        Some((c as u32 - 'a' as u32 + 10) as u8)
    } else if 'A' <= c && c <= 'F' {
        Some((c as u32 - 'A' as u32 + 10) as u8)
    } else {
        None
    }
}

/// The status byte that a driver message reports: the prefix followed by two
/// hexadecimal digits.
pub open spec fn reported_status(msg: Seq<char>) -> Option<u8> {
    let n = STATUS_PREFIX@.len() as int;
    if msg.len() >= n + 2 && msg.subrange(0, n) == STATUS_PREFIX@ {
        match (hex_value(msg[n]), hex_value(msg[n + 1int])) {
            (Some(hi), Some(lo)) => Some((hi * 16 + lo) as u8),
            _ => None,
        }
    } else {
        None
    }
}

/// The error that a driver failure message stands for.
pub open spec fn message_error(msg: Seq<char>) -> FidoError {
    match reported_status(msg) {
        Some(status) => status_error(status),
        None => if msg == NOT_FOUND_MESSAGE@ {
            FidoError::NoDevice
        } else {
            FidoError::TransportFailure
        },
    }
}

fn hex_digit(c: char) -> (r: Option<u8>)
    ensures
        r == hex_value(c),
{
    if '0' <= c && c <= '9' {
        Some((c as u32 - '0' as u32) as u8)
    } else if 'a' <= c && c <= 'f' {
        Some((c as u32 - 'a' as u32 + 10) as u8)
    } else if 'A' <= c && c <= 'F' {
        Some((c as u32 - 'A' as u32 + 10) as u8)
    } else {
        None
    }
}

/// Whether `msg` begins with `pat`.
fn starts_with(msg: &str, pat: &str) -> (r: bool)
    ensures
        r == (pat@.len() <= msg@.len() && msg@.subrange(0, pat@.len() as int) == pat@),
{
    let n = pat.unicode_len();
    let m = msg.unicode_len();
    if n > m {
        return false;
    }
    let mut i: usize = 0;
    while i < n
        invariant
            n == pat@.len(),
            m == msg@.len(),
            n <= m,
            0 <= i <= n,
            forall|j: int| 0 <= j < i ==> msg@[j] == pat@[j],
        decreases n - i,
    {
        if msg.get_char(i) != pat.get_char(i) {
            assert(msg@.subrange(0, n as int)[i as int] != pat@[i as int]);
            return false;
        }
        i = i + 1;
    }
    assert(msg@.subrange(0, n as int) =~= pat@);
    true
}

/// Classifies the message of a failed driver call.
pub fn classify_failure(msg: &str) -> (r: FidoError)
    ensures
        r == message_error(msg@),
{
    proof {
        reveal_strlit("response_status err = 0x");
        reveal_strlit("FIDO device not found.");
    }
    let n = STATUS_PREFIX.unicode_len();
    let m = msg.unicode_len();
    if m >= 2 && m - 2 >= n && starts_with(msg, STATUS_PREFIX) {
        let hi = hex_digit(msg.get_char(n));
        let lo = hex_digit(msg.get_char(n + 1));
        match (hi, lo) {
            (Some(h), Some(l)) => {
                assert(reported_status(msg@) == Some((h * 16 + l) as u8));
                return error_of_status(h * 16 + l);
            },
            _ => {
                assert(reported_status(msg@) is None);
            },
        }
    } else {
        assert(reported_status(msg@) is None);
    }
    if m == NOT_FOUND_MESSAGE.unicode_len() && starts_with(msg, NOT_FOUND_MESSAGE) {
        assert(msg@ =~= msg@.subrange(0, m as int));
        FidoError::NoDevice
    } else {
        assert(msg@.subrange(0, m as int) =~= msg@);
        assert(msg@.subrange(0, m as int) =~= msg@);
        FidoError::TransportFailure
    }
}

} // verus!
