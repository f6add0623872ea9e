//! What the authenticator reports of itself, and the checks made from it
//! before a PIN is set or changed.
use vstd::prelude::*;

use crate::error::FidoError;

verus! {

/// The option under which the authenticator reports whether a PIN is configured.
pub const CLIENT_PIN_OPTION: &'static str = "clientPin";

/// The minimum PIN length assumed when the authenticator reported none.
pub const DEFAULT_MIN_PIN_LENGTH: u8 = 4;

/// A snapshot of the authenticator's capabilities. It is replaced as a whole
/// whenever the connection changes, never edited.
pub struct FidoInfo {
    /// Capability names with their values, in the order reported.
    pub options: Vec<(String, bool)>,
    /// The current minimum PIN length policy.
    pub min_pin_length: u8,
}

/// `r` is the value of the first option named `name`, or `None` when no option
/// has that name.
pub open spec fn option_is(opts: Seq<(String, bool)>, name: Seq<char>, r: Option<bool>) -> bool {
    match r {
        Some(v) => exists|i: int|
            0 <= i < opts.len() && #[trigger] opts[i].0@ == name && opts[i].1 == v && forall|
                j: int,
            |
                0 <= j < i ==> (#[trigger] opts[j].0)@ != name,
        None => forall|i: int| 0 <= i < opts.len() ==> (#[trigger] opts[i].0)@ != name,
    }
}

/// Whether the options report a configured PIN.
pub open spec fn reports_pin(opts: Seq<(String, bool)>) -> bool {
    option_is(opts, CLIENT_PIN_OPTION@, Some(true))
}

/// Whether two texts are equal.
fn same_text(a: &str, b: &str) -> (r: bool)
    ensures
        r == (a@ == b@),
{
    let n = a.unicode_len();
    if n != b.unicode_len() {
        return false;
    }
    let mut i: usize = 0;
    while i < n
        invariant
            n == a@.len(),
            n == b@.len(),
            0 <= i <= n,
            forall|j: int| 0 <= j < i ==> a@[j] == b@[j],
        decreases n - i,
    {
        if a.get_char(i) != b.get_char(i) {
            return false;
        }
        i = i + 1;
    }
    assert(a@ =~= b@);
    true
}

impl FidoInfo {
    pub fn new(options: Vec<(String, bool)>, min_pin_length: u8) -> (r: Self)
        ensures
            r.options@ == options@,
            r.min_pin_length == min_pin_length,
    {
        FidoInfo { options, min_pin_length }
    }

    /// The value of the first option named `name`.
    pub fn option(&self, name: &str) -> (r: Option<bool>)
        ensures
            option_is(self.options@, name@, r),
    {
        let mut i: usize = 0;
        while i < self.options.len()
            invariant
                0 <= i <= self.options.len(),
                forall|j: int| 0 <= j < i ==> (#[trigger] self.options@[j].0)@ != name@,
            decreases self.options.len() - i,
        {
            if same_text(self.options[i].0.as_str(), name) {
                let r = Some(self.options[i].1);
                assert(self.options@[i as int].0@ == name@);
                return r;
            }
            i = i + 1;
        }
        None
    }

    /// Whether a PIN is configured on the authenticator.
    pub fn pin_is_set(&self) -> (r: bool)
        ensures
            r == reports_pin(self.options@),
    {
        let v = self.option(CLIENT_PIN_OPTION);
        match v {
            Some(true) => true,
            Some(false) => {
                proof {
                    if reports_pin(self.options@) {
                        let i = choose|i: int|
                            0 <= i < self.options@.len() && #[trigger] self.options@[i].0@
                                == CLIENT_PIN_OPTION@ && self.options@[i].1 == true && forall|
                                j: int,
                            |
                                0 <= j < i ==> (#[trigger] self.options@[j].0)@
                                    != CLIENT_PIN_OPTION@;
                        let k = choose|k: int|
                            0 <= k < self.options@.len() && #[trigger] self.options@[k].0@
                                == CLIENT_PIN_OPTION@ && self.options@[k].1 == false && forall|
                                j: int,
                            |
                                0 <= j < k ==> (#[trigger] self.options@[j].0)@
                                    != CLIENT_PIN_OPTION@;
                        if i < k {
                            assert(self.options@[i].0@ != CLIENT_PIN_OPTION@);
                        } else if k < i {
                            assert(self.options@[k].0@ != CLIENT_PIN_OPTION@);
                        }
                    }
                }
                false
            },
            None => false,
        }
    }
}

/// Whether a PIN is configured, as far as the snapshot tells; without one, none is assumed.
pub fn pin_configured(info: &Option<FidoInfo>) -> (r: bool)
    ensures
        r == (info matches Some(i) && reports_pin(i.options@)),
{
    match info {
        Some(i) => i.pin_is_set(),
        None => false,
    }
}

/// The minimum PIN length to show: the reported one, or the default without a snapshot.
pub fn shown_min_pin_length(info: &Option<FidoInfo>) -> (r: u8)
    ensures
        r == match info {
            Some(i) => i.min_pin_length,
            None => DEFAULT_MIN_PIN_LENGTH,
        },
{
    match info {
        Some(i) => i.min_pin_length,
        None => DEFAULT_MIN_PIN_LENGTH,
    }
}

/// Whether a PIN change may be sent to the authenticator: a first PIN
/// (`current_pin_given` false) only where none is configured, a change only
/// where one is.
pub fn check_pin_change(current_pin_given: bool, pin_is_configured: bool) -> (r: Result<
    (),
    FidoError,
>)
    ensures
        r == (if !current_pin_given && pin_is_configured {
            Err(FidoError::PinAlreadySet)
        } else if current_pin_given && !pin_is_configured {
            Err(FidoError::NoPinSet)
        } else {
            Ok(())
        }),
{
    if !current_pin_given && pin_is_configured {
        Err(FidoError::PinAlreadySet)
    } else if current_pin_given && !pin_is_configured {
        Err(FidoError::NoPinSet)
    } else {
        Ok(())
    }
}

} // verus!
