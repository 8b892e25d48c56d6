//! The URI activation listener: one-time registration of the custom URI
//! scheme with the operating system.
//!
//! The listener is a three-state machine. It starts `Unregistered`; a single
//! registration attempt moves it to `Active` (the scheme is bound and
//! activations will be delivered) or to `Inactive` (the binding failed and
//! the feature stays off for the process lifetime). There is no path back to
//! `Unregistered`, and a second attempt is refused rather than overwriting
//! the first.

use vstd::prelude::*;
use vstd::string::StringExecFns;

verus! {

/// Is `c` an ASCII letter?
pub open spec fn is_alpha(c: char) -> bool {
    ('a' <= c && c <= 'z') || ('A' <= c && c <= 'Z')
}

/// May `c` appear in a URI scheme after the first character?
/// Scheme tokens are `ALPHA *( ALPHA / DIGIT / "+" / "-" / "." )`.
pub open spec fn is_scheme_char(c: char) -> bool {
    is_alpha(c) || ('0' <= c && c <= '9') || c == '+' || c == '-' || c == '.'
}

/// A syntactically valid URI scheme token: non-empty, a letter first, then
/// letters, digits, `+`, `-` or `.`.
pub open spec fn is_valid_scheme(s: Seq<char>) -> bool {
    &&& s.len() > 0
    &&& is_alpha(s[0])
    &&& forall|i: int| 0 <= i < s.len() ==> is_scheme_char(#[trigger] s[i])
}

/// Check a scheme token character by character.
pub fn check_scheme(s: &str) -> (valid: bool)
    ensures
        valid == is_valid_scheme(s@),
{
    let len: usize = s.unicode_len();
    if len == 0 {
        return false;
    }
    let first = s.get_char(0);
    let first_ok = ('a' <= first && first <= 'z') || ('A' <= first && first <= 'Z');
    if !first_ok {
        return false;
    }
    let mut i: usize = 0;
    while i < len
        invariant
            len == s@.len(),
            i <= len,
            forall|k: int| 0 <= k < i ==> is_scheme_char(#[trigger] s@[k]),
        decreases len - i,
    {
        let c = s.get_char(i);
        let ok = ('a' <= c && c <= 'z') || ('A' <= c && c <= 'Z') || ('0' <= c && c <= '9')
            || c == '+' || c == '-' || c == '.';
        if !ok {
            return false;
        }
        i = i + 1;
    }
    true
}

/// The listener's lifecycle state.
#[derive(Clone, Copy, Debug, PartialEq, Eq, Structural)]
pub enum BridgeState {
    /// Startup has not yet attempted to bind the scheme.
    Unregistered,
    /// The scheme is bound; activations are delivered.
    Active,
    /// The binding failed; the feature is off for the process lifetime.
    Inactive,
}

/// Why a registration attempt was refused.
#[derive(Clone, Copy, Debug, PartialEq, Eq, Structural)]
pub enum RegistrationError {
    /// A registration was already attempted; the handler is not overwritten.
    AlreadyAttempted,
    /// The scheme token is not syntactically valid.
    InvalidScheme,
    /// The operating system rejected the binding.
    OsRejected,
}

/// The listener: the registration state and, once active, the bound scheme.
pub struct Listener {
    pub state: BridgeState,
    pub scheme: Option<String>,
}

impl Listener {
    /// The scheme this listener holds, as a character sequence.
    pub open spec fn scheme_view(self) -> Option<Seq<char>> {
        match self.scheme {
            Option::Some(s) => Option::Some(s@),
            Option::None => Option::None,
        }
    }

    /// Activations are delivered only while the listener is active.
    pub open spec fn delivers(self) -> bool {
        self.state == BridgeState::Active
    }

    /// A fresh listener: unregistered, no scheme bound.
    pub fn new() -> (listener: Listener)
        ensures
            listener.state == BridgeState::Unregistered,
            listener.scheme_view() == Option::<Seq<char>>::None,
    {
        Listener { state: BridgeState::Unregistered, scheme: Option::None }
    }

    /// Attempt the one-time scheme binding. `os_accepted` is the operating
    /// system's answer to the binding request, reported by the caller that
    /// performed it.
    ///
    /// Exactly-once: any attempt after the first is refused with
    /// `AlreadyAttempted` and changes nothing. A first attempt with an
    /// invalid scheme or a rejected binding leaves the listener `Inactive`;
    /// a first attempt with a valid scheme the system accepted makes it
    /// `Active` with that scheme bound.
    pub fn register(&mut self, scheme: &str, os_accepted: bool) -> (outcome: Result<
        (),
        RegistrationError,
    >)
        ensures
            old(self).state != BridgeState::Unregistered ==> {
                &&& outcome == Result::<(), RegistrationError>::Err(
                    RegistrationError::AlreadyAttempted,
                )
                &&& final (self).state == old(self).state
                &&& final (self).scheme_view() == old(self).scheme_view()
            },
            old(self).state == BridgeState::Unregistered && !is_valid_scheme(scheme@) ==> {
                &&& outcome == Result::<(), RegistrationError>::Err(
                    RegistrationError::InvalidScheme,
                )
                &&& final (self).state == BridgeState::Inactive
                &&& final (self).scheme_view() == Option::<Seq<char>>::None
            },
            old(self).state == BridgeState::Unregistered && is_valid_scheme(scheme@)
                && !os_accepted ==> {
                &&& outcome == Result::<(), RegistrationError>::Err(RegistrationError::OsRejected)
                &&& final (self).state == BridgeState::Inactive
                &&& final (self).scheme_view() == Option::<Seq<char>>::None
            },
            old(self).state == BridgeState::Unregistered && is_valid_scheme(scheme@)
                && os_accepted ==> {
                &&& outcome == Result::<(), RegistrationError>::Ok(())
                &&& final (self).state == BridgeState::Active
                &&& final (self).scheme_view() == Option::Some(scheme@)
            },
    {
        match self.state {
            BridgeState::Unregistered => {
                if !check_scheme(scheme) {
                    self.state = BridgeState::Inactive;
                    self.scheme = Option::None;
                    Result::Err(RegistrationError::InvalidScheme)
                } else if !os_accepted {
                    self.state = BridgeState::Inactive;
                    self.scheme = Option::None;
                    Result::Err(RegistrationError::OsRejected)
                } else {
                    self.state = BridgeState::Active;
                    self.scheme = Option::Some(String::from_str(scheme));
                    Result::Ok(())
                }
            },
            _ => Result::Err(RegistrationError::AlreadyAttempted),
        }
    }
}

} // verus!
