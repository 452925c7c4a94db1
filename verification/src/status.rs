//! The provider's authentication status, as the sign-in modal sees it.

use vstd::prelude::*;

verus! {

/// Device-flow data handed out by the provider once an authentication
/// attempt has obtained a device code. Both fields are immutable once
/// received; a later push may replace the whole value.
#[derive(Debug, Clone)]
pub struct DeviceFlowPrompt {
    /// Short code the user types into the provider's web page.
    pub user_code: String,
    /// URL the user is sent to in order to enter the code.
    pub verification_uri: String,
}

/// A snapshot of the provider's authentication status. The five named
/// variants are the ones the modal can display; anything else arrives as
/// `Other` and forces the modal to dismiss itself.
#[derive(Debug, Clone)]
pub enum AuthStatus {
    /// An authentication attempt is in progress; `prompt` is absent until
    /// the provider has obtained a device code.
    SigningIn { prompt: Option<DeviceFlowPrompt> },
    /// The user has no active subscription or license.
    Unauthorized,
    /// Fully signed in and enabled.
    Authorized,
    /// The feature is turned off at the host level.
    Disabled,
    /// The provider hit an unrecoverable error; the message is never shown
    /// to the end user.
    Error { message: String },
    /// Any status the modal does not recognize (for example "SignedOut"):
    /// not displayable, so the modal must close rather than stay open.
    Other { name: String },
}

/// A status the modal knows how to render: one of the five named variants.
pub open spec fn displayable(s: AuthStatus) -> bool {
    !(s is Other)
}

/// The prompting sub-case of `SigningIn`: a device code has arrived and the
/// modal is showing it.
pub open spec fn prompting(s: AuthStatus) -> bool {
    s matches AuthStatus::SigningIn { prompt: Some(_) }
}

/// The prompt shown while `prompting(s)` holds; meaningless otherwise.
pub open spec fn prompt_of(s: AuthStatus) -> DeviceFlowPrompt {
    match s {
        AuthStatus::SigningIn { prompt: Some(p) } => p,
        _ => arbitrary(),
    }
}

impl AuthStatus {
    /// Whether this status maps to one of the five rendered views.
    pub fn is_displayable(&self) -> (b: bool)
        ensures
            b == displayable(*self),
    {
        match self {
            AuthStatus::Other { .. } => false,
            _ => true,
        }
    }

    /// Whether this status is `SigningIn` with a prompt present.
    pub fn is_prompting(&self) -> (b: bool)
        ensures
            b == prompting(*self),
    {
        match self {
            AuthStatus::SigningIn { prompt: Some(_) } => true,
            _ => false,
        }
    }
}

} // verus!
