//! The rendered content of the modal: one of several mutually exclusive
//! views, computed as a pure function of the stored status plus the fresh
//! clipboard and settings reads the host supplies.

use vstd::prelude::*;
use crate::status::AuthStatus;
use crate::status::prompting;

verus! {

/// What the host paints for the current state. Only behavior-bearing
/// content is modelled; static headline and body copy is left to the host's
/// widget toolkit.
#[derive(Debug, Clone, PartialEq, Eq)]
pub enum SignInView {
    /// Device code with its copy affordance and the connect button.
    Prompting { user_code: String, copy_label: String, connect_label: String },
    /// Empty placeholder while the device code is being requested.
    Loading,
    /// Warning plus a "Subscribe on GitHub" button.
    Unauthorized,
    /// Confirmation plus a "Done" button.
    Enabled,
    /// Explanation of the disablement; the "Enable Copilot" button is shown
    /// only when the global setting is off.
    Disabled { enable_button: bool },
    /// Generic "check logs" notice; the provider's message is not surfaced.
    ErrorNotice,
    /// Rendered for a status that has no view; the modal dismisses itself
    /// instead of staying open on it.
    Blank,
}

/// The abstraction of a `SignInView`: each string by its view, so that the
/// render rule can be stated as one deterministic spec-level function.
pub enum ViewModel {
    Prompting { user_code: Seq<char>, copy_label: Seq<char>, connect_label: Seq<char> },
    Loading,
    Unauthorized,
    Enabled,
    Disabled { enable_button: bool },
    ErrorNotice,
    Blank,
}

impl SignInView {
    /// The abstract content of this view.
    pub open spec fn model(self) -> ViewModel {
        match self {
            SignInView::Prompting { user_code, copy_label, connect_label } => (ViewModel::Prompting {
                user_code: user_code@,
                copy_label: copy_label@,
                connect_label: connect_label@,
            }),
            SignInView::Loading => ViewModel::Loading,
            SignInView::Unauthorized => ViewModel::Unauthorized,
            SignInView::Enabled => ViewModel::Enabled,
            SignInView::Disabled { enable_button } => (ViewModel::Disabled { enable_button }),
            SignInView::ErrorNotice => ViewModel::ErrorNotice,
            SignInView::Blank => ViewModel::Blank,
        }
    }
}

/// The clipboard snapshot the host read just before rendering, abstracted.
pub open spec fn clipboard_view(c: Option<&str>) -> Option<Seq<char>> {
    match c {
        Some(text) => Some(text@),
        None => None,
    }
}

/// The copy control's label is decided by clipboard equality alone; no
/// "copied" flag is stored anywhere.
pub open spec fn copy_label_spec(copied: bool) -> Seq<char> {
    if copied {
        "Copied!"@
    } else {
        "Copy"@
    }
}

/// The connect button's label is decided by the one-shot connect flag.
pub open spec fn connect_label_spec(connect_clicked: bool) -> Seq<char> {
    if connect_clicked {
        "Waiting for connection..."@
    } else {
        "Connect to GitHub"@
    }
}

/// The render rule: a total, deterministic map from the stored status (plus
/// the one-shot connect flag, the fresh clipboard snapshot, and the fresh
/// global-setting read) to the view the host paints.
pub open spec fn rendered_view(
    status: AuthStatus,
    connect_clicked: bool,
    clipboard: Option<Seq<char>>,
    copilot_enabled_globally: bool,
) -> ViewModel {
    match status {
        AuthStatus::SigningIn { prompt: Some(p) } => (ViewModel::Prompting {
            user_code: p.user_code@,
            copy_label: copy_label_spec(clipboard == Some(p.user_code@)),
            connect_label: connect_label_spec(connect_clicked),
        }),
        AuthStatus::SigningIn { prompt: None } => ViewModel::Loading,
        AuthStatus::Unauthorized => ViewModel::Unauthorized,
        AuthStatus::Authorized => ViewModel::Enabled,
        AuthStatus::Disabled => (ViewModel::Disabled { enable_button: !copilot_enabled_globally }),
        AuthStatus::Error { .. } => ViewModel::ErrorNotice,
        AuthStatus::Other { .. } => ViewModel::Blank,
    }
}

/// Builds the copy control's label.
pub fn copy_label(copied: bool) -> (r: String)
    ensures
        r@ == copy_label_spec(copied),
{
    if copied {
        "Copied!".to_owned()
    } else {
        "Copy".to_owned()
    }
}

/// Builds the connect button's label.
pub fn connect_label(connect_clicked: bool) -> (r: String)
    ensures
        r@ == connect_label_spec(connect_clicked),
{
    if connect_clicked {
        "Waiting for connection...".to_owned()
    } else {
        "Connect to GitHub".to_owned()
    }
}

/// While prompting, the rendered copy label reads "Copied!" exactly when
/// the clipboard snapshot equals the device code, whatever else the state
/// holds; it is re-evaluated from the snapshot alone on every render.
pub proof fn lemma_copy_label_iff_clipboard_matches(
    status: AuthStatus,
    connect_clicked: bool,
    clipboard: Option<Seq<char>>,
    copilot_enabled_globally: bool,
)
    requires
        prompting(status),
    ensures
        ({
            let v = rendered_view(status, connect_clicked, clipboard, copilot_enabled_globally);
            &&& v matches ViewModel::Prompting { user_code, copy_label, .. }
            &&& (copy_label == "Copied!"@ <==> clipboard == Some(user_code))
        }),
{
    reveal_strlit("Copied!");
    reveal_strlit("Copy");
    assert("Copied!"@.len() == 7);
    assert("Copy"@.len() == 4);
}

/// The disabled view offers an actionable "Enable Copilot" button exactly
/// when the fresh global-setting read came back false.
pub proof fn lemma_disabled_button_iff_setting_off(
    status: AuthStatus,
    connect_clicked: bool,
    clipboard: Option<Seq<char>>,
    copilot_enabled_globally: bool,
)
    requires
        status is Disabled,
    ensures
        rendered_view(status, connect_clicked, clipboard, copilot_enabled_globally)
            == (ViewModel::Disabled { enable_button: !copilot_enabled_globally }),
{
}

} // verus!
