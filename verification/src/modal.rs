//! The sign-in modal's state machine: a passive reflector of the
//! provider's pushed authentication status, plus the session-local one-shot
//! connect flag. Every outward side effect (clipboard, URL opening,
//! settings persistence, dismissal) is returned to the host as a
//! `HostAction` value; the host performs it and re-renders.

use vstd::prelude::*;
use crate::status::AuthStatus;
use crate::status::displayable;
use crate::status::prompt_of;
use crate::status::prompting;
use crate::view::SignInView;
use crate::view::ViewModel;
use crate::view::clipboard_view;
use crate::view::connect_label;
use crate::view::copy_label;
use crate::view::rendered_view;

verus! {

/// A fire-and-forget command for the host. The modal never observes the
/// outcome of one; recovery always comes through a freshly pushed status.
#[derive(Debug, Clone, PartialEq, Eq)]
pub enum HostAction {
    /// Close the dialog; the host must not deliver further events to this
    /// instance afterwards.
    Dismiss,
    /// Open the given URL in the system browser.
    OpenUrl { url: String },
    /// Write the given text to the system clipboard.
    CopyToClipboard { text: String },
    /// Persist a boolean setting through the host's settings service.
    WriteSetting { name: String, value: bool },
}

/// The sign-up page opened by the unauthorized view's button.
pub open spec fn sign_up_url() -> Seq<char> {
    "https://github.com/features/copilot"@
}

/// The setting persisted by the disabled view's "Enable Copilot" button.
pub open spec fn show_suggestions_setting() -> Seq<char> {
    "showSuggestions"@
}

/// The modal's session-local state: the last status the provider pushed
/// and the one-shot connect flag.
#[derive(Debug, Clone)]
pub struct CopilotCodeVerification {
    /// Read-only snapshot of the provider's most recently delivered status.
    pub status: AuthStatus,
    /// True once the user has clicked "Connect"; meaningful only while the
    /// prompting view is showing, cleared on leaving it.
    pub connect_clicked: bool,
}

impl CopilotCodeVerification {
    /// The modal's invariant: the connect flag survives only inside the
    /// prompting view.
    pub open spec fn wf(self) -> bool {
        self.connect_clicked ==> prompting(self.status)
    }
}

/// The transition taken on a pushed status: a displayable status is stored
/// (clearing the connect flag on leaving the prompting sub-case), any other
/// status leaves the state untouched.
pub open spec fn step(m: CopilotCodeVerification, status: AuthStatus) -> CopilotCodeVerification {
    if displayable(status) {
        CopilotCodeVerification {
            connect_clicked: m.connect_clicked && prompting(status),
            status,
        }
    } else {
        m
    }
}

/// Whether a pushed status makes the modal dismiss itself instead of
/// updating: exactly the statuses outside the five displayable ones.
pub open spec fn step_dismisses(status: AuthStatus) -> bool {
    !displayable(status)
}

/// The transition taken on a connect click: sets the one-shot flag while
/// prompting, is inert elsewhere.
pub open spec fn connect_step(m: CopilotCodeVerification) -> CopilotCodeVerification {
    if prompting(m.status) {
        CopilotCodeVerification { status: m.status, connect_clicked: true }
    } else {
        m
    }
}

impl CopilotCodeVerification {
    /// Opens the modal on the provider's current status, read synchronously
    /// at that instant. A status without a view yields the one dismiss
    /// signal right away: the modal never stays open on it.
    pub fn new(status: AuthStatus) -> (r: (CopilotCodeVerification, Option<HostAction>))
        ensures
            r.0.status == status,
            !r.0.connect_clicked,
            r.0.wf(),
            r.1 == (if displayable(status) {
                Option::<HostAction>::None
            } else {
                Some(HostAction::Dismiss)
            }),
    {
        let dismiss = !status.is_displayable();
        let modal = CopilotCodeVerification { status, connect_clicked: false };
        if dismiss {
            (modal, Some(HostAction::Dismiss))
        } else {
            (modal, None)
        }
    }

    /// Status-subscription handler. A displayable status is stored and the
    /// modal stays open; any other status yields exactly one dismiss signal
    /// and no other mutation.
    pub fn set_status(&mut self, status: AuthStatus) -> (r: Option<HostAction>)
        ensures
            *final(self) == step(*old(self), status),
            r == (if step_dismisses(status) {
                Some(HostAction::Dismiss)
            } else {
                Option::<HostAction>::None
            }),
            old(self).wf() ==> final(self).wf(),
    {
        if status.is_displayable() {
            self.connect_clicked = self.connect_clicked && status.is_prompting();
            self.status = status;
            None
        } else {
            Some(HostAction::Dismiss)
        }
    }

    /// Renders the view for the stored status. `clipboard` and
    /// `copilot_enabled_globally` are read fresh by the host for every
    /// render; neither is cached here, so an out-of-band clipboard or
    /// settings change shows up at the next render.
    pub fn render(&self, clipboard: Option<&str>, copilot_enabled_globally: bool) -> (v: SignInView)
        ensures
            v.model() == rendered_view(
                self.status,
                self.connect_clicked,
                clipboard_view(clipboard),
                copilot_enabled_globally,
            ),
    {
        match &self.status {
            AuthStatus::SigningIn { prompt: Some(p) } => {
                let copied = match clipboard {
                    Some(text) => text.to_owned() == p.user_code,
                    None => false,
                };
                SignInView::Prompting {
                    user_code: p.user_code.clone(),
                    copy_label: copy_label(copied),
                    connect_label: connect_label(self.connect_clicked),
                }
            },
            AuthStatus::SigningIn { prompt: None } => SignInView::Loading,
            AuthStatus::Unauthorized => SignInView::Unauthorized,
            AuthStatus::Authorized => SignInView::Enabled,
            AuthStatus::Disabled => SignInView::Disabled { enable_button: !copilot_enabled_globally },
            AuthStatus::Error { .. } => SignInView::ErrorNotice,
            AuthStatus::Other { .. } => SignInView::Blank,
        }
    }

    /// Click on the copy affordance: writes the device code to the
    /// clipboard while prompting, is inert in every other view. The host
    /// re-renders right after, which refreshes the "Copied!" label.
    pub fn on_copy_clicked(&self) -> (r: Option<HostAction>)
        ensures
            prompting(self.status) ==> (r matches Some(a)
                && a matches HostAction::CopyToClipboard { text }
                && text@ == prompt_of(self.status).user_code@),
            !prompting(self.status) ==> r is None,
    {
        match &self.status {
            AuthStatus::SigningIn { prompt: Some(p) } => {
                Some(HostAction::CopyToClipboard { text: p.user_code.clone() })
            },
            _ => None,
        }
    }

    /// Click on the connect button: while prompting, sets the one-shot flag
    /// and issues exactly one request to open the prompt's verification
    /// URL; inert in every other view.
    pub fn on_connect_clicked(&mut self) -> (r: Option<HostAction>)
        ensures
            *final(self) == connect_step(*old(self)),
            prompting(old(self).status) ==> (r matches Some(a)
                && a matches HostAction::OpenUrl { url }
                && url@ == prompt_of(old(self).status).verification_uri@),
            !prompting(old(self).status) ==> r is None,
            old(self).wf() ==> final(self).wf(),
    {
        match &self.status {
            AuthStatus::SigningIn { prompt: Some(p) } => {
                let url = p.verification_uri.clone();
                self.connect_clicked = true;
                Some(HostAction::OpenUrl { url })
            },
            _ => None,
        }
    }

    /// Click on the enabled view's "Done" button: emits the one dismiss
    /// signal without touching the provider's state; inert elsewhere.
    pub fn on_done_clicked(&self) -> (r: Option<HostAction>)
        ensures
            r == (if self.status is Authorized {
                Some(HostAction::Dismiss)
            } else {
                Option::<HostAction>::None
            }),
    {
        match &self.status {
            AuthStatus::Authorized => Some(HostAction::Dismiss),
            _ => None,
        }
    }

    /// Click on the unauthorized view's "Subscribe on GitHub" button:
    /// opens the sign-up page; inert elsewhere.
    pub fn on_subscribe_clicked(&self) -> (r: Option<HostAction>)
        ensures
            self.status is Unauthorized ==> (r matches Some(a)
                && a matches HostAction::OpenUrl { url }
                && url@ == sign_up_url()),
            !(self.status is Unauthorized) ==> r is None,
    {
        match &self.status {
            AuthStatus::Unauthorized => {
                Some(HostAction::OpenUrl { url: "https://github.com/features/copilot".to_owned() })
            },
            _ => None,
        }
    }

    /// Click on the disabled view's "Enable Copilot" button: persists the
    /// suggestions setting exactly once and changes nothing else — the
    /// user must retry the flow. The button only exists while the fresh
    /// global-setting read came back false; every other click is inert.
    pub fn on_enable_clicked(&self, copilot_enabled_globally: bool) -> (r: Option<HostAction>)
        ensures
            (self.status is Disabled && !copilot_enabled_globally) ==> (r matches Some(a)
                && a matches HostAction::WriteSetting { name, value }
                && name@ == show_suggestions_setting()
                && value == true),
            !(self.status is Disabled && !copilot_enabled_globally) ==> r is None,
    {
        match &self.status {
            AuthStatus::Disabled => {
                if !copilot_enabled_globally {
                    Some(HostAction::WriteSetting { name: "showSuggestions".to_owned(), value: true })
                } else {
                    None
                }
            },
            _ => None,
        }
    }
}

/// A status outside the five displayable ones never mutates the modal:
/// the push dismisses, and the state stays exactly as it was.
pub proof fn lemma_undisplayable_status_only_dismisses(
    m: CopilotCodeVerification,
    status: AuthStatus,
)
    requires
        !displayable(status),
    ensures
        step(m, status) == m,
        step_dismisses(status),
{
}

/// A displayable push is always stored and never dismisses: after it, the
/// modal's visible state reflects exactly the most recently delivered
/// status.
pub proof fn lemma_displayable_status_is_stored(m: CopilotCodeVerification, status: AuthStatus)
    requires
        displayable(status),
    ensures
        step(m, status).status == status,
        !step_dismisses(status),
{
}

/// Leaving the prompting view — a push of any displayable status that is
/// not prompting-with-prompt — always clears the connect flag, even if it
/// was set.
pub proof fn lemma_leaving_prompt_clears_connect(m: CopilotCodeVerification, status: AuthStatus)
    requires
        displayable(status),
        !prompting(status),
    ensures
        !step(m, status).connect_clicked,
{
}

/// Both transitions preserve the modal's invariant: the connect flag never
/// outlives the prompting view.
pub proof fn lemma_transitions_preserve_wf(m: CopilotCodeVerification, status: AuthStatus)
    requires
        m.wf(),
    ensures
        step(m, status).wf(),
        connect_step(m).wf(),
{
}

/// Redelivering the same displayable status is idempotent: the second push
/// changes nothing that the first did not already settle.
pub proof fn lemma_step_idempotent(m: CopilotCodeVerification, status: AuthStatus)
    requires
        displayable(status),
    ensures
        step(step(m, status), status) == step(m, status),
{
}

/// After a connect click while prompting, the status itself is untouched
/// and every later render of that unchanged status shows the waiting
/// label on the connect button.
pub proof fn lemma_connect_click_then_waiting(
    m: CopilotCodeVerification,
    clipboard: Option<Seq<char>>,
    copilot_enabled_globally: bool,
)
    requires
        prompting(m.status),
    ensures
        ({
            let after = connect_step(m);
            &&& after.status == m.status
            &&& after.connect_clicked
            &&& (rendered_view(after.status, after.connect_clicked, clipboard, copilot_enabled_globally)
                matches ViewModel::Prompting { connect_label: label, .. }
                && label == "Waiting for connection..."@)
        }),
{
}

} // verus!
