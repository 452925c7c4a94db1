use copilot_ui::modal::{CopilotCodeVerification, HostAction};
use copilot_ui::status::{AuthStatus, DeviceFlowPrompt};
use copilot_ui::view::SignInView;

fn device_prompt() -> DeviceFlowPrompt {
    DeviceFlowPrompt {
        user_code: "ABCD-1234".to_owned(),
        verification_uri: "https://github.com/login/device".to_owned(),
    }
}

fn prompting_status() -> AuthStatus {
    AuthStatus::SigningIn { prompt: Some(device_prompt()) }
}

#[test]
fn construct_with_prompt_shows_code_then_copy_flow() {
    let (modal, action) = CopilotCodeVerification::new(prompting_status());
    assert_eq!(action, None);
    match modal.render(None, true) {
        SignInView::Prompting { user_code, copy_label, connect_label } => {
            assert_eq!(user_code, "ABCD-1234");
            assert_eq!(copy_label, "Copy");
            assert_eq!(connect_label, "Connect to GitHub");
        }
        v => panic!("expected the prompting view, got {:?}", v),
    }
    let copy = modal.on_copy_clicked();
    assert_eq!(copy, Some(HostAction::CopyToClipboard { text: "ABCD-1234".to_owned() }));
    match modal.render(Some("ABCD-1234"), true) {
        SignInView::Prompting { copy_label, .. } => assert_eq!(copy_label, "Copied!"),
        v => panic!("expected the prompting view, got {:?}", v),
    }
}

#[test]
fn copy_label_follows_clipboard_on_every_render() {
    let (modal, _) = CopilotCodeVerification::new(prompting_status());
    match modal.render(Some("something else"), true) {
        SignInView::Prompting { copy_label, .. } => assert_eq!(copy_label, "Copy"),
        v => panic!("expected the prompting view, got {:?}", v),
    }
    match modal.render(Some("ABCD-1234"), true) {
        SignInView::Prompting { copy_label, .. } => assert_eq!(copy_label, "Copied!"),
        v => panic!("expected the prompting view, got {:?}", v),
    }
    // An out-of-band clipboard change between renders must show up at once.
    match modal.render(Some("overwritten"), true) {
        SignInView::Prompting { copy_label, .. } => assert_eq!(copy_label, "Copy"),
        v => panic!("expected the prompting view, got {:?}", v),
    }
    // Copying the same code twice keeps showing "Copied!".
    assert!(modal.on_copy_clicked().is_some());
    match modal.render(Some("ABCD-1234"), true) {
        SignInView::Prompting { copy_label, .. } => assert_eq!(copy_label, "Copied!"),
        v => panic!("expected the prompting view, got {:?}", v),
    }
}

#[test]
fn connect_click_opens_url_once_and_waits() {
    let (mut modal, _) = CopilotCodeVerification::new(prompting_status());
    assert!(!modal.connect_clicked);
    let action = modal.on_connect_clicked();
    assert_eq!(
        action,
        Some(HostAction::OpenUrl { url: "https://github.com/login/device".to_owned() })
    );
    assert!(modal.connect_clicked);
    for _ in 0..2 {
        match modal.render(None, true) {
            SignInView::Prompting { connect_label, .. } => {
                assert_eq!(connect_label, "Waiting for connection...");
            }
            v => panic!("expected the prompting view, got {:?}", v),
        }
    }
}

#[test]
fn leaving_prompting_view_resets_connect_flag() {
    let destinations = [
        AuthStatus::Unauthorized,
        AuthStatus::Authorized,
        AuthStatus::Disabled,
        AuthStatus::Error { message: "wire broke".to_owned() },
        AuthStatus::SigningIn { prompt: None },
    ];
    for destination in destinations {
        let (mut modal, _) = CopilotCodeVerification::new(prompting_status());
        modal.on_connect_clicked();
        assert!(modal.connect_clicked);
        let action = modal.set_status(destination);
        assert_eq!(action, None);
        assert!(!modal.connect_clicked);
    }
}

#[test]
fn new_prompt_push_keeps_connect_flag() {
    let (mut modal, _) = CopilotCodeVerification::new(prompting_status());
    modal.on_connect_clicked();
    let replacement = AuthStatus::SigningIn {
        prompt: Some(DeviceFlowPrompt {
            user_code: "WXYZ-7890".to_owned(),
            verification_uri: "https://github.com/login/device".to_owned(),
        }),
    };
    assert_eq!(modal.set_status(replacement), None);
    assert!(modal.connect_clicked);
    match modal.render(None, true) {
        SignInView::Prompting { user_code, .. } => assert_eq!(user_code, "WXYZ-7890"),
        v => panic!("expected the prompting view, got {:?}", v),
    }
}

#[test]
fn disabled_view_offers_enable_button_iff_setting_off() {
    let (modal, _) = CopilotCodeVerification::new(AuthStatus::Disabled);
    match modal.render(None, false) {
        SignInView::Disabled { enable_button } => assert!(enable_button),
        v => panic!("expected the disabled view, got {:?}", v),
    }
    match modal.render(None, true) {
        SignInView::Disabled { enable_button } => assert!(!enable_button),
        v => panic!("expected the disabled view, got {:?}", v),
    }
}

#[test]
fn enable_click_writes_setting_once_and_keeps_status() {
    let (modal, _) = CopilotCodeVerification::new(AuthStatus::Disabled);
    let action = modal.on_enable_clicked(false);
    assert_eq!(
        action,
        Some(HostAction::WriteSetting { name: "showSuggestions".to_owned(), value: true })
    );
    assert!(matches!(modal.status, AuthStatus::Disabled));
    // With the setting already on, the button does not exist, so the click
    // path is inert.
    assert_eq!(modal.on_enable_clicked(true), None);
}

#[test]
fn authorized_push_switches_to_enabled_view_and_done_dismisses() {
    let (mut modal, _) = CopilotCodeVerification::new(prompting_status());
    let action = modal.set_status(AuthStatus::Authorized);
    assert_eq!(action, None);
    assert!(matches!(modal.render(None, true), SignInView::Enabled));
    assert_eq!(modal.on_done_clicked(), Some(HostAction::Dismiss));
}

#[test]
fn unrecognized_push_dismisses_once_without_mutation() {
    let (mut modal, _) = CopilotCodeVerification::new(prompting_status());
    let action = modal.set_status(AuthStatus::Other { name: "SignedOut".to_owned() });
    assert_eq!(action, Some(HostAction::Dismiss));
    // The stored state is untouched: the prompting view is still what the
    // modal would paint, and the connect flag is still clear.
    assert!(matches!(modal.render(None, true), SignInView::Prompting { .. }));
    assert!(!modal.connect_clicked);
}

#[test]
fn constructing_on_unrecognized_status_dismisses_once() {
    let (modal, action) = CopilotCodeVerification::new(AuthStatus::Other {
        name: "NotConfigured".to_owned(),
    });
    assert_eq!(action, Some(HostAction::Dismiss));
    assert!(matches!(modal.render(None, true), SignInView::Blank));
}

#[test]
fn signing_in_without_prompt_shows_loading_placeholder() {
    let (modal, action) = CopilotCodeVerification::new(AuthStatus::SigningIn { prompt: None });
    assert_eq!(action, None);
    assert!(matches!(modal.render(None, true), SignInView::Loading));
}

#[test]
fn unauthorized_view_and_subscribe_button() {
    let (modal, _) = CopilotCodeVerification::new(AuthStatus::Unauthorized);
    assert!(matches!(modal.render(None, true), SignInView::Unauthorized));
    assert_eq!(
        modal.on_subscribe_clicked(),
        Some(HostAction::OpenUrl { url: "https://github.com/features/copilot".to_owned() })
    );
}

#[test]
fn error_view_hides_the_provider_message() {
    let (modal, action) = CopilotCodeVerification::new(AuthStatus::Error {
        message: "token exchange failed".to_owned(),
    });
    assert_eq!(action, None);
    // The view carries no message field at all: only the generic notice.
    assert!(matches!(modal.render(None, true), SignInView::ErrorNotice));
}

#[test]
fn clicks_outside_their_view_are_inert() {
    let (mut authorized, _) = CopilotCodeVerification::new(AuthStatus::Authorized);
    assert_eq!(authorized.on_copy_clicked(), None);
    assert_eq!(authorized.on_connect_clicked(), None);
    assert!(!authorized.connect_clicked);
    assert_eq!(authorized.on_subscribe_clicked(), None);
    assert_eq!(authorized.on_enable_clicked(false), None);

    let (prompting, _) = CopilotCodeVerification::new(prompting_status());
    assert_eq!(prompting.on_done_clicked(), None);
    assert_eq!(prompting.on_subscribe_clicked(), None);
    assert_eq!(prompting.on_enable_clicked(false), None);
}

#[test]
fn redelivered_status_is_idempotent() {
    let (mut modal, _) = CopilotCodeVerification::new(AuthStatus::Authorized);
    assert_eq!(modal.set_status(AuthStatus::Authorized), None);
    assert_eq!(modal.set_status(AuthStatus::Authorized), None);
    assert!(!modal.connect_clicked);
    assert!(matches!(modal.render(None, true), SignInView::Enabled));
}
