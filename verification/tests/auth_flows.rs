use codex_tui::auth::AuthMode;
use codex_tui::auth::AuthModeWidget;
use codex_tui::auth::DeviceCode;
use codex_tui::auth::FlowRequest;
use codex_tui::auth::ForcedLoginMethod;
use codex_tui::auth::KeyCode;
use codex_tui::auth::KeyEvent;
use codex_tui::auth::LoginStatus;
use codex_tui::auth::SignInOption;
use codex_tui::auth::SignInState;
use codex_tui::auth::StepState;

const API_KEY_DISABLED_MESSAGE: &str = "API key login is disabled.";

fn widget(forced: Option<ForcedLoginMethod>) -> AuthModeWidget {
    AuthModeWidget {
        highlighted_mode: SignInOption::ChatGpt,
        error: None,
        sign_in_state: SignInState::PickMode,
        login_status: LoginStatus::NotAuthenticated,
        forced_login_method: forced,
        use_zh: false,
    }
}

fn widget_forced_chatgpt() -> AuthModeWidget {
    widget(Some(ForcedLoginMethod::Chatgpt))
}

fn press(c: char) -> KeyEvent {
    KeyEvent { code: KeyCode::Char(c), is_press: true, has_command_modifier: false }
}

fn key(code: KeyCode) -> KeyEvent {
    KeyEvent { code, is_press: true, has_command_modifier: false }
}

#[test]
fn api_key_flow_disabled_when_chatgpt_forced() {
    let mut widget = widget_forced_chatgpt();

    widget.start_api_key_entry(None);

    assert_eq!(widget.error.as_deref(), Some(API_KEY_DISABLED_MESSAGE));
    assert!(matches!(widget.sign_in_state, SignInState::PickMode));
}

#[test]
fn saving_api_key_is_blocked_when_chatgpt_forced() {
    let mut widget = widget_forced_chatgpt();

    let eff = widget.save_api_key("sk-test".to_string());

    assert_eq!(widget.error.as_deref(), Some(API_KEY_DISABLED_MESSAGE));
    assert!(matches!(widget.sign_in_state, SignInState::PickMode));
    assert_eq!(widget.login_status, LoginStatus::NotAuthenticated);
    assert_eq!(eff.write_key, None);
}

#[test]
fn options_respect_forced_method() {
    let unrestricted = widget(None);
    assert_eq!(
        unrestricted.displayed_sign_in_options(),
        vec![SignInOption::ChatGpt, SignInOption::DeviceCode, SignInOption::ApiKey]
    );
    assert_eq!(
        unrestricted.selectable_sign_in_options(),
        vec![SignInOption::ChatGpt, SignInOption::DeviceCode, SignInOption::ApiKey]
    );

    let chatgpt_only = widget(Some(ForcedLoginMethod::Chatgpt));
    assert_eq!(
        chatgpt_only.displayed_sign_in_options(),
        vec![SignInOption::ChatGpt, SignInOption::DeviceCode]
    );
    assert_eq!(
        chatgpt_only.selectable_sign_in_options(),
        vec![SignInOption::ChatGpt, SignInOption::DeviceCode]
    );

    let api_only = widget(Some(ForcedLoginMethod::Api));
    assert_eq!(
        api_only.displayed_sign_in_options(),
        vec![SignInOption::ChatGpt, SignInOption::ApiKey]
    );
    assert_eq!(api_only.selectable_sign_in_options(), vec![SignInOption::ApiKey]);
}

#[test]
fn move_highlight_wraps_both_ways() {
    let mut w = widget(None);
    assert_eq!(w.highlighted_mode, SignInOption::ChatGpt);
    w.move_highlight(-1);
    assert_eq!(w.highlighted_mode, SignInOption::ApiKey);
    w.move_highlight(1);
    assert_eq!(w.highlighted_mode, SignInOption::ChatGpt);
    w.move_highlight(1);
    assert_eq!(w.highlighted_mode, SignInOption::DeviceCode);
    w.move_highlight(3);
    assert_eq!(w.highlighted_mode, SignInOption::DeviceCode);
    w.move_highlight(-4);
    assert_eq!(w.highlighted_mode, SignInOption::ChatGpt);
}

#[test]
fn selecting_disallowed_chatgpt_is_rejected() {
    let mut w = widget(Some(ForcedLoginMethod::Api));
    let eff = w.handle_sign_in_option(SignInOption::ChatGpt, None);
    assert!(matches!(w.sign_in_state, SignInState::PickMode));
    assert_eq!(w.error.as_deref(), Some("ChatGPT login is disabled"));
    assert_eq!(w.highlighted_mode, SignInOption::ApiKey);
    assert_eq!(eff.start_flow, None);
    assert_eq!(eff.write_key, None);
}

#[test]
fn empty_api_key_submission_is_rejected_in_place() {
    let mut w = widget(None);
    w.start_api_key_entry(None);
    w.handle_paste("   ".to_string());
    let (handled, eff) = w.handle_api_key_entry_key_event(&key(KeyCode::Enter));
    assert!(handled);
    assert_eq!(w.error.as_deref(), Some("API key cannot be empty"));
    match &w.sign_in_state {
        SignInState::ApiKeyEntry(st) => assert_eq!(st.value, ""),
        _ => panic!("should still be entering the key"),
    }
    assert_eq!(eff.write_key, None);
}

#[test]
fn whitespace_api_key_submission_keeps_buffer() {
    let mut w = widget(None);
    w.start_api_key_entry(None);
    for c in [' ', '\t', ' '] {
        w.handle_key_event(press(c), None);
    }
    let (_, eff) = w.handle_api_key_entry_key_event(&key(KeyCode::Enter));
    assert_eq!(w.error.as_deref(), Some("API key cannot be empty"));
    match &w.sign_in_state {
        SignInState::ApiKeyEntry(st) => assert_eq!(st.value, " \t "),
        _ => panic!("should still be entering the key"),
    }
    assert_eq!(eff.write_key, None);
}

#[test]
fn successful_save_reaches_api_key_configured() {
    let mut w = widget(None);
    w.start_api_key_entry(None);
    w.handle_paste("sk-test".to_string());
    let (_, eff) = w.handle_api_key_entry_key_event(&key(KeyCode::Enter));
    assert_eq!(eff.write_key.as_deref(), Some("sk-test"));

    let done = w.on_api_key_saved("sk-test".to_string(), Ok(()));
    assert!(matches!(w.sign_in_state, SignInState::ApiKeyConfigured));
    assert_eq!(w.error, None);
    assert_eq!(w.login_status, LoginStatus::AuthMode(AuthMode::ApiKey));
    assert!(done.reload_auth);
    assert_eq!(w.get_step_state(), StepState::Complete);
}

#[test]
fn failed_save_returns_to_entry_with_store_error() {
    let mut w = widget(None);
    w.start_api_key_entry(None);
    w.handle_paste("sk-test".to_string());
    let _ = w.handle_api_key_entry_key_event(&key(KeyCode::Enter));
    let eff = w.on_api_key_saved("sk-test".to_string(), Err("disk full".to_string()));
    assert_eq!(w.error.as_deref(), Some("Failed to save API key: disk full"));
    match &w.sign_in_state {
        SignInState::ApiKeyEntry(st) => {
            assert_eq!(st.value, "sk-test");
            assert!(!st.prepopulated_from_env);
        },
        _ => panic!("should be back on the entry screen"),
    }
    assert!(!eff.reload_auth);
    assert_eq!(w.login_status, LoginStatus::NotAuthenticated);
}

#[test]
fn env_prefill_is_replaced_as_one_piece() {
    let mut w = widget(None);
    w.start_api_key_entry(Some("sk-env".to_string()));
    match &w.sign_in_state {
        SignInState::ApiKeyEntry(st) => {
            assert_eq!(st.value, "sk-env");
            assert!(st.prepopulated_from_env);
        },
        _ => panic!("should be entering the key"),
    }
    w.handle_key_event(press('a'), None);
    match &w.sign_in_state {
        SignInState::ApiKeyEntry(st) => {
            assert_eq!(st.value, "a");
            assert!(!st.prepopulated_from_env);
        },
        _ => panic!("should be entering the key"),
    }
}

#[test]
fn backspace_clears_whole_env_prefill() {
    let mut w = widget(None);
    w.start_api_key_entry(Some("sk-env".to_string()));
    w.handle_key_event(key(KeyCode::Backspace), None);
    match &w.sign_in_state {
        SignInState::ApiKeyEntry(st) => {
            assert_eq!(st.value, "");
            assert!(!st.prepopulated_from_env);
        },
        _ => panic!("should be entering the key"),
    }
    w.handle_key_event(press('x'), None);
    w.handle_key_event(press('y'), None);
    w.handle_key_event(key(KeyCode::Backspace), None);
    match &w.sign_in_state {
        SignInState::ApiKeyEntry(st) => assert_eq!(st.value, "x"),
        _ => panic!("should be entering the key"),
    }
}

#[test]
fn paste_appends_to_typed_buffer() {
    let mut w = widget(None);
    w.start_api_key_entry(None);
    w.handle_key_event(press('s'), None);
    w.handle_paste("  k-123  ".to_string());
    match &w.sign_in_state {
        SignInState::ApiKeyEntry(st) => assert_eq!(st.value, "sk-123"),
        _ => panic!("should be entering the key"),
    }
}

#[test]
fn chatgpt_login_short_circuits_when_already_authenticated() {
    let mut w = widget(None);
    w.login_status = LoginStatus::AuthMode(AuthMode::Chatgpt);
    let eff = w.start_chatgpt_login();
    assert!(matches!(w.sign_in_state, SignInState::ChatGptSuccess));
    assert_eq!(eff.start_flow, None);
    assert_eq!(w.get_step_state(), StepState::Complete);
}

#[test]
fn browser_flow_runs_to_acknowledgement() {
    let mut w = widget(None);
    let eff = w.start_chatgpt_login();
    assert_eq!(eff.start_flow, Some(FlowRequest::Browser));
    assert!(matches!(w.sign_in_state, SignInState::PickMode));

    let eff = w.on_browser_flow_started("https://auth.example/device".to_string());
    assert!(eff.redraw);
    match &w.sign_in_state {
        SignInState::ChatGptContinueInBrowser(b) => {
            assert_eq!(b.auth_url, "https://auth.example/device");
            assert!(b.has_shutdown_handle);
        },
        _ => panic!("browser flow should be pending"),
    }
    assert_eq!(w.get_step_state(), StepState::InProgress);

    let eff = w.on_browser_flow_done(Ok(()));
    assert!(eff.reload_auth);
    assert!(eff.shutdown_listener);
    assert!(matches!(w.sign_in_state, SignInState::ChatGptSuccessMessage));

    w.handle_key_event(key(KeyCode::Enter), None);
    assert!(matches!(w.sign_in_state, SignInState::ChatGptSuccess));
}

#[test]
fn browser_start_failure_returns_to_picker_with_error() {
    let mut w = widget(None);
    let _ = w.start_chatgpt_login();
    let eff = w.on_browser_start_failed("address in use".to_string());
    assert!(matches!(w.sign_in_state, SignInState::PickMode));
    assert_eq!(w.error.as_deref(), Some("address in use"));
    assert!(eff.redraw);
}

#[test]
fn browser_failure_after_start_is_silent() {
    let mut w = widget(None);
    let _ = w.start_chatgpt_login();
    let _ = w.on_browser_flow_started("https://auth.example".to_string());
    let eff = w.on_browser_flow_done(Err("token exchange failed".to_string()));
    assert!(matches!(w.sign_in_state, SignInState::PickMode));
    assert_eq!(w.error, None);
    assert!(eff.shutdown_listener);
}

#[test]
fn cancelling_browser_flow_shuts_listener_down_once() {
    let mut w = widget(None);
    let _ = w.start_chatgpt_login();
    let _ = w.on_browser_flow_started("https://auth.example".to_string());

    let first = w.handle_key_event(key(KeyCode::Esc), None);
    assert!(first.shutdown_listener);
    assert!(matches!(w.sign_in_state, SignInState::PickMode));
    assert_eq!(w.error, None);

    let second = w.handle_key_event(key(KeyCode::Esc), None);
    assert!(!second.shutdown_listener);
    assert!(!second.notify_poller_cancel);
    assert!(matches!(w.sign_in_state, SignInState::PickMode));
}

#[test]
fn late_browser_report_after_cancel_is_ignored() {
    let mut w = widget(None);
    let _ = w.start_chatgpt_login();
    let _ = w.on_browser_flow_started("https://auth.example".to_string());
    let _ = w.handle_key_event(key(KeyCode::Esc), None);
    let eff = w.on_browser_flow_done(Ok(()));
    assert!(matches!(w.sign_in_state, SignInState::PickMode));
    assert!(!eff.reload_auth);
    assert!(!eff.redraw);
}

#[test]
fn device_code_flow_cancelled_after_code_arrives() {
    let mut w = widget(None);
    let eff = w.start_device_code_login();
    assert_eq!(eff.start_flow, Some(FlowRequest::Device));
    match &w.sign_in_state {
        SignInState::ChatGptDeviceCode(d) => {
            assert!(d.device_code.is_none());
            assert!(!d.has_cancel);
        },
        _ => panic!("device flow should be pending"),
    }

    let _ = w.on_device_flow_started();
    let _ = w.on_device_code_ready(DeviceCode {
        user_code: "ABCD-1234".to_string(),
        verification_url: "https://auth.example/activate".to_string(),
    });
    match &w.sign_in_state {
        SignInState::ChatGptDeviceCode(d) => {
            assert_eq!(d.device_code.as_ref().map(|c| c.user_code.as_str()), Some("ABCD-1234"));
            assert!(d.has_cancel);
        },
        _ => panic!("device flow should be pending"),
    }

    let first = w.handle_key_event(key(KeyCode::Esc), None);
    assert!(first.notify_poller_cancel);
    assert!(matches!(w.sign_in_state, SignInState::PickMode));

    let second = w.handle_key_event(key(KeyCode::Esc), None);
    assert!(!second.notify_poller_cancel);

    let late = w.on_device_flow_done(Ok(()));
    assert!(!late.reload_auth);
    assert!(matches!(w.sign_in_state, SignInState::PickMode));
}

#[test]
fn switching_to_api_key_entry_releases_poller() {
    let mut w = widget(None);
    let _ = w.start_device_code_login();
    let _ = w.on_device_flow_started();
    let eff = w.handle_key_event(press('3'), None);
    assert!(eff.notify_poller_cancel);
    assert!(!eff.shutdown_listener);
    assert!(matches!(w.sign_in_state, SignInState::ApiKeyEntry(_)));
}

#[test]
fn switching_to_browser_flow_releases_poller() {
    let mut w = widget(None);
    let _ = w.start_device_code_login();
    let _ = w.on_device_flow_started();
    let eff = w.handle_key_event(press('1'), None);
    assert!(eff.notify_poller_cancel);
    assert_eq!(eff.start_flow, Some(FlowRequest::Browser));
    assert!(matches!(w.sign_in_state, SignInState::PickMode));
}

#[test]
fn restarting_device_flow_releases_old_poller() {
    let mut w = widget(None);
    let _ = w.start_device_code_login();
    let _ = w.on_device_flow_started();
    let eff = w.handle_key_event(press('2'), None);
    assert!(eff.notify_poller_cancel);
    assert_eq!(eff.start_flow, Some(FlowRequest::Device));
    match &w.sign_in_state {
        SignInState::ChatGptDeviceCode(d) => {
            assert!(d.device_code.is_none());
            assert!(!d.has_cancel);
        },
        _ => panic!("the new device flow should be pending"),
    }
}

#[test]
fn device_code_flow_succeeds_like_browser_flow() {
    let mut w = widget(None);
    let _ = w.start_device_code_login();
    let _ = w.on_device_flow_started();
    let eff = w.on_device_flow_done(Ok(()));
    assert!(eff.reload_auth);
    assert!(matches!(w.sign_in_state, SignInState::ChatGptSuccessMessage));
}

#[test]
fn device_code_expiry_reports_error() {
    let mut w = widget(None);
    let _ = w.start_device_code_login();
    let _ = w.on_device_flow_started();
    let _ = w.on_device_flow_done(Err("The code expired.".to_string()));
    assert!(matches!(w.sign_in_state, SignInState::PickMode));
    assert_eq!(w.error.as_deref(), Some("The code expired."));
}

#[test]
fn forced_api_key_end_to_end() {
    let mut w = widget(Some(ForcedLoginMethod::Api));

    let eff = w.handle_sign_in_option(SignInOption::ChatGpt, None);
    assert!(matches!(w.sign_in_state, SignInState::PickMode));
    assert_eq!(w.error.as_deref(), Some("ChatGPT login is disabled"));
    assert_eq!(eff.start_flow, None);

    let _ = w.handle_sign_in_option(SignInOption::ApiKey, None);
    assert!(matches!(w.sign_in_state, SignInState::ApiKeyEntry(_)));
    for c in "sk-test".chars() {
        w.handle_key_event(press(c), None);
    }
    let eff = w.handle_key_event(key(KeyCode::Enter), None);
    assert_eq!(eff.write_key.as_deref(), Some("sk-test"));

    let _ = w.on_api_key_saved("sk-test".to_string(), Ok(()));
    assert!(matches!(w.sign_in_state, SignInState::ApiKeyConfigured));
    assert_eq!(w.error, None);
}

#[test]
fn number_keys_select_displayed_options() {
    let mut w = widget(None);
    let eff = w.handle_key_event(press('3'), Some("sk-env".to_string()));
    assert!(matches!(w.sign_in_state, SignInState::ApiKeyEntry(_)));
    assert!(eff.redraw);
    match &w.sign_in_state {
        SignInState::ApiKeyEntry(st) => {
            assert_eq!(st.value, "sk-env");
            assert!(st.prepopulated_from_env);
        },
        _ => panic!("should be entering the key"),
    }
}

#[test]
fn escape_leaves_api_key_entry() {
    let mut w = widget(None);
    w.start_api_key_entry(None);
    w.handle_key_event(press('x'), None);
    let eff = w.handle_key_event(key(KeyCode::Esc), None);
    assert!(matches!(w.sign_in_state, SignInState::PickMode));
    assert_eq!(w.error, None);
    assert!(eff.redraw);
}

#[test]
fn teardown_releases_live_task() {
    let mut w = widget(None);
    let _ = w.start_chatgpt_login();
    let _ = w.on_browser_flow_started("https://auth.example".to_string());
    let eff = w.teardown();
    assert!(eff.shutdown_listener);
    assert!(!eff.notify_poller_cancel);

    let mut w = widget(None);
    let _ = w.start_device_code_login();
    let _ = w.on_device_flow_started();
    let eff = w.teardown();
    assert!(eff.notify_poller_cancel);
    assert!(!eff.shutdown_listener);
}

#[test]
fn localized_rejection_message_in_chinese() {
    let mut w = widget_forced_chatgpt();
    w.use_zh = true;
    w.start_api_key_entry(None);
    assert_eq!(w.error.as_deref(), Some("API key 登录已禁用。"));
}
