//! The sign-in state machine and its flow driver.
//!
//! One instance exists per login attempt. The foreground feeds it key
//! events; background tasks (the browser-flow listener and the device-code
//! poller) feed it their reports through the `on_*` entry points. Every
//! entry point mutates the machine and returns an [`Effects`] value naming
//! the side effects the host must now run: schedule a redraw, start a
//! background flow, shut the listener down, signal the poller's
//! cancellation, write a credential, or reload the credential cache.
//!
//! The host owns the actual resources (the listener's shutdown handle, the
//! poller's cancellation notification). The machine tracks only whether the
//! current state holds such a resource, and every transition that replaces
//! a resource-holding state reports its release in the returned effects —
//! the listener's shutdown, the poller's cancellation — so each resource is
//! released exactly once however its state is left: by success, by
//! cancellation, or by being replaced when another flow is chosen.
//!
//! A background task's report is acted on only if the machine is still in
//! the state that task belongs to: a report that lost a race against a
//! user-initiated cancellation finds another state and leaves it alone.

use vstd::prelude::*;

verus! {

use crate::text::trim_spec;

/// The administratively forced login method, where one is configured.
#[derive(Clone, Copy, Debug, PartialEq, Eq, Structural)]
pub enum ForcedLoginMethod {
    Chatgpt,
    Api,
}

/// How the session is authenticated.
#[derive(Clone, Copy, Debug, PartialEq, Eq, Structural)]
pub enum AuthMode {
    ApiKey,
    Chatgpt,
}

/// The session's authentication status when the widget was created.
#[derive(Clone, Copy, Debug, PartialEq, Eq, Structural)]
pub enum LoginStatus {
    NotAuthenticated,
    AuthMode(AuthMode),
}

/// One of the sign-in strategies offered on the picker screen.
#[derive(Clone, Copy, Debug, PartialEq, Eq, Structural)]
pub enum SignInOption {
    ChatGpt,
    DeviceCode,
    ApiKey,
}

/// The text buffer of the API-key entry screen.
#[derive(Clone, Debug)]
pub struct ApiKeyInputState {
    pub value: String,
    /// True only while `value` is still, verbatim, the key found in the
    /// environment; any edit clears it.
    pub prepopulated_from_env: bool,
}

/// The browser flow is pending: a local callback listener is running.
///
/// The listener's shutdown handle itself lives with the host;
/// `has_shutdown_handle` records whether the host holds one for this state.
#[derive(Clone, Debug)]
pub struct ContinueInBrowserState {
    pub auth_url: String,
    pub has_shutdown_handle: bool,
}

/// The one-time code the device-code flow shows the user.
#[derive(Clone, Debug)]
pub struct DeviceCode {
    pub user_code: String,
    pub verification_url: String,
}

/// The device-code flow is pending: a poller is running.
///
/// `device_code` is absent until the remote service has issued one.
/// `has_cancel` records whether the host holds a cancellation notification
/// for this state.
#[derive(Clone, Debug)]
pub struct ContinueWithDeviceCodeState {
    pub device_code: Option<DeviceCode>,
    pub has_cancel: bool,
}

/// The sign-in screen's state: exactly one variant is current at a time.
#[derive(Clone, Debug)]
pub enum SignInState {
    PickMode,
    ChatGptContinueInBrowser(ContinueInBrowserState),
    ChatGptDeviceCode(ContinueWithDeviceCodeState),
    ChatGptSuccessMessage,
    ChatGptSuccess,
    ApiKeyEntry(ApiKeyInputState),
    ApiKeyConfigured,
}

/// Whether the sign-in step is still interactive or finished.
#[derive(Clone, Copy, Debug, PartialEq, Eq, Structural)]
pub enum StepState {
    InProgress,
    Complete,
}

/// The keys the sign-in screens react to, already decoded from the
/// terminal's own event type.
#[derive(Clone, Copy, Debug, PartialEq, Eq, Structural)]
pub enum KeyCode {
    Up,
    Down,
    Enter,
    Esc,
    Backspace,
    Char(char),
    Other,
}

/// A key event: the key, whether this is a press (rather than a repeat or
/// release), and whether a command modifier (control, alt or super) was
/// held.
#[derive(Clone, Copy, Debug, PartialEq, Eq, Structural)]
pub struct KeyEvent {
    pub code: KeyCode,
    pub is_press: bool,
    pub has_command_modifier: bool,
}

/// A background flow the host is asked to start.
#[derive(Clone, Copy, Debug, PartialEq, Eq, Structural)]
pub enum FlowRequest {
    Browser,
    Device,
}

/// The side effects an entry point asks the host to run.
///
/// The machine itself touches nothing outside its own fields; everything
/// with a lifetime beyond the call is reported here.
#[derive(Clone, Debug)]
pub struct Effects {
    /// Schedule a redraw of the screen.
    pub redraw: bool,
    /// Tell the browser-flow listener to shut down.
    pub shutdown_listener: bool,
    /// Signal the device-code poller's cancellation notification.
    pub notify_poller_cancel: bool,
    /// Start this background flow.
    pub start_flow: Option<FlowRequest>,
    /// Hand this API key to the credential store, then report the result
    /// through [`AuthModeWidget::on_api_key_saved`].
    pub write_key: Option<String>,
    /// Reload the credential cache so the new credential is seen.
    pub reload_auth: bool,
}

impl Effects {
    /// No effect at all.
    pub open spec fn is_quiet(self) -> bool {
        &&& !self.redraw
        &&& !self.shutdown_listener
        &&& !self.notify_poller_cancel
        &&& self.start_flow is None
        &&& self.write_key is None
        &&& !self.reload_auth
    }

    /// No background work is started or finished: no flow is begun, no key
    /// is written, nothing is released.
    pub open spec fn no_background_work(self) -> bool {
        &&& !self.shutdown_listener
        &&& !self.notify_poller_cancel
        &&& self.start_flow is None
        &&& self.write_key is None
        &&& !self.reload_auth
    }

    fn quiet() -> (e: Effects)
        ensures
            e.is_quiet(),
    {
        Effects {
            redraw: false,
            shutdown_listener: false,
            notify_poller_cancel: false,
            start_flow: None,
            write_key: None,
            reload_auth: false,
        }
    }

    fn redraw_only() -> (e: Effects)
        ensures
            e.redraw,
            e.no_background_work(),
    {
        Effects { redraw: true, ..Effects::quiet() }
    }
}

/// Replacing this state must shut the listener down: it is the pending
/// browser flow and the host holds a shutdown handle for it.
pub open spec fn releases_listener(s: SignInState) -> bool {
    s matches SignInState::ChatGptContinueInBrowser(b) && b.has_shutdown_handle
}

/// This state is the pending device-code flow and the host holds a
/// cancellation notification for it.
pub open spec fn holds_poller_cancel(s: SignInState) -> bool {
    s matches SignInState::ChatGptDeviceCode(d) && d.has_cancel
}

/// API-key login is allowed unless ChatGPT login is forced.
pub open spec fn api_login_allowed_spec(forced: Option<ForcedLoginMethod>) -> bool {
    !(forced matches Some(m) && m is Chatgpt)
}

/// ChatGPT login (browser or device code) is allowed unless API-key login
/// is forced.
pub open spec fn chatgpt_login_allowed_spec(forced: Option<ForcedLoginMethod>) -> bool {
    !(forced matches Some(m) && m is Api)
}

/// Is this option allowed under the forced method?
pub open spec fn option_allowed_spec(
    option: SignInOption,
    forced: Option<ForcedLoginMethod>,
) -> bool {
    match option {
        SignInOption::ChatGpt => chatgpt_login_allowed_spec(forced),
        SignInOption::DeviceCode => chatgpt_login_allowed_spec(forced),
        SignInOption::ApiKey => api_login_allowed_spec(forced),
    }
}

/// The options shown on the picker screen, in order. The ChatGPT entry is
/// always shown, even when disabled, so the disablement can be explained.
pub open spec fn displayed_options_spec(forced: Option<ForcedLoginMethod>) -> Seq<SignInOption> {
    seq![SignInOption::ChatGpt] + (if chatgpt_login_allowed_spec(forced) {
        seq![SignInOption::DeviceCode]
    } else {
        Seq::empty()
    }) + (if api_login_allowed_spec(forced) {
        seq![SignInOption::ApiKey]
    } else {
        Seq::empty()
    })
}

/// The options the highlight can move over, in order: exactly the allowed
/// ones.
pub open spec fn selectable_options_spec(forced: Option<ForcedLoginMethod>) -> Seq<SignInOption> {
    (if chatgpt_login_allowed_spec(forced) {
        seq![SignInOption::ChatGpt, SignInOption::DeviceCode]
    } else {
        Seq::empty()
    }) + (if api_login_allowed_spec(forced) {
        seq![SignInOption::ApiKey]
    } else {
        Seq::empty()
    })
}

/// The first allowed option: where the highlight is reset after a
/// disallowed selection.
pub open spec fn first_selectable_spec(forced: Option<ForcedLoginMethod>) -> SignInOption {
    if chatgpt_login_allowed_spec(forced) {
        SignInOption::ChatGpt
    } else {
        SignInOption::ApiKey
    }
}

/// The index of the first occurrence of `o` in `opts`; `opts.len()` if
/// absent.
pub open spec fn first_index_of(opts: Seq<SignInOption>, o: SignInOption) -> int
    decreases opts.len(),
{
    if opts.len() == 0 {
        0
    } else if opts[0] == o {
        0
    } else {
        1 + first_index_of(opts.drop_first(), o)
    }
}

/// Where the highlight is taken to stand in `opts`: its position, or the
/// first option if it is not among them.
pub open spec fn position_or_zero(opts: Seq<SignInOption>, o: SignInOption) -> int {
    if opts.contains(o) {
        first_index_of(opts, o)
    } else {
        0
    }
}

/// The highlight after moving `delta` steps over the selectable options,
/// wrapping in both directions.
pub open spec fn moved_highlight_spec(
    forced: Option<ForcedLoginMethod>,
    cur: SignInOption,
    delta: int,
) -> SignInOption {
    let opts = selectable_options_spec(forced);
    if opts.len() == 0 {
        cur
    } else {
        opts[(position_or_zero(opts, cur) + delta) % (opts.len() as int)]
    }
}

proof fn lemma_first_index_of(opts: Seq<SignInOption>, o: SignInOption, i: int)
    requires
        0 <= i < opts.len(),
        opts[i] == o,
        forall|j: int| 0 <= j < i ==> opts[j] != o,
    ensures
        opts.contains(o),
        first_index_of(opts, o) == i,
    decreases i,
{
    assert(opts.contains(o));
    if i > 0 {
        let rest = opts.drop_first();
        assert(rest[i - 1] == opts[i]);
        assert forall|j: int| 0 <= j < i - 1 implies rest[j] != o by {
            assert(rest[j] == opts[j + 1]);
        }
        lemma_first_index_of(rest, o, i - 1);
    }
}

/// Find the highlight's position among the options.
fn position_of(options: &Vec<SignInOption>, o: SignInOption) -> (r: usize)
    ensures
        r as int == position_or_zero(options@, o),
        options@.len() > 0 ==> (r as int) < options@.len(),
{
    let mut i: usize = 0;
    while i < options.len()
        invariant
            0 <= i <= options@.len(),
            forall|j: int| 0 <= j < i ==> options@[j] != o,
        decreases options@.len() - i,
    {
        if options[i] == o {
            proof {
                lemma_first_index_of(options@, o, i as int);
            }
            return i;
        }
        i += 1;
    }
    proof {
        assert(!options@.contains(o));
    }
    0
}

/// The widget driving the sign-in flow.
///
/// The host reads `sign_in_state` and `error` to render; it mutates the
/// widget only through the entry points below.
#[derive(Clone, Debug)]
pub struct AuthModeWidget {
    pub highlighted_mode: SignInOption,
    pub error: Option<String>,
    pub sign_in_state: SignInState,
    pub login_status: LoginStatus,
    pub forced_login_method: Option<ForcedLoginMethod>,
    /// Show the Chinese interface strings.
    pub use_zh: bool,
}

/// The message shown when API-key login is selected but disabled.
pub open spec fn api_key_disabled_message_spec(zh: bool) -> Seq<char> {
    if zh {
        "API key 登录已禁用。"@
    } else {
        "API key login is disabled."@
    }
}

/// The message shown when ChatGPT login is selected but disabled.
pub open spec fn chatgpt_disabled_message_spec(zh: bool) -> Seq<char> {
    if zh {
        "ChatGPT 登录已禁用"@
    } else {
        "ChatGPT login is disabled"@
    }
}

/// The message shown when an empty API key is submitted.
pub open spec fn empty_key_message_spec(zh: bool) -> Seq<char> {
    if zh {
        "API key 不能为空"@
    } else {
        "API key cannot be empty"@
    }
}

/// The prefix of the message shown when the credential store write fails.
pub open spec fn save_failed_prefix_spec(zh: bool) -> Seq<char> {
    if zh {
        "保存 API key 失败："@
    } else {
        "Failed to save API key:"@
    }
}

/// The whole message shown when the credential store write fails: the
/// prefix, a space, and the store's own error text verbatim.
pub open spec fn save_failed_message_spec(zh: bool, err: Seq<char>) -> Seq<char> {
    save_failed_prefix_spec(zh) + seq![' '] + err
}

fn api_key_disabled_message(zh: bool) -> (r: String)
    ensures
        r@ == api_key_disabled_message_spec(zh),
{
    String::from_str(crate::i18n::tr("API key login is disabled.", "API key 登录已禁用。", zh))
}

fn chatgpt_disabled_message(zh: bool) -> (r: String)
    ensures
        r@ == chatgpt_disabled_message_spec(zh),
{
    String::from_str(crate::i18n::tr("ChatGPT login is disabled", "ChatGPT 登录已禁用", zh))
}

fn empty_key_message(zh: bool) -> (r: String)
    ensures
        r@ == empty_key_message_spec(zh),
{
    String::from_str(crate::i18n::tr("API key cannot be empty", "API key 不能为空", zh))
}

fn save_failed_message(zh: bool, err: &str) -> (r: String)
    ensures
        r@ == save_failed_message_spec(zh, err@),
{
    let mut r = String::from_str(
        crate::i18n::tr("Failed to save API key:", "保存 API key 失败：", zh),
    );
    r.append(" ");
    r.append(err);
    proof {
        reveal_strlit(" ");
        assert(save_failed_prefix_spec(zh) + " "@ + err@ =~= save_failed_message_spec(zh, err@));
    }
    r
}

impl AuthModeWidget {
    /// Only the sign-in state changed; policy, status and language did not.
    pub open spec fn same_but_state(self, old: AuthModeWidget) -> bool {
        &&& self.login_status == old.login_status
        &&& self.forced_login_method == old.forced_login_method
        &&& self.use_zh == old.use_zh
    }

    /// Nothing about the widget changed.
    pub open spec fn unchanged(self, old: AuthModeWidget) -> bool {
        &&& self.same_but_state(old)
        &&& self.highlighted_mode == old.highlighted_mode
        &&& self.error == old.error
        &&& self.sign_in_state == old.sign_in_state
    }

    pub fn is_api_login_allowed(&self) -> (r: bool)
        ensures
            r == api_login_allowed_spec(self.forced_login_method),
    {
        !matches!(self.forced_login_method, Some(ForcedLoginMethod::Chatgpt))
    }

    pub fn is_chatgpt_login_allowed(&self) -> (r: bool)
        ensures
            r == chatgpt_login_allowed_spec(self.forced_login_method),
    {
        !matches!(self.forced_login_method, Some(ForcedLoginMethod::Api))
    }

    /// The options shown on the picker screen, in order.
    pub fn displayed_sign_in_options(&self) -> (r: Vec<SignInOption>)
        ensures
            r@ == displayed_options_spec(self.forced_login_method),
    {
        let mut options: Vec<SignInOption> = Vec::new();
        options.push(SignInOption::ChatGpt);
        if self.is_chatgpt_login_allowed() {
            options.push(SignInOption::DeviceCode);
        }
        if self.is_api_login_allowed() {
            options.push(SignInOption::ApiKey);
        }
        proof {
            assert(options@ =~= displayed_options_spec(self.forced_login_method));
        }
        options
    }

    /// The options the highlight can move over, in order.
    pub fn selectable_sign_in_options(&self) -> (r: Vec<SignInOption>)
        ensures
            r@ == selectable_options_spec(self.forced_login_method),
    {
        let mut options: Vec<SignInOption> = Vec::new();
        if self.is_chatgpt_login_allowed() {
            options.push(SignInOption::ChatGpt);
            options.push(SignInOption::DeviceCode);
        }
        if self.is_api_login_allowed() {
            options.push(SignInOption::ApiKey);
        }
        proof {
            assert(options@ =~= selectable_options_spec(self.forced_login_method));
        }
        options
    }

    /// Which resources the current state holds: what replacing it must
    /// release.
    fn held_resources(&self) -> (r: (bool, bool))
        ensures
            r.0 == releases_listener(self.sign_in_state),
            r.1 == holds_poller_cancel(self.sign_in_state),
    {
        let released = matches!(
            &self.sign_in_state,
            SignInState::ChatGptContinueInBrowser(ContinueInBrowserState {
                has_shutdown_handle: true,
                ..
            })
        );
        let notify = matches!(
            &self.sign_in_state,
            SignInState::ChatGptDeviceCode(ContinueWithDeviceCodeState { has_cancel: true, .. })
        );
        (released, notify)
    }

    /// What rejecting a disallowed API-key selection does: back to the
    /// picker, the highlight reset to an allowed option, the disablement
    /// explained, and no background task started or key written. Whatever
    /// pending flow the replaced state held is released.
    pub open spec fn disallow_api_rel(pre: AuthModeWidget, post: AuthModeWidget, eff: Effects) -> bool {
        &&& post.highlighted_mode == SignInOption::ChatGpt
        &&& post.error matches Some(e) && e@ == api_key_disabled_message_spec(pre.use_zh)
        &&& post.sign_in_state is PickMode
        &&& post.same_but_state(pre)
        &&& eff.redraw
        &&& eff.shutdown_listener == releases_listener(pre.sign_in_state)
        &&& eff.notify_poller_cancel == holds_poller_cancel(pre.sign_in_state)
        &&& eff.start_flow is None
        &&& eff.write_key is None
        &&& !eff.reload_auth
    }

    /// Reject a disallowed API-key selection.
    pub fn disallow_api_login(&mut self) -> (eff: Effects)
        ensures
            AuthModeWidget::disallow_api_rel(*old(self), *final (self), eff),
    {
        self.highlighted_mode = SignInOption::ChatGpt;
        self.error = Some(api_key_disabled_message(self.use_zh));
        let (released, notify) = self.held_resources();
        self.sign_in_state = SignInState::PickMode;
        Effects {
            redraw: true,
            shutdown_listener: released,
            notify_poller_cancel: notify,
            ..Effects::quiet()
        }
    }

    /// What rejecting a disallowed ChatGPT or device-code selection does,
    /// symmetrically.
    pub open spec fn disallow_chatgpt_rel(
        pre: AuthModeWidget,
        post: AuthModeWidget,
        eff: Effects,
    ) -> bool {
        &&& post.highlighted_mode == SignInOption::ApiKey
        &&& post.error matches Some(e) && e@ == chatgpt_disabled_message_spec(pre.use_zh)
        &&& post.sign_in_state is PickMode
        &&& post.same_but_state(pre)
        &&& eff.redraw
        &&& eff.shutdown_listener == releases_listener(pre.sign_in_state)
        &&& eff.notify_poller_cancel == holds_poller_cancel(pre.sign_in_state)
        &&& eff.start_flow is None
        &&& eff.write_key is None
        &&& !eff.reload_auth
    }

    /// Reject a disallowed ChatGPT or device-code selection.
    pub fn disallow_chatgpt_login(&mut self) -> (eff: Effects)
        ensures
            AuthModeWidget::disallow_chatgpt_rel(*old(self), *final (self), eff),
    {
        self.highlighted_mode = SignInOption::ApiKey;
        self.error = Some(chatgpt_disabled_message(self.use_zh));
        let (released, notify) = self.held_resources();
        self.sign_in_state = SignInState::PickMode;
        Effects {
            redraw: true,
            shutdown_listener: released,
            notify_poller_cancel: notify,
            ..Effects::quiet()
        }
    }

    /// Move the highlight `delta` steps over the selectable options,
    /// wrapping in both directions. Nothing else changes and no background
    /// work is started.
    pub fn move_highlight(&mut self, delta: isize) -> (eff: Effects)
        ensures
            AuthModeWidget::move_rel(*old(self), *final (self), eff, delta as int),
    {
        let options = self.selectable_sign_in_options();
        let len = options.len();
        if len == 0 {
            return Effects::quiet();
        }
        let cur = position_of(&options, self.highlighted_mode);
        let step: usize = if delta >= 0 {
            (delta as usize) % len
        } else {
            let mag: usize = ((-(delta + 1)) as usize) + 1;
            (len - (mag % len)) % len
        };
        let next = (cur + step) % len;
        proof {
            let l = len as int;
            let p = position_or_zero(options@, self.highlighted_mode);
            let d = delta as int;
            assert(0 <= p < l);
            if d >= 0 {
                vstd::arithmetic::div_mod::lemma_mod_pos_bound(d, l);
                vstd::arithmetic::div_mod::lemma_add_mod_noop_right(p, d, l);
            } else {
                let mag_i = -d;
                vstd::arithmetic::div_mod::lemma_mod_pos_bound(mag_i, l);
                vstd::arithmetic::div_mod::lemma_sub_mod_noop_right(p, mag_i, l);
                if mag_i % l == 0 {
                    vstd::arithmetic::div_mod::lemma_mod_self_0(l);
                    vstd::arithmetic::div_mod::lemma_small_mod(p as nat, l as nat);
                    assert((p - mag_i) % l == p % l);
                    assert(step as int == 0);
                } else {
                    vstd::arithmetic::div_mod::lemma_small_mod((l - mag_i % l) as nat, l as nat);
                    assert(step as int == l - mag_i % l);
                    vstd::arithmetic::div_mod::lemma_mod_add_multiples_vanish(p - mag_i % l, l);
                    assert((l + (p - mag_i % l)) % l == (p - mag_i % l) % l);
                    assert(next as int == (p + step as int) % l);
                    assert(p + step as int == l + (p - mag_i % l));
                }
            }
            assert(next as int == (p + d) % l);
        }
        self.highlighted_mode = options[next];
        Effects::quiet()
    }

    /// What cancelling (the escape action) does: from a pending flow, back
    /// to the picker, releasing exactly that flow's resource; elsewhere a
    /// no-op. The error text is left alone: cancellation is not an error.
    pub open spec fn cancel_rel(pre: AuthModeWidget, post: AuthModeWidget, eff: Effects) -> bool {
        match pre.sign_in_state {
            SignInState::ChatGptContinueInBrowser(b) => {
                &&& post.sign_in_state is PickMode
                &&& post.same_but_state(pre)
                &&& post.error == pre.error
                &&& post.highlighted_mode == pre.highlighted_mode
                &&& eff.redraw
                &&& eff.shutdown_listener == b.has_shutdown_handle
                &&& !eff.notify_poller_cancel
                &&& eff.start_flow is None
                &&& eff.write_key is None
                &&& !eff.reload_auth
            },
            SignInState::ChatGptDeviceCode(d) => {
                &&& post.sign_in_state is PickMode
                &&& post.same_but_state(pre)
                &&& post.error == pre.error
                &&& post.highlighted_mode == pre.highlighted_mode
                &&& eff.redraw
                &&& !eff.shutdown_listener
                &&& eff.notify_poller_cancel == d.has_cancel
                &&& eff.start_flow is None
                &&& eff.write_key is None
                &&& !eff.reload_auth
            },
            _ => post.unchanged(pre) && eff.is_quiet(),
        }
    }

    /// Cancel the pending flow, if one is pending.
    pub fn cancel(&mut self) -> (eff: Effects)
        ensures
            AuthModeWidget::cancel_rel(*old(self), *final (self), eff),
    {
        match &self.sign_in_state {
            SignInState::ChatGptContinueInBrowser(b) => {
                let released = b.has_shutdown_handle;
                self.sign_in_state = SignInState::PickMode;
                Effects { redraw: true, shutdown_listener: released, ..Effects::quiet() }
            },
            SignInState::ChatGptDeviceCode(d) => {
                let notify = d.has_cancel;
                self.sign_in_state = SignInState::PickMode;
                Effects { redraw: true, notify_poller_cancel: notify, ..Effects::quiet() }
            },
            _ => Effects::quiet(),
        }
    }
}

/// The state is the API-key entry screen with this buffer and prefill flag.
pub open spec fn entry_with(s: SignInState, value: Seq<char>, prefilled: bool) -> bool {
    s matches SignInState::ApiKeyEntry(st) && st.value@ == value && st.prepopulated_from_env
        == prefilled
}

impl AuthModeWidget {
    /// What opening the API-key entry screen does. When it is allowed: the
    /// error is cleared and the entry screen comes up, prepopulated from
    /// the environment-supplied key only when its buffer would otherwise be
    /// empty; an entry screen already holding text is left as it is. When
    /// disallowed, the selection is rejected.
    pub open spec fn start_api_key_entry_rel(
        pre: AuthModeWidget,
        post: AuthModeWidget,
        eff: Effects,
        prefill: Option<Seq<char>>,
    ) -> bool {
        if !api_login_allowed_spec(pre.forced_login_method) {
            AuthModeWidget::disallow_api_rel(pre, post, eff)
        } else {
            &&& post.same_but_state(pre)
            &&& post.error is None
            &&& post.highlighted_mode == pre.highlighted_mode
            &&& match pre.sign_in_state {
                SignInState::ApiKeyEntry(st) => {
                    if st.value@.len() == 0 {
                        match prefill {
                            Some(p) => entry_with(post.sign_in_state, p, true),
                            None => entry_with(post.sign_in_state, st.value@, false),
                        }
                    } else {
                        entry_with(post.sign_in_state, st.value@, st.prepopulated_from_env)
                    }
                },
                _ => match prefill {
                    Some(p) => entry_with(post.sign_in_state, p, true),
                    None => entry_with(post.sign_in_state, Seq::empty(), false),
                },
            }
            &&& eff.redraw
            &&& eff.shutdown_listener == releases_listener(pre.sign_in_state)
            &&& eff.notify_poller_cancel == holds_poller_cancel(pre.sign_in_state)
            &&& eff.start_flow is None
            &&& eff.write_key is None
            &&& !eff.reload_auth
        }
    }

    /// Open the API-key entry screen, unless API-key login is disallowed.
    ///
    /// `prefill_from_env` is the environment-supplied key, if the host found
    /// one; it only prepopulates the buffer and is never submitted by
    /// itself.
    pub fn start_api_key_entry(&mut self, prefill_from_env: Option<String>) -> (eff: Effects)
        ensures
            AuthModeWidget::start_api_key_entry_rel(
                *old(self),
                *final (self),
                eff,
                match prefill_from_env {
                    Some(p) => Some(p@),
                    None => None,
                },
            ),
    {
        if !self.is_api_login_allowed() {
            return self.disallow_api_login();
        }
        self.error = None;
        let (released, notify) = self.held_resources();
        let mut replace_with: Option<ApiKeyInputState> = None;
        match &mut self.sign_in_state {
            SignInState::ApiKeyEntry(state) => {
                if state.value.as_str().unicode_len() == 0 {
                    match prefill_from_env {
                        Some(p) => {
                            state.value = p;
                            state.prepopulated_from_env = true;
                        },
                        None => {
                            state.prepopulated_from_env = false;
                        },
                    }
                }
            },
            _ => {
                replace_with = Some(
                    match prefill_from_env {
                        Some(p) => ApiKeyInputState { value: p, prepopulated_from_env: true },
                        None => ApiKeyInputState {
                            value: String::new(),
                            prepopulated_from_env: false,
                        },
                    },
                );
            },
        }
        if let Some(st) = replace_with {
            self.sign_in_state = SignInState::ApiKeyEntry(st);
        }
        Effects {
            redraw: true,
            shutdown_listener: released,
            notify_poller_cancel: notify,
            ..Effects::quiet()
        }
    }

    /// Ask the credential store to record this key, unless API-key login is
    /// disallowed. The host performs the write named in the effects and
    /// reports back through [`AuthModeWidget::on_api_key_saved`].
    pub fn save_api_key(&mut self, api_key: String) -> (eff: Effects)
        ensures
            !api_login_allowed_spec(old(self).forced_login_method) ==> AuthModeWidget::disallow_api_rel(
                *old(self),
                *final (self),
                eff,
            ),
            api_login_allowed_spec(old(self).forced_login_method) ==> {
                &&& final (self).unchanged(*old(self))
                &&& eff.write_key matches Some(k) && k@ == api_key@
                &&& !eff.redraw
                &&& !eff.shutdown_listener
                &&& !eff.notify_poller_cancel
            },
            eff.start_flow is None,
            !eff.reload_auth,
    {
        if !self.is_api_login_allowed() {
            return self.disallow_api_login();
        }
        Effects { write_key: Some(api_key), ..Effects::quiet() }
    }

    /// Act on the credential store's answer to a key write.
    ///
    /// On success the flow is finished: the error is cleared, the session is
    /// recorded as API-key authenticated, the credential cache is reloaded
    /// and the state becomes `ApiKeyConfigured`. On failure the user is
    /// returned to the entry screen with the attempted key restored if the
    /// buffer was otherwise empty, and the store's error text is shown.
    pub fn on_api_key_saved(&mut self, api_key: String, result: Result<(), String>) -> (eff:
        Effects)
        ensures
            final (self).forced_login_method == old(self).forced_login_method,
            final (self).use_zh == old(self).use_zh,
            final (self).highlighted_mode == old(self).highlighted_mode,
            eff.redraw,
            eff.shutdown_listener == releases_listener(old(self).sign_in_state),
            eff.notify_poller_cancel == holds_poller_cancel(old(self).sign_in_state),
            eff.start_flow is None,
            eff.write_key is None,
            result is Ok ==> {
                &&& final (self).error is None
                &&& final (self).login_status == LoginStatus::AuthMode(AuthMode::ApiKey)
                &&& final (self).sign_in_state is ApiKeyConfigured
                &&& eff.reload_auth
            },
            result matches Err(e) ==> {
                &&& final (self).error matches Some(m) && m@ == save_failed_message_spec(
                    old(self).use_zh,
                    e@,
                )
                &&& final (self).login_status == old(self).login_status
                &&& !eff.reload_auth
                &&& match old(self).sign_in_state {
                    SignInState::ApiKeyEntry(st) => {
                        if st.value@.len() == 0 {
                            entry_with(final (self).sign_in_state, api_key@, false)
                        } else {
                            entry_with(final (self).sign_in_state, st.value@, false)
                        }
                    },
                    _ => entry_with(final (self).sign_in_state, api_key@, false),
                }
            },
    {
        let (released, notify) = self.held_resources();
        match result {
            Ok(_) => {
                self.error = None;
                self.login_status = LoginStatus::AuthMode(AuthMode::ApiKey);
                self.sign_in_state = SignInState::ApiKeyConfigured;
                Effects {
                    redraw: true,
                    shutdown_listener: released,
                    notify_poller_cancel: notify,
                    reload_auth: true,
                    ..Effects::quiet()
                }
            },
            Err(err) => {
                self.error = Some(save_failed_message(self.use_zh, err.as_str()));
                let mut replace = true;
                match &mut self.sign_in_state {
                    SignInState::ApiKeyEntry(existing) => {
                        if existing.value.as_str().unicode_len() == 0 {
                            existing.value = api_key.clone();
                        }
                        existing.prepopulated_from_env = false;
                        replace = false;
                    },
                    _ => {},
                }
                if replace {
                    self.sign_in_state = SignInState::ApiKeyEntry(
                        ApiKeyInputState { value: api_key, prepopulated_from_env: false },
                    );
                }
                Effects {
                    redraw: true,
                    shutdown_listener: released,
                    notify_poller_cancel: notify,
                    ..Effects::quiet()
                }
            },
        }
    }

    /// What a key does while the API-key entry screen is up.
    ///
    /// Escape goes back to the picker. Enter submits the trimmed buffer: an
    /// empty result only sets an error and changes nothing else; otherwise
    /// the write is requested as in [`AuthModeWidget::save_api_key`].
    /// Backspace deletes one character, or the whole buffer in one step if
    /// it was an untouched environment prefill; typing a character appends,
    /// replacing such a prefill. Any edit clears the error. When that
    /// screen is not up, nothing happens and the event is not consumed.
    pub open spec fn api_entry_key_rel(
        pre: AuthModeWidget,
        post: AuthModeWidget,
        consumed: bool,
        eff: Effects,
        key_event: KeyEvent,
    ) -> bool {
        &&& post.same_but_state(pre)
        &&& match pre.sign_in_state {
            SignInState::ApiKeyEntry(st) => {
                &&& consumed
                &&& match key_event.code {
                    KeyCode::Esc => {
                        &&& post.sign_in_state is PickMode
                        &&& post.error is None
                        &&& post.highlighted_mode == pre.highlighted_mode
                        &&& eff.redraw
                        &&& eff.no_background_work()
                    },
                    KeyCode::Enter => {
                        let trimmed = trim_spec(st.value@);
                        if trimmed.len() == 0 {
                            &&& entry_with(post.sign_in_state, st.value@, st.prepopulated_from_env)
                            &&& post.error matches Some(e) && e@ == empty_key_message_spec(
                                pre.use_zh,
                            )
                            &&& post.highlighted_mode == pre.highlighted_mode
                            &&& eff.redraw
                            &&& eff.no_background_work()
                        } else if api_login_allowed_spec(pre.forced_login_method) {
                            &&& entry_with(post.sign_in_state, st.value@, st.prepopulated_from_env)
                            &&& post.error == pre.error
                            &&& post.highlighted_mode == pre.highlighted_mode
                            &&& eff.write_key matches Some(k) && k@ == trimmed
                            &&& !eff.redraw
                            &&& !eff.shutdown_listener
                            &&& !eff.notify_poller_cancel
                            &&& eff.start_flow is None
                            &&& !eff.reload_auth
                        } else {
                            &&& post.sign_in_state is PickMode
                            &&& post.error matches Some(e) && e@ == api_key_disabled_message_spec(
                                pre.use_zh,
                            )
                            &&& post.highlighted_mode == SignInOption::ChatGpt
                            &&& eff.redraw
                            &&& eff.no_background_work()
                        }
                    },
                    KeyCode::Backspace => {
                        &&& entry_with(
                            post.sign_in_state,
                            if st.prepopulated_from_env {
                                Seq::empty()
                            } else if st.value@.len() > 0 {
                                st.value@.drop_last()
                            } else {
                                st.value@
                            },
                            false,
                        )
                        &&& post.error is None
                        &&& post.highlighted_mode == pre.highlighted_mode
                        &&& eff.redraw
                        &&& eff.no_background_work()
                    },
                    KeyCode::Char(c) => {
                        if key_event.is_press && !key_event.has_command_modifier {
                            &&& entry_with(
                                post.sign_in_state,
                                (if st.prepopulated_from_env {
                                    Seq::empty()
                                } else {
                                    st.value@
                                }).push(c),
                                false,
                            )
                            &&& post.error is None
                            &&& post.highlighted_mode == pre.highlighted_mode
                            &&& eff.redraw
                            &&& eff.no_background_work()
                        } else {
                            post.unchanged(pre) && eff.is_quiet()
                        }
                    },
                    _ => post.unchanged(pre) && eff.is_quiet(),
                }
            },
            _ => !consumed && post.unchanged(pre) && eff.is_quiet(),
        }
    }

    /// Handle a key while the API-key entry screen is up. Returns whether
    /// the event was consumed (it is whenever that screen is up), with the
    /// effects.
    pub fn handle_api_key_entry_key_event(&mut self, key_event: &KeyEvent) -> (r: (bool, Effects))
        ensures
            AuthModeWidget::api_entry_key_rel(*old(self), *final (self), r.0, r.1, *key_event),
    {
        let mut esc = false;
        let mut empty_submit = false;
        let mut should_save: Option<String> = None;
        let mut edited = false;
        match &mut self.sign_in_state {
            SignInState::ApiKeyEntry(state) => {
                match key_event.code {
                    KeyCode::Esc => {
                        esc = true;
                    },
                    KeyCode::Enter => {
                        let trimmed = crate::text::trim_str(state.value.as_str());
                        if trimmed.unicode_len() == 0 {
                            empty_submit = true;
                        } else {
                            should_save = Some(trimmed.to_owned());
                        }
                    },
                    KeyCode::Backspace => {
                        if state.prepopulated_from_env {
                            state.value = String::new();
                            state.prepopulated_from_env = false;
                        } else {
                            let l = state.value.as_str().unicode_len();
                            if l > 0 {
                                state.value = state.value.as_str().substring_char(
                                    0,
                                    l - 1,
                                ).to_owned();
                                proof {
                                    assert(old(self).sign_in_state->ApiKeyEntry_0.value@.subrange(
                                        0,
                                        l - 1,
                                    ) =~= old(self).sign_in_state->ApiKeyEntry_0.value@.drop_last());
                                }
                            }
                        }
                        edited = true;
                    },
                    KeyCode::Char(c) => {
                        if key_event.is_press && !key_event.has_command_modifier {
                            if state.prepopulated_from_env {
                                state.value = String::new();
                                state.prepopulated_from_env = false;
                            }
                            crate::text::push_char(&mut state.value, c);
                            edited = true;
                        }
                    },
                    _ => {},
                }
            },
            _ => {
                return (false, Effects::quiet());
            },
        }
        if esc {
            self.sign_in_state = SignInState::PickMode;
            self.error = None;
            return (true, Effects::redraw_only());
        }
        if empty_submit {
            self.error = Some(empty_key_message(self.use_zh));
            return (true, Effects::redraw_only());
        }
        if let Some(key) = should_save {
            let eff = self.save_api_key(key);
            return (true, eff);
        }
        if edited {
            self.error = None;
            return (true, Effects::redraw_only());
        }
        (true, Effects::quiet())
    }

    /// What pasted text does while the API-key entry screen is up. A paste
    /// whose trimmed text is empty is ignored. Otherwise it replaces an
    /// untouched environment prefill, or is appended to a typed buffer, and
    /// the error is cleared.
    pub open spec fn api_entry_paste_rel(
        pre: AuthModeWidget,
        post: AuthModeWidget,
        consumed: bool,
        eff: Effects,
        pasted: Seq<char>,
    ) -> bool {
        &&& post.same_but_state(pre)
        &&& {
            let t = trim_spec(pasted);
            if t.len() == 0 {
                !consumed && post.unchanged(pre) && eff.is_quiet()
            } else {
                match pre.sign_in_state {
                    SignInState::ApiKeyEntry(st) => {
                        &&& consumed
                        &&& entry_with(
                            post.sign_in_state,
                            if st.prepopulated_from_env {
                                t
                            } else {
                                st.value@ + t
                            },
                            false,
                        )
                        &&& post.error is None
                        &&& post.highlighted_mode == pre.highlighted_mode
                        &&& eff.redraw
                        &&& eff.no_background_work()
                    },
                    _ => !consumed && post.unchanged(pre) && eff.is_quiet(),
                }
            }
        }
    }

    /// Handle pasted text while the API-key entry screen is up.
    pub fn handle_api_key_entry_paste(&mut self, pasted: String) -> (r: (bool, Effects))
        ensures
            AuthModeWidget::api_entry_paste_rel(*old(self), *final (self), r.0, r.1, pasted@),
    {
        let trimmed = crate::text::trim_str(pasted.as_str());
        if trimmed.unicode_len() == 0 {
            return (false, Effects::quiet());
        }
        let t: String = trimmed.to_owned();
        let mut pasted_in = false;
        match &mut self.sign_in_state {
            SignInState::ApiKeyEntry(state) => {
                if state.prepopulated_from_env {
                    state.value = t;
                    state.prepopulated_from_env = false;
                } else {
                    state.value.append(t.as_str());
                }
                pasted_in = true;
            },
            _ => {},
        }
        if pasted_in {
            self.error = None;
            (true, Effects::redraw_only())
        } else {
            (false, Effects::quiet())
        }
    }
}

impl AuthModeWidget {
    /// The session already holds a ChatGPT (OAuth) credential.
    pub open spec fn already_chatgpt(self) -> bool {
        self.login_status == LoginStatus::AuthMode(AuthMode::Chatgpt)
    }

    /// If the session is already ChatGPT-authenticated, jump straight to
    /// the success state; no flow is started and no network is touched.
    fn handle_existing_chatgpt_login(&mut self) -> (r: (bool, Effects))
        ensures
            final (self).same_but_state(*old(self)),
            r.0 == old(self).already_chatgpt(),
            old(self).already_chatgpt() ==> {
                &&& final (self).sign_in_state is ChatGptSuccess
                &&& final (self).error == old(self).error
                &&& final (self).highlighted_mode == old(self).highlighted_mode
                &&& r.1.redraw
                &&& r.1.shutdown_listener == releases_listener(old(self).sign_in_state)
                &&& r.1.notify_poller_cancel == holds_poller_cancel(old(self).sign_in_state)
                &&& r.1.start_flow is None
                &&& r.1.write_key is None
                &&& !r.1.reload_auth
            },
            !old(self).already_chatgpt() ==> final (self).unchanged(*old(self)) && r.1.is_quiet(),
    {
        if matches!(self.login_status, LoginStatus::AuthMode(AuthMode::Chatgpt)) {
            let (released, notify) = self.held_resources();
            self.sign_in_state = SignInState::ChatGptSuccess;
            (
                true,
                Effects {
                    redraw: true,
                    shutdown_listener: released,
                    notify_poller_cancel: notify,
                    ..Effects::quiet()
                },
            )
        } else {
            (false, Effects::quiet())
        }
    }

    /// What starting the browser OAuth flow does: an already authenticated
    /// session jumps straight to the success state and nothing is started;
    /// otherwise the error is cleared, whatever flow was pending is
    /// released and replaced by the picker, and the host is asked to start
    /// the local callback listener. The pending browser state itself only
    /// comes up when the host reports that the listener is running.
    pub open spec fn start_chatgpt_rel(
        pre: AuthModeWidget,
        post: AuthModeWidget,
        eff: Effects,
    ) -> bool {
        &&& post.same_but_state(pre)
        &&& post.highlighted_mode == pre.highlighted_mode
        &&& if pre.already_chatgpt() {
            &&& post.sign_in_state is ChatGptSuccess
            &&& post.error == pre.error
            &&& eff.redraw
            &&& eff.shutdown_listener == releases_listener(pre.sign_in_state)
            &&& eff.notify_poller_cancel == holds_poller_cancel(pre.sign_in_state)
            &&& eff.start_flow is None
        } else {
            &&& post.sign_in_state is PickMode
            &&& post.error is None
            &&& eff.start_flow == Some(FlowRequest::Browser)
            &&& eff.redraw
            &&& eff.shutdown_listener == releases_listener(pre.sign_in_state)
            &&& eff.notify_poller_cancel == holds_poller_cancel(pre.sign_in_state)
        }
        &&& eff.write_key is None
        &&& !eff.reload_auth
    }

    /// Start the browser OAuth flow.
    ///
    /// The host reports back through
    /// [`AuthModeWidget::on_browser_flow_started`] or
    /// [`AuthModeWidget::on_browser_start_failed`].
    pub fn start_chatgpt_login(&mut self) -> (eff: Effects)
        ensures
            AuthModeWidget::start_chatgpt_rel(*old(self), *final (self), eff),
    {
        let (done, eff) = self.handle_existing_chatgpt_login();
        if done {
            return eff;
        }
        self.error = None;
        let (released, notify) = self.held_resources();
        self.sign_in_state = SignInState::PickMode;
        Effects {
            redraw: true,
            shutdown_listener: released,
            notify_poller_cancel: notify,
            start_flow: Some(FlowRequest::Browser),
            ..Effects::quiet()
        }
    }

    /// What starting the device-code flow does: the same shortcut for an
    /// already authenticated session; otherwise the device-code screen
    /// comes up at once, before the remote service has issued a code, and
    /// the host is asked to start the poller.
    pub open spec fn start_device_rel(
        pre: AuthModeWidget,
        post: AuthModeWidget,
        eff: Effects,
    ) -> bool {
        &&& post.same_but_state(pre)
        &&& post.highlighted_mode == pre.highlighted_mode
        &&& if pre.already_chatgpt() {
            &&& post.sign_in_state is ChatGptSuccess
            &&& post.error == pre.error
            &&& eff.redraw
            &&& eff.shutdown_listener == releases_listener(pre.sign_in_state)
            &&& eff.notify_poller_cancel == holds_poller_cancel(pre.sign_in_state)
            &&& eff.start_flow is None
        } else {
            &&& post.sign_in_state matches SignInState::ChatGptDeviceCode(d) && d.device_code
                is None && !d.has_cancel
            &&& post.error is None
            &&& eff.start_flow == Some(FlowRequest::Device)
            &&& eff.redraw
            &&& eff.shutdown_listener == releases_listener(pre.sign_in_state)
            &&& eff.notify_poller_cancel == holds_poller_cancel(pre.sign_in_state)
        }
        &&& eff.write_key is None
        &&& !eff.reload_auth
    }

    /// Start the device-code flow.
    ///
    /// The host reports back through
    /// [`AuthModeWidget::on_device_flow_started`],
    /// [`AuthModeWidget::on_device_code_ready`] and
    /// [`AuthModeWidget::on_device_flow_done`].
    pub fn start_device_code_login(&mut self) -> (eff: Effects)
        ensures
            AuthModeWidget::start_device_rel(*old(self), *final (self), eff),
    {
        let (done, eff) = self.handle_existing_chatgpt_login();
        if done {
            return eff;
        }
        self.error = None;
        let (released, notify) = self.held_resources();
        self.sign_in_state = SignInState::ChatGptDeviceCode(
            ContinueWithDeviceCodeState { device_code: None, has_cancel: false },
        );
        Effects {
            redraw: true,
            shutdown_listener: released,
            notify_poller_cancel: notify,
            start_flow: Some(FlowRequest::Device),
            ..Effects::quiet()
        }
    }

    /// The host's report that the local callback listener is up: show its
    /// authorization URL at once, so it is visible before any network round
    /// trip completes. The state now holds the listener's shutdown handle.
    pub fn on_browser_flow_started(&mut self, auth_url: String) -> (eff: Effects)
        ensures
            final (self).same_but_state(*old(self)),
            final (self).highlighted_mode == old(self).highlighted_mode,
            final (self).error == old(self).error,
            final (self).sign_in_state matches SignInState::ChatGptContinueInBrowser(b)
                && b.auth_url@ == auth_url@ && b.has_shutdown_handle,
            eff.redraw,
            eff.shutdown_listener == releases_listener(old(self).sign_in_state),
            eff.notify_poller_cancel == holds_poller_cancel(old(self).sign_in_state),
            eff.start_flow is None,
            eff.write_key is None,
            !eff.reload_auth,
    {
        let (released, notify) = self.held_resources();
        self.sign_in_state = SignInState::ChatGptContinueInBrowser(
            ContinueInBrowserState { auth_url, has_shutdown_handle: true },
        );
        Effects {
            redraw: true,
            shutdown_listener: released,
            notify_poller_cancel: notify,
            ..Effects::quiet()
        }
    }

    /// The host's report that the listener could not be started (a bind
    /// failure, say): back to the picker with the failure's text.
    pub fn on_browser_start_failed(&mut self, message: String) -> (eff: Effects)
        ensures
            final (self).same_but_state(*old(self)),
            final (self).highlighted_mode == old(self).highlighted_mode,
            final (self).sign_in_state is PickMode,
            final (self).error matches Some(e) && e@ == message@,
            eff.redraw,
            eff.shutdown_listener == releases_listener(old(self).sign_in_state),
            eff.notify_poller_cancel == holds_poller_cancel(old(self).sign_in_state),
            eff.start_flow is None,
            eff.write_key is None,
            !eff.reload_auth,
    {
        let (released, notify) = self.held_resources();
        self.sign_in_state = SignInState::PickMode;
        self.error = Some(message);
        Effects {
            redraw: true,
            shutdown_listener: released,
            notify_poller_cancel: notify,
            ..Effects::quiet()
        }
    }

    /// The host's report that the browser flow finished. Acted on only if
    /// the browser flow is still pending: a report that lost the race
    /// against a cancellation changes nothing.
    ///
    /// On success the credential cache is reloaded and the acknowledgement
    /// screen comes up. On failure or cancellation it is back to the
    /// picker, with no error text: cancellation is not an error, and the
    /// failure's detail is deliberately not shown.
    pub fn on_browser_flow_done(&mut self, result: Result<(), String>) -> (eff: Effects)
        ensures
            final (self).same_but_state(*old(self)),
            final (self).highlighted_mode == old(self).highlighted_mode,
            match old(self).sign_in_state {
                SignInState::ChatGptContinueInBrowser(b) => {
                    &&& final (self).error == old(self).error
                    &&& eff.redraw
                    &&& eff.shutdown_listener == b.has_shutdown_handle
                    &&& !eff.notify_poller_cancel
                    &&& eff.start_flow is None
                    &&& eff.write_key is None
                    &&& if result is Ok {
                        final (self).sign_in_state is ChatGptSuccessMessage && eff.reload_auth
                    } else {
                        final (self).sign_in_state is PickMode && !eff.reload_auth
                    }
                },
                _ => final (self).unchanged(*old(self)) && eff.is_quiet(),
            },
    {
        match &self.sign_in_state {
            SignInState::ChatGptContinueInBrowser(b) => {
                let released = b.has_shutdown_handle;
                match result {
                    Ok(_) => {
                        self.sign_in_state = SignInState::ChatGptSuccessMessage;
                        Effects {
                            redraw: true,
                            shutdown_listener: released,
                            reload_auth: true,
                            ..Effects::quiet()
                        }
                    },
                    Err(_) => {
                        self.sign_in_state = SignInState::PickMode;
                        Effects { redraw: true, shutdown_listener: released, ..Effects::quiet() }
                    },
                }
            },
            _ => Effects::quiet(),
        }
    }

    /// The host's report that the poller is running and its cancellation
    /// notification exists. Acted on only while the device-code flow is
    /// pending.
    pub fn on_device_flow_started(&mut self) -> (eff: Effects)
        ensures
            final (self).same_but_state(*old(self)),
            final (self).highlighted_mode == old(self).highlighted_mode,
            final (self).error == old(self).error,
            match old(self).sign_in_state {
                SignInState::ChatGptDeviceCode(d) => {
                    &&& final (self).sign_in_state matches SignInState::ChatGptDeviceCode(d2)
                        && d2.device_code == d.device_code && d2.has_cancel
                    &&& eff.is_quiet()
                },
                _ => final (self).unchanged(*old(self)) && eff.is_quiet(),
            },
    {
        match &mut self.sign_in_state {
            SignInState::ChatGptDeviceCode(d) => {
                d.has_cancel = true;
            },
            _ => {},
        }
        Effects::quiet()
    }

    /// The host's report that the remote service issued a one-time code:
    /// show it. Acted on only while the device-code flow is pending.
    pub fn on_device_code_ready(&mut self, code: DeviceCode) -> (eff: Effects)
        ensures
            final (self).same_but_state(*old(self)),
            final (self).highlighted_mode == old(self).highlighted_mode,
            final (self).error == old(self).error,
            match old(self).sign_in_state {
                SignInState::ChatGptDeviceCode(d) => {
                    &&& final (self).sign_in_state matches SignInState::ChatGptDeviceCode(d2)
                        && d2.device_code matches Some(c) && c.user_code@ == code.user_code@
                        && c.verification_url@ == code.verification_url@ && d2.has_cancel
                        == d.has_cancel
                    &&& eff.redraw
                    &&& eff.no_background_work()
                },
                _ => final (self).unchanged(*old(self)) && eff.is_quiet(),
            },
    {
        match &mut self.sign_in_state {
            SignInState::ChatGptDeviceCode(d) => {
                d.device_code = Some(code);
                Effects::redraw_only()
            },
            _ => Effects::quiet(),
        }
    }

    /// The host's report that the device-code flow finished. Acted on only
    /// while the device-code flow is pending.
    ///
    /// Success is handled exactly as the browser flow's success. Expiry or
    /// error goes back to the picker with the message shown; the host
    /// passes a localized text. Leaving the pending state releases its
    /// cancellation notification like any other replacement; the poller
    /// has already finished, so the signal finds nobody waiting.
    pub fn on_device_flow_done(&mut self, result: Result<(), String>) -> (eff: Effects)
        ensures
            final (self).same_but_state(*old(self)),
            final (self).highlighted_mode == old(self).highlighted_mode,
            match old(self).sign_in_state {
                SignInState::ChatGptDeviceCode(d) => {
                    &&& eff.redraw
                    &&& !eff.shutdown_listener
                    &&& eff.notify_poller_cancel == d.has_cancel
                    &&& eff.start_flow is None
                    &&& eff.write_key is None
                    &&& match result {
                        Ok(_) => {
                            &&& final (self).sign_in_state is ChatGptSuccessMessage
                            &&& final (self).error == old(self).error
                            &&& eff.reload_auth
                        },
                        Err(m) => {
                            &&& final (self).sign_in_state is PickMode
                            &&& final (self).error matches Some(e) && e@ == m@
                            &&& !eff.reload_auth
                        },
                    }
                },
                _ => final (self).unchanged(*old(self)) && eff.is_quiet(),
            },
    {
        match &self.sign_in_state {
            SignInState::ChatGptDeviceCode(d) => {
                let notify = d.has_cancel;
                match result {
                    Ok(_) => {
                        self.sign_in_state = SignInState::ChatGptSuccessMessage;
                        Effects {
                            redraw: true,
                            notify_poller_cancel: notify,
                            reload_auth: true,
                            ..Effects::quiet()
                        }
                    },
                    Err(m) => {
                        self.sign_in_state = SignInState::PickMode;
                        self.error = Some(m);
                        Effects { redraw: true, notify_poller_cancel: notify, ..Effects::quiet() }
                    },
                }
            },
            _ => Effects::quiet(),
        }
    }
}

impl AuthModeWidget {
    /// What moving the highlight does: only the highlight changes, wrapping
    /// over the selectable options; no background work.
    pub open spec fn move_rel(
        pre: AuthModeWidget,
        post: AuthModeWidget,
        eff: Effects,
        delta: int,
    ) -> bool {
        &&& post.same_but_state(pre)
        &&& post.error == pre.error
        &&& post.sign_in_state == pre.sign_in_state
        &&& post.highlighted_mode == moved_highlight_spec(
            pre.forced_login_method,
            pre.highlighted_mode,
            delta,
        )
        &&& eff.is_quiet()
    }

    /// What selecting a sign-in option does: an allowed option starts its
    /// flow; a disallowed one is rejected with the matching message, the
    /// highlight reset to an allowed option, and nothing started.
    pub open spec fn select_rel(
        pre: AuthModeWidget,
        post: AuthModeWidget,
        eff: Effects,
        option: SignInOption,
        prefill: Option<Seq<char>>,
    ) -> bool {
        match option {
            SignInOption::ChatGpt => if chatgpt_login_allowed_spec(pre.forced_login_method) {
                AuthModeWidget::start_chatgpt_rel(pre, post, eff)
            } else {
                AuthModeWidget::disallow_chatgpt_rel(pre, post, eff)
            },
            SignInOption::DeviceCode => if chatgpt_login_allowed_spec(pre.forced_login_method) {
                AuthModeWidget::start_device_rel(pre, post, eff)
            } else {
                AuthModeWidget::disallow_chatgpt_rel(pre, post, eff)
            },
            SignInOption::ApiKey => AuthModeWidget::start_api_key_entry_rel(
                pre,
                post,
                eff,
                prefill,
            ),
        }
    }

    /// What selecting the `index`th displayed option does; out of range,
    /// nothing.
    pub open spec fn select_index_rel(
        pre: AuthModeWidget,
        post: AuthModeWidget,
        eff: Effects,
        index: int,
        prefill: Option<Seq<char>>,
    ) -> bool {
        let opts = displayed_options_spec(pre.forced_login_method);
        if 0 <= index < opts.len() {
            AuthModeWidget::select_rel(pre, post, eff, opts[index], prefill)
        } else {
            post.unchanged(pre) && eff.is_quiet()
        }
    }

    /// What confirming (the enter action) does: on the picker it selects
    /// the highlighted option; on the acknowledgement screen it advances to
    /// the terminal success state; elsewhere nothing.
    pub open spec fn confirm_rel(
        pre: AuthModeWidget,
        post: AuthModeWidget,
        eff: Effects,
        prefill: Option<Seq<char>>,
    ) -> bool {
        match pre.sign_in_state {
            SignInState::PickMode => AuthModeWidget::select_rel(
                pre,
                post,
                eff,
                pre.highlighted_mode,
                prefill,
            ),
            SignInState::ChatGptSuccessMessage => {
                &&& post.sign_in_state is ChatGptSuccess
                &&& post.same_but_state(pre)
                &&& post.error == pre.error
                &&& post.highlighted_mode == pre.highlighted_mode
                &&& eff.is_quiet()
            },
            _ => post.unchanged(pre) && eff.is_quiet(),
        }
    }

    /// Act on the selection of a sign-in option.
    pub fn handle_sign_in_option(
        &mut self,
        option: SignInOption,
        prefill_from_env: Option<String>,
    ) -> (eff: Effects)
        ensures
            AuthModeWidget::select_rel(
                *old(self),
                *final (self),
                eff,
                option,
                match prefill_from_env {
                    Some(p) => Some(p@),
                    None => None,
                },
            ),
    {
        match option {
            SignInOption::ChatGpt => {
                if self.is_chatgpt_login_allowed() {
                    self.start_chatgpt_login()
                } else {
                    self.disallow_chatgpt_login()
                }
            },
            SignInOption::DeviceCode => {
                if self.is_chatgpt_login_allowed() {
                    self.start_device_code_login()
                } else {
                    self.disallow_chatgpt_login()
                }
            },
            SignInOption::ApiKey => self.start_api_key_entry(prefill_from_env),
        }
    }

    /// Act on a number key: select the option displayed at that index.
    pub fn select_option_by_index(
        &mut self,
        index: usize,
        prefill_from_env: Option<String>,
    ) -> (eff: Effects)
        ensures
            AuthModeWidget::select_index_rel(
                *old(self),
                *final (self),
                eff,
                index as int,
                match prefill_from_env {
                    Some(p) => Some(p@),
                    None => None,
                },
            ),
    {
        let options = self.displayed_sign_in_options();
        if index < options.len() {
            let option = options[index];
            self.handle_sign_in_option(option, prefill_from_env)
        } else {
            Effects::quiet()
        }
    }

    /// Confirm: select the highlighted option, or advance past the
    /// acknowledgement screen.
    pub fn confirm(&mut self, prefill_from_env: Option<String>) -> (eff: Effects)
        ensures
            AuthModeWidget::confirm_rel(
                *old(self),
                *final (self),
                eff,
                match prefill_from_env {
                    Some(p) => Some(p@),
                    None => None,
                },
            ),
    {
        if matches!(self.sign_in_state, SignInState::PickMode) {
            let option = self.highlighted_mode;
            return self.handle_sign_in_option(option, prefill_from_env);
        }
        if matches!(self.sign_in_state, SignInState::ChatGptSuccessMessage) {
            self.sign_in_state = SignInState::ChatGptSuccess;
            return Effects::quiet();
        }
        Effects::quiet()
    }

    /// Handle a key event from the foreground.
    ///
    /// While the API-key entry screen is up, every key goes to it. On the
    /// other screens, up and down (and their `k`/`j` aliases) move the
    /// highlight, the number keys select a displayed option directly,
    /// enter confirms and escape cancels.
    pub fn handle_key_event(
        &mut self,
        key_event: KeyEvent,
        prefill_from_env: Option<String>,
    ) -> (eff: Effects)
        ensures
            ({
                let prefill = match prefill_from_env {
                    Some(p) => Some(p@),
                    None => None,
                };
                match old(self).sign_in_state {
                    SignInState::ApiKeyEntry(_) => AuthModeWidget::api_entry_key_rel(
                        *old(self),
                        *final (self),
                        true,
                        eff,
                        key_event,
                    ),
                    _ => match key_event.code {
                        KeyCode::Up => AuthModeWidget::move_rel(*old(self), *final (self), eff, -1),
                        KeyCode::Down => AuthModeWidget::move_rel(*old(self), *final (self), eff, 1),
                        KeyCode::Char(c) => {
                            if c == 'k' {
                                AuthModeWidget::move_rel(*old(self), *final (self), eff, -1)
                            } else if c == 'j' {
                                AuthModeWidget::move_rel(*old(self), *final (self), eff, 1)
                            } else if c == '1' {
                                AuthModeWidget::select_index_rel(
                                    *old(self),
                                    *final (self),
                                    eff,
                                    0,
                                    prefill,
                                )
                            } else if c == '2' {
                                AuthModeWidget::select_index_rel(
                                    *old(self),
                                    *final (self),
                                    eff,
                                    1,
                                    prefill,
                                )
                            } else if c == '3' {
                                AuthModeWidget::select_index_rel(
                                    *old(self),
                                    *final (self),
                                    eff,
                                    2,
                                    prefill,
                                )
                            } else {
                                final (self).unchanged(*old(self)) && eff.is_quiet()
                            }
                        },
                        KeyCode::Enter => AuthModeWidget::confirm_rel(
                            *old(self),
                            *final (self),
                            eff,
                            prefill,
                        ),
                        KeyCode::Esc => AuthModeWidget::cancel_rel(*old(self), *final (self), eff),
                        _ => final (self).unchanged(*old(self)) && eff.is_quiet(),
                    },
                }
            }),
    {
        let (handled, entry_eff) = self.handle_api_key_entry_key_event(&key_event);
        if handled {
            return entry_eff;
        }
        match key_event.code {
            KeyCode::Up => self.move_highlight(-1),
            KeyCode::Down => self.move_highlight(1),
            KeyCode::Char(c) => {
                if c == 'k' {
                    self.move_highlight(-1)
                } else if c == 'j' {
                    self.move_highlight(1)
                } else if c == '1' {
                    self.select_option_by_index(0, prefill_from_env)
                } else if c == '2' {
                    self.select_option_by_index(1, prefill_from_env)
                } else if c == '3' {
                    self.select_option_by_index(2, prefill_from_env)
                } else {
                    Effects::quiet()
                }
            },
            KeyCode::Enter => self.confirm(prefill_from_env),
            KeyCode::Esc => self.cancel(),
            _ => Effects::quiet(),
        }
    }

    /// Handle pasted text from the foreground.
    pub fn handle_paste(&mut self, pasted: String) -> (eff: Effects)
        ensures
            AuthModeWidget::api_entry_paste_rel(
                *old(self),
                *final (self),
                trim_spec(pasted@).len() > 0 && old(self).sign_in_state is ApiKeyEntry,
                eff,
                pasted@,
            ),
    {
        let (_, eff) = self.handle_api_key_entry_paste(pasted);
        eff
    }

    /// Whether the sign-in step is still interactive or finished, for the
    /// outer onboarding sequencer.
    pub fn get_step_state(&self) -> (r: StepState)
        ensures
            r == step_state_spec(self.sign_in_state),
    {
        match &self.sign_in_state {
            SignInState::PickMode
            | SignInState::ApiKeyEntry(_)
            | SignInState::ChatGptContinueInBrowser(_)
            | SignInState::ChatGptDeviceCode(_)
            | SignInState::ChatGptSuccessMessage => StepState::InProgress,
            SignInState::ChatGptSuccess | SignInState::ApiKeyConfigured => StepState::Complete,
        }
    }

    /// Tear the machine down when the owning session ends: whichever
    /// background task is live is released, exactly as if its state had
    /// been replaced.
    pub fn teardown(&mut self) -> (eff: Effects)
        ensures
            final (self).same_but_state(*old(self)),
            final (self).sign_in_state is PickMode,
            final (self).error == old(self).error,
            final (self).highlighted_mode == old(self).highlighted_mode,
            eff.shutdown_listener == releases_listener(old(self).sign_in_state),
            eff.notify_poller_cancel == holds_poller_cancel(old(self).sign_in_state),
            !eff.redraw,
            eff.start_flow is None,
            eff.write_key is None,
            !eff.reload_auth,
    {
        let released = matches!(
            &self.sign_in_state,
            SignInState::ChatGptContinueInBrowser(ContinueInBrowserState {
                has_shutdown_handle: true,
                ..
            })
        );
        let notify = matches!(
            &self.sign_in_state,
            SignInState::ChatGptDeviceCode(ContinueWithDeviceCodeState { has_cancel: true, .. })
        );
        self.sign_in_state = SignInState::PickMode;
        Effects { shutdown_listener: released, notify_poller_cancel: notify, ..Effects::quiet() }
    }
}

/// Whether the sign-in step is still interactive or finished: only the two
/// terminal states are complete.
pub open spec fn step_state_spec(s: SignInState) -> StepState {
    match s {
        SignInState::ChatGptSuccess => StepState::Complete,
        SignInState::ApiKeyConfigured => StepState::Complete,
        _ => StepState::InProgress,
    }
}

/// For every forced-login configuration, the displayed and selectable
/// option lists agree with the two allow-flags: the ChatGPT entry is always
/// displayed, each other option is displayed exactly when allowed, an
/// option is selectable exactly when allowed, and the selectable list is
/// never empty. In particular an API-key-only configuration never offers
/// ChatGPT or the device code as selectable, and a ChatGPT-only
/// configuration never offers the API key at all.
pub proof fn lemma_options_respect_policy(forced: Option<ForcedLoginMethod>)
    ensures
        displayed_options_spec(forced).contains(SignInOption::ChatGpt),
        displayed_options_spec(forced).contains(SignInOption::DeviceCode)
            <==> chatgpt_login_allowed_spec(forced),
        displayed_options_spec(forced).contains(SignInOption::ApiKey) <==> api_login_allowed_spec(
            forced,
        ),
        selectable_options_spec(forced).contains(SignInOption::ChatGpt)
            <==> chatgpt_login_allowed_spec(forced),
        selectable_options_spec(forced).contains(SignInOption::DeviceCode)
            <==> chatgpt_login_allowed_spec(forced),
        selectable_options_spec(forced).contains(SignInOption::ApiKey) <==> api_login_allowed_spec(
            forced,
        ),
        forall|i: int|
            0 <= i < selectable_options_spec(forced).len() ==> option_allowed_spec(
                #[trigger] selectable_options_spec(forced)[i],
                forced,
            ),
        selectable_options_spec(forced).len() > 0,
        selectable_options_spec(forced)[0] == first_selectable_spec(forced),
{
    let d = displayed_options_spec(forced);
    let s = selectable_options_spec(forced);
    if chatgpt_login_allowed_spec(forced) {
        if api_login_allowed_spec(forced) {
            assert(d =~= seq![SignInOption::ChatGpt, SignInOption::DeviceCode, SignInOption::ApiKey]);
            assert(s =~= seq![SignInOption::ChatGpt, SignInOption::DeviceCode, SignInOption::ApiKey]);
            assert(d.contains(SignInOption::ChatGpt)) by {
                assert(d[0] == SignInOption::ChatGpt);
            }
            assert(d.contains(SignInOption::DeviceCode)) by {
                assert(d[1] == SignInOption::DeviceCode);
            }
            assert(d.contains(SignInOption::ApiKey)) by {
                assert(d[2] == SignInOption::ApiKey);
            }
            assert(s.contains(SignInOption::ChatGpt)) by {
                assert(s[0] == SignInOption::ChatGpt);
            }
            assert(s.contains(SignInOption::DeviceCode)) by {
                assert(s[1] == SignInOption::DeviceCode);
            }
            assert(s.contains(SignInOption::ApiKey)) by {
                assert(s[2] == SignInOption::ApiKey);
            }
        } else {
            assert(d =~= seq![SignInOption::ChatGpt, SignInOption::DeviceCode]);
            assert(s =~= seq![SignInOption::ChatGpt, SignInOption::DeviceCode]);
            assert(d.contains(SignInOption::ChatGpt)) by {
                assert(d[0] == SignInOption::ChatGpt);
            }
            assert(d.contains(SignInOption::DeviceCode)) by {
                assert(d[1] == SignInOption::DeviceCode);
            }
            assert(s.contains(SignInOption::ChatGpt)) by {
                assert(s[0] == SignInOption::ChatGpt);
            }
            assert(s.contains(SignInOption::DeviceCode)) by {
                assert(s[1] == SignInOption::DeviceCode);
            }
        }
    } else {
        assert(api_login_allowed_spec(forced));
        assert(d =~= seq![SignInOption::ChatGpt, SignInOption::ApiKey]);
        assert(s =~= seq![SignInOption::ApiKey]);
        assert(d.contains(SignInOption::ChatGpt)) by {
            assert(d[0] == SignInOption::ChatGpt);
        }
        assert(d.contains(SignInOption::ApiKey)) by {
            assert(d[1] == SignInOption::ApiKey);
        }
        assert(s.contains(SignInOption::ApiKey)) by {
            assert(s[0] == SignInOption::ApiKey);
        }
        assert(!d.contains(SignInOption::DeviceCode));
        assert(!s.contains(SignInOption::ChatGpt));
        assert(!s.contains(SignInOption::DeviceCode));
    }
}

/// Selecting a disallowed option is rejected in place: the state is (or
/// returns to) the picker, no background flow is started and no key is
/// written, an error is shown, and the highlight is reset to an option that
/// is both allowed and selectable.
pub proof fn lemma_disallowed_select_is_rejected(
    pre: AuthModeWidget,
    post: AuthModeWidget,
    eff: Effects,
    option: SignInOption,
    prefill: Option<Seq<char>>,
)
    requires
        AuthModeWidget::select_rel(pre, post, eff, option, prefill),
        !option_allowed_spec(option, pre.forced_login_method),
    ensures
        post.sign_in_state is PickMode,
        eff.start_flow is None,
        eff.write_key is None,
        post.error is Some,
        post.highlighted_mode == first_selectable_spec(post.forced_login_method),
        option_allowed_spec(post.highlighted_mode, post.forced_login_method),
        selectable_options_spec(post.forced_login_method).contains(post.highlighted_mode),
{
    lemma_options_respect_policy(pre.forced_login_method);
}

/// Cancelling the pending browser flow shuts the listener down exactly
/// once: the first cancellation reports the shutdown and lands on the
/// picker, and a second cancellation, however soon it follows, releases
/// nothing further.
pub proof fn lemma_cancel_shuts_listener_down_once(
    w0: AuthModeWidget,
    w1: AuthModeWidget,
    w2: AuthModeWidget,
    e1: Effects,
    e2: Effects,
)
    requires
        AuthModeWidget::cancel_rel(w0, w1, e1),
        AuthModeWidget::cancel_rel(w1, w2, e2),
        releases_listener(w0.sign_in_state),
    ensures
        e1.shutdown_listener,
        w1.sign_in_state is PickMode,
        !e2.shutdown_listener,
        !e2.notify_poller_cancel,
        w2.sign_in_state is PickMode,
{
}

/// Cancelling the pending device-code flow signals the poller's
/// cancellation exactly once, symmetrically.
pub proof fn lemma_cancel_notifies_poller_once(
    w0: AuthModeWidget,
    w1: AuthModeWidget,
    w2: AuthModeWidget,
    e1: Effects,
    e2: Effects,
)
    requires
        AuthModeWidget::cancel_rel(w0, w1, e1),
        AuthModeWidget::cancel_rel(w1, w2, e2),
        holds_poller_cancel(w0.sign_in_state),
    ensures
        e1.notify_poller_cancel,
        w1.sign_in_state is PickMode,
        !e2.notify_poller_cancel,
        !e2.shutdown_listener,
        w2.sign_in_state is PickMode,
{
}

/// Selecting any option — allowed or not — never abandons a pending flow:
/// if the state being left held the listener's shutdown handle or the
/// poller's cancellation notification and the new state does not, the
/// release is in the returned effects.
pub proof fn lemma_select_releases_replaced_flow(
    pre: AuthModeWidget,
    post: AuthModeWidget,
    eff: Effects,
    option: SignInOption,
    prefill: Option<Seq<char>>,
)
    requires
        AuthModeWidget::select_rel(pre, post, eff, option, prefill),
    ensures
        releases_listener(pre.sign_in_state) && !releases_listener(post.sign_in_state)
            ==> eff.shutdown_listener,
        holds_poller_cancel(pre.sign_in_state) && !holds_poller_cancel(post.sign_in_state)
            ==> eff.notify_poller_cancel,
{
}

} // verus!
