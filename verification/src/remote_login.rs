//! The way to a remote stream: the login, the question whether it holds, and only then the
//! connection.
//!
//! The caller performs the action that a step asks for and hands back what came of it.
use serde_json::Value;
use vstd::prelude::*;
use vstd::string::*;

use crate::bridge;
use crate::bridge::{BridgeConfig, BridgeError, RtspBridge};
use crate::headers;
use crate::json;
use crate::text;

verus! {

/// What came of the last action.
pub enum LoginEvent {
    /// The login was answered.
    LoginAnswered { status: u16, body: String },
    /// The question for the login's status was answered.
    StatusAnswered { status: u16 },
    /// The request failed.
    RequestFailed,
}

/// What is to be done next.
pub enum LoginAction {
    /// Posts the login.
    Login { url: String, payload: Value },
    /// Asks whether the login holds.
    AskStatus { url: String },
    /// Connects to the stream.
    Connect,
    Fail(BridgeError),
    /// The request that was asked for was not answered.
    GiveUp,
}

/// What a login waits for.
#[derive(Debug, Clone, Copy, PartialEq, Eq, Structural)]
pub enum LoginStage {
    /// The answer to the login.
    LoggingIn,
    /// The answer to the question for its status.
    AskingStatus,
    /// Nothing more.
    Over,
}

/// The value of a [`LoginAction`].
pub enum LoginActionView {
    Login,
    AskStatus,
    Connect,
    /// The login was refused with this status and body.
    Refused { status: u16, body: Seq<char> },
    /// The question was answered with this status.
    StatusRefused { status: u16 },
    GiveUp,
}

impl LoginAction {
    /// An action that does this.
    pub open spec fn does(self, config: BridgeConfig, action: LoginActionView) -> bool {
        match action {
            LoginActionView::Login => {
                &&& self matches LoginAction::Login { url, payload }
                &&& url@ == text::without_trailing_slashes(config.base_url@) + "/api/auth/login"@
                &&& json::json_of(payload) == json::object_of(
                    bridge::login_fields(config.username@, config.password@),
                )
            },
            LoginActionView::AskStatus => {
                &&& self matches LoginAction::AskStatus { url }
                &&& url@ == text::without_trailing_slashes(config.base_url@)
                    + "/api/miot/login_status"@
            },
            LoginActionView::Connect => self is Connect,
            LoginActionView::Refused { status, body } => {
                &&& self matches LoginAction::Fail(
                    BridgeError::LoginFailed { status: shown, body: said },
                )
                &&& shown@ == headers::status_text(status)
                &&& said@ == body
            },
            LoginActionView::StatusRefused { status } => {
                &&& self matches LoginAction::Fail(BridgeError::LoginStatusFailed { status: shown })
                &&& shown@ == headers::status_text(status)
            },
            LoginActionView::GiveUp => self is GiveUp,
        }
    }
}

/// The events that a stage waits for.
pub open spec fn awaits(stage: LoginStage, event: LoginEvent) -> bool {
    match event {
        LoginEvent::LoginAnswered { status, body: _ } => stage is LoggingIn && 100 <= status < 1000,
        LoginEvent::StatusAnswered { status } => stage is AskingStatus && 100 <= status < 1000,
        LoginEvent::RequestFailed => !(stage is Over),
    }
}

/// What one step does: success leads from the login to the question and from there to the
/// connection, and anything else ends it.
pub open spec fn login_step(stage: LoginStage, event: LoginEvent) -> (
    LoginActionView,
    LoginStage,
) {
    match event {
        LoginEvent::LoginAnswered { status, body } => if bridge::is_success(status) {
            (LoginActionView::AskStatus, LoginStage::AskingStatus)
        } else {
            (LoginActionView::Refused { status, body: body@ }, LoginStage::Over)
        },
        LoginEvent::StatusAnswered { status } => if bridge::is_success(status) {
            (LoginActionView::Connect, LoginStage::Over)
        } else {
            (LoginActionView::StatusRefused { status }, LoginStage::Over)
        },
        LoginEvent::RequestFailed => (LoginActionView::GiveUp, LoginStage::Over),
    }
}

/// A login on its way.
pub struct LoginFlow {
    pub stage: LoginStage,
}

impl LoginFlow {
    /// Starts with the login.
    pub fn begin(bridge: &RtspBridge) -> (r: (LoginFlow, LoginAction))
        ensures
            r.0.stage == LoginStage::LoggingIn,
            r.1.does(bridge.config, LoginActionView::Login),
    {
        (
            LoginFlow { stage: LoginStage::LoggingIn },
            LoginAction::Login { url: bridge.login_url(), payload: bridge.login_request() },
        )
    }

    /// Whether the login waits for this.
    pub fn expects(&self, event: &LoginEvent) -> (r: bool)
        ensures
            r == awaits(self.stage, *event),
    {
        match event {
            LoginEvent::LoginAnswered { status, body: _ } => self.stage == LoginStage::LoggingIn
                && 100 <= *status && *status < 1000,
            LoginEvent::StatusAnswered { status } => self.stage == LoginStage::AskingStatus
                && 100 <= *status && *status < 1000,
            LoginEvent::RequestFailed => self.stage != LoginStage::Over,
        }
    }

    /// Takes what came of the last action; returns the next one.
    pub fn advance(&mut self, bridge: &RtspBridge, event: LoginEvent) -> (r: LoginAction)
        requires
            awaits(old(self).stage, event),
        ensures
            ({
                let (action, stage) = login_step(old(self).stage, event);
                r.does(bridge.config, action) && final(self).stage == stage
            }),
    {
        self.stage = LoginStage::Over;
        match event {
            LoginEvent::LoginAnswered { status, body } => match bridge::check_login(
                status,
                body.as_str(),
            ) {
                Ok(_) => {
                    self.stage = LoginStage::AskingStatus;
                    LoginAction::AskStatus { url: bridge.login_status_url() }
                },
                Err(e) => LoginAction::Fail(e),
            },
            LoginEvent::StatusAnswered { status } => match bridge::check_login_status(status) {
                Ok(_) => LoginAction::Connect,
                Err(e) => LoginAction::Fail(e),
            },
            LoginEvent::RequestFailed => LoginAction::GiveUp,
        }
    }
}

/// A login after some events, each awaited when it comes: what it did last, and what it waits for.
pub open spec fn run(events: Seq<LoginEvent>) -> Option<(LoginActionView, LoginStage)>
    decreases events.len(),
{
    if events.len() == 0 {
        Some((LoginActionView::Login, LoginStage::LoggingIn))
    } else {
        match run(events.drop_last()) {
            Some((_, stage)) => if awaits(stage, events.last()) {
                Some(login_step(stage, events.last()))
            } else {
                None
            },
            None => None,
        }
    }
}

/// A login that was answered with success.
pub open spec fn login_succeeded(event: LoginEvent) -> bool {
    event matches LoginEvent::LoginAnswered { status, body: _ } && 200 <= status < 300
}

/// A question that was answered with success.
pub open spec fn status_succeeded(event: LoginEvent) -> bool {
    event matches LoginEvent::StatusAnswered { status } && 200 <= status < 300
}

proof fn lemma_run(events: Seq<LoginEvent>)
    requires
        run(events) is Some,
    ensures
        ({
            let (action, stage) = run(events)->0;
            &&& stage is LoggingIn ==> events.len() == 0
            &&& stage is AskingStatus ==> events.len() == 1 && login_succeeded(events[0])
            &&& action is AskStatus ==> stage is AskingStatus
            &&& action is Connect ==> events.len() == 2 && login_succeeded(events[0])
                && status_succeeded(events[1])
        }),
    decreases events.len(),
{
    if events.len() > 0 {
        lemma_run(events.drop_last());
    }
}

/// The stream is connected to only after the login and then the question for its status were
/// answered with success.
pub proof fn law_connection_needs_two_successes(events: Seq<LoginEvent>)
    requires
        run(events) is Some,
    ensures
        (run(events)->0).0 is Connect ==> events.len() == 2 && login_succeeded(events[0])
            && status_succeeded(events[1]),
        (run(events)->0).0 is AskStatus ==> events.len() == 1 && login_succeeded(events[0]),
{
    lemma_run(events);
}

/// Two successes suffice.
pub proof fn law_two_successes_connect(login: LoginEvent, status: LoginEvent)
    requires
        login_succeeded(login),
        status_succeeded(status),
    ensures
        run(seq![login, status]) == Some((LoginActionView::Connect, LoginStage::Over)),
{
    let events = seq![login, status];
    assert(events.drop_last() =~= seq![login]);
    assert(seq![login].drop_last() =~= seq![]);
    reveal_with_fuel(run, 3);
}

/// Any other answer ends the login and is reported with its status, a refused login with its body
/// too; and a request that was not answered ends it.
pub proof fn law_other_answers_end_the_login(stage: LoginStage, event: LoginEvent)
    requires
        awaits(stage, event),
        !login_succeeded(event),
        !status_succeeded(event),
    ensures
        login_step(stage, event).1 is Over,
        event matches LoginEvent::LoginAnswered { status, body } ==> login_step(stage, event).0
            == (LoginActionView::Refused { status, body: body@ }),
        event matches LoginEvent::StatusAnswered { status } ==> login_step(stage, event).0
            == (LoginActionView::StatusRefused { status }),
        event is RequestFailed ==> login_step(stage, event).0 is GiveUp,
{
}

/// Where the requests of a login go: below the base URL, its trailing slashes aside.
pub proof fn law_where_the_login_goes(config: BridgeConfig, action: LoginAction)
    ensures
        action.does(config, LoginActionView::Login) ==> (action matches LoginAction::Login {
            url,
            payload,
        } && url@ == text::without_trailing_slashes(config.base_url@) + "/api/auth/login"@
            && json::json_of(payload).member_text("username"@) == Some(config.username@)
            && json::json_of(payload).member_text("password"@) == Some(config.password@)),
        action.does(config, LoginActionView::AskStatus) ==> (action matches LoginAction::AskStatus {
            url,
        } && url@ == text::without_trailing_slashes(config.base_url@)
            + "/api/miot/login_status"@),
        action.does(config, LoginActionView::Connect) ==> action is Connect,
        action.does(config, LoginActionView::GiveUp) ==> action is GiveUp,
{
    bridge::law_login_carries_name_and_password(config.username@, config.password@);
}

/// The answer to the login is awaited first and the answer to the question second, each with a
/// status of three digits; nothing is awaited after the end.
pub proof fn law_what_is_awaited(event: LoginEvent)
    ensures
        awaits(LoginStage::LoggingIn, event) <==> event is RequestFailed || (event matches
            LoginEvent::LoginAnswered { status, body: _ } && 100 <= status <= 999),
        awaits(LoginStage::AskingStatus, event) <==> event is RequestFailed || (event matches
            LoginEvent::StatusAnswered { status } && 100 <= status <= 999),
        !awaits(LoginStage::Over, event),
{
}

} // verus!
