//! The end of a login: the code is exchanged, the token is stored, and only then the page of
//! success is shown.
//!
//! The caller performs the action that a step asks for and hands back what came of it.
use vstd::prelude::*;
use vstd::string::*;

use crate::json;
use crate::oauth;
use crate::oauth_server;
use crate::oauth_server::{ExchangeOutcome, OAuthServerConfig};
use crate::pages;
use crate::token_flow;
use crate::token_flow::{Refreshed, RefreshedView};

verus! {

/// What came of the last action.
pub enum ExchangeEvent {
    /// The request was answered.
    Replied { reply: String, now_ts: i64 },
    /// The request failed.
    RequestFailed { cause: String },
    /// The token was stored, as far as a file is configured.
    Stored,
    /// The token could not be stored.
    NotStored { cause: String },
}

/// What is to be done next.
pub enum ExchangeAction {
    /// Stores a token.
    Store(Refreshed),
    /// Sends a response.
    Answer(String),
    /// The expiry of the granted token is out of range.
    OutOfRange,
}

/// What an exchange waits for.
#[derive(Debug, Clone, Copy, PartialEq, Eq, Structural)]
pub enum ExchangeStage {
    /// The reply to the token request.
    Waiting,
    /// The storing of a token with this expiry.
    Storing { expires_ts: i64 },
    /// Nothing more.
    Over,
}

/// The value of an [`ExchangeAction`].
pub enum ExchangeActionView {
    Store(RefreshedView),
    /// The page of success.
    Succeed { expires_ts: i64 },
    /// There is no token.
    NoToken { cause: Seq<char> },
    /// The token could not be stored.
    NotStored { cause: Seq<char> },
    OutOfRange,
}

impl ExchangeAction {
    /// An action that does this.
    pub open spec fn does(self, config: OAuthServerConfig, action: ExchangeActionView) -> bool {
        match action {
            ExchangeActionView::Store(refreshed) => self matches ExchangeAction::Store(x) && x@
                == refreshed,
            ExchangeActionView::Succeed { expires_ts } => self matches ExchangeAction::Answer(sent)
                && sent@ == pages::response(
                200,
                pages::success_page(config.token_file, expires_ts),
            ),
            ExchangeActionView::NoToken { cause } => self matches ExchangeAction::Answer(sent)
                && sent@ == oauth_server::error_response(502, "Token 获取失败"@, cause),
            ExchangeActionView::NotStored { cause } => self matches ExchangeAction::Answer(sent)
                && sent@ == oauth_server::error_response(500, "Token 已获取但保存失败"@, cause),
            ExchangeActionView::OutOfRange => self is OutOfRange,
        }
    }
}

/// The events that a stage waits for.
pub open spec fn awaits(stage: ExchangeStage, event: ExchangeEvent) -> bool {
    match stage {
        ExchangeStage::Waiting => event is Replied || event is RequestFailed,
        ExchangeStage::Storing { expires_ts: _ } => event is Stored || event is NotStored,
        ExchangeStage::Over => false,
    }
}

/// What is said of a reply that grants no token.
pub open spec fn refusal_text(reply: Seq<char>) -> Seq<char> {
    match json::json_read(reply) {
        Err(cause) => "invalid MIoT OAuth response: "@ + reply + ": "@ + json::json_error_text(
            cause,
        ),
        Ok(t) => match oauth::grant_of(t) {
            Err(fault) => oauth::fault_text(fault, reply),
            Ok(_) => seq![],
        },
    }
}

/// What one step does: a granted token is stored, and the page of success follows once it is.
pub open spec fn exchange_step(
    config: OAuthServerConfig,
    stage: ExchangeStage,
    event: ExchangeEvent,
) -> (ExchangeActionView, ExchangeStage) {
    match (stage, event) {
        (ExchangeStage::Storing { expires_ts }, ExchangeEvent::Stored) => (
            ExchangeActionView::Succeed { expires_ts },
            ExchangeStage::Over,
        ),
        (_, ExchangeEvent::NotStored { cause }) => (
            ExchangeActionView::NotStored { cause: cause@ },
            ExchangeStage::Over,
        ),
        (_, ExchangeEvent::RequestFailed { cause }) => (
            ExchangeActionView::NoToken { cause: cause@ },
            ExchangeStage::Over,
        ),
        (_, ExchangeEvent::Replied { reply, now_ts }) => {
            let doc = json::json_document(reply@);
            if !oauth::reply_fits(doc, now_ts as int) {
                (ExchangeActionView::OutOfRange, ExchangeStage::Over)
            } else {
                match token_flow::granted_for(config.token_file, doc, now_ts as int) {
                    Some(granted) => (
                        ExchangeActionView::Store(granted),
                        ExchangeStage::Storing { expires_ts: granted.token.expires_ts as i64 },
                    ),
                    None => (
                        ExchangeActionView::NoToken { cause: refusal_text(reply@) },
                        ExchangeStage::Over,
                    ),
                }
            }
        },
        // Nothing waits for this.
        (_, ExchangeEvent::Stored) => (
            ExchangeActionView::NoToken { cause: seq![] },
            ExchangeStage::Over,
        ),
    }
}

/// An exchange on its way. Its token request was sent.
pub struct ExchangeFlow {
    pub stage: ExchangeStage,
}

impl ExchangeFlow {
    /// Waits for the reply.
    pub fn begin() -> (r: ExchangeFlow)
        ensures
            r.stage == ExchangeStage::Waiting,
    {
        ExchangeFlow { stage: ExchangeStage::Waiting }
    }

    /// Whether the exchange waits for this.
    pub fn expects(&self, event: &ExchangeEvent) -> (r: bool)
        ensures
            r == awaits(self.stage, *event),
    {
        match self.stage {
            ExchangeStage::Waiting => matches!(
                event,
                ExchangeEvent::Replied { .. } | ExchangeEvent::RequestFailed { .. }
            ),
            ExchangeStage::Storing { .. } => matches!(
                event,
                ExchangeEvent::Stored | ExchangeEvent::NotStored { .. }
            ),
            ExchangeStage::Over => false,
        }
    }

    /// Takes what came of the last action; returns the next one.
    pub fn advance(&mut self, config: &OAuthServerConfig, event: ExchangeEvent) -> (r:
        ExchangeAction)
        requires
            awaits(old(self).stage, event),
        ensures
            ({
                let (action, stage) = exchange_step(*config, old(self).stage, event);
                r.does(*config, action) && final(self).stage == stage
            }),
    {
        let stage = self.stage;
        self.stage = ExchangeStage::Over;
        let outcome = match event {
            ExchangeEvent::Replied { reply, now_ts } => {
                match token_flow::read_granted(&config.token_file, reply.as_str(), now_ts) {
                    None => {
                        return ExchangeAction::OutOfRange;
                    },
                    Some(Ok(granted)) => {
                        self.stage = ExchangeStage::Storing {
                            expires_ts: granted.token.expires_ts,
                        };
                        return ExchangeAction::Store(granted);
                    },
                    Some(Err(e)) => ExchangeOutcome::Failed { cause: e.full_message() },
                }
            },
            ExchangeEvent::RequestFailed { cause } => ExchangeOutcome::Failed { cause },
            ExchangeEvent::NotStored { cause } => ExchangeOutcome::NotStored { cause },
            ExchangeEvent::Stored => match stage {
                ExchangeStage::Storing { expires_ts } => ExchangeOutcome::Stored { expires_ts },
                _ => ExchangeOutcome::Failed { cause: String::new() },
            },
        };
        ExchangeAction::Answer(config.exchange_response(&outcome))
    }
}

/// An exchange after some events, each awaited when it comes: what it did last, and what it waits
/// for.
pub open spec fn run(config: OAuthServerConfig, events: Seq<ExchangeEvent>) -> Option<
    (Option<ExchangeActionView>, ExchangeStage),
>
    decreases events.len(),
{
    if events.len() == 0 {
        Some((None, ExchangeStage::Waiting))
    } else {
        match run(config, events.drop_last()) {
            Some((_, stage)) => if awaits(stage, events.last()) {
                let (action, next) = exchange_step(config, stage, events.last());
                Some((Some(action), next))
            } else {
                None
            },
            None => None,
        }
    }
}

/// A reply that grants a token with this expiry, for the configured file.
pub open spec fn grants(config: OAuthServerConfig, event: ExchangeEvent, expires_ts: i64) -> bool {
    event matches ExchangeEvent::Replied { reply, now_ts } && token_flow::granted_for(
        config.token_file,
        json::json_document(reply@),
        now_ts as int,
    ) matches Some(granted) && granted.token.expires_ts == expires_ts
}

proof fn lemma_run(config: OAuthServerConfig, events: Seq<ExchangeEvent>)
    requires
        run(config, events) is Some,
    ensures
        ({
            let (action, stage) = run(config, events)->0;
            &&& stage is Waiting ==> events.len() == 0
            &&& stage matches ExchangeStage::Storing { expires_ts } ==> events.len() == 1
                && grants(config, events[0], expires_ts)
            &&& action matches Some(ExchangeActionView::Succeed { expires_ts }) ==> events.len()
                == 2 && grants(config, events[0], expires_ts) && events[1] is Stored
        }),
    decreases events.len(),
{
    if events.len() > 0 {
        lemma_run(config, events.drop_last());
    }
}

/// The page of success comes only after a reply granted a token and that token was stored, and it
/// shows that token's expiry.
pub proof fn law_success_follows_storing(
    config: OAuthServerConfig,
    events: Seq<ExchangeEvent>,
    expires_ts: i64,
)
    requires
        run(config, events) matches Some((action, _)) && action == Some(
            ExchangeActionView::Succeed { expires_ts },
        ),
    ensures
        events.len() == 2,
        grants(config, events[0], expires_ts),
        events[1] is Stored,
{
    lemma_run(config, events);
}

/// A granted token is stored in the configured file, and the page of success follows.
pub proof fn law_granted_token_leads_to_success(
    config: OAuthServerConfig,
    reply: ExchangeEvent,
    expires_ts: i64,
)
    requires
        grants(config, reply, expires_ts),
    ensures
        ({
            let (action, stage) = exchange_step(config, ExchangeStage::Waiting, reply);
            &&& action matches ExchangeActionView::Store(granted) && granted.file
                == config.token_file && granted.token.expires_ts == expires_ts
            &&& stage == ExchangeStage::Storing { expires_ts }
            &&& exchange_step(config, stage, ExchangeEvent::Stored).0
                == (ExchangeActionView::Succeed { expires_ts })
        }),
{
}

/// Each failure has its page: a request that failed and a token that was not stored are told with
/// their cause, and a reply without a token with what is wrong with it.
pub proof fn law_failures_are_told(
    config: OAuthServerConfig,
    expires_ts: i64,
    event: ExchangeEvent,
)
    ensures
        event matches ExchangeEvent::RequestFailed { cause } ==> exchange_step(
            config,
            ExchangeStage::Waiting,
            event,
        ) == (ExchangeActionView::NoToken { cause: cause@ }, ExchangeStage::Over),
        event matches ExchangeEvent::NotStored { cause } ==> exchange_step(
            config,
            ExchangeStage::Storing { expires_ts },
            event,
        ) == (ExchangeActionView::NotStored { cause: cause@ }, ExchangeStage::Over),
        event matches ExchangeEvent::Replied { reply, now_ts: _ } ==> match json::json_read(
            reply@,
        ) {
            Err(wrong) => exchange_step(config, ExchangeStage::Waiting, event) == (
                ExchangeActionView::NoToken {
                    cause: "invalid MIoT OAuth response: "@ + reply@ + ": "@
                        + json::json_error_text(wrong),
                },
                ExchangeStage::Over,
            ),
            Ok(doc) => match oauth::grant_of(doc) {
                Err(fault) => exchange_step(config, ExchangeStage::Waiting, event) == (
                    ExchangeActionView::NoToken { cause: oauth::fault_text(fault, reply@) },
                    ExchangeStage::Over,
                ),
                Ok(_) => true,
            },
        },
{
}

/// What is sent: the page of success with 200, which names the token file and the expiry; a page
/// that there is no token with 502; a page that it was not stored with 500.
pub proof fn law_what_is_sent(
    config: OAuthServerConfig,
    action: ExchangeAction,
    expires_ts: i64,
    cause: Seq<char>,
)
    ensures
        action.does(config, ExchangeActionView::Succeed { expires_ts }) ==> (action matches
            ExchangeAction::Answer(sent) && sent@ == pages::response(
            200,
            pages::success_page(config.token_file, expires_ts),
        )),
        action.does(config, ExchangeActionView::NoToken { cause }) ==> (action matches
            ExchangeAction::Answer(sent) && sent@ == pages::response(
            502,
            pages::error_page("Token 获取失败"@, cause),
        )),
        action.does(config, ExchangeActionView::NotStored { cause }) ==> (action matches
            ExchangeAction::Answer(sent) && sent@ == pages::response(
            500,
            pages::error_page("Token 已获取但保存失败"@, cause),
        )),
        action.does(config, ExchangeActionView::OutOfRange) ==> action is OutOfRange,
{
}

/// A reply or a failed request is awaited first, the outcome of storing second, and nothing after
/// the end.
pub proof fn law_what_is_awaited(event: ExchangeEvent, expires_ts: i64)
    ensures
        awaits(ExchangeStage::Waiting, event) <==> event is Replied || event is RequestFailed,
        awaits(ExchangeStage::Storing { expires_ts }, event) <==> event is Stored || event
            is NotStored,
        !awaits(ExchangeStage::Over, event),
{
}

} // verus!
