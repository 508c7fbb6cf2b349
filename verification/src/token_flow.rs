//! Resolving a token from the stored one to the one that is used: what is sent, what is stored, and
//! what is returned.
//!
//! The caller performs the action that a step asks for and hands back what came of it.
use std::path::PathBuf;
use vstd::prelude::*;
use vstd::string::*;

use crate::json;
use crate::oauth;
use crate::oauth::{
    MiotToken, OauthError, TokenDecision, TokenDecisionView, TokenFault, TokenRequest,
    TokenResolverConfig, TokenView,
};
use crate::text;

verus! {

/// A token that was granted, and the file that it is stored in.
#[derive(Debug, Clone, PartialEq, Eq)]
pub struct Refreshed {
    pub token: MiotToken,
    pub file: Option<PathBuf>,
}

/// The value of a [`Refreshed`].
pub struct RefreshedView {
    pub token: TokenView,
    pub file: Option<PathBuf>,
}

impl View for Refreshed {
    type V = RefreshedView;

    open spec fn view(&self) -> RefreshedView {
        RefreshedView { token: self.token@, file: self.file }
    }
}

/// The token that a reply grants, for a file; there is none where the reply grants none.
pub open spec fn granted_for(
    file: Option<PathBuf>,
    doc: Option<json::JsonTree>,
    now_ts: int,
) -> Option<RefreshedView> {
    match doc {
        Some(t) => match oauth::grant_of(t) {
            Ok(g) => Some(RefreshedView { token: g.token(now_ts), file }),
            Err(_) => None,
        },
        None => None,
    }
}

/// What a reply is read as: the token that it grants for a file, or the error that says what is
/// wrong with the text; nothing where the expiry is out of range.
pub open spec fn granted_read_as(
    file: Option<PathBuf>,
    reply: Seq<char>,
    now_ts: int,
    r: Option<Result<Refreshed, OauthError>>,
) -> bool {
    let doc = json::json_document(reply);
    match r {
        None => !oauth::reply_fits(doc, now_ts),
        Some(Ok(x)) => oauth::reply_fits(doc, now_ts) && granted_for(file, doc, now_ts) == Some(
            x@,
        ),
        Some(Err(e)) => {
            &&& oauth::reply_fits(doc, now_ts)
            &&& granted_for(file, doc, now_ts) is None
            &&& oauth::reply_read_as(reply, now_ts, Err::<MiotToken, OauthError>(e))
        },
    }
}

/// Reads the reply to a token request for the token to be stored in a file, unless the expiry that
/// it leads to is out of range.
pub fn read_granted(file: &Option<PathBuf>, reply: &str, now_ts: i64) -> (r: Option<
    Result<Refreshed, OauthError>,
>)
    ensures
        granted_read_as(*file, reply@, now_ts as int, r),
{
    match oauth::try_parse_token_response(reply, now_ts) {
        None => None,
        Some(Ok(token)) => Some(Ok(Refreshed { token, file: file.clone() })),
        Some(Err(e)) => Some(Err(e)),
    }
}

/// Reads the reply to a refresh: the granted token is the one to be stored, in the configured file.
pub fn after_refresh(config: &TokenResolverConfig, reply: &str, now_ts: i64) -> (r: Option<
    Result<Refreshed, OauthError>,
>)
    ensures
        granted_read_as(config.token_file, reply@, now_ts as int, r),
{
    read_granted(&config.token_file, reply, now_ts)
}

/// What came of the last action.
pub enum ResolveEvent {
    /// The request was answered.
    Replied { reply: String, now_ts: i64 },
    /// The request failed.
    RequestFailed,
    /// The token was stored, as far as a file is configured.
    Stored,
    /// The token could not be stored.
    NotStored,
}

/// Why there is no token.
pub enum ResolveFailure {
    Oauth(OauthError),
    /// The expiry of the granted token is out of range.
    OutOfRange,
    /// What was asked for was not done.
    Undone,
}

/// What is to be done next.
pub enum ResolveAction {
    /// Sends a request.
    Send(TokenRequest),
    /// Stores a token.
    Store(Refreshed),
    /// Uses the token.
    Return(MiotToken),
    Fail(ResolveFailure),
}

/// The value of a [`ResolveFailure`].
pub enum FailureView {
    MissingToken,
    MissingRefreshToken,
    InvalidResponse(Seq<char>),
    BadReply(TokenFault, Seq<char>),
    OutOfRange,
    Undone,
}

/// The value of a [`ResolveAction`]; a request is told by the refresh token that it carries.
pub enum ActionView {
    Send(Seq<char>),
    Store(RefreshedView),
    Return(TokenView),
    Fail(FailureView),
}

impl ResolveFailure {
    /// A failure that reports this.
    pub open spec fn reports(self, failure: FailureView) -> bool {
        match failure {
            FailureView::MissingToken => self matches ResolveFailure::Oauth(e) && e
                is MissingToken,
            FailureView::MissingRefreshToken => self matches ResolveFailure::Oauth(e) && e
                is MissingRefreshToken,
            FailureView::InvalidResponse(reply) => self matches ResolveFailure::Oauth(
                OauthError::InvalidResponse { text, cause },
            ) && text@ == reply && json::json_read(reply) == Err::<
                json::JsonTree,
                serde_json::Error,
            >(cause),
            FailureView::BadReply(wrong, reply) => self matches ResolveFailure::Oauth(
                OauthError::BadReply { fault, text },
            ) && fault == wrong && text@ == reply,
            FailureView::OutOfRange => self is OutOfRange,
            FailureView::Undone => self is Undone,
        }
    }
}

impl ResolveAction {
    /// An action that does this.
    pub open spec fn does(self, config: TokenResolverConfig, action: ActionView) -> bool {
        match action {
            ActionView::Send(refresh_token) => self matches ResolveAction::Send(request)
                && request.carries(
                config.cloud_server@,
                oauth::refresh_fields(config.redirect_uri@, refresh_token),
            ),
            ActionView::Store(refreshed) => self matches ResolveAction::Store(x) && x@
                == refreshed,
            ActionView::Return(token) => self matches ResolveAction::Return(t) && t@ == token,
            ActionView::Fail(failure) => self matches ResolveAction::Fail(f) && f.reports(failure),
        }
    }
}

/// What a resolution waits for.
pub enum ResolveStage {
    /// The reply to its request.
    Waiting,
    /// The storing of this token.
    Storing(MiotToken),
    /// Nothing more.
    Over,
}

/// The value of a [`ResolveStage`].
pub enum StageView {
    Waiting,
    Storing(TokenView),
    Over,
}

impl View for ResolveStage {
    type V = StageView;

    open spec fn view(&self) -> StageView {
        match self {
            ResolveStage::Waiting => StageView::Waiting,
            ResolveStage::Storing(token) => StageView::Storing(token@),
            ResolveStage::Over => StageView::Over,
        }
    }
}

/// The events that a stage waits for.
pub open spec fn awaits(stage: StageView, event: ResolveEvent) -> bool {
    match stage {
        StageView::Waiting => event is Replied || event is RequestFailed,
        StageView::Storing(_) => event is Stored || event is NotStored,
        StageView::Over => false,
    }
}

/// The first step: the token that the configuration and the stored token lead to is returned, or a
/// request is sent for a new one.
pub open spec fn first_step(
    config: TokenResolverConfig,
    stored: Option<TokenView>,
    now_ts: int,
) -> (ActionView, StageView) {
    match config.decision(stored, now_ts) {
        TokenDecisionView::Use(token) => (ActionView::Return(token), StageView::Over),
        TokenDecisionView::Missing => (
            ActionView::Fail(FailureView::MissingToken),
            StageView::Over,
        ),
        TokenDecisionView::Refresh { refresh_token } => if text::is_blank(refresh_token) {
            (ActionView::Fail(FailureView::MissingRefreshToken), StageView::Over)
        } else {
            (ActionView::Send(refresh_token), StageView::Waiting)
        },
    }
}

/// What a reply fails with, where it grants no token.
pub open spec fn reply_failure(doc: Option<json::JsonTree>, reply: Seq<char>) -> FailureView {
    match doc {
        None => FailureView::InvalidResponse(reply),
        Some(t) => match oauth::grant_of(t) {
            Err(fault) => FailureView::BadReply(fault, reply),
            Ok(_) => FailureView::OutOfRange,
        },
    }
}

/// A later step: a granted token is stored, and is returned once it is.
pub open spec fn next_step(
    config: TokenResolverConfig,
    stage: StageView,
    event: ResolveEvent,
) -> (ActionView, StageView) {
    match (stage, event) {
        (StageView::Waiting, ResolveEvent::Replied { reply, now_ts }) => {
            let doc = json::json_document(reply@);
            match granted_for(config.token_file, doc, now_ts as int) {
                Some(refreshed) => if oauth::reply_fits(doc, now_ts as int) {
                    (ActionView::Store(refreshed), StageView::Storing(refreshed.token))
                } else {
                    (ActionView::Fail(FailureView::OutOfRange), StageView::Over)
                },
                None => (ActionView::Fail(reply_failure(doc, reply@)), StageView::Over),
            }
        },
        (StageView::Storing(token), ResolveEvent::Stored) => (
            ActionView::Return(token),
            StageView::Over,
        ),
        _ => (ActionView::Fail(FailureView::Undone), StageView::Over),
    }
}

/// A token that is being resolved.
pub struct TokenResolution {
    pub config: TokenResolverConfig,
    pub stage: ResolveStage,
}

impl TokenResolution {
    /// Starts from the stored token.
    pub fn begin(config: TokenResolverConfig, stored: Option<MiotToken>, now_ts: i64) -> (r: (
        TokenResolution,
        ResolveAction,
    ))
        requires
            config.times_fit(oauth::opt_token(stored), now_ts as int),
        ensures
            r.0.config == config,
            ({
                let (action, stage) = first_step(config, oauth::opt_token(stored), now_ts as int);
                r.1.does(config, action) && r.0.stage@ == stage
            }),
    {
        let (action, stage) = match oauth::resolve_access_token(&config, stored, now_ts) {
            TokenDecision::Use(token) => (ResolveAction::Return(token), ResolveStage::Over),
            TokenDecision::Missing => (
                ResolveAction::Fail(ResolveFailure::Oauth(OauthError::MissingToken)),
                ResolveStage::Over,
            ),
            TokenDecision::Refresh { refresh_token } => match oauth::refresh_access_token(
                config.cloud_server.as_str(),
                config.redirect_uri.as_str(),
                refresh_token.as_str(),
            ) {
                Ok(request) => (ResolveAction::Send(request), ResolveStage::Waiting),
                Err(e) => (ResolveAction::Fail(ResolveFailure::Oauth(e)), ResolveStage::Over),
            },
        };
        (TokenResolution { config, stage }, action)
    }

    /// Whether the resolution waits for this.
    pub fn expects(&self, event: &ResolveEvent) -> (r: bool)
        ensures
            r == awaits(self.stage@, *event),
    {
        match self.stage {
            ResolveStage::Waiting => matches!(
                event,
                ResolveEvent::Replied { .. } | ResolveEvent::RequestFailed
            ),
            ResolveStage::Storing(_) => matches!(
                event,
                ResolveEvent::Stored | ResolveEvent::NotStored
            ),
            ResolveStage::Over => false,
        }
    }

    /// Takes what came of the last action; returns the next one.
    pub fn advance(&mut self, event: ResolveEvent) -> (r: ResolveAction)
        requires
            awaits(old(self).stage@, event),
        ensures
            final(self).config == old(self).config,
            ({
                let (action, stage) = next_step(old(self).config, old(self).stage@, event);
                r.does(old(self).config, action) && final(self).stage@ == stage
            }),
    {
        let mut stage = ResolveStage::Over;
        std::mem::swap(&mut stage, &mut self.stage);
        match (stage, event) {
            (ResolveStage::Waiting, ResolveEvent::Replied { reply, now_ts }) => {
                match after_refresh(&self.config, reply.as_str(), now_ts) {
                    Some(Ok(refreshed)) => {
                        self.stage = ResolveStage::Storing(
                            MiotToken {
                                access_token: refreshed.token.access_token.clone(),
                                refresh_token: refreshed.token.refresh_token.clone(),
                                expires_ts: refreshed.token.expires_ts,
                            },
                        );
                        ResolveAction::Store(refreshed)
                    },
                    Some(Err(e)) => ResolveAction::Fail(ResolveFailure::Oauth(e)),
                    None => ResolveAction::Fail(ResolveFailure::OutOfRange),
                }
            },
            (ResolveStage::Storing(token), ResolveEvent::Stored) => ResolveAction::Return(token),
            _ => ResolveAction::Fail(ResolveFailure::Undone),
        }
    }
}

/// What is known of the token file. A text holds the token that [`oauth::token_in`] reads from it.
pub enum FileView {
    /// It holds this token, or there is none.
    Holds(Option<TokenView>),
    /// A write failed.
    Unknown,
}

/// A resolution after some events: what it did last, what it waits for, and what the token file
/// holds.
pub struct RunView {
    pub action: ActionView,
    pub stage: StageView,
    pub file: FileView,
}

/// The token file after an event: only the storing of a token touches it.
pub open spec fn file_after(file: FileView, action: ActionView, event: ResolveEvent) -> FileView {
    match action {
        ActionView::Store(refreshed) => if refreshed.file is None {
            file
        } else if event is Stored {
            FileView::Holds(Some(refreshed.token))
        } else {
            FileView::Unknown
        },
        _ => file,
    }
}

/// A resolution from the stored token on, each event awaited when it comes.
pub open spec fn run(
    config: TokenResolverConfig,
    stored: Option<TokenView>,
    now_ts: int,
    events: Seq<ResolveEvent>,
) -> Option<RunView>
    decreases events.len(),
{
    if events.len() == 0 {
        let (action, stage) = first_step(config, stored, now_ts);
        Some(RunView { action, stage, file: FileView::Holds(stored) })
    } else {
        match run(config, stored, now_ts, events.drop_last()) {
            Some(before) => if awaits(before.stage, events.last()) {
                let (action, stage) = next_step(config, before.stage, events.last());
                Some(
                    RunView {
                        action,
                        stage,
                        file: file_after(before.file, before.action, events.last()),
                    },
                )
            } else {
                None
            },
            None => None,
        }
    }
}

/// What holds of every run that goes on: it waits for the reply to its one request, the file being
/// untouched, or for the storing of the granted token in the configured file.
proof fn lemma_run(
    config: TokenResolverConfig,
    stored: Option<TokenView>,
    now_ts: int,
    events: Seq<ResolveEvent>,
)
    requires
        run(config, stored, now_ts, events) is Some,
    ensures
        ({
            let now = run(config, stored, now_ts, events)->0;
            &&& now.stage is Waiting <==> now.action is Send
            &&& now.action is Send ==> events.len() == 0
            &&& now.stage is Waiting ==> now.file == FileView::Holds(stored)
            &&& now.stage matches StageView::Storing(token) ==> now.action == ActionView::Store(
                RefreshedView { token, file: config.token_file },
            ) && now.file == FileView::Holds(stored)
            &&& now.action is Store ==> now.stage is Storing
        }),
    decreases events.len(),
{
    if events.len() > 0 {
        lemma_run(config, stored, now_ts, events.drop_last());
    }
}

/// At most one request is sent, and it comes first.
pub proof fn law_one_request_is_sent(
    config: TokenResolverConfig,
    stored: Option<TokenView>,
    now_ts: int,
    events: Seq<ResolveEvent>,
)
    requires
        run(config, stored, now_ts, events) is Some,
    ensures
        run(config, stored, now_ts, events)->0.action is Send ==> events.len() == 0,
{
    lemma_run(config, stored, now_ts, events);
}

/// Where a token file is configured, a token that was asked for is returned only once the file
/// holds it; and where the file held a token, the one that is returned is the one that it holds.
pub proof fn law_returned_token_is_stored(
    config: TokenResolverConfig,
    stored: Option<TokenView>,
    now_ts: int,
    events: Seq<ResolveEvent>,
    token: TokenView,
)
    requires
        run(config, stored, now_ts, events) matches Some(end) && end.action == ActionView::Return(
            token,
        ),
        config.token_file is Some,
        events.len() > 0 || stored is Some,
    ensures
        run(config, stored, now_ts, events)->0.file == FileView::Holds(Some(token)),
{
    if events.len() > 0 {
        lemma_run(config, stored, now_ts, events.drop_last());
    }
}

/// A refresh that yields no token writes nothing: the file is as it was, unless a write failed.
pub proof fn law_failed_refresh_keeps_the_file(
    config: TokenResolverConfig,
    stored: Option<TokenView>,
    now_ts: int,
    events: Seq<ResolveEvent>,
)
    requires
        run(config, stored, now_ts, events) matches Some(end) && end.action is Fail,
        events.len() > 0 ==> !(events.last() is NotStored),
    ensures
        run(config, stored, now_ts, events)->0.file == FileView::Holds(stored),
{
    if events.len() > 0 {
        lemma_run(config, stored, now_ts, events.drop_last());
    }
}

/// A stored token that is unusable or about to expire is replaced: its own refresh token is sent,
/// whatever is configured; the token that the reply grants is stored in the configured file and is
/// then returned; and there is no token where the request fails, the reply grants none, or the
/// storing fails.
pub proof fn law_stored_token_is_rotated(
    config: TokenResolverConfig,
    stored: TokenView,
    now_ts: int,
    answer: ResolveEvent,
)
    requires
        !text::is_blank(stored.refresh_token),
        text::is_blank(stored.access_token) || stored.expires_ts <= now_ts
            + config.refresh_margin_seconds,
        awaits(StageView::Waiting, answer),
    ensures
        first_step(config, Some(stored), now_ts) == (
            ActionView::Send(stored.refresh_token),
            StageView::Waiting,
        ),
        match answer {
            ResolveEvent::Replied { reply, now_ts: reply_ts } => {
                let doc = json::json_document(reply@);
                if doc matches Some(t) && oauth::grant_of(t) is Ok && oauth::reply_fits(
                    doc,
                    reply_ts as int,
                ) {
                    let token = (oauth::grant_of(doc->0)->Ok_0).token(reply_ts as int);
                    &&& next_step(config, StageView::Waiting, answer) == (
                        ActionView::Store(RefreshedView { token, file: config.token_file }),
                        StageView::Storing(token),
                    )
                    &&& next_step(config, StageView::Storing(token), ResolveEvent::Stored).0
                        == ActionView::Return(token)
                    &&& next_step(config, StageView::Storing(token), ResolveEvent::NotStored).0
                        is Fail
                } else {
                    next_step(config, StageView::Waiting, answer).0 is Fail
                }
            },
            _ => next_step(config, StageView::Waiting, answer).0 is Fail,
        },
{
}

/// A token that is returned at once has both parts and outlives the margin, and a stored one is
/// returned as it is.
pub proof fn law_token_returned_at_once_is_good(
    config: TokenResolverConfig,
    stored: Option<TokenView>,
    now_ts: int,
)
    ensures
        first_step(config, stored, now_ts).0 matches ActionView::Return(t) ==> {
            &&& now_ts + config.refresh_margin_seconds < t.expires_ts
            &&& !text::is_blank(t.access_token)
            &&& !text::is_blank(t.refresh_token)
            &&& stored is Some ==> stored == Some(t)
        },
        stored matches Some(t) && !text::is_blank(t.access_token) && !text::is_blank(
            t.refresh_token,
        ) && now_ts + config.refresh_margin_seconds < t.expires_ts ==> first_step(
            config,
            stored,
            now_ts,
        ) == (ActionView::Return(stored->0), StageView::Over),
{
}

/// What cannot be refreshed fails: a stored token without a refresh token, and no token at all.
pub proof fn law_nothing_to_refresh_with_fails(
    config: TokenResolverConfig,
    stored: TokenView,
    now_ts: int,
)
    ensures
        text::is_blank(stored.refresh_token) ==> first_step(config, Some(stored), now_ts) == (
            ActionView::Fail(FailureView::MissingRefreshToken),
            StageView::Over,
        ),
        text::content(config.refresh_token) is None ==> first_step(config, None, now_ts) == (
            ActionView::Fail(FailureView::MissingToken),
            StageView::Over,
        ),
        text::content(config.access_token) is None && text::content(config.refresh_token) is Some
            ==> first_step(config, None, now_ts) == (
            ActionView::Send(text::content(config.refresh_token)->0),
            StageView::Waiting,
        ),
{
    text::lemma_content_is_not_blank(config.refresh_token);
}

/// A reply fails for what is wrong with it: no JSON, a fault in it, or an expiry out of range.
pub proof fn law_why_a_refresh_fails(
    config: TokenResolverConfig,
    event: ResolveEvent,
    reply: Seq<char>,
    now_ts: i64,
)
    requires
        event matches ResolveEvent::Replied { reply: text, now_ts: ts } && text@ == reply && ts
            == now_ts,
    ensures
        ({
            let (action, stage) = next_step(config, StageView::Waiting, event);
            match json::json_read(reply) {
                Err(_) => action == ActionView::Fail(FailureView::InvalidResponse(reply)) && stage
                    is Over,
                Ok(doc) => match oauth::grant_of(doc) {
                    Err(fault) => action == ActionView::Fail(FailureView::BadReply(fault, reply))
                        && stage is Over,
                    Ok(g) => (i64::MIN <= g.token(now_ts as int).expires_ts <= i64::MAX) || (action
                        == ActionView::Fail(FailureView::OutOfRange) && stage is Over),
                },
            }
        }),
{
}

/// What an action does to the outside: a request carries the refresh token to the region's host.
pub proof fn law_request_carries_the_refresh_token(
    config: TokenResolverConfig,
    action: ResolveAction,
    refresh_token: Seq<char>,
)
    requires
        action.does(config, ActionView::Send(refresh_token)),
    ensures
        action matches ResolveAction::Send(request) && request.url@ == "https://"@
            + oauth::cloud_host(config.cloud_server@) + "/app/v2/mico/oauth/get_token"@
            && (json::json_document(request.data@) matches Some(sent) && sent.member_text(
            "refresh_token"@,
        ) == Some(refresh_token) && sent.member_text("redirect_uri"@) == Some(
            config.redirect_uri@,
        )),
{
    oauth::law_refresh_payload(config.redirect_uri@, refresh_token, "refresh_token"@);
    oauth::law_refresh_payload(config.redirect_uri@, refresh_token, "redirect_uri"@);
    reveal_strlit("client_id");
    reveal_strlit("redirect_uri");
    reveal_strlit("refresh_token");
    assert("client_id"@.len() != "redirect_uri"@.len());
    assert("client_id"@.len() != "refresh_token"@.len());
    assert("redirect_uri"@.len() != "refresh_token"@.len());
}

/// A reply or a failed request is awaited after a request, the outcome of storing after a token is
/// to be stored, and nothing after the end.
pub proof fn law_what_is_awaited(event: ResolveEvent, token: TokenView)
    ensures
        awaits(StageView::Waiting, event) <==> event is Replied || event is RequestFailed,
        awaits(StageView::Storing(token), event) <==> event is Stored || event is NotStored,
        !awaits(StageView::Over, event),
{
}

} // verus!
