//! The login helper: its settings, how it reads a request, and what it answers.
use std::path::PathBuf;
use vstd::prelude::*;
use vstd::string::*;

use crate::link;
use crate::link::Link;
use crate::oauth;
use crate::oauth::TokenRequest;
use crate::pages;
use crate::paths;
use crate::text;

verus! {

/// The settings, as far as they are given.
#[derive(Debug, Clone)]
pub struct OAuthSettings {
    pub bind: Option<String>,
    pub public_base_url: Option<String>,
    pub callback_path: Option<String>,
    pub cloud_server: Option<String>,
    pub redirect_uri: Option<String>,
    pub uuid: Option<String>,
    pub token_file: Option<PathBuf>,
    pub skip_confirm: Option<String>,
}

/// What the helper needs to know.
#[derive(Debug, Clone)]
pub struct OAuthServerConfig {
    pub bind: String,
    pub public_base_url: String,
    pub callback_path: String,
    pub cloud_server: String,
    pub redirect_uri: String,
    pub uuid: String,
    pub token_file: Option<PathBuf>,
    pub skip_confirm: bool,
}

/// A word that switches a setting on.
pub open spec fn is_yes(s: Seq<char>) -> bool {
    s == "1"@ || s == "true"@ || s == "TRUE"@ || s == "yes"@ || s == "YES"@
}

/// Whether a setting is on; one that is not given is as `default` says.
pub fn env_bool(value: &Option<String>, default: bool) -> (r: bool)
    ensures
        r == (match *value {
            Some(s) => is_yes(s@),
            None => default,
        }),
{
    match value {
        Some(s) => {
            let s = s.as_str();
            text::same(s, "1") || text::same(s, "true") || text::same(s, "TRUE") || text::same(
                s,
                "yes",
            ) || text::same(s, "YES")
        },
        None => default,
    }
}

/// What a request asks for: the second word of its first line, or the root where there is none.
pub open spec fn target_of(request: Seq<char>) -> Seq<char> {
    let line = request.subrange(0, text::first_position(request, '\n'));
    let target = text::first_word(text::after_first_word(line));
    if target.len() == 0 {
        "/"@
    } else {
        target
    }
}

/// Reads what a request asks for from its text.
pub fn request_target(request: &str) -> (r: String)
    ensures
        r@ == target_of(request@),
{
    let end: usize = text::find_char(request, '\n');
    let line = request.substring_char(0, end);
    let rest = text::split_first_word(line).1;
    let target = text::split_first_word(rest).0;
    if target.is_empty() {
        "/".to_owned()
    } else {
        target.to_owned()
    }
}

/// Reads what a request asks for.
pub fn request_path(request: &[u8]) -> (r: String)
    ensures
        r@ == target_of(text::lossy_text(request@)),
        vstd::utf8::valid_utf8(request@) ==> r@ == target_of(vstd::utf8::decode_utf8(request@)),
{
    request_target(text::read_lossy(request).as_str())
}

/// The value of a name in a query, the last one where there are several.
pub open spec fn query_value(pairs: Seq<(Seq<char>, Seq<char>)>, name: Seq<char>) -> Option<
    Seq<char>,
>
    decreases pairs.len(),
{
    if pairs.len() == 0 {
        None
    } else if pairs.last().0 == name {
        Some(pairs.last().1)
    } else {
        query_value(pairs.drop_last(), name)
    }
}

/// The value of a name in a query, where it is not blank.
pub open spec fn query_content(pairs: Seq<(Seq<char>, Seq<char>)>, name: Seq<char>) -> Option<
    Seq<char>,
> {
    match query_value(pairs, name) {
        Some(value) => if text::is_blank(value) {
            None
        } else {
            Some(value)
        },
        None => None,
    }
}

/// Finds the value of a name in a query, where it is not blank.
fn find_query_content<'a>(pairs: &'a Vec<(String, String)>, name: &str) -> (r: Option<&'a str>)
    ensures
        match r {
            Some(value) => query_content(link::pair_texts(pairs@), name@) == Some(value@),
            None => query_content(link::pair_texts(pairs@), name@) is None,
        },
{
    let ghost all = link::pair_texts(pairs@);
    let mut i: usize = pairs.len();
    assert(all.subrange(0, all.len() as int) =~= all);
    while i > 0
        invariant
            i <= pairs@.len(),
            all == link::pair_texts(pairs@),
            query_value(all, name@) == query_value(all.subrange(0, i as int), name@),
        decreases i,
    {
        let ghost front = all.subrange(0, i as int);
        i = i - 1;
        assert(front.drop_last() =~= all.subrange(0, i as int));
        assert(front.last() == (pairs@[i as int].0@, pairs@[i as int].1@));
        if text::same(pairs[i].0.as_str(), name) {
            let value = pairs[i].1.as_str();
            return if text::blank(value) {
                None
            } else {
                Some(value)
            };
        }
    }
    None
}

/// What a callback asks for.
pub enum CallbackView {
    MissingCode,
    MissingState,
    StateMismatch(Seq<char>),
    Exchange(Seq<char>),
}

/// What a callback of an installation's login asks for: its code is exchanged where its state is
/// the login's.
pub open spec fn callback_of(
    uuid: Seq<char>,
    query: Seq<(Seq<char>, Seq<char>)>,
) -> CallbackView {
    match query_content(query, "code"@) {
        None => CallbackView::MissingCode,
        Some(code) => match query_content(query, "state"@) {
            None => CallbackView::MissingState,
            Some(state) => if state == oauth::state_of(uuid) {
                CallbackView::Exchange(code)
            } else {
                CallbackView::StateMismatch(state)
            },
        },
    }
}

/// What the helper does about a request.
pub enum HelperStep {
    /// Sends a response.
    Answer(String),
    /// Requests tokens first.
    Exchange(TokenRequest),
}

/// What became of a token request.
pub enum ExchangeOutcome {
    /// The token is stored, as far as a file is configured.
    Stored { expires_ts: i64 },
    /// The token could not be stored.
    NotStored { cause: String },
    /// There is no token.
    Failed { cause: String },
}

/// The response that reports a failure.
pub open spec fn error_response(status: u16, title: Seq<char>, message: Seq<char>) -> Seq<char> {
    pages::response(status, pages::error_page(title, message))
}

fn respond_error(status: u16, title: &str, message: &str) -> (r: String)
    ensures
        r@ == error_response(status, title@, message@),
{
    pages::html_response(status, pages::render_error(title, message).as_str())
}

impl OAuthServerConfig {
    /// The configuration that the settings make, the usual values standing for those that are not
    /// given.
    pub fn from_settings(settings: OAuthSettings) -> (r: OAuthServerConfig)
        ensures
            r.bind@ == text::text_or(settings.bind, "0.0.0.0:18080"@),
            r.public_base_url@ == text::text_or(
                settings.public_base_url,
                "http://127.0.0.1:18080"@,
            ),
            r.callback_path@ == text::text_or(
                settings.callback_path,
                "/api/miot/xiaomi_home_callback"@,
            ),
            r.cloud_server@ == text::text_or(settings.cloud_server, "cn"@),
            r.redirect_uri@ == text::text_or(
                settings.redirect_uri,
                "https://mico.api.mijia.tech/login_redirect"@,
            ),
            r.uuid@ == text::text_or(settings.uuid, "micam-rs"@),
            r.token_file matches Some(file) && match settings.token_file {
                Some(set) => file == set,
                None => paths::path_text(file) == "/config/miot_token.json"@,
            },
            r.skip_confirm == (settings.skip_confirm matches Some(s) && is_yes(s@)),
    {
        OAuthServerConfig {
            bind: text::given_or(settings.bind, "0.0.0.0:18080"),
            public_base_url: text::given_or(settings.public_base_url, "http://127.0.0.1:18080"),
            callback_path: text::given_or(
                settings.callback_path,
                "/api/miot/xiaomi_home_callback",
            ),
            cloud_server: text::given_or(settings.cloud_server, "cn"),
            redirect_uri: text::given_or(settings.redirect_uri, oauth::default_redirect_uri()),
            uuid: text::given_or(settings.uuid, "micam-rs"),
            token_file: Some(
                match settings.token_file {
                    Some(set) => set,
                    None => oauth::default_token_file(),
                },
            ),
            skip_confirm: env_bool(&settings.skip_confirm, false),
        }
    }

    /// Where a browser finds the callback.
    pub fn callback_url(&self) -> (r: String)
        ensures
            r@ == text::without_trailing_slashes(self.public_base_url@) + self.callback_path@,
    {
        text::join(
            text::trim_trailing_slashes(self.public_base_url.as_str()),
            self.callback_path.as_str(),
        )
    }

    /// What the helper does about a callback.
    pub open spec fn answers_callback(
        self,
        query: Seq<(Seq<char>, Seq<char>)>,
        step: HelperStep,
    ) -> bool {
        match callback_of(self.uuid@, query) {
            CallbackView::MissingCode => step matches HelperStep::Answer(sent) && sent@
                == error_response(400, "授权失败"@, "OAuth callback missing code"@),
            CallbackView::MissingState => step matches HelperStep::Answer(sent) && sent@
                == error_response(400, "授权失败"@, "OAuth callback missing state"@),
            CallbackView::StateMismatch(state) => step matches HelperStep::Answer(sent) && sent@
                == error_response(
                400,
                "授权失败"@,
                "state mismatch; expected "@ + oauth::state_of(self.uuid@) + ", got "@ + state,
            ),
            CallbackView::Exchange(code) => step matches HelperStep::Exchange(request)
                && request.carries(
                self.cloud_server@,
                oauth::access_token_fields(self.redirect_uri@, self.uuid@, code),
            ),
        }
    }

    /// Decides what to do about a callback.
    pub fn handle_callback(&self, callback: &Link) -> (r: HelperStep)
        ensures
            self.answers_callback(callback@.query_pairs, r),
    {
        let code = match find_query_content(&callback.query_pairs, "code") {
            Some(code) => code,
            None => {
                return HelperStep::Answer(
                    respond_error(400, "授权失败", "OAuth callback missing code"),
                );
            },
        };
        let state = match find_query_content(&callback.query_pairs, "state") {
            Some(state) => state,
            None => {
                return HelperStep::Answer(
                    respond_error(400, "授权失败", "OAuth callback missing state"),
                );
            },
        };
        let expected = oauth::oauth_state(self.uuid.as_str());
        if !text::same(state, expected.as_str()) {
            let mut message = "state mismatch; expected ".to_owned();
            message.append(expected.as_str());
            message.append(", got ");
            message.append(state);
            return HelperStep::Answer(respond_error(400, "授权失败", message.as_str()));
        }
        match oauth::exchange_code_for_token(
            self.cloud_server.as_str(),
            self.redirect_uri.as_str(),
            self.uuid.as_str(),
            code,
        ) {
            Ok(request) => HelperStep::Exchange(request),
            Err(e) => HelperStep::Answer(
                respond_error(502, "Token 获取失败", e.message().as_str()),
            ),
        }
    }

    /// Decides what to do about a request, once its address was read.
    pub fn handle_link(
        &self,
        target: Result<Link, url::ParseError>,
        auth_url: &str,
        callback_url: &str,
    ) -> (r: HelperStep)
        ensures
            match target {
                Err(e) => r matches HelperStep::Answer(sent) && sent@ == error_response(
                    400,
                    "请求无法解析"@,
                    "invalid request path: "@ + link::url_error_text(e),
                ),
                Ok(found) => if found@.path == self.callback_path@ {
                    self.answers_callback(found@.query_pairs, r)
                } else {
                    r matches HelperStep::Answer(sent) && sent@ == pages::response(
                        200,
                        pages::index_page(auth_url@, callback_url@, self.redirect_uri@, self.uuid@),
                    )
                },
            },
    {
        match target {
            Err(e) => {
                let message = text::join(
                    "invalid request path: ",
                    link::show_url_error(&e).as_str(),
                );
                HelperStep::Answer(respond_error(400, "请求无法解析", message.as_str()))
            },
            Ok(found) => {
                if text::same(found.path.as_str(), self.callback_path.as_str()) {
                    return self.handle_callback(&found);
                }
                let page = pages::render_index(
                    auth_url,
                    callback_url,
                    self.redirect_uri.as_str(),
                    self.uuid.as_str(),
                );
                HelperStep::Answer(pages::html_response(200, page.as_str()))
            },
        }
    }

    /// Decides what to do about a request for a path.
    pub fn handle_request(&self, path: &str, auth_url: &str, callback_url: &str) -> (r: HelperStep)
        ensures
            match link::parsed_url("http://localhost"@ + path@) {
                Err(e) => r matches HelperStep::Answer(sent) && sent@ == error_response(
                    400,
                    "请求无法解析"@,
                    "invalid request path: "@ + link::url_error_text(e),
                ),
                Ok(found) => if found.path == self.callback_path@ {
                    self.answers_callback(found.query_pairs, r)
                } else {
                    r matches HelperStep::Answer(sent) && sent@ == pages::response(
                        200,
                        pages::index_page(auth_url@, callback_url@, self.redirect_uri@, self.uuid@),
                    )
                },
            },
    {
        let address = text::join("http://localhost", path);
        self.handle_link(link::parse_url(address.as_str()), auth_url, callback_url)
    }

    /// The response to a callback, once tokens were requested.
    pub fn exchange_response(&self, outcome: &ExchangeOutcome) -> (r: String)
        ensures
            r@ == (match *outcome {
                ExchangeOutcome::Stored { expires_ts } => pages::response(
                    200,
                    pages::success_page(self.token_file, expires_ts),
                ),
                ExchangeOutcome::NotStored { cause } => error_response(
                    500,
                    "Token 已获取但保存失败"@,
                    cause@,
                ),
                ExchangeOutcome::Failed { cause } => error_response(
                    502,
                    "Token 获取失败"@,
                    cause@,
                ),
            }),
    {
        match outcome {
            ExchangeOutcome::Stored { expires_ts } => {
                let page = pages::render_success(&self.token_file, *expires_ts);
                pages::html_response(200, page.as_str())
            },
            ExchangeOutcome::NotStored { cause } => {
                respond_error(500, "Token 已获取但保存失败", cause.as_str())
            },
            ExchangeOutcome::Failed { cause } => {
                respond_error(502, "Token 获取失败", cause.as_str())
            },
        }
    }
}

/// A callback with a code and the state that the login page was given is accepted.
pub proof fn law_login_state_is_accepted(
    redirect_uri: Seq<char>,
    uuid: Seq<char>,
    skip_confirm: bool,
    query: Seq<(Seq<char>, Seq<char>)>,
    code: Seq<char>,
)
    requires
        query_content(query, "code"@) == Some(code),
        query_content(query, "state"@) == query_value(
            oauth::auth_params(redirect_uri, uuid, skip_confirm),
            "state"@,
        ),
    ensures
        callback_of(uuid, query) == CallbackView::Exchange(code),
{
    let params = oauth::auth_params(redirect_uri, uuid, skip_confirm);
    reveal_strlit("skip_confirm");
    reveal_strlit("state");
    assert("skip_confirm"@.len() != "state"@.len());
    assert(params.last().0 == "skip_confirm"@);
    assert(params.drop_last().last() == ("state"@, oauth::state_of(uuid)));
    assert(query_value(params.drop_last(), "state"@) == Some(oauth::state_of(uuid)));
}

/// No code is exchanged without the state that the login page was given.
pub proof fn law_only_login_state_is_accepted(uuid: Seq<char>, query: Seq<(Seq<char>, Seq<char>)>)
    ensures
        callback_of(uuid, query) is Exchange ==> query_value(query, "state"@) == Some(
            oauth::state_of(uuid),
        ) && query_content(query, "code"@) is Some,
{
}

/// A request asks for the second word of its first line, whatever words and lines follow; without
/// a second word it asks for the root.
pub proof fn law_target_is_the_second_word(
    verb: Seq<char>,
    target: Seq<char>,
    tail: Seq<char>,
    later: Seq<char>,
)
    requires
        verb.len() > 0,
        target.len() > 0,
        forall|i: int| 0 <= i < verb.len() ==> !text::is_white_space(#[trigger] verb[i]),
        forall|i: int| 0 <= i < target.len() ==> !text::is_white_space(#[trigger] target[i]),
        tail.len() > 0 ==> text::is_white_space(tail[0]),
        !tail.contains('\n'),
    ensures
        target_of(verb + seq![' '] + target + tail + seq!['\n'] + later) == target,
        target_of(verb + seq![' '] + target + tail) == target,
        target_of(verb + seq!['\n'] + later) == "/"@,
        target_of(verb) == "/"@,
{
    let line = verb + seq![' '] + target + tail;
    assert(text::is_white_space('\n'));
    assert forall|i: int| 0 <= i < verb.len() implies verb[i] != '\n' by {
        assert(!text::is_white_space(verb[i]));
    }
    assert forall|i: int| 0 <= i < line.len() implies line[i] != '\n' by {
        if i < verb.len() {
            assert(line[i] == verb[i]);
        } else if i > verb.len() && i < verb.len() + 1 + target.len() {
            assert(line[i] == target[i - verb.len() - 1]);
            assert(!text::is_white_space(target[i - verb.len() - 1]));
        } else if i > verb.len() {
            let k = i - verb.len() - 1 - target.len();
            assert(line[i] == tail[k]);
            assert(tail.contains(tail[k]));
        }
    }
    lemma_first_line(line, seq!['\n'] + later);
    lemma_first_line(line, seq![]);
    lemma_first_line(verb, seq!['\n'] + later);
    lemma_first_line(verb, seq![]);
    assert(line + seq!['\n'] + later =~= line + (seq!['\n'] + later));
    assert(verb + seq!['\n'] + later =~= verb + (seq!['\n'] + later));
    assert(line + Seq::<char>::empty() =~= line);
    assert(verb + Seq::<char>::empty() =~= verb);
    let rest = seq![' '] + target + tail;
    let nothing = Seq::<char>::empty();
    text::law_first_word_is_parted_by_white_space(nothing, verb, rest);
    assert(nothing + verb + rest =~= line);
    assert(rest[0] == ' ');
    let blank = seq![' '];
    assert(text::is_blank(blank));
    text::law_first_word_is_parted_by_white_space(blank, target, tail);
    assert(blank + target + tail =~= rest);
    text::law_first_word_is_parted_by_white_space(nothing, verb, nothing);
    assert(nothing + verb + nothing =~= verb);
    text::law_blank_text_has_no_word(nothing);
}

proof fn lemma_first_line(line: Seq<char>, tail: Seq<char>)
    requires
        forall|i: int| 0 <= i < line.len() ==> line[i] != '\n',
        tail.len() > 0 ==> tail[0] == '\n',
    ensures
        text::first_position(line + tail, '\n') == line.len(),
        (line + tail).subrange(0, line.len() as int) == line,
    decreases line.len(),
{
    let s = line + tail;
    assert(s.subrange(0, line.len() as int) =~= line);
    if line.len() > 0 {
        let rest = line.subrange(1, line.len() as int);
        lemma_first_line(rest, tail);
        assert(s[0] == line[0]);
        assert(s.subrange(1, s.len() as int) =~= rest + tail);
    } else {
        assert(s =~= tail);
    }
}

/// Of several values of a name in a query the last one counts.
pub proof fn law_last_value_counts(
    pairs: Seq<(Seq<char>, Seq<char>)>,
    name: Seq<char>,
    value: Seq<char>,
    later: Seq<(Seq<char>, Seq<char>)>,
)
    requires
        forall|i: int| 0 <= i < later.len() ==> (#[trigger] later[i]).0 != name,
    ensures
        query_value(pairs + seq![(name, value)] + later, name) == Some(value),
        query_value(later, name) is None,
    decreases later.len(),
{
    let all = pairs + seq![(name, value)] + later;
    if later.len() > 0 {
        let shorter = later.drop_last();
        assert forall|i: int| 0 <= i < shorter.len() implies (#[trigger] shorter[i]).0 != name by {
            assert(shorter[i] == later[i]);
        }
        law_last_value_counts(pairs, name, value, shorter);
        assert(all.last() == later.last());
        assert(later[later.len() - 1].0 != name);
        assert(all.drop_last() =~= pairs + seq![(name, value)] + shorter);
    } else {
        assert(all.last() == (name, value));
    }
}

/// A callback is judged by its code and its state: first the code must not be blank, then the state
/// must not be, and then the state must be the digest of the installation's device.
pub proof fn law_callbacks_are_judged(
    uuid: Seq<char>,
    query: Seq<(Seq<char>, Seq<char>)>,
    code: Seq<char>,
    state: Seq<char>,
)
    ensures
        query_value(query, "code"@) is None ==> callback_of(uuid, query) is MissingCode,
        query_value(query, "code"@) == Some(code) && text::is_blank(code) ==> callback_of(
            uuid,
            query,
        ) is MissingCode,
        query_value(query, "code"@) == Some(code) && !text::is_blank(code) && query_value(
            query,
            "state"@,
        ) is None ==> callback_of(uuid, query) is MissingState,
        query_value(query, "code"@) == Some(code) && !text::is_blank(code) && query_value(
            query,
            "state"@,
        ) == Some(state) ==> callback_of(uuid, query) == (if text::is_blank(state) {
            CallbackView::MissingState
        } else if state == oauth::state_of(uuid) {
            CallbackView::Exchange(code)
        } else {
            CallbackView::StateMismatch(state)
        }),
{
}

/// What a callback is answered: a refusal is a page with 400 that says why, and an accepted code is
/// asked for at the configured region, with the configured redirect address and the installation.
pub proof fn law_callbacks_are_answered(
    config: OAuthServerConfig,
    query: Seq<(Seq<char>, Seq<char>)>,
    step: HelperStep,
)
    requires
        config.answers_callback(query, step),
    ensures
        match callback_of(config.uuid@, query) {
            CallbackView::Exchange(code) => step matches HelperStep::Exchange(request)
                && request.carries(
                config.cloud_server@,
                oauth::access_token_fields(config.redirect_uri@, config.uuid@, code),
            ),
            CallbackView::MissingCode => step matches HelperStep::Answer(sent) && sent@
                == pages::response(
                400,
                pages::error_page("授权失败"@, "OAuth callback missing code"@),
            ),
            CallbackView::MissingState => step matches HelperStep::Answer(sent) && sent@
                == pages::response(
                400,
                pages::error_page("授权失败"@, "OAuth callback missing state"@),
            ),
            CallbackView::StateMismatch(state) => step matches HelperStep::Answer(sent) && sent@
                == pages::response(
                400,
                pages::error_page(
                    "授权失败"@,
                    "state mismatch; expected "@ + oauth::state_of(config.uuid@) + ", got "@
                        + state,
                ),
            ),
        },
{
}

/// Five words switch a setting on.
pub proof fn law_words_that_switch_on(s: Seq<char>)
    ensures
        is_yes(s) <==> s == "1"@ || s == "true"@ || s == "TRUE"@ || s == "yes"@ || s == "YES"@,
{
}

} // verus!
