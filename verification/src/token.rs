//! Reading the identity provider's answer to a refresh-token grant: the
//! access token, its lifetime, and whether it may read mail over the REST
//! mail API.

use vstd::prelude::*;
use vstd::string::*;
use crate::mode::ApiMode;
use crate::outcome::{CheckError, CheckErrorView};
use crate::text::{contains, contains_text, opt_text};

verus! {

/// The lifetime in seconds of a token whose answer names none.
pub const DEFAULT_EXPIRES_IN: i64 = 3600;

/// How long the identity provider may take to answer, in seconds.
pub const REFRESH_TIMEOUT_SECS: u64 = 30;

/// Where the refresh-token grant is sent.
pub fn token_endpoint() -> (r: &'static str)
    ensures
        r@ == "https://login.microsoftonline.com/consumers/oauth2/v2.0/token"@,
{
    "https://login.microsoftonline.com/consumers/oauth2/v2.0/token"
}

/// The fields of the refresh-token grant, in order: the client, the kind of
/// grant, the refresh token, and the scope asked for, which is the default
/// scope of the REST mail API.
pub open spec fn grant_form(
    client_id: Seq<char>,
    refresh_token: Seq<char>,
) -> Seq<(Seq<char>, Seq<char>)> {
    seq![
        ("client_id"@, client_id),
        ("grant_type"@, "refresh_token"@),
        ("refresh_token"@, refresh_token),
        ("scope"@, "https://graph.microsoft.com/.default"@),
    ]
}

/// The form of the refresh-token grant for a client and its refresh token.
pub fn refresh_form(client_id: &str, refresh_token: &str) -> (r: Vec<(String, String)>)
    ensures
        r.deep_view() == grant_form(client_id@, refresh_token@),
{
    let mut form: Vec<(String, String)> = Vec::new();
    form.push(("client_id".to_owned(), client_id.to_owned()));
    form.push(("grant_type".to_owned(), "refresh_token".to_owned()));
    form.push(("refresh_token".to_owned(), refresh_token.to_owned()));
    form.push(("scope".to_owned(), "https://graph.microsoft.com/.default".to_owned()));
    assert(form.deep_view() =~= grant_form(client_id@, refresh_token@));
    form
}

/// The answer of the identity provider, field by field.
#[derive(Debug, Clone, PartialEq, Eq)]
pub struct TokenResponse {
    pub access_token: Option<String>,
    pub expires_in: Option<i64>,
    pub scope: Option<String>,
    pub error: Option<String>,
    pub error_description: Option<String>,
}

/// What a [`TokenResponse`] holds.
pub struct TokenResponseView {
    pub access_token: Option<Seq<char>>,
    pub expires_in: Option<i64>,
    pub scope: Option<Seq<char>>,
    pub error: Option<Seq<char>>,
    pub error_description: Option<Seq<char>>,
}

impl View for TokenResponse {
    type V = TokenResponseView;

    open spec fn view(&self) -> TokenResponseView {
        TokenResponseView {
            access_token: opt_text(self.access_token),
            expires_in: self.expires_in,
            scope: opt_text(self.scope),
            error: opt_text(self.error),
            error_description: opt_text(self.error_description),
        }
    }
}

/// A fresh access token and what it allows.
#[derive(Debug, Clone, PartialEq, Eq)]
pub struct TokenRefreshResult {
    pub access_token: String,
    /// The token's lifetime, in seconds.
    pub expires_in: i64,
    /// Whether the token may read mail over the REST mail API.
    pub supports_graph: bool,
}

/// What a [`TokenRefreshResult`] holds.
pub struct TokenRefreshResultView {
    pub access_token: Seq<char>,
    pub expires_in: i64,
    pub supports_graph: bool,
}

impl View for TokenRefreshResult {
    type V = TokenRefreshResultView;

    open spec fn view(&self) -> TokenRefreshResultView {
        TokenRefreshResultView {
            access_token: self.access_token@,
            expires_in: self.expires_in,
            supports_graph: self.supports_graph,
        }
    }
}

/// A granted scope allows reading mail over the REST mail API where the
/// text `Mail.Read` stands anywhere in it. An absent scope allows nothing.
pub open spec fn scope_allows_graph(scope: Option<Seq<char>>) -> bool {
    match scope {
        Some(text) => contains_text(text, "Mail.Read"@),
        None => false,
    }
}

/// The mode that a granted scope stands for: the REST mail API where the
/// scope allows it, else the mailbox protocol.
pub open spec fn mode_for(supports_graph: bool) -> ApiMode {
    if supports_graph {
        ApiMode::Graph
    } else {
        ApiMode::Imap
    }
}

/// The text of a refused grant: the provider's error code and description,
/// each replaced by a fixed word where the answer has none.
pub open spec fn refusal_text(
    error: Option<Seq<char>>,
    description: Option<Seq<char>>,
) -> Seq<char> {
    "刷新令牌失败: "@ + (match error {
        Some(code) => code,
        None => "未知错误"@,
    }) + " - "@ + (match description {
        Some(text) => text,
        None => "未知错误描述"@,
    })
}

/// What an answer means. An answer that carries an error, or no access
/// token, is a refusal. Any other yields the token, its lifetime (an hour
/// where the answer names none) and what its scope allows.
pub open spec fn grant_of(
    response: TokenResponseView,
) -> Result<TokenRefreshResultView, CheckErrorView> {
    if response.error is None && response.access_token is Some {
        Ok(
            TokenRefreshResultView {
                access_token: response.access_token->0,
                expires_in: match response.expires_in {
                    Some(seconds) => seconds,
                    None => DEFAULT_EXPIRES_IN,
                },
                supports_graph: scope_allows_graph(response.scope),
            },
        )
    } else {
        Err(CheckErrorView::Token(refusal_text(response.error, response.error_description)))
    }
}

/// Whether a granted scope allows reading mail over the REST mail API.
pub fn scope_supports_graph(scope: &Option<String>) -> (r: bool)
    ensures
        r == scope_allows_graph(opt_text(*scope)),
{
    match scope {
        Some(text) => contains(text.as_str(), "Mail.Read"),
        None => false,
    }
}

/// Reads the identity provider's answer.
pub fn read_token_response(response: TokenResponse) -> (r: Result<TokenRefreshResult, CheckError>)
    ensures
        match r {
            Ok(token) => grant_of(response@) == Ok::<TokenRefreshResultView, CheckErrorView>(token@),
            Err(error) => grant_of(response@) == Err::<TokenRefreshResultView, CheckErrorView>(
                error@,
            ),
        },
{
    let supports_graph = scope_supports_graph(&response.scope);
    let TokenResponse { access_token, expires_in, scope, error, error_description } = response;
    match (error, access_token) {
        (None, Some(access_token)) => Ok(
            TokenRefreshResult {
                access_token,
                expires_in: match expires_in {
                    Some(seconds) => seconds,
                    None => DEFAULT_EXPIRES_IN,
                },
                supports_graph,
            },
        ),
        (error, _) => {
            let mut text = "刷新令牌失败: ".to_owned();
            match &error {
                Some(code) => text.append(code.as_str()),
                None => text.append("未知错误"),
            }
            text.append(" - ");
            match &error_description {
                Some(words) => text.append(words.as_str()),
                None => text.append("未知错误描述"),
            }
            Err(CheckError::Token(text))
        },
    }
}

impl TokenRefreshResult {
    /// The mode that this token stands for. It is never `Auto`.
    pub fn detected_mode(&self) -> (r: ApiMode)
        ensures
            r == mode_for(self.supports_graph),
            r != ApiMode::Auto,
    {
        if self.supports_graph {
            ApiMode::Graph
        } else {
            ApiMode::Imap
        }
    }
}

} // verus!
