//! The check of one account, as a machine that decides and never acts: it
//! is handed what the last action brought and answers with the next action.
//! Whoever drives it reads the store, asks for tokens and fetches mail.

use vstd::prelude::*;
use crate::mailbox::FETCH_LIMIT;
use crate::mode::{stored_mode, ApiMode};
use crate::outcome::{
    completed, outcome_view, CheckError, CheckErrorView, CheckOutcome, CheckResult,
    CheckResultView,
};
use crate::proxy::{proxy_of, ProxyConfig, ProxyConfigView};
use crate::records::{
    MailFetchRecord, MailFetchRecordView, MailRecord, MailRecordView, OutlookAccount,
    OutlookAccountView,
};
use crate::store::{message_keys, new_messages, plan_save, row_keys};
use crate::text::{contains, contains_text, lowercase, lowercased, opt_text, opt_text_copy, text_eq};
use crate::token::{
    grant_of, mode_for, read_token_response, scope_allows_graph, TokenResponse, TokenResponseView,
};

verus! {

/// What a check is waiting for.
#[derive(Debug, Clone, Copy, PartialEq, Eq, Structural)]
pub enum Phase {
    /// The account's row.
    LoadingAccount,
    /// The cached access token, if there is one that has not expired.
    LookingUpToken,
    /// The identity provider's answer to the refresh-token grant.
    RefreshingToken,
    /// The fresh token to be cached.
    CachingToken,
    /// The fresh token to be written to the account.
    SavingToken,
    /// The mode that the fresh token stands for to be written to the account.
    SavingDetectedMode,
    /// The messages from the REST mail API.
    FetchingRest,
    /// The messages from the mailbox protocol.
    FetchingMailbox,
    /// The mailbox mode to be written to the account after the mailbox
    /// protocol was tried in place of the REST mail API that the account was
    /// set to, whether it returned or failed.
    SavingFallbackMode,
    /// The account's stored messages.
    LoadingStored,
    /// The new messages to be written.
    Persisting,
    /// The mode that was used to be written to the account.
    SavingUsedMode,
    /// The time of this check to be written to the account.
    TouchingLastCheck,
    /// Nothing: the check has ended.
    Finished,
}

/// A check of one account in progress.
#[derive(Debug, Clone, PartialEq, Eq)]
pub struct CheckSession {
    pub email_id: i64,
    /// The folder that is checked.
    pub folder: String,
    pub phase: Phase,
    /// The account's address.
    pub email: String,
    pub client_id: String,
    pub refresh_token: String,
    /// When the account was last checked, as its row says.
    pub last_check_time: Option<String>,
    pub proxy: ProxyConfig,
    pub access_token: String,
    /// The mode that retrieval starts in: the account's own where the token
    /// came from the cache, else the one that the fresh token stands for.
    pub mode: ApiMode,
    /// The mode whose retrieval brought the messages.
    pub used: ApiMode,
    /// The messages that retrieval brought, until it is decided which are new.
    pub records: Vec<MailFetchRecord>,
    /// How many messages retrieval brought.
    pub fetched: usize,
    /// How many of them are new to the store.
    pub saved: usize,
    /// Why the mailbox protocol failed, where it did, kept while the mode is
    /// written.
    pub failure: Option<String>,
}

/// What a [`CheckSession`] holds.
pub struct CheckSessionView {
    pub email_id: int,
    pub folder: Seq<char>,
    pub phase: Phase,
    pub email: Seq<char>,
    pub client_id: Seq<char>,
    pub refresh_token: Seq<char>,
    pub last_check_time: Option<Seq<char>>,
    pub proxy: ProxyConfigView,
    pub access_token: Seq<char>,
    pub mode: ApiMode,
    pub used: ApiMode,
    pub records: Seq<MailFetchRecordView>,
    pub fetched: nat,
    pub saved: nat,
    pub failure: Option<Seq<char>>,
}

impl View for CheckSession {
    type V = CheckSessionView;

    open spec fn view(&self) -> CheckSessionView {
        CheckSessionView {
            email_id: self.email_id as int,
            folder: self.folder@,
            phase: self.phase,
            email: self.email@,
            client_id: self.client_id@,
            refresh_token: self.refresh_token@,
            last_check_time: opt_text(self.last_check_time),
            proxy: self.proxy@,
            access_token: self.access_token@,
            mode: self.mode,
            used: self.used,
            records: self.records.deep_view(),
            fetched: self.fetched as nat,
            saved: self.saved as nat,
            failure: opt_text(self.failure),
        }
    }
}

/// What the last action brought.
#[derive(Debug, Clone, PartialEq, Eq)]
pub enum CheckEvent {
    /// The account's row.
    Account(OutlookAccount),
    /// The cached access token; none where there is none or it has expired.
    CachedToken(Option<String>),
    /// The identity provider's answer.
    TokenAnswer(TokenResponse),
    /// The messages that a retrieval path returned.
    Fetched(Vec<MailFetchRecord>),
    /// The account's stored messages.
    Stored(Vec<MailRecord>),
    /// An action that brings nothing went through.
    Done,
    /// The action failed; the text says why.
    Failed(String),
}

/// What a [`CheckEvent`] holds.
pub enum CheckEventView {
    Account(OutlookAccountView),
    CachedToken(Option<Seq<char>>),
    TokenAnswer(TokenResponseView),
    Fetched(Seq<MailFetchRecordView>),
    Stored(Seq<MailRecordView>),
    Done,
    Failed(Seq<char>),
}

impl View for CheckEvent {
    type V = CheckEventView;

    open spec fn view(&self) -> CheckEventView {
        match self {
            CheckEvent::Account(account) => CheckEventView::Account(account@),
            CheckEvent::CachedToken(token) => CheckEventView::CachedToken(opt_text(*token)),
            CheckEvent::TokenAnswer(answer) => CheckEventView::TokenAnswer(answer@),
            CheckEvent::Fetched(records) => CheckEventView::Fetched(records.deep_view()),
            CheckEvent::Stored(rows) => CheckEventView::Stored(rows.deep_view()),
            CheckEvent::Done => CheckEventView::Done,
            CheckEvent::Failed(text) => CheckEventView::Failed(text@),
        }
    }
}

/// What is to be done next.
#[derive(Debug, PartialEq, Eq)]
pub enum CheckAction {
    /// Read the account's row.
    LoadAccount { email_id: i64 },
    /// Look in the token cache.
    LookupToken { email_id: i64 },
    /// Ask the identity provider for a fresh token.
    RefreshToken { client_id: String, refresh_token: String, proxy: ProxyConfig },
    /// Put the fresh token in the cache.
    CacheToken { email_id: i64, access_token: String, expires_in: i64 },
    /// Write the fresh token to the account.
    SaveAccessToken { email_id: i64, access_token: String },
    /// Write the mode to the account.
    SaveApiMode { email_id: i64, mode: ApiMode },
    /// Fetch the most recent messages over the REST mail API.
    FetchRest { access_token: String, folder: String, limit: usize, proxy: ProxyConfig },
    /// Fetch over the mailbox protocol.
    FetchMailbox { email: String, access_token: String, folder: String, since: Option<String> },
    /// Read the account's stored messages.
    LoadStored { email_id: i64 },
    /// Write these messages, each with its attachments, in this order.
    Persist { email_id: i64, messages: Vec<MailFetchRecord> },
    /// Write the present time as the account's last check.
    TouchLastCheck { email_id: i64 },
    /// Nothing more: the check has ended so.
    Finish(CheckOutcome),
}

/// What a [`CheckAction`] holds.
pub enum CheckActionView {
    LoadAccount { email_id: int },
    LookupToken { email_id: int },
    RefreshToken { client_id: Seq<char>, refresh_token: Seq<char>, proxy: ProxyConfigView },
    CacheToken { email_id: int, access_token: Seq<char>, expires_in: i64 },
    SaveAccessToken { email_id: int, access_token: Seq<char> },
    SaveApiMode { email_id: int, mode: ApiMode },
    FetchRest { access_token: Seq<char>, folder: Seq<char>, limit: nat, proxy: ProxyConfigView },
    FetchMailbox {
        email: Seq<char>,
        access_token: Seq<char>,
        folder: Seq<char>,
        since: Option<Seq<char>>,
    },
    LoadStored { email_id: int },
    Persist { email_id: int, messages: Seq<MailFetchRecordView> },
    TouchLastCheck { email_id: int },
    Finish(Result<CheckResultView, CheckErrorView>),
}

impl View for CheckAction {
    type V = CheckActionView;

    open spec fn view(&self) -> CheckActionView {
        match self {
            CheckAction::LoadAccount { email_id } => CheckActionView::LoadAccount {
                email_id: *email_id as int,
            },
            CheckAction::LookupToken { email_id } => CheckActionView::LookupToken {
                email_id: *email_id as int,
            },
            CheckAction::RefreshToken { client_id, refresh_token, proxy } => {
                CheckActionView::RefreshToken {
                    client_id: client_id@,
                    refresh_token: refresh_token@,
                    proxy: proxy@,
                }
            },
            CheckAction::CacheToken { email_id, access_token, expires_in } => {
                CheckActionView::CacheToken {
                    email_id: *email_id as int,
                    access_token: access_token@,
                    expires_in: *expires_in,
                }
            },
            CheckAction::SaveAccessToken { email_id, access_token } => {
                CheckActionView::SaveAccessToken {
                    email_id: *email_id as int,
                    access_token: access_token@,
                }
            },
            CheckAction::SaveApiMode { email_id, mode } => CheckActionView::SaveApiMode {
                email_id: *email_id as int,
                mode: *mode,
            },
            CheckAction::FetchRest { access_token, folder, limit, proxy } => {
                CheckActionView::FetchRest {
                    access_token: access_token@,
                    folder: folder@,
                    limit: *limit as nat,
                    proxy: proxy@,
                }
            },
            CheckAction::FetchMailbox { email, access_token, folder, since } => {
                CheckActionView::FetchMailbox {
                    email: email@,
                    access_token: access_token@,
                    folder: folder@,
                    since: opt_text(*since),
                }
            },
            CheckAction::LoadStored { email_id } => CheckActionView::LoadStored {
                email_id: *email_id as int,
            },
            CheckAction::Persist { email_id, messages } => CheckActionView::Persist {
                email_id: *email_id as int,
                messages: messages.deep_view(),
            },
            CheckAction::TouchLastCheck { email_id } => CheckActionView::TouchLastCheck {
                email_id: *email_id as int,
            },
            CheckAction::Finish(outcome) => CheckActionView::Finish(outcome_view(*outcome)),
        }
    }
}

/// A session and the action that it answers with.
pub type Turn = (CheckSessionView, CheckActionView);

/// The folder that is checked where the caller names none.
pub open spec fn folder_or_inbox(folder: Option<Seq<char>>) -> Seq<char> {
    match folder {
        Some(name) => name,
        None => "INBOX"@,
    }
}

/// An account can be checked where its kind is `outlook`; an account
/// without a kind counts as one.
pub open spec fn supported_type(mail_type: Option<Seq<char>>) -> bool {
    match mail_type {
        Some(kind) => kind == "outlook"@,
        None => true,
    }
}

/// A failure of the mailbox protocol is a rejected login where its text, in
/// lower case, holds `authenticate`.
pub open spec fn is_auth_failure(text: Seq<char>) -> bool {
    contains_text(lowercased(text), "authenticate"@)
}

/// The check of account `email_id` before its first action.
pub open spec fn started(email_id: int, folder: Option<Seq<char>>) -> Turn {
    (
        CheckSessionView {
            email_id,
            folder: folder_or_inbox(folder),
            phase: Phase::LoadingAccount,
            email: Seq::empty(),
            client_id: Seq::empty(),
            refresh_token: Seq::empty(),
            last_check_time: None,
            proxy: ProxyConfigView::Direct,
            access_token: Seq::empty(),
            mode: ApiMode::Auto,
            used: ApiMode::Auto,
            records: Seq::empty(),
            fetched: 0,
            saved: 0,
            failure: None,
        },
        CheckActionView::LoadAccount { email_id },
    )
}

/// The check ends with `outcome`.
pub open spec fn finish(
    s: CheckSessionView,
    outcome: Result<CheckResultView, CheckErrorView>,
) -> Turn {
    (CheckSessionView { phase: Phase::Finished, ..s }, CheckActionView::Finish(outcome))
}

/// The check ends because the event is none that it waits for.
pub open spec fn unexpected(s: CheckSessionView) -> Turn {
    finish(s, Err(CheckErrorView::Unexpected))
}

/// The REST mail API is asked for the most recent messages.
pub open spec fn fetch_rest(s: CheckSessionView) -> Turn {
    (
        CheckSessionView { phase: Phase::FetchingRest, ..s },
        CheckActionView::FetchRest {
            access_token: s.access_token,
            folder: s.folder,
            limit: FETCH_LIMIT as nat,
            proxy: s.proxy,
        },
    )
}

/// The mailbox protocol is asked for the messages since the last check.
pub open spec fn fetch_mailbox(s: CheckSessionView) -> Turn {
    (
        CheckSessionView { phase: Phase::FetchingMailbox, ..s },
        CheckActionView::FetchMailbox {
            email: s.email,
            access_token: s.access_token,
            folder: s.folder,
            since: s.last_check_time,
        },
    )
}

/// Retrieval starts: over the mailbox protocol in mode `Imap`, else over the
/// REST mail API.
pub open spec fn dispatch(s: CheckSessionView) -> Turn {
    match s.mode {
        ApiMode::Imap => fetch_mailbox(s),
        _ => fetch_rest(s),
    }
}

/// Retrieval brought `records` in mode `used`: the stored messages are
/// asked for.
pub open spec fn fetched(
    s: CheckSessionView,
    records: Seq<MailFetchRecordView>,
    used: ApiMode,
) -> Turn {
    (
        CheckSessionView {
            phase: Phase::LoadingStored,
            used,
            records,
            fetched: records.len(),
            ..s
        },
        CheckActionView::LoadStored { email_id: s.email_id },
    )
}

/// The time of the check is written.
pub open spec fn touch(s: CheckSessionView) -> Turn {
    (
        CheckSessionView { phase: Phase::TouchingLastCheck, ..s },
        CheckActionView::TouchLastCheck { email_id: s.email_id },
    )
}

/// The account's row came, or did not.
pub open spec fn on_account(s: CheckSessionView, event: CheckEventView) -> Turn {
    match event {
        CheckEventView::Account(account) => if supported_type(account.mail_type) {
            (
                CheckSessionView {
                    phase: Phase::LookingUpToken,
                    email: account.email,
                    client_id: account.client_id,
                    refresh_token: account.refresh_token,
                    last_check_time: account.last_check_time,
                    proxy: proxy_of(account.proxy_type, account.proxy_url),
                    mode: stored_mode(account.api_mode),
                    ..s
                },
                CheckActionView::LookupToken { email_id: s.email_id },
            )
        } else {
            finish(s, Err(CheckErrorView::UnsupportedMailType))
        },
        CheckEventView::Failed(text) => finish(s, Err(CheckErrorView::Storage(text))),
        _ => unexpected(s),
    }
}

/// The cache was looked in. A token from the cache is used in the account's
/// own mode; without one the identity provider is asked.
pub open spec fn on_cached_token(s: CheckSessionView, event: CheckEventView) -> Turn {
    match event {
        CheckEventView::CachedToken(Some(token)) => dispatch(
            CheckSessionView { access_token: token, ..s },
        ),
        CheckEventView::CachedToken(None) => (
            CheckSessionView { phase: Phase::RefreshingToken, ..s },
            CheckActionView::RefreshToken {
                client_id: s.client_id,
                refresh_token: s.refresh_token,
                proxy: s.proxy,
            },
        ),
        CheckEventView::Failed(text) => finish(s, Err(CheckErrorView::Storage(text))),
        _ => unexpected(s),
    }
}

/// The identity provider answered, or could not be reached. A refusal ends
/// the check; a grant decides the mode and is cached first.
pub open spec fn on_token_answer(s: CheckSessionView, event: CheckEventView) -> Turn {
    match event {
        CheckEventView::TokenAnswer(answer) => match grant_of(answer) {
            Ok(grant) => (
                CheckSessionView {
                    phase: Phase::CachingToken,
                    access_token: grant.access_token,
                    mode: mode_for(grant.supports_graph),
                    ..s
                },
                CheckActionView::CacheToken {
                    email_id: s.email_id,
                    access_token: grant.access_token,
                    expires_in: grant.expires_in,
                },
            ),
            Err(error) => finish(s, Err(error)),
        },
        CheckEventView::Failed(text) => finish(s, Err(CheckErrorView::Token(text))),
        _ => unexpected(s),
    }
}

/// A write to the store went through, or did not: `next` is what follows
/// where it did.
pub open spec fn on_written(s: CheckSessionView, event: CheckEventView, next: Turn) -> Turn {
    match event {
        CheckEventView::Done => next,
        CheckEventView::Failed(text) => finish(s, Err(CheckErrorView::Storage(text))),
        _ => unexpected(s),
    }
}

/// The REST mail API returned, or failed. Where it was tried first, any
/// failure sends the check to the mailbox protocol; where it was tried in
/// place of the mailbox protocol, its failure ends the check.
pub open spec fn on_rest(s: CheckSessionView, event: CheckEventView) -> Turn {
    match event {
        CheckEventView::Fetched(records) => fetched(s, records, ApiMode::Graph),
        CheckEventView::Failed(text) => match s.mode {
            ApiMode::Imap => finish(s, Err(CheckErrorView::Rest(text))),
            _ => fetch_mailbox(s),
        },
        _ => unexpected(s),
    }
}

/// The mailbox mode is written to the account.
pub open spec fn save_fallback_mode(s: CheckSessionView) -> Turn {
    (
        CheckSessionView { phase: Phase::SavingFallbackMode, ..s },
        CheckActionView::SaveApiMode { email_id: s.email_id, mode: ApiMode::Imap },
    )
}

/// The mailbox protocol returned, or failed. Where it was tried first, only
/// a rejected login sends the check to the REST mail API and any other
/// failure ends it. Where it was tried in place of the REST mail API, then
/// in mode `Graph` the mailbox mode is written to the account at once,
/// whether the mailbox protocol returned or failed, and in mode `Auto` its
/// failure ends the check.
pub open spec fn on_mailbox(s: CheckSessionView, event: CheckEventView) -> Turn {
    match event {
        CheckEventView::Fetched(records) => match s.mode {
            ApiMode::Graph => save_fallback_mode(
                CheckSessionView {
                    used: ApiMode::Imap,
                    records,
                    fetched: records.len(),
                    failure: None,
                    ..s
                },
            ),
            _ => fetched(s, records, ApiMode::Imap),
        },
        CheckEventView::Failed(text) => match s.mode {
            ApiMode::Imap => if is_auth_failure(text) {
                fetch_rest(s)
            } else {
                finish(s, Err(CheckErrorView::Mailbox(text)))
            },
            ApiMode::Graph => save_fallback_mode(CheckSessionView { failure: Some(text), ..s }),
            ApiMode::Auto => finish(s, Err(CheckErrorView::Mailbox(text))),
        },
        _ => unexpected(s),
    }
}

/// The mailbox mode was written, or could not be. Where the mailbox
/// protocol had failed, the check ends with that failure either way. Where
/// it had returned, the stored messages are asked for, unless the write
/// failed.
pub open spec fn on_fallback_mode(s: CheckSessionView, event: CheckEventView) -> Turn {
    match s.failure {
        Some(text) => match event {
            CheckEventView::Done => finish(s, Err(CheckErrorView::Mailbox(text))),
            CheckEventView::Failed(_) => finish(s, Err(CheckErrorView::Mailbox(text))),
            _ => unexpected(s),
        },
        None => on_written(
            s,
            event,
            (
                CheckSessionView { phase: Phase::LoadingStored, ..s },
                CheckActionView::LoadStored { email_id: s.email_id },
            ),
        ),
    }
}

/// The stored messages came, or did not: the fetched messages that are new
/// to the store are written, in order.
pub open spec fn on_stored(s: CheckSessionView, event: CheckEventView) -> Turn {
    match event {
        CheckEventView::Stored(rows) => {
            let messages = new_messages(row_keys(rows), s.email_id, s.records);
            (
                CheckSessionView {
                    phase: Phase::Persisting,
                    records: Seq::empty(),
                    saved: messages.len(),
                    ..s
                },
                CheckActionView::Persist { email_id: s.email_id, messages },
            )
        },
        CheckEventView::Failed(text) => finish(s, Err(CheckErrorView::Storage(text))),
        _ => unexpected(s),
    }
}

/// What follows the writing of the messages: the mode that was used is
/// written to the account where retrieval started in `Auto` or fell back
/// from the mailbox protocol, and then the time of the check. In mode
/// `Graph` nothing is left to write: the mode was written when the mailbox
/// protocol took over.
pub open spec fn after_persist(s: CheckSessionView) -> Turn {
    if s.mode == s.used || s.mode == ApiMode::Graph {
        touch(s)
    } else {
        (
            CheckSessionView { phase: Phase::SavingUsedMode, ..s },
            CheckActionView::SaveApiMode { email_id: s.email_id, mode: s.used },
        )
    }
}

/// What the check answers in the session `s` to `event`.
pub open spec fn step_of(s: CheckSessionView, event: CheckEventView) -> Turn {
    match s.phase {
        Phase::LoadingAccount => on_account(s, event),
        Phase::LookingUpToken => on_cached_token(s, event),
        Phase::RefreshingToken => on_token_answer(s, event),
        Phase::CachingToken => on_written(
            s,
            event,
            (
                CheckSessionView { phase: Phase::SavingToken, ..s },
                CheckActionView::SaveAccessToken {
                    email_id: s.email_id,
                    access_token: s.access_token,
                },
            ),
        ),
        Phase::SavingToken => on_written(
            s,
            event,
            (
                CheckSessionView { phase: Phase::SavingDetectedMode, ..s },
                CheckActionView::SaveApiMode { email_id: s.email_id, mode: s.mode },
            ),
        ),
        Phase::SavingDetectedMode => on_written(s, event, dispatch(s)),
        Phase::FetchingRest => on_rest(s, event),
        Phase::FetchingMailbox => on_mailbox(s, event),
        Phase::SavingFallbackMode => on_fallback_mode(s, event),
        Phase::LoadingStored => on_stored(s, event),
        Phase::Persisting => on_written(s, event, after_persist(s)),
        Phase::SavingUsedMode => on_written(s, event, touch(s)),
        Phase::TouchingLastCheck => on_written(
            s,
            event,
            finish(s, Ok(completed(s.email_id, s.fetched, s.saved, s.used))),
        ),
        Phase::Finished => unexpected(s),
    }
}

/// What a session and its answer hold.
pub open spec fn turn_view(turn: (CheckSession, CheckAction)) -> Turn {
    (turn.0@, turn.1@)
}

/// Whether a text that is already in lower case speaks of a rejected login.
pub fn mentions_authentication(lowered: &str) -> (r: bool)
    ensures
        r == contains_text(lowered@, "authenticate"@),
{
    contains(lowered, "authenticate")
}

/// Whether a failure of the mailbox protocol is a rejected login.
pub fn is_authentication_failure(text: &str) -> (r: bool)
    ensures
        r == is_auth_failure(text@),
{
    let lowered = lowercase(text);
    mentions_authentication(lowered.as_str())
}

/// Whether an account of this kind can be checked.
pub fn is_supported_type(mail_type: &Option<String>) -> (r: bool)
    ensures
        r == supported_type(opt_text(*mail_type)),
{
    match mail_type {
        Some(kind) => text_eq(kind.as_str(), "outlook"),
        None => true,
    }
}

fn finish_with(s: CheckSession, outcome: CheckOutcome) -> (r: (CheckSession, CheckAction))
    ensures
        turn_view(r) == finish(s@, outcome_view(outcome)),
{
    let mut s = s;
    s.phase = Phase::Finished;
    (s, CheckAction::Finish(outcome))
}

fn storage_failed(s: CheckSession, text: String) -> (r: (CheckSession, CheckAction))
    ensures
        turn_view(r) == finish(s@, Err(CheckErrorView::Storage(text@))),
{
    finish_with(s, Err(CheckError::Storage(text)))
}

fn not_expected(s: CheckSession) -> (r: (CheckSession, CheckAction))
    ensures
        turn_view(r) == unexpected(s@),
{
    finish_with(s, Err(CheckError::Unexpected))
}

fn start_rest(s: CheckSession) -> (r: (CheckSession, CheckAction))
    ensures
        turn_view(r) == fetch_rest(s@),
{
    let mut s = s;
    s.phase = Phase::FetchingRest;
    let action = CheckAction::FetchRest {
        access_token: s.access_token.clone(),
        folder: s.folder.clone(),
        limit: FETCH_LIMIT,
        proxy: s.proxy.clone(),
    };
    (s, action)
}

fn start_mailbox(s: CheckSession) -> (r: (CheckSession, CheckAction))
    ensures
        turn_view(r) == fetch_mailbox(s@),
{
    let mut s = s;
    s.phase = Phase::FetchingMailbox;
    let action = CheckAction::FetchMailbox {
        email: s.email.clone(),
        access_token: s.access_token.clone(),
        folder: s.folder.clone(),
        since: opt_text_copy(&s.last_check_time),
    };
    (s, action)
}

fn start_retrieval(s: CheckSession) -> (r: (CheckSession, CheckAction))
    ensures
        turn_view(r) == dispatch(s@),
{
    match s.mode {
        ApiMode::Imap => start_mailbox(s),
        _ => start_rest(s),
    }
}

fn take_fetched(s: CheckSession, records: Vec<MailFetchRecord>, used: ApiMode) -> (r: (
    CheckSession,
    CheckAction,
))
    ensures
        turn_view(r) == fetched(s@, records.deep_view(), used),
{
    let mut s = s;
    s.phase = Phase::LoadingStored;
    s.used = used;
    s.fetched = records.len();
    s.records = records;
    let action = CheckAction::LoadStored { email_id: s.email_id };
    (s, action)
}

fn start_touch(s: CheckSession) -> (r: (CheckSession, CheckAction))
    ensures
        turn_view(r) == touch(s@),
{
    let mut s = s;
    s.phase = Phase::TouchingLastCheck;
    let action = CheckAction::TouchLastCheck { email_id: s.email_id };
    (s, action)
}

fn take_account(s: CheckSession, event: CheckEvent) -> (r: (CheckSession, CheckAction))
    ensures
        turn_view(r) == on_account(s@, event@),
{
    match event {
        CheckEvent::Account(account) => {
            if is_supported_type(&account.mail_type) {
                let mut s = s;
                s.phase = Phase::LookingUpToken;
                s.mode = ApiMode::from(account.api_mode);
                s.email = account.email;
                s.client_id = account.client_id;
                s.refresh_token = account.refresh_token;
                s.last_check_time = account.last_check_time;
                s.proxy = ProxyConfig::from_db(account.proxy_type, account.proxy_url);
                let action = CheckAction::LookupToken { email_id: s.email_id };
                (s, action)
            } else {
                finish_with(s, Err(CheckError::UnsupportedMailType))
            }
        },
        CheckEvent::Failed(text) => storage_failed(s, text),
        _ => not_expected(s),
    }
}

fn take_cached_token(s: CheckSession, event: CheckEvent) -> (r: (CheckSession, CheckAction))
    ensures
        turn_view(r) == on_cached_token(s@, event@),
{
    match event {
        CheckEvent::CachedToken(Some(token)) => {
            let mut s = s;
            s.access_token = token;
            start_retrieval(s)
        },
        CheckEvent::CachedToken(None) => {
            let mut s = s;
            s.phase = Phase::RefreshingToken;
            let action = CheckAction::RefreshToken {
                client_id: s.client_id.clone(),
                refresh_token: s.refresh_token.clone(),
                proxy: s.proxy.clone(),
            };
            (s, action)
        },
        CheckEvent::Failed(text) => storage_failed(s, text),
        _ => not_expected(s),
    }
}

fn take_token_answer(s: CheckSession, event: CheckEvent) -> (r: (CheckSession, CheckAction))
    ensures
        turn_view(r) == on_token_answer(s@, event@),
{
    match event {
        CheckEvent::TokenAnswer(answer) => match read_token_response(answer) {
            Ok(grant) => {
                let mut s = s;
                s.phase = Phase::CachingToken;
                s.mode = grant.detected_mode();
                s.access_token = grant.access_token.clone();
                let action = CheckAction::CacheToken {
                    email_id: s.email_id,
                    access_token: grant.access_token,
                    expires_in: grant.expires_in,
                };
                (s, action)
            },
            Err(error) => finish_with(s, Err(error)),
        },
        CheckEvent::Failed(text) => finish_with(s, Err(CheckError::Token(text))),
        _ => not_expected(s),
    }
}

fn take_rest(s: CheckSession, event: CheckEvent) -> (r: (CheckSession, CheckAction))
    ensures
        turn_view(r) == on_rest(s@, event@),
{
    match event {
        CheckEvent::Fetched(records) => take_fetched(s, records, ApiMode::Graph),
        CheckEvent::Failed(text) => match s.mode {
            ApiMode::Imap => finish_with(s, Err(CheckError::Rest(text))),
            _ => start_mailbox(s),
        },
        _ => not_expected(s),
    }
}

fn start_fallback_mode(s: CheckSession) -> (r: (CheckSession, CheckAction))
    ensures
        turn_view(r) == save_fallback_mode(s@),
{
    let mut s = s;
    s.phase = Phase::SavingFallbackMode;
    let action = CheckAction::SaveApiMode { email_id: s.email_id, mode: ApiMode::Imap };
    (s, action)
}

fn take_mailbox(s: CheckSession, event: CheckEvent) -> (r: (CheckSession, CheckAction))
    ensures
        turn_view(r) == on_mailbox(s@, event@),
{
    match event {
        CheckEvent::Fetched(records) => match s.mode {
            ApiMode::Graph => {
                let mut s = s;
                s.used = ApiMode::Imap;
                s.fetched = records.len();
                s.records = records;
                s.failure = None;
                start_fallback_mode(s)
            },
            _ => take_fetched(s, records, ApiMode::Imap),
        },
        CheckEvent::Failed(text) => match s.mode {
            ApiMode::Imap => {
                if is_authentication_failure(text.as_str()) {
                    start_rest(s)
                } else {
                    finish_with(s, Err(CheckError::Mailbox(text)))
                }
            },
            ApiMode::Graph => {
                let mut s = s;
                s.failure = Some(text);
                start_fallback_mode(s)
            },
            ApiMode::Auto => finish_with(s, Err(CheckError::Mailbox(text))),
        },
        _ => not_expected(s),
    }
}

fn take_fallback_mode(s: CheckSession, event: CheckEvent) -> (r: (CheckSession, CheckAction))
    ensures
        turn_view(r) == on_fallback_mode(s@, event@),
{
    match opt_text_copy(&s.failure) {
        Some(text) => match event {
            CheckEvent::Done | CheckEvent::Failed(_) => finish_with(
                s,
                Err(CheckError::Mailbox(text)),
            ),
            _ => not_expected(s),
        },
        None => match event {
            CheckEvent::Done => {
                let mut s = s;
                s.phase = Phase::LoadingStored;
                let action = CheckAction::LoadStored { email_id: s.email_id };
                (s, action)
            },
            CheckEvent::Failed(text) => storage_failed(s, text),
            _ => not_expected(s),
        },
    }
}

fn take_stored(s: CheckSession, event: CheckEvent) -> (r: (CheckSession, CheckAction))
    ensures
        turn_view(r) == on_stored(s@, event@),
{
    match event {
        CheckEvent::Stored(rows) => {
            let messages = plan_save(&rows, s.email_id, &s.records);
            let mut s = s;
            s.phase = Phase::Persisting;
            s.records = Vec::new();
            s.saved = messages.len();
            assert(s.records.deep_view() =~= Seq::<MailFetchRecordView>::empty());
            let action = CheckAction::Persist { email_id: s.email_id, messages };
            (s, action)
        },
        CheckEvent::Failed(text) => storage_failed(s, text),
        _ => not_expected(s),
    }
}

fn after_persisting(s: CheckSession) -> (r: (CheckSession, CheckAction))
    ensures
        turn_view(r) == after_persist(s@),
{
    if s.mode == s.used || s.mode == ApiMode::Graph {
        start_touch(s)
    } else {
        let mut s = s;
        s.phase = Phase::SavingUsedMode;
        let action = CheckAction::SaveApiMode { email_id: s.email_id, mode: s.used };
        (s, action)
    }
}

impl CheckSession {
    /// Starts the check of account `email_id` in `folder`, or in `INBOX`
    /// where no folder is named: the account's row is asked for.
    pub fn start(email_id: i64, folder: Option<String>) -> (r: (CheckSession, CheckAction))
        ensures
            turn_view(r) == started(email_id as int, opt_text(folder)),
    {
        let folder = match folder {
            Some(name) => name,
            None => "INBOX".to_owned(),
        };
        let session = CheckSession {
            email_id,
            folder,
            phase: Phase::LoadingAccount,
            email: String::new(),
            client_id: String::new(),
            refresh_token: String::new(),
            last_check_time: None,
            proxy: ProxyConfig::Direct,
            access_token: String::new(),
            mode: ApiMode::Auto,
            used: ApiMode::Auto,
            records: Vec::new(),
            fetched: 0,
            saved: 0,
            failure: None,
        };
        assert(session.records.deep_view() =~= Seq::<MailFetchRecordView>::empty());
        (session, CheckAction::LoadAccount { email_id })
    }

    /// Takes what the last action brought and answers with the next action.
    /// A check that has answered `Finish` is over.
    pub fn step(self, event: CheckEvent) -> (r: (CheckSession, CheckAction))
        ensures
            turn_view(r) == step_of(self@, event@),
    {
        match self.phase {
            Phase::LoadingAccount => take_account(self, event),
            Phase::LookingUpToken => take_cached_token(self, event),
            Phase::RefreshingToken => take_token_answer(self, event),
            Phase::CachingToken => match event {
                CheckEvent::Done => {
                    let mut s = self;
                    s.phase = Phase::SavingToken;
                    let action = CheckAction::SaveAccessToken {
                        email_id: s.email_id,
                        access_token: s.access_token.clone(),
                    };
                    (s, action)
                },
                CheckEvent::Failed(text) => storage_failed(self, text),
                _ => not_expected(self),
            },
            Phase::SavingToken => match event {
                CheckEvent::Done => {
                    let mut s = self;
                    s.phase = Phase::SavingDetectedMode;
                    let action = CheckAction::SaveApiMode { email_id: s.email_id, mode: s.mode };
                    (s, action)
                },
                CheckEvent::Failed(text) => storage_failed(self, text),
                _ => not_expected(self),
            },
            Phase::SavingDetectedMode => match event {
                CheckEvent::Done => start_retrieval(self),
                CheckEvent::Failed(text) => storage_failed(self, text),
                _ => not_expected(self),
            },
            Phase::FetchingRest => take_rest(self, event),
            Phase::FetchingMailbox => take_mailbox(self, event),
            Phase::SavingFallbackMode => take_fallback_mode(self, event),
            Phase::LoadingStored => take_stored(self, event),
            Phase::Persisting => match event {
                CheckEvent::Done => after_persisting(self),
                CheckEvent::Failed(text) => storage_failed(self, text),
                _ => not_expected(self),
            },
            Phase::SavingUsedMode => match event {
                CheckEvent::Done => start_touch(self),
                CheckEvent::Failed(text) => storage_failed(self, text),
                _ => not_expected(self),
            },
            Phase::TouchingLastCheck => match event {
                CheckEvent::Done => {
                    let result = CheckResult::completed(
                        self.email_id,
                        self.fetched,
                        self.saved,
                        self.used,
                    );
                    finish_with(self, Ok(result))
                },
                CheckEvent::Failed(text) => storage_failed(self, text),
                _ => not_expected(self),
            },
            Phase::Finished => not_expected(self),
        }
    }
}

/// The actions that a check answers with when it is handed `events` one
/// after the other, starting in the session `s`.
pub open spec fn actions_of(
    s: CheckSessionView,
    events: Seq<CheckEventView>,
) -> Seq<CheckActionView>
    decreases events.len(),
{
    if events.len() == 0 {
        Seq::empty()
    } else {
        let turn = step_of(s, events[0]);
        seq![turn.1] + actions_of(turn.0, events.drop_first())
    }
}

/// A check that has ended stays ended: whatever it is handed, it asks for
/// nothing more.
pub proof fn lemma_finished_is_final(s: CheckSessionView, events: Seq<CheckEventView>)
    requires
        s.phase == Phase::Finished,
    ensures
        forall|i: int|
            0 <= i < actions_of(s, events).len() ==> #[trigger] actions_of(s, events)[i]
                == CheckActionView::Finish(Err(CheckErrorView::Unexpected)),
    decreases events.len(),
{
    if events.len() > 0 {
        let turn = step_of(s, events[0]);
        assert(turn.0 == s);
        lemma_finished_is_final(s, events.drop_first());
    }
}

/// An account of a kind that cannot be checked ends its check at once, and
/// nothing is ever asked of the network.
pub proof fn lemma_unsupported_type_asks_nothing(
    s: CheckSessionView,
    account: OutlookAccountView,
    more: Seq<CheckEventView>,
)
    requires
        s.phase == Phase::LoadingAccount,
        !supported_type(account.mail_type),
    ensures
        actions_of(s, seq![CheckEventView::Account(account)] + more)[0] == CheckActionView::Finish(
            Err(CheckErrorView::UnsupportedMailType),
        ),
        forall|i: int|
            0 <= i < actions_of(s, seq![CheckEventView::Account(account)] + more).len()
                ==> #[trigger] actions_of(
                s,
                seq![CheckEventView::Account(account)] + more,
            )[i] is Finish,
{
    let events = seq![CheckEventView::Account(account)] + more;
    let turn = step_of(s, events[0]);
    assert(events.drop_first() =~= more);
    lemma_finished_is_final(turn.0, more);
}

/// A fresh token decides the mode: where its scope holds the read-mail
/// marker the mode written to the account is that of the REST mail API,
/// where it does not, that of the mailbox protocol. It is never `Auto`.
pub proof fn lemma_scope_decides_mode(s: CheckSessionView, answer: TokenResponseView)
    requires
        s.phase == Phase::RefreshingToken,
        answer.error is None,
        answer.access_token is Some,
    ensures
        ({
            let cached = step_of(s, CheckEventView::TokenAnswer(answer));
            let saved = step_of(cached.0, CheckEventView::Done);
            let written = step_of(saved.0, CheckEventView::Done);
            let detected = if scope_allows_graph(answer.scope) {
                ApiMode::Graph
            } else {
                ApiMode::Imap
            };
            &&& cached.1 == CheckActionView::CacheToken {
                email_id: s.email_id,
                access_token: answer.access_token->0,
                expires_in: grant_of(answer)->Ok_0.expires_in,
            }
            &&& saved.1 == CheckActionView::SaveAccessToken {
                email_id: s.email_id,
                access_token: answer.access_token->0,
            }
            &&& written.1 == CheckActionView::SaveApiMode { email_id: s.email_id, mode: detected }
            &&& step_of(written.0, CheckEventView::Done) == dispatch(
                CheckSessionView {
                    access_token: answer.access_token->0,
                    mode: detected,
                    phase: Phase::SavingDetectedMode,
                    ..s
                },
            )
        }),
{
}

/// A token from the cache is used in the account's own mode: nothing is
/// detected anew.
pub proof fn lemma_cached_token_keeps_mode(s: CheckSessionView, token: Seq<char>)
    requires
        s.phase == Phase::LookingUpToken,
    ensures
        step_of(s, CheckEventView::CachedToken(Some(token))) == dispatch(
            CheckSessionView { access_token: token, ..s },
        ),
        step_of(s, CheckEventView::CachedToken(Some(token))).0.mode == s.mode,
{
}

/// In the mode of the REST mail API any failure of that API sends the check
/// to the mailbox protocol, with the account's address, the same token and
/// folder and the time of the last check. Where the mailbox protocol then
/// returns, the mailbox mode is written to the account, the new messages
/// are written, and the result names the mailbox mode.
pub proof fn lemma_rest_failure_falls_back(
    s: CheckSessionView,
    why: Seq<char>,
    records: Seq<MailFetchRecordView>,
    rows: Seq<MailRecordView>,
)
    requires
        s.phase == Phase::FetchingRest,
        s.mode == ApiMode::Graph,
    ensures
        ({
            let fallen = step_of(s, CheckEventView::Failed(why));
            let brought = step_of(fallen.0, CheckEventView::Fetched(records));
            let written = step_of(brought.0, CheckEventView::Done);
            let planned = step_of(written.0, CheckEventView::Stored(rows));
            let persisted = step_of(planned.0, CheckEventView::Done);
            let ended = step_of(persisted.0, CheckEventView::Done);
            let messages = new_messages(row_keys(rows), s.email_id, records);
            &&& fallen.1 == CheckActionView::FetchMailbox {
                email: s.email,
                access_token: s.access_token,
                folder: s.folder,
                since: s.last_check_time,
            }
            &&& brought.1 == CheckActionView::SaveApiMode {
                email_id: s.email_id,
                mode: ApiMode::Imap,
            }
            &&& written.1 == CheckActionView::LoadStored { email_id: s.email_id }
            &&& planned.1 == CheckActionView::Persist { email_id: s.email_id, messages }
            &&& persisted.1 == CheckActionView::TouchLastCheck { email_id: s.email_id }
            &&& ended.1 == CheckActionView::Finish(
                Ok(completed(s.email_id, records.len(), messages.len(), ApiMode::Imap)),
            )
        }),
{
}

/// In the mode of the REST mail API, where the mailbox protocol fails after
/// the REST mail API has, the mailbox mode is still written to the account,
/// and the check ends with the mailbox protocol's failure whether or not
/// that write went through.
pub proof fn lemma_failed_fallback_leaves_mailbox_mode(
    s: CheckSessionView,
    why: Seq<char>,
    then: Seq<char>,
    written: CheckEventView,
)
    requires
        s.phase == Phase::FetchingRest,
        s.mode == ApiMode::Graph,
        written is Done || written is Failed,
    ensures
        ({
            let fallen = step_of(s, CheckEventView::Failed(why));
            let failed = step_of(fallen.0, CheckEventView::Failed(then));
            let ended = step_of(failed.0, written);
            &&& fallen.1 is FetchMailbox
            &&& failed.1 == CheckActionView::SaveApiMode {
                email_id: s.email_id,
                mode: ApiMode::Imap,
            }
            &&& ended.1 == CheckActionView::Finish(Err(CheckErrorView::Mailbox(then)))
        }),
{
}

/// In the mode of the mailbox protocol a failure that is no rejected login
/// ends the check with that failure, text unchanged, and the REST mail API
/// is never asked, whatever comes after.
pub proof fn lemma_mailbox_failure_is_final(
    s: CheckSessionView,
    why: Seq<char>,
    more: Seq<CheckEventView>,
)
    requires
        s.phase == Phase::FetchingMailbox,
        s.mode == ApiMode::Imap,
        !is_auth_failure(why),
    ensures
        step_of(s, CheckEventView::Failed(why)).1 == CheckActionView::Finish(
            Err(CheckErrorView::Mailbox(why)),
        ),
        forall|i: int|
            0 <= i < actions_of(s, seq![CheckEventView::Failed(why)] + more).len()
                ==> #[trigger] actions_of(s, seq![CheckEventView::Failed(why)] + more)[i] is Finish,
{
    let events = seq![CheckEventView::Failed(why)] + more;
    let turn = step_of(s, events[0]);
    assert(events.drop_first() =~= more);
    lemma_finished_is_final(turn.0, more);
}

/// In the mode of the mailbox protocol a rejected login sends the check to
/// the REST mail API; where that returns, the mode of the REST mail API is
/// written to the account after the messages, and where it fails, the check
/// ends with its failure and no mode is written.
pub proof fn lemma_rejected_login_falls_back(
    s: CheckSessionView,
    why: Seq<char>,
    then: Seq<char>,
    records: Seq<MailFetchRecordView>,
    rows: Seq<MailRecordView>,
)
    requires
        s.phase == Phase::FetchingMailbox,
        s.mode == ApiMode::Imap,
        is_auth_failure(why),
    ensures
        ({
            let fallen = step_of(s, CheckEventView::Failed(why));
            let brought = step_of(fallen.0, CheckEventView::Fetched(records));
            let planned = step_of(brought.0, CheckEventView::Stored(rows));
            let persisted = step_of(planned.0, CheckEventView::Done);
            &&& fallen.1 == CheckActionView::FetchRest {
                access_token: s.access_token,
                folder: s.folder,
                limit: FETCH_LIMIT as nat,
                proxy: s.proxy,
            }
            &&& persisted.1 == CheckActionView::SaveApiMode {
                email_id: s.email_id,
                mode: ApiMode::Graph,
            }
            &&& step_of(fallen.0, CheckEventView::Failed(then)).1 == CheckActionView::Finish(
                Err(CheckErrorView::Rest(then)),
            )
        }),
{
}

/// The session in which the stored messages are awaited after retrieval
/// brought `records`, over whichever path.
pub open spec fn after_retrieval(
    s: CheckSessionView,
    records: Seq<MailFetchRecordView>,
) -> CheckSessionView {
    let brought = step_of(s, CheckEventView::Fetched(records)).0;
    if brought.phase == Phase::SavingFallbackMode {
        step_of(brought, CheckEventView::Done).0
    } else {
        brought
    }
}

/// A check that is run again while the mailbox holds the same messages
/// writes none of them: where the store holds what it held before the first
/// check and what that check wrote, the second check counts every message as
/// fetched and none as saved, however many there are and whichever path
/// brought them.
pub proof fn lemma_second_check_saves_nothing(
    first: CheckSessionView,
    second: CheckSessionView,
    records: Seq<MailFetchRecordView>,
    rows: Seq<MailRecordView>,
    rows_after: Seq<MailRecordView>,
)
    requires
        first.phase == Phase::FetchingRest || first.phase == Phase::FetchingMailbox,
        second.phase == Phase::FetchingRest || second.phase == Phase::FetchingMailbox,
        first.email_id == second.email_id,
        row_keys(rows_after) == row_keys(rows) + message_keys(
            first.email_id,
            new_messages(row_keys(rows), first.email_id, records),
        ),
    ensures
        ({
            let once = step_of(after_retrieval(first, records), CheckEventView::Stored(rows));
            let again = step_of(
                after_retrieval(second, records),
                CheckEventView::Stored(rows_after),
            );
            &&& once.1 == CheckActionView::Persist {
                email_id: first.email_id,
                messages: new_messages(row_keys(rows), first.email_id, records),
            }
            &&& again.1 == CheckActionView::Persist {
                email_id: second.email_id,
                messages: Seq::empty(),
            }
            &&& again.0.fetched == records.len()
            &&& again.0.saved == 0
        }),
{
    crate::store::lemma_second_save_writes_nothing(row_keys(rows), first.email_id, records);
}

/// A check that went through ends by writing the mode it used to the
/// account, where retrieval started in `Auto` or fell back from the mailbox
/// protocol, and then the time of the check; its result names the mode it
/// used.
pub proof fn lemma_used_mode_is_written(s: CheckSessionView)
    requires
        s.phase == Phase::Persisting,
    ensures
        ({
            let first = step_of(s, CheckEventView::Done);
            let settled = s.mode == s.used || s.mode == ApiMode::Graph;
            let touched = if settled {
                first
            } else {
                step_of(first.0, CheckEventView::Done)
            };
            &&& !settled ==> first.1 == CheckActionView::SaveApiMode {
                email_id: s.email_id,
                mode: s.used,
            }
            &&& touched.1 == CheckActionView::TouchLastCheck { email_id: s.email_id }
            &&& step_of(touched.0, CheckEventView::Done).1 == CheckActionView::Finish(
                Ok(completed(s.email_id, s.fetched, s.saved, s.used)),
            )
        }),
{
}

} // verus!
