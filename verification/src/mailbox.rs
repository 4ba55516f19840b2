//! The decisions of the mailbox protocol client: what it logs in with, what
//! it searches for, which of the matching messages it fetches, and what it
//! makes of the bytes that come back.

use vstd::prelude::*;
use vstd::relations::{sorted_by, total_ordering};
use vstd::seq_lib::{lemma_multiset_commutative, lemma_sorted_unique, to_multiset_insert, to_multiset_remove};
use vstd::string::*;
use crate::dates::{format_imap_since, since_day};
use crate::mime::{record_from_raw, record_of_raw};
use crate::records::{MailFetchRecord, MailFetchRecordView};
use crate::text::{decimal, decimal_text, opt_text};

verus! {

/// The mailbox server's port.
pub const MAILBOX_PORT: u16 = 993;

/// How long connecting to the mailbox server may take, in seconds.
pub const CONNECT_TIMEOUT_SECS: u64 = 30;

/// How many messages one check fetches at most, on either path.
pub const FETCH_LIMIT: usize = 100;

/// The mailbox server's host name.
pub fn mailbox_host() -> (r: &'static str)
    ensures
        r@ == "outlook.office365.com"@,
{
    "outlook.office365.com"
}

/// The name of the login mechanism that takes an access token.
pub fn sasl_mechanism() -> (r: &'static str)
    ensures
        r@ == "XOAUTH2"@,
{
    "XOAUTH2"
}

/// The credential of the token login, as the mechanism frames it.
pub open spec fn credential_text(user: Seq<char>, access_token: Seq<char>) -> Seq<char> {
    "user="@ + user + "\x01auth=Bearer "@ + access_token + "\x01\x01"@
}

/// The credential that logs `user` in with `access_token`.
pub fn xoauth2_credential(user: &str, access_token: &str) -> (r: String)
    ensures
        r@ == credential_text(user@, access_token@),
{
    let mut out = "user=".to_owned();
    out.append(user);
    out.append("\x01auth=Bearer ");
    out.append(access_token);
    out.append("\x01\x01");
    out
}

/// The search for messages since a day, or for all messages where no day is
/// given.
pub open spec fn criteria_text(day: Option<Seq<char>>) -> Seq<char> {
    match day {
        Some(date) => "SINCE "@ + date,
        None => "ALL"@,
    }
}

/// The search criterion for the day `day`, or for all messages.
pub fn criteria_for(day: &Option<String>) -> (r: String)
    ensures
        r@ == criteria_text(opt_text(*day)),
{
    match day {
        Some(date) => {
            let mut out = "SINCE ".to_owned();
            out.append(date.as_str());
            out
        },
        None => "ALL".to_owned(),
    }
}

/// The search criterion of a check of an account last checked at
/// `last_check_time`: a lower bound by day where that time is present and
/// reads as a timestamp, else every message of the folder.
pub fn search_criteria(last_check_time: &Option<String>) -> (r: String)
    ensures
        r@ == criteria_text(since_day(opt_text(*last_check_time))),
{
    let day = format_imap_since(last_check_time);
    criteria_for(&day)
}

/// The order of message ids.
pub open spec fn id_leq() -> spec_fn(u32, u32) -> bool {
    |a: u32, b: u32| a <= b
}

/// Of the ids that matched, those to fetch: in ascending order, every id
/// where there are at most `FETCH_LIMIT`, else the `FETCH_LIMIT` highest.
pub open spec fn recent_ids(ids: Seq<u32>) -> Seq<u32> {
    let ordered = ids.sort_by(id_leq());
    if ordered.len() > FETCH_LIMIT {
        ordered.subrange(ordered.len() - FETCH_LIMIT, ordered.len() as int)
    } else {
        ordered
    }
}

/// The order of message ids is total.
pub proof fn lemma_id_order_total()
    ensures
        total_ordering(id_leq()),
{
}

/// No id of `low` is above an id of `high`.
pub open spec fn none_above(low: Seq<u32>, high: Seq<u32>) -> bool {
    forall|i: int, j: int|
        0 <= i < low.len() && 0 <= j < high.len() ==> #[trigger] low[i] <= #[trigger] high[j]
}

/// Ids in ascending order that are as many as are to be fetched, and that
/// together with ids none of which is above them are the ids that matched,
/// are the ids to fetch.
proof fn lemma_highest_are_recent(ids: Seq<u32>, low: Seq<u32>, kept: Seq<u32>)
    requires
        sorted_by(kept, id_leq()),
        low.to_multiset().add(kept.to_multiset()) == ids.to_multiset(),
        none_above(low, kept),
        kept.len() == if ids.len() > FETCH_LIMIT {
            FETCH_LIMIT as nat
        } else {
            ids.len()
        },
    ensures
        kept == recent_ids(ids),
{
    broadcast use vstd::multiset::group_multiset_axioms;

    lemma_id_order_total();
    let lows = low.sort_by(id_leq());
    let ordered = ids.sort_by(id_leq());
    low.lemma_sort_by_ensures(id_leq());
    ids.lemma_sort_by_ensures(id_leq());
    low.to_multiset_ensures();
    lows.to_multiset_ensures();
    kept.to_multiset_ensures();
    ids.to_multiset_ensures();
    ordered.to_multiset_ensures();
    let all = lows + kept;
    assert(sorted_by(all, id_leq())) by {
        assert forall|i: int, j: int| 0 <= i < j < all.len() implies #[trigger] id_leq()(
            all[i],
            all[j],
        ) by {
            if j < lows.len() {
                assert(id_leq()(lows[i], lows[j]));
            } else if i >= lows.len() {
                assert(id_leq()(kept[i - lows.len()], kept[j - lows.len()]));
            } else {
                assert(lows.contains(lows[i]));
                assert(low.contains(lows[i]));
                let at = choose|at: int| 0 <= at < low.len() && low[at] == lows[i];
                assert(low[at] <= kept[j - lows.len()]);
            }
        }
    }
    lemma_multiset_commutative(lows, kept);
    assert(all.to_multiset() =~= ordered.to_multiset());
    lemma_sorted_unique(all, ordered, id_leq());
    assert(lows.len() == low.len());
    assert(ordered.len() == ids.len());
    assert(low.len() + kept.len() == ids.len());
    assert(all.subrange(lows.len() as int, all.len() as int) =~= kept);
    assert(kept =~= recent_ids(ids));
}

/// Puts `id` in its place among ids in ascending order.
fn insert_in_order(kept: &mut Vec<u32>, id: u32)
    requires
        sorted_by(old(kept)@, id_leq()),
    ensures
        sorted_by(final(kept)@, id_leq()),
        exists|at: int| 0 <= at <= old(kept)@.len() && final(kept)@ == old(kept)@.insert(at, id),
{
    let mut at: usize = 0;
    while at < kept.len() && kept[at] <= id
        invariant
            at <= kept.len(),
            kept@ == old(kept)@,
            forall|j: int| 0 <= j < at ==> kept@[j] <= id,
        decreases kept.len() - at,
    {
        at += 1;
    }
    let ghost before = kept@;
    kept.insert(at, id);
    assert forall|i: int, j: int| 0 <= i < j < kept@.len() implies #[trigger] id_leq()(
        kept@[i],
        kept@[j],
    ) by {
        if j < at {
            assert(id_leq()(before[i], before[j]));
        } else if j == at {
        } else if i < at {
            assert(id_leq()(before[i], before[j - 1]));
        } else if i == at {
            if at < j - 1 {
                assert(id_leq()(before[at as int], before[j - 1]));
            }
        } else {
            assert(id_leq()(before[i - 1], before[j - 1]));
        }
    }
}

/// Picks the ids to fetch among those that matched.
pub fn select_recent_ids(ids: Vec<u32>) -> (r: Vec<u32>)
    ensures
        r@ == recent_ids(ids@),
{
    broadcast use vstd::multiset::group_multiset_axioms;

    let mut kept: Vec<u32> = Vec::new();
    let ghost mut low: Seq<u32> = Seq::empty();
    let mut i: usize = 0;
    proof {
        assert(ids@.take(0) =~= Seq::<u32>::empty());
        low.to_multiset_ensures();
        kept@.to_multiset_ensures();
        assert(low.to_multiset().add(kept@.to_multiset()) =~= ids@.take(0).to_multiset());
    }
    while i < ids.len()
        invariant
            i <= ids.len(),
            sorted_by(kept@, id_leq()),
            low.to_multiset().add(kept@.to_multiset()) == ids@.take(i as int).to_multiset(),
            none_above(low, kept@),
            low.len() + kept.len() == i,
            kept.len() == if i > FETCH_LIMIT {
                FETCH_LIMIT
            } else {
                i
            },
        decreases ids.len() - i,
    {
        let id = ids[i];
        let ghost before = kept@;
        let ghost lower = low;
        proof {
            assert(ids@.take(i + 1) =~= ids@.take(i as int).push(id));
            ids@.take(i as int).to_multiset_ensures();
            low.to_multiset_ensures();
        }
        if kept.len() < FETCH_LIMIT {
            insert_in_order(&mut kept, id);
            proof {
                let at = choose|at: int| 0 <= at <= before.len() && kept@ == before.insert(at, id);
                to_multiset_insert(before, at, id);
                assert(low.to_multiset().add(kept@.to_multiset()) =~= ids@.take(
                    i + 1,
                ).to_multiset());
            }
        } else if kept[0] < id {
            let least = kept.remove(0);
            let ghost rest = kept@;
            insert_in_order(&mut kept, id);
            proof {
                low = lower.push(least);
                let at = choose|at: int| 0 <= at <= rest.len() && kept@ == rest.insert(at, id);
                to_multiset_remove(before, 0);
                to_multiset_insert(rest, at, id);
                before.to_multiset_ensures();
                assert(before.contains(before[0]));
                assert(low.to_multiset().add(kept@.to_multiset()) =~= ids@.take(
                    i + 1,
                ).to_multiset());
                assert forall|a: int, b: int|
                    0 <= a < low.len() && 0 <= b < kept@.len() implies #[trigger] low[a]
                    <= #[trigger] kept@[b] by {
                    let high = kept@[b];
                    assert(high == id || exists|c: int| 1 <= c < before.len() && before[c] == high)
                        by {
                        if b < at {
                            assert(kept@[b] == rest[b]);
                            assert(rest[b] == before[b + 1]);
                        } else if b > at {
                            assert(kept@[b] == rest[b - 1]);
                            assert(rest[b - 1] == before[b]);
                        }
                    }
                    if a < lower.len() {
                        assert(lower[a] <= before[0]);
                        if high != id {
                            let c = choose|c: int| 1 <= c < before.len() && before[c] == high;
                            assert(lower[a] <= before[c]);
                        }
                    } else {
                        if high != id {
                            let c = choose|c: int| 1 <= c < before.len() && before[c] == high;
                            assert(id_leq()(before[0], before[c]));
                        }
                    }
                }
            }
        } else {
            proof {
                low = lower.push(id);
                assert(low.to_multiset().add(kept@.to_multiset()) =~= ids@.take(
                    i + 1,
                ).to_multiset());
                assert forall|a: int, b: int|
                    0 <= a < low.len() && 0 <= b < kept@.len() implies #[trigger] low[a]
                    <= #[trigger] kept@[b] by {
                    if a < lower.len() {
                        assert(lower[a] <= kept@[b]);
                    } else if b > 0 {
                        assert(id_leq()(kept@[0], kept@[b]));
                    }
                }
            }
        }
        i += 1;
    }
    proof {
        assert(ids@.take(ids.len() as int) =~= ids@);
        lemma_highest_are_recent(ids@, low, kept@);
    }
    kept
}

/// Of the matching ids those that are fetched are the highest: they come in
/// ascending order, there are `FETCH_LIMIT` of them or as many as matched,
/// together with the ids left out they are the ids that matched, and no id
/// left out is above a fetched one.
pub proof fn lemma_recent_ids_are_highest(ids: Seq<u32>)
    ensures
        sorted_by(recent_ids(ids), id_leq()),
        recent_ids(ids).len() == if ids.len() > FETCH_LIMIT {
            FETCH_LIMIT as nat
        } else {
            ids.len()
        },
        ({
            let ordered = ids.sort_by(id_leq());
            let left_out = ordered.take(ordered.len() - recent_ids(ids).len());
            &&& (left_out + recent_ids(ids)).to_multiset() == ids.to_multiset()
            &&& forall|i: int, j: int|
                0 <= i < left_out.len() && 0 <= j < recent_ids(ids).len() ==> #[trigger] left_out[i]
                    <= #[trigger] recent_ids(ids)[j]
        }),
{
    lemma_id_order_total();
    ids.lemma_sort_by_ensures(id_leq());
    let ordered = ids.sort_by(id_leq());
    ids.to_multiset_ensures();
    ordered.to_multiset_ensures();
    assert(ordered.len() == ids.len());
    let kept = recent_ids(ids);
    let left_out = ordered.take(ordered.len() - kept.len());
    assert(left_out + kept =~= ordered);
    assert forall|i: int, j: int|
        0 <= i < left_out.len() && 0 <= j < kept.len() implies #[trigger] left_out[i]
        <= #[trigger] kept[j] by {
        let at = ordered.len() - kept.len() + j;
        assert(kept[j] == ordered[at]);
        assert(left_out[i] == ordered[i]);
        if i < at {
            assert(id_leq()(ordered[i], ordered[at]));
        }
    }
}

/// The text that asks for the message with the id `id`: the id in decimal.
pub fn message_set(id: u32) -> (r: String)
    ensures
        r@ == decimal_text(id as nat),
{
    decimal(id as usize)
}

/// The records of the messages whose bytes came back, in order. A message
/// that came without a body, or whose bytes do not parse, is left out and
/// the others are kept.
pub open spec fn records_of(
    bodies: Seq<Option<Seq<u8>>>,
    folder: Seq<char>,
) -> Seq<MailFetchRecordView>
    decreases bodies.len(),
{
    if bodies.len() == 0 {
        Seq::empty()
    } else {
        let before = records_of(bodies.drop_last(), folder);
        match bodies.last() {
            Some(raw) => match record_of_raw(raw, folder) {
                Some(record) => before.push(record),
                None => before,
            },
            None => before,
        }
    }
}

/// What a list of optional byte strings holds.
pub open spec fn bodies_view(bodies: Seq<Option<Vec<u8>>>) -> Seq<Option<Seq<u8>>> {
    bodies.map_values(
        |body: Option<Vec<u8>>|
            match body {
                Some(raw) => Some(raw@),
                None => None,
            },
    )
}

/// Builds the records of the messages that were fetched from `folder`.
pub fn records_from_bodies(bodies: &Vec<Option<Vec<u8>>>, folder: &str) -> (r: Vec<
    MailFetchRecord,
>)
    ensures
        r.deep_view() == records_of(bodies_view(bodies@), folder@),
{
    let ghost all = bodies_view(bodies@);
    let mut records: Vec<MailFetchRecord> = Vec::new();
    let mut i: usize = 0;
    assert(records.deep_view() =~= records_of(all.take(0), folder@));
    while i < bodies.len()
        invariant
            i <= bodies.len(),
            all == bodies_view(bodies@),
            records.deep_view() == records_of(all.take(i as int), folder@),
        decreases bodies.len() - i,
    {
        let ghost before = records.deep_view();
        proof {
            assert(all.take(i + 1).drop_last() =~= all.take(i as int));
            assert(all.take(i + 1).last() == all[i as int]);
        }
        match &bodies[i] {
            Some(raw) => {
                match record_from_raw(raw.as_slice(), folder) {
                    Some(record) => {
                        records.push(record);
                        assert(records.deep_view() =~= before.push(record@));
                    },
                    None => {},
                }
            },
            None => {},
        }
        i += 1;
    }
    assert(all.take(bodies.len() as int) =~= all);
    records
}

/// What a mailbox session is waiting for.
#[derive(Debug, Clone, Copy, PartialEq, Eq, Structural)]
pub enum MailboxPhase {
    /// The connection to the mailbox server.
    Connecting,
    /// The server's answer to the login.
    LoggingIn,
    /// The folder to be selected.
    Selecting,
    /// The ids of the messages that match.
    Searching,
    /// The bytes of one message.
    Fetching,
    /// The end of the session.
    LoggingOut,
    /// Nothing: the session has ended.
    Finished,
}

/// One retrieval over the mailbox protocol in progress. Like a check it
/// decides and never acts: it is handed what the last action brought and
/// answers with the next action.
#[derive(Debug, Clone, PartialEq, Eq)]
pub struct MailboxSession {
    pub phase: MailboxPhase,
    /// The account's address.
    pub email: String,
    pub access_token: String,
    pub folder: String,
    /// When the account was last checked.
    pub since: Option<String>,
    /// The ids of the messages to fetch, in ascending order.
    pub ids: Vec<u32>,
    /// How many of them have been fetched.
    pub next: usize,
    /// The records of the messages fetched so far.
    pub records: Vec<MailFetchRecord>,
}

/// What a [`MailboxSession`] holds.
pub struct MailboxSessionView {
    pub phase: MailboxPhase,
    pub email: Seq<char>,
    pub access_token: Seq<char>,
    pub folder: Seq<char>,
    pub since: Option<Seq<char>>,
    pub ids: Seq<u32>,
    pub next: nat,
    pub records: Seq<MailFetchRecordView>,
}

impl View for MailboxSession {
    type V = MailboxSessionView;

    open spec fn view(&self) -> MailboxSessionView {
        MailboxSessionView {
            phase: self.phase,
            email: self.email@,
            access_token: self.access_token@,
            folder: self.folder@,
            since: opt_text(self.since),
            ids: self.ids@,
            next: self.next as nat,
            records: self.records.deep_view(),
        }
    }
}

/// What the last action of a mailbox session brought.
#[derive(Debug, Clone, PartialEq, Eq)]
pub enum MailboxEvent {
    /// An action that brings nothing went through.
    Done,
    /// The ids of the messages that match the search, in any order.
    Matched(Vec<u32>),
    /// What came back for one message: for each item its body, if it has one.
    Bodies(Vec<Option<Vec<u8>>>),
    /// The action failed; the text says why.
    Failed(String),
}

/// What a [`MailboxEvent`] holds.
pub enum MailboxEventView {
    Done,
    Matched(Seq<u32>),
    Bodies(Seq<Option<Seq<u8>>>),
    Failed(Seq<char>),
}

impl View for MailboxEvent {
    type V = MailboxEventView;

    open spec fn view(&self) -> MailboxEventView {
        match self {
            MailboxEvent::Done => MailboxEventView::Done,
            MailboxEvent::Matched(ids) => MailboxEventView::Matched(ids@),
            MailboxEvent::Bodies(bodies) => MailboxEventView::Bodies(bodies_view(bodies@)),
            MailboxEvent::Failed(text) => MailboxEventView::Failed(text@),
        }
    }
}

/// What a mailbox session is to do next.
#[derive(Debug, PartialEq, Eq)]
pub enum MailboxAction {
    /// Open a TLS connection, giving up after `timeout_secs`.
    Connect { host: String, port: u16, timeout_secs: u64 },
    /// Log in with the credential under the mechanism.
    Authenticate { mechanism: String, credential: String },
    /// Select the folder.
    Select { folder: String },
    /// Search the folder.
    Search { criteria: String },
    /// Fetch the item of the messages.
    Fetch { messages: String, item: String },
    /// Log out.
    Logout,
    /// Nothing more: the session has ended so.
    Finish(Result<Vec<MailFetchRecord>, String>),
}

/// What a [`MailboxAction`] holds.
pub enum MailboxActionView {
    Connect { host: Seq<char>, port: u16, timeout_secs: u64 },
    Authenticate { mechanism: Seq<char>, credential: Seq<char> },
    Select { folder: Seq<char> },
    Search { criteria: Seq<char> },
    Fetch { messages: Seq<char>, item: Seq<char> },
    Logout,
    Finish(Result<Seq<MailFetchRecordView>, Seq<char>>),
}

impl View for MailboxAction {
    type V = MailboxActionView;

    open spec fn view(&self) -> MailboxActionView {
        match self {
            MailboxAction::Connect { host, port, timeout_secs } => MailboxActionView::Connect {
                host: host@,
                port: *port,
                timeout_secs: *timeout_secs,
            },
            MailboxAction::Authenticate { mechanism, credential } => {
                MailboxActionView::Authenticate { mechanism: mechanism@, credential: credential@ }
            },
            MailboxAction::Select { folder } => MailboxActionView::Select { folder: folder@ },
            MailboxAction::Search { criteria } => MailboxActionView::Search { criteria: criteria@ },
            MailboxAction::Fetch { messages, item } => MailboxActionView::Fetch {
                messages: messages@,
                item: item@,
            },
            MailboxAction::Logout => MailboxActionView::Logout,
            MailboxAction::Finish(end) => MailboxActionView::Finish(
                match end {
                    Ok(records) => Ok(records.deep_view()),
                    Err(text) => Err(text@),
                },
            ),
        }
    }
}

/// A mailbox session and the action that it answers with.
pub type MailboxTurn = (MailboxSessionView, MailboxActionView);

/// What a mailbox session and its answer hold.
pub open spec fn mailbox_turn_view(turn: (MailboxSession, MailboxAction)) -> MailboxTurn {
    (turn.0@, turn.1@)
}

/// A retrieval before its first action: the connection is asked for.
pub open spec fn mailbox_started(
    email: Seq<char>,
    access_token: Seq<char>,
    folder: Seq<char>,
    since: Option<Seq<char>>,
) -> MailboxTurn {
    (
        MailboxSessionView {
            phase: MailboxPhase::Connecting,
            email,
            access_token,
            folder,
            since,
            ids: Seq::empty(),
            next: 0,
            records: Seq::empty(),
        },
        MailboxActionView::Connect {
            host: "outlook.office365.com"@,
            port: MAILBOX_PORT,
            timeout_secs: CONNECT_TIMEOUT_SECS,
        },
    )
}

/// The session ends with a failure, whose text is kept as it is.
pub open spec fn mailbox_failed(s: MailboxSessionView, text: Seq<char>) -> MailboxTurn {
    (MailboxSessionView { phase: MailboxPhase::Finished, ..s }, MailboxActionView::Finish(Err(text)))
}

/// The session ends because the event is none that it waits for.
pub open spec fn mailbox_unexpected(s: MailboxSessionView) -> MailboxTurn {
    mailbox_failed(s, "unexpected event"@)
}

/// An action that brings nothing went through, or did not: `next` is what
/// follows where it did.
pub open spec fn mailbox_on_done(
    s: MailboxSessionView,
    event: MailboxEventView,
    next: MailboxTurn,
) -> MailboxTurn {
    match event {
        MailboxEventView::Done => next,
        MailboxEventView::Failed(text) => mailbox_failed(s, text),
        _ => mailbox_unexpected(s),
    }
}

/// The next message is asked for, whole, or the session logs out where
/// every message has been fetched.
pub open spec fn fetch_next(s: MailboxSessionView) -> MailboxTurn {
    if s.next < s.ids.len() {
        (
            MailboxSessionView { phase: MailboxPhase::Fetching, ..s },
            MailboxActionView::Fetch {
                messages: decimal_text(s.ids[s.next as int] as nat),
                item: "RFC822"@,
            },
        )
    } else {
        (MailboxSessionView { phase: MailboxPhase::LoggingOut, ..s }, MailboxActionView::Logout)
    }
}

/// What a mailbox session answers in the state `s` to `event`. Every
/// failure ends the session with its text; only a message that cannot be
/// parsed is passed over in silence.
pub open spec fn mailbox_step_of(s: MailboxSessionView, event: MailboxEventView) -> MailboxTurn {
    match s.phase {
        MailboxPhase::Connecting => mailbox_on_done(
            s,
            event,
            (
                MailboxSessionView { phase: MailboxPhase::LoggingIn, ..s },
                MailboxActionView::Authenticate {
                    mechanism: "XOAUTH2"@,
                    credential: credential_text(s.email, s.access_token),
                },
            ),
        ),
        MailboxPhase::LoggingIn => mailbox_on_done(
            s,
            event,
            (
                MailboxSessionView { phase: MailboxPhase::Selecting, ..s },
                MailboxActionView::Select { folder: s.folder },
            ),
        ),
        MailboxPhase::Selecting => mailbox_on_done(
            s,
            event,
            (
                MailboxSessionView { phase: MailboxPhase::Searching, ..s },
                MailboxActionView::Search { criteria: criteria_text(since_day(s.since)) },
            ),
        ),
        MailboxPhase::Searching => match event {
            MailboxEventView::Matched(ids) => fetch_next(
                MailboxSessionView { ids: recent_ids(ids), next: 0, ..s },
            ),
            MailboxEventView::Failed(text) => mailbox_failed(s, text),
            _ => mailbox_unexpected(s),
        },
        MailboxPhase::Fetching => match event {
            MailboxEventView::Bodies(bodies) => if s.next < s.ids.len() {
                fetch_next(
                    MailboxSessionView {
                        next: s.next + 1,
                        records: s.records + records_of(bodies, s.folder),
                        ..s
                    },
                )
            } else {
                mailbox_unexpected(s)
            },
            MailboxEventView::Failed(text) => mailbox_failed(s, text),
            _ => mailbox_unexpected(s),
        },
        MailboxPhase::LoggingOut => match event {
            MailboxEventView::Done => (
                MailboxSessionView {
                    phase: MailboxPhase::Finished,
                    records: Seq::empty(),
                    ..s
                },
                MailboxActionView::Finish(Ok(s.records)),
            ),
            MailboxEventView::Failed(text) => mailbox_failed(s, text),
            _ => mailbox_unexpected(s),
        },
        MailboxPhase::Finished => mailbox_unexpected(s),
    }
}

fn mailbox_fail(s: MailboxSession, text: String) -> (r: (MailboxSession, MailboxAction))
    ensures
        mailbox_turn_view(r) == mailbox_failed(s@, text@),
{
    let mut s = s;
    s.phase = MailboxPhase::Finished;
    (s, MailboxAction::Finish(Err(text)))
}

fn mailbox_not_expected(s: MailboxSession) -> (r: (MailboxSession, MailboxAction))
    ensures
        mailbox_turn_view(r) == mailbox_unexpected(s@),
{
    mailbox_fail(s, "unexpected event".to_owned())
}

fn start_next_fetch(s: MailboxSession) -> (r: (MailboxSession, MailboxAction))
    ensures
        mailbox_turn_view(r) == fetch_next(s@),
{
    let mut s = s;
    if s.next < s.ids.len() {
        s.phase = MailboxPhase::Fetching;
        let action = MailboxAction::Fetch {
            messages: message_set(s.ids[s.next]),
            item: "RFC822".to_owned(),
        };
        (s, action)
    } else {
        s.phase = MailboxPhase::LoggingOut;
        (s, MailboxAction::Logout)
    }
}

impl MailboxSession {
    /// Starts a retrieval of the messages of `folder` for the account
    /// `email`, last checked at `since`.
    pub fn start(email: String, access_token: String, folder: String, since: Option<String>) -> (r:
        (MailboxSession, MailboxAction))
        ensures
            mailbox_turn_view(r) == mailbox_started(
                email@,
                access_token@,
                folder@,
                opt_text(since),
            ),
    {
        let session = MailboxSession {
            phase: MailboxPhase::Connecting,
            email,
            access_token,
            folder,
            since,
            ids: Vec::new(),
            next: 0,
            records: Vec::new(),
        };
        assert(session.records.deep_view() =~= Seq::<MailFetchRecordView>::empty());
        let action = MailboxAction::Connect {
            host: mailbox_host().to_owned(),
            port: MAILBOX_PORT,
            timeout_secs: CONNECT_TIMEOUT_SECS,
        };
        (session, action)
    }

    /// Takes what the last action brought and answers with the next action.
    pub fn step(self, event: MailboxEvent) -> (r: (MailboxSession, MailboxAction))
        ensures
            mailbox_turn_view(r) == mailbox_step_of(self@, event@),
    {
        match self.phase {
            MailboxPhase::Connecting => match event {
                MailboxEvent::Done => {
                    let mut s = self;
                    s.phase = MailboxPhase::LoggingIn;
                    let action = MailboxAction::Authenticate {
                        mechanism: sasl_mechanism().to_owned(),
                        credential: xoauth2_credential(s.email.as_str(), s.access_token.as_str()),
                    };
                    (s, action)
                },
                MailboxEvent::Failed(text) => mailbox_fail(self, text),
                _ => mailbox_not_expected(self),
            },
            MailboxPhase::LoggingIn => match event {
                MailboxEvent::Done => {
                    let mut s = self;
                    s.phase = MailboxPhase::Selecting;
                    let action = MailboxAction::Select { folder: s.folder.clone() };
                    (s, action)
                },
                MailboxEvent::Failed(text) => mailbox_fail(self, text),
                _ => mailbox_not_expected(self),
            },
            MailboxPhase::Selecting => match event {
                MailboxEvent::Done => {
                    let mut s = self;
                    s.phase = MailboxPhase::Searching;
                    let action = MailboxAction::Search { criteria: search_criteria(&s.since) };
                    (s, action)
                },
                MailboxEvent::Failed(text) => mailbox_fail(self, text),
                _ => mailbox_not_expected(self),
            },
            MailboxPhase::Searching => match event {
                MailboxEvent::Matched(ids) => {
                    let mut s = self;
                    s.ids = select_recent_ids(ids);
                    s.next = 0;
                    start_next_fetch(s)
                },
                MailboxEvent::Failed(text) => mailbox_fail(self, text),
                _ => mailbox_not_expected(self),
            },
            MailboxPhase::Fetching => match event {
                MailboxEvent::Bodies(bodies) => {
                    if self.next < self.ids.len() {
                        let mut s = self;
                        let ghost before = s.records.deep_view();
                        let mut more = records_from_bodies(&bodies, s.folder.as_str());
                        let ghost added = more.deep_view();
                        s.records.append(&mut more);
                        assert(s.records.deep_view() =~= before + added);
                        s.next = s.next + 1;
                        start_next_fetch(s)
                    } else {
                        mailbox_not_expected(self)
                    }
                },
                MailboxEvent::Failed(text) => mailbox_fail(self, text),
                _ => mailbox_not_expected(self),
            },
            MailboxPhase::LoggingOut => match event {
                MailboxEvent::Done => {
                    let mut s = self;
                    let mut records: Vec<MailFetchRecord> = Vec::new();
                    let ghost all = s.records.deep_view();
                    records.append(&mut s.records);
                    assert(records.deep_view() =~= all);
                    assert(s.records.deep_view() =~= Seq::<MailFetchRecordView>::empty());
                    s.phase = MailboxPhase::Finished;
                    (s, MailboxAction::Finish(Ok(records)))
                },
                MailboxEvent::Failed(text) => mailbox_fail(self, text),
                _ => mailbox_not_expected(self),
            },
            MailboxPhase::Finished => mailbox_not_expected(self),
        }
    }
}

/// The actions that a mailbox session answers with when it is handed
/// `events` one after the other, starting in the state `s`.
pub open spec fn mailbox_actions_of(
    s: MailboxSessionView,
    events: Seq<MailboxEventView>,
) -> Seq<MailboxActionView>
    decreases events.len(),
{
    if events.len() == 0 {
        Seq::empty()
    } else {
        let turn = mailbox_step_of(s, events[0]);
        seq![turn.1] + mailbox_actions_of(turn.0, events.drop_first())
    }
}

/// The request for the whole message with the id `id`.
pub open spec fn fetch_of(id: u32) -> MailboxActionView {
    MailboxActionView::Fetch { messages: decimal_text(id as nat), item: "RFC822"@ }
}

/// The requests for the messages with the ids `ids`, in order.
pub open spec fn fetches_of(ids: Seq<u32>) -> Seq<MailboxActionView> {
    ids.map_values(|id: u32| fetch_of(id))
}

/// What came back for several messages, as events.
pub open spec fn bodies_events(answers: Seq<Seq<Option<Seq<u8>>>>) -> Seq<MailboxEventView> {
    answers.map_values(|bodies: Seq<Option<Seq<u8>>>| MailboxEventView::Bodies(bodies))
}

/// A session that is fetching asks for each of the ids that are left,
/// once and in order, and then logs out.
pub proof fn lemma_remaining_ids_are_fetched(
    s: MailboxSessionView,
    answers: Seq<Seq<Option<Seq<u8>>>>,
)
    requires
        s.phase == MailboxPhase::Fetching,
        s.next < s.ids.len(),
        answers.len() == s.ids.len() - s.next,
    ensures
        mailbox_actions_of(s, bodies_events(answers)) == fetches_of(
            s.ids.subrange(s.next as int + 1, s.ids.len() as int),
        ) + seq![MailboxActionView::Logout],
    decreases answers.len(),
{
    let events = bodies_events(answers);
    let turn = mailbox_step_of(s, events[0]);
    let left = s.ids.subrange(s.next as int + 1, s.ids.len() as int);
    assert(events.drop_first() =~= bodies_events(answers.drop_first()));
    if s.next + 1 < s.ids.len() {
        lemma_remaining_ids_are_fetched(turn.0, answers.drop_first());
        let later = s.ids.subrange(s.next as int + 2, s.ids.len() as int);
        assert(turn.1 == fetch_of(s.ids[s.next as int + 1]));
        assert(seq![turn.1] + fetches_of(later) =~= fetches_of(left));
        assert(seq![turn.1] + (fetches_of(later) + seq![MailboxActionView::Logout]) =~= fetches_of(
            left,
        ) + seq![MailboxActionView::Logout]);
    } else {
        assert(answers.drop_first().len() == 0);
        assert(mailbox_actions_of(turn.0, events.drop_first()) =~= Seq::empty());
        assert(fetches_of(left) =~= Seq::empty());
        assert(seq![turn.1] + Seq::<MailboxActionView>::empty() =~= fetches_of(left)
            + seq![MailboxActionView::Logout]);
    }
}

/// Of the messages that match the search exactly those to fetch are asked
/// for: each once, whole, in ascending order of their ids, no more than
/// `FETCH_LIMIT` of them and then the highest; after the last the session
/// logs out.
pub proof fn lemma_only_recent_ids_are_fetched(
    s: MailboxSessionView,
    ids: Seq<u32>,
    answers: Seq<Seq<Option<Seq<u8>>>>,
)
    requires
        s.phase == MailboxPhase::Searching,
        answers.len() == recent_ids(ids).len(),
    ensures
        mailbox_actions_of(s, seq![MailboxEventView::Matched(ids)] + bodies_events(answers))
            == fetches_of(recent_ids(ids)) + seq![MailboxActionView::Logout],
{
    let events = seq![MailboxEventView::Matched(ids)] + bodies_events(answers);
    let turn = mailbox_step_of(s, events[0]);
    let recent = recent_ids(ids);
    assert(events.drop_first() =~= bodies_events(answers));
    if recent.len() > 0 {
        lemma_remaining_ids_are_fetched(turn.0, answers);
        assert(seq![turn.1] + fetches_of(recent.subrange(1, recent.len() as int)) =~= fetches_of(
            recent,
        ));
        assert(seq![turn.1] + (fetches_of(recent.subrange(1, recent.len() as int))
            + seq![MailboxActionView::Logout]) =~= fetches_of(recent)
            + seq![MailboxActionView::Logout]);
    } else {
        assert(mailbox_actions_of(turn.0, events.drop_first()) =~= Seq::empty());
        assert(seq![turn.1] + Seq::<MailboxActionView>::empty() =~= fetches_of(recent)
            + seq![MailboxActionView::Logout]);
    }
}

/// A failure of any action ends the session with the failure's text,
/// unchanged, so that a rejected login can be told from its words.
pub proof fn lemma_failure_text_is_kept(s: MailboxSessionView, text: Seq<char>)
    requires
        s.phase != MailboxPhase::Finished,
    ensures
        mailbox_step_of(s, MailboxEventView::Failed(text)).1 == MailboxActionView::Finish(
            Err(text),
        ),
        mailbox_step_of(s, MailboxEventView::Failed(text)).0.phase == MailboxPhase::Finished,
{
}

} // verus!
