//! How a check ends: its error or its result, and the result of a batch.

use vstd::prelude::*;
use vstd::string::*;
use crate::mode::{mode_name, ApiMode};
use crate::text::{decimal, decimal_text};

verus! {

/// Why a check failed.
#[derive(Debug, Clone, PartialEq, Eq)]
pub enum CheckError {
    /// The account is of a kind that cannot be checked. No request was made.
    UnsupportedMailType,
    /// No access token could be had; the text says why.
    Token(String),
    /// The REST mail API failed where nothing could take its place.
    Rest(String),
    /// The mailbox protocol failed where nothing could take its place.
    Mailbox(String),
    /// Reading or writing the store failed.
    Storage(String),
    /// The check was handed an event that it was not waiting for.
    Unexpected,
}

/// What a [`CheckError`] holds.
pub enum CheckErrorView {
    UnsupportedMailType,
    Token(Seq<char>),
    Rest(Seq<char>),
    Mailbox(Seq<char>),
    Storage(Seq<char>),
    Unexpected,
}

impl View for CheckError {
    type V = CheckErrorView;

    open spec fn view(&self) -> CheckErrorView {
        match self {
            CheckError::UnsupportedMailType => CheckErrorView::UnsupportedMailType,
            CheckError::Token(text) => CheckErrorView::Token(text@),
            CheckError::Rest(text) => CheckErrorView::Rest(text@),
            CheckError::Mailbox(text) => CheckErrorView::Mailbox(text@),
            CheckError::Storage(text) => CheckErrorView::Storage(text@),
            CheckError::Unexpected => CheckErrorView::Unexpected,
        }
    }
}

/// The text of an error: a fixed sentence for the two kinds that carry none,
/// else the text it carries, unchanged.
pub open spec fn error_text(error: CheckErrorView) -> Seq<char> {
    match error {
        CheckErrorView::UnsupportedMailType => "仅支持 outlook 收件"@,
        CheckErrorView::Token(text) => text,
        CheckErrorView::Rest(text) => text,
        CheckErrorView::Mailbox(text) => text,
        CheckErrorView::Storage(text) => text,
        CheckErrorView::Unexpected => "unexpected event"@,
    }
}

impl CheckError {
    /// The text of this error.
    pub fn message(&self) -> (r: String)
        ensures
            r@ == error_text(self@),
    {
        match self {
            CheckError::UnsupportedMailType => "仅支持 outlook 收件".to_owned(),
            CheckError::Token(text) => text.clone(),
            CheckError::Rest(text) => text.clone(),
            CheckError::Mailbox(text) => text.clone(),
            CheckError::Storage(text) => text.clone(),
            CheckError::Unexpected => "unexpected event".to_owned(),
        }
    }
}

/// The result of checking one account.
#[derive(Debug, Clone, PartialEq, Eq)]
pub struct CheckResult {
    pub email_id: i64,
    pub success: bool,
    /// How many messages retrieval returned, stored before or not.
    pub fetched: usize,
    /// How many of them were written.
    pub saved: usize,
    pub message: String,
}

/// What a [`CheckResult`] holds.
pub struct CheckResultView {
    pub email_id: int,
    pub success: bool,
    pub fetched: nat,
    pub saved: nat,
    pub message: Seq<char>,
}

impl View for CheckResult {
    type V = CheckResultView;

    open spec fn view(&self) -> CheckResultView {
        CheckResultView {
            email_id: self.email_id as int,
            success: self.success,
            fetched: self.fetched as nat,
            saved: self.saved as nat,
            message: self.message@,
        }
    }
}

impl DeepView for CheckResult {
    type V = CheckResultView;

    open spec fn deep_view(&self) -> CheckResultView {
        self@
    }
}

/// The summary of a check that went through: both counts and the name of the
/// mode that was used.
pub open spec fn summary_text(fetched: nat, saved: nat, used: ApiMode) -> Seq<char> {
    "成功获取 "@ + decimal_text(fetched) + " 封邮件，新增 "@ + decimal_text(saved) + " 封 (模式: "@
        + mode_name(used) + ")"@
}

/// The result of a check that went through.
pub open spec fn completed(
    email_id: int,
    fetched: nat,
    saved: nat,
    used: ApiMode,
) -> CheckResultView {
    CheckResultView {
        email_id,
        success: true,
        fetched,
        saved,
        message: summary_text(fetched, saved, used),
    }
}

/// The result that stands for a failed check in a batch: no counts, and the
/// error's text behind a fixed prefix.
pub open spec fn failed(email_id: int, error: CheckErrorView) -> CheckResultView {
    CheckResultView {
        email_id,
        success: false,
        fetched: 0,
        saved: 0,
        message: "收件失败: "@ + error_text(error),
    }
}

impl CheckResult {
    /// The result of a check of account `email_id` that went through in mode
    /// `used`.
    pub fn completed(email_id: i64, fetched: usize, saved: usize, used: ApiMode) -> (r: Self)
        ensures
            r@ == completed(email_id as int, fetched as nat, saved as nat, used),
    {
        let mut message = "成功获取 ".to_owned();
        message.append(decimal(fetched).as_str());
        message.append(" 封邮件，新增 ");
        message.append(decimal(saved).as_str());
        message.append(" 封 (模式: ");
        message.append(used.name());
        message.append(")");
        CheckResult { email_id, success: true, fetched, saved, message }
    }

    /// The result that stands for a failed check of account `email_id`.
    pub fn failed(email_id: i64, error: &CheckError) -> (r: Self)
        ensures
            r@ == failed(email_id as int, error@),
    {
        let mut message = "收件失败: ".to_owned();
        message.append(error.message().as_str());
        CheckResult { email_id, success: false, fetched: 0, saved: 0, message }
    }
}

/// How the check of one account ended.
pub type CheckOutcome = Result<CheckResult, CheckError>;

/// What a [`CheckOutcome`] holds.
pub open spec fn outcome_view(outcome: CheckOutcome) -> Result<CheckResultView, CheckErrorView> {
    match outcome {
        Ok(result) => Ok(result@),
        Err(error) => Err(error@),
    }
}

/// The entry that a batch keeps for the account `email_id`: the check's own
/// result, or the result that stands for its failure.
pub open spec fn batch_entry(
    email_id: int,
    outcome: Result<CheckResultView, CheckErrorView>,
) -> CheckResultView {
    match outcome {
        Ok(result) => result,
        Err(error) => failed(email_id, error),
    }
}

/// The result of checking several accounts one after the other.
#[derive(Debug, Clone, PartialEq, Eq)]
pub struct BatchCheckResult {
    pub success_count: usize,
    pub failed_count: usize,
    /// One entry for each account, in the order in which they were checked.
    pub results: Vec<CheckResult>,
}

/// What a [`BatchCheckResult`] holds.
pub struct BatchCheckResultView {
    pub success_count: nat,
    pub failed_count: nat,
    pub results: Seq<CheckResultView>,
}

impl View for BatchCheckResult {
    type V = BatchCheckResultView;

    open spec fn view(&self) -> BatchCheckResultView {
        BatchCheckResultView {
            success_count: self.success_count as nat,
            failed_count: self.failed_count as nat,
            results: self.results.deep_view(),
        }
    }
}

/// A batch before its first account.
pub open spec fn empty_batch() -> BatchCheckResultView {
    BatchCheckResultView { success_count: 0, failed_count: 0, results: Seq::empty() }
}

/// A batch after one more account, `email_id`, whose check ended in
/// `outcome`: a failure is counted and kept as an entry, and the accounts
/// after it are still checked.
pub open spec fn batch_with(
    batch: BatchCheckResultView,
    email_id: int,
    outcome: Result<CheckResultView, CheckErrorView>,
) -> BatchCheckResultView {
    BatchCheckResultView {
        success_count: if outcome is Ok {
            batch.success_count + 1
        } else {
            batch.success_count
        },
        failed_count: if outcome is Ok {
            batch.failed_count
        } else {
            batch.failed_count + 1
        },
        results: batch.results.push(batch_entry(email_id, outcome)),
    }
}

/// How the check of one account ended, with the account's id.
pub type Ending = (int, Result<CheckResultView, CheckErrorView>);

/// The batch over accounts whose checks ended as `endings` say, in order.
pub open spec fn batch_of(endings: Seq<Ending>) -> BatchCheckResultView
    decreases endings.len(),
{
    if endings.len() == 0 {
        empty_batch()
    } else {
        batch_with(batch_of(endings.drop_last()), endings.last().0, endings.last().1)
    }
}

/// What a list of ids and outcomes holds.
pub open spec fn endings_view(entries: Seq<(i64, CheckOutcome)>) -> Seq<Ending> {
    entries.map_values(|e: (i64, CheckOutcome)| (e.0 as int, outcome_view(e.1)))
}

impl BatchCheckResult {
    /// Every account is counted once, as a success or as a failure.
    pub open spec fn wf(&self) -> bool {
        self.success_count + self.failed_count == self.results.len()
    }

    /// A batch before its first account.
    pub fn new() -> (r: Self)
        ensures
            r@ == empty_batch(),
            r.wf(),
    {
        let r = BatchCheckResult { success_count: 0, failed_count: 0, results: Vec::new() };
        assert(r.results.deep_view() =~= Seq::<CheckResultView>::empty());
        r
    }

    /// Takes in how the check of account `email_id` ended.
    pub fn record(&mut self, email_id: i64, outcome: CheckOutcome)
        requires
            old(self).wf(),
        ensures
            final(self)@ == batch_with(old(self)@, email_id as int, outcome_view(outcome)),
            final(self).wf(),
    {
        let ghost before = self.results.deep_view();
        match outcome {
            Ok(result) => {
                self.results.push(result);
                assert(self.success_count + self.failed_count < self.results.len());
                self.success_count = self.success_count + 1;
                assert(self.results.deep_view() =~= before.push(result@));
            },
            Err(error) => {
                let entry = CheckResult::failed(email_id, &error);
                self.results.push(entry);
                assert(self.success_count + self.failed_count < self.results.len());
                self.failed_count = self.failed_count + 1;
                assert(self.results.deep_view() =~= before.push(entry@));
            },
        }
    }
}

/// In a batch there is one entry for each account, in the order of the
/// accounts; every account is counted once, as a success where its check
/// went through and as a failure where it did not; and a failed check
/// changes no other account's entry.
pub proof fn lemma_batch_isolates_failures(endings: Seq<Ending>)
    ensures
        batch_of(endings).results.len() == endings.len(),
        batch_of(endings).success_count + batch_of(endings).failed_count == endings.len(),
        batch_of(endings).success_count == endings.filter(|e: Ending| e.1 is Ok).len(),
        batch_of(endings).failed_count == endings.filter(|e: Ending| e.1 is Err).len(),
        forall|i: int|
            0 <= i < endings.len() ==> #[trigger] batch_of(endings).results[i] == batch_entry(
                endings[i].0,
                endings[i].1,
            ),
    decreases endings.len(),
{
    reveal(Seq::filter);
    if endings.len() > 0 {
        lemma_batch_isolates_failures(endings.drop_last());
    }
}

/// Folds the outcomes of the checks of several accounts, each with its
/// account's id and in the order in which they were checked, into a batch.
pub fn collect_batch(entries: Vec<(i64, CheckOutcome)>) -> (r: BatchCheckResult)
    ensures
        r@ == batch_of(endings_view(entries@)),
        r.wf(),
{
    let ghost total = entries@;
    let mut batch = BatchCheckResult::new();
    assert(endings_view(total.take(0)) =~= Seq::<Ending>::empty());
    for entry in it: entries
        invariant
            it.seq() == total,
            batch.wf(),
            batch@ == batch_of(endings_view(total.take(it.index() as int))),
    {
        let ghost done = endings_view(total.take(it.index() as int));
        let ghost next = endings_view(total.take(it.index() + 1));
        assert(next.drop_last() =~= done);
        assert(next.last() == (entry.0 as int, outcome_view(entry.1)));
        let (email_id, outcome) = entry;
        batch.record(email_id, outcome);
    }
    assert(total.take(total.len() as int) =~= total);
    batch
}

} // verus!
