//! Importing accounts from lines of text, one account to a line, its four
//! fields parted by `----`. Like a check the import decides and never acts:
//! it answers with the account to write and is handed how the write went.

use vstd::prelude::*;
use vstd::string::*;
use crate::text::{decimal, decimal_text, lines, lines_of, split, split_text, trim, trimmed};

verus! {

/// What one line of an import holds.
#[derive(Debug, Clone, PartialEq, Eq)]
pub enum ImportLine {
    /// Nothing but white space: the line is passed over.
    Blank,
    /// An account.
    Entry { email: String, password: String, client_id: String, refresh_token: String },
    /// Not four fields, but this many.
    Malformed { segments: usize },
    /// Four fields, one of them empty.
    EmptyField,
}

/// What an [`ImportLine`] holds.
pub enum ImportLineView {
    Blank,
    Entry {
        email: Seq<char>,
        password: Seq<char>,
        client_id: Seq<char>,
        refresh_token: Seq<char>,
    },
    Malformed { segments: nat },
    EmptyField,
}

impl View for ImportLine {
    type V = ImportLineView;

    open spec fn view(&self) -> ImportLineView {
        match self {
            ImportLine::Blank => ImportLineView::Blank,
            ImportLine::Entry { email, password, client_id, refresh_token } => {
                ImportLineView::Entry {
                    email: email@,
                    password: password@,
                    client_id: client_id@,
                    refresh_token: refresh_token@,
                }
            },
            ImportLine::Malformed { segments } => ImportLineView::Malformed {
                segments: *segments as nat,
            },
            ImportLine::EmptyField => ImportLineView::EmptyField,
        }
    }
}

/// The account that four fields stand for, none of which may be empty.
pub open spec fn entry_from(
    email: Seq<char>,
    password: Seq<char>,
    client_id: Seq<char>,
    refresh_token: Seq<char>,
) -> ImportLineView {
    if email.len() == 0 || password.len() == 0 || client_id.len() == 0 || refresh_token.len()
        == 0 {
        ImportLineView::EmptyField
    } else {
        ImportLineView::Entry { email, password, client_id, refresh_token }
    }
}

/// What the pieces of a line stand for: an account where there are four and
/// none is empty once the white space at its ends is gone.
pub open spec fn pieces_stand_for(pieces: Seq<Seq<char>>) -> ImportLineView {
    if pieces.len() != 4 {
        ImportLineView::Malformed { segments: pieces.len() }
    } else {
        entry_from(trimmed(pieces[0]), trimmed(pieces[1]), trimmed(pieces[2]), trimmed(pieces[3]))
    }
}

/// What a line stands for.
pub open spec fn line_stands_for(line: Seq<char>) -> ImportLineView {
    if trimmed(line).len() == 0 {
        ImportLineView::Blank
    } else {
        pieces_stand_for(split_text(trimmed(line), "----"@))
    }
}

/// The account that four fields stand for.
pub fn entry_of(email: String, password: String, client_id: String, refresh_token: String) -> (r:
    ImportLine)
    ensures
        r@ == entry_from(email@, password@, client_id@, refresh_token@),
{
    if email.as_str().is_empty() || password.as_str().is_empty() || client_id.as_str().is_empty()
        || refresh_token.as_str().is_empty() {
        ImportLine::EmptyField
    } else {
        ImportLine::Entry { email, password, client_id, refresh_token }
    }
}

/// What the pieces of a line stand for.
pub fn classify_pieces(pieces: &Vec<String>) -> (r: ImportLine)
    ensures
        r@ == pieces_stand_for(pieces.deep_view()),
{
    if pieces.len() != 4 {
        ImportLine::Malformed { segments: pieces.len() }
    } else {
        entry_of(
            trim(pieces[0].as_str()).to_owned(),
            trim(pieces[1].as_str()).to_owned(),
            trim(pieces[2].as_str()).to_owned(),
            trim(pieces[3].as_str()).to_owned(),
        )
    }
}

/// What a line stands for.
pub fn parse_import_line(line: &str) -> (r: ImportLine)
    ensures
        r@ == line_stands_for(line@),
{
    let bare = trim(line);
    if bare.is_empty() {
        ImportLine::Blank
    } else {
        let pieces = split(bare, "----");
        classify_pieces(&pieces)
    }
}

/// How an import of several lines went.
#[derive(Debug, Clone, PartialEq, Eq)]
pub struct ImportResult {
    pub success_count: usize,
    pub failed_count: usize,
    /// One sentence for each line that failed, in the order of the lines.
    pub failed_lines: Vec<String>,
}

/// What an [`ImportResult`] holds.
pub struct ImportResultView {
    pub success_count: nat,
    pub failed_count: nat,
    pub failed_lines: Seq<Seq<char>>,
}

impl View for ImportResult {
    type V = ImportResultView;

    open spec fn view(&self) -> ImportResultView {
        ImportResultView {
            success_count: self.success_count as nat,
            failed_count: self.failed_count as nat,
            failed_lines: self.failed_lines.deep_view(),
        }
    }
}

/// An import before its first line.
pub open spec fn nothing_imported() -> ImportResultView {
    ImportResultView { success_count: 0, failed_count: 0, failed_lines: Seq::empty() }
}

/// The sentence for the line with the number `line_no`, counted from one,
/// that failed for `reason`.
pub open spec fn failure_sentence(line_no: nat, reason: Seq<char>) -> Seq<char> {
    "第 "@ + decimal_text(line_no) + " 行: "@ + reason
}

/// Why a line that holds no account fails.
pub open spec fn parse_failure(line: ImportLineView) -> Seq<char> {
    match line {
        ImportLineView::Malformed { segments } => {
            "格式错误 (期望 4 段，实际 "@ + decimal_text(segments) + ")"@
        },
        _ => "存在空字段"@,
    }
}

/// An import after one more failure.
pub open spec fn with_failure(
    result: ImportResultView,
    line_no: nat,
    reason: Seq<char>,
) -> ImportResultView {
    ImportResultView {
        failed_count: result.failed_count + 1,
        failed_lines: result.failed_lines.push(failure_sentence(line_no, reason)),
        ..result
    }
}

/// An import after one more account was written.
pub open spec fn with_success(result: ImportResultView) -> ImportResultView {
    ImportResultView { success_count: result.success_count + 1, ..result }
}

/// An import in progress.
#[derive(Debug, Clone, PartialEq, Eq)]
pub struct ImportSession {
    /// The lines of the input.
    pub lines: Vec<String>,
    /// The place of the line whose account is being written, or the number of
    /// lines where the import has ended.
    pub at: usize,
    pub result: ImportResult,
}

/// What an [`ImportSession`] holds.
pub struct ImportSessionView {
    pub lines: Seq<Seq<char>>,
    pub at: nat,
    pub result: ImportResultView,
}

impl View for ImportSession {
    type V = ImportSessionView;

    open spec fn view(&self) -> ImportSessionView {
        ImportSessionView {
            lines: self.lines.deep_view(),
            at: self.at as nat,
            result: self.result@,
        }
    }
}

/// What the last write brought.
#[derive(Debug, Clone, PartialEq, Eq)]
pub enum ImportEvent {
    /// The account was written.
    Done,
    /// The account could not be written; the text says why.
    Failed(String),
}

/// What an [`ImportEvent`] holds.
pub enum ImportEventView {
    Done,
    Failed(Seq<char>),
}

impl View for ImportEvent {
    type V = ImportEventView;

    open spec fn view(&self) -> ImportEventView {
        match self {
            ImportEvent::Done => ImportEventView::Done,
            ImportEvent::Failed(text) => ImportEventView::Failed(text@),
        }
    }
}

/// What an import is to do next.
#[derive(Debug, Clone, PartialEq, Eq)]
pub enum ImportAction {
    /// Write the account, in place of one of the same address if there is one.
    Upsert { email: String, password: String, client_id: String, refresh_token: String },
    /// Nothing more: the import went so.
    Finish(ImportResult),
}

/// What an [`ImportAction`] holds.
pub enum ImportActionView {
    Upsert {
        email: Seq<char>,
        password: Seq<char>,
        client_id: Seq<char>,
        refresh_token: Seq<char>,
    },
    Finish(ImportResultView),
}

impl View for ImportAction {
    type V = ImportActionView;

    open spec fn view(&self) -> ImportActionView {
        match self {
            ImportAction::Upsert { email, password, client_id, refresh_token } => {
                ImportActionView::Upsert {
                    email: email@,
                    password: password@,
                    client_id: client_id@,
                    refresh_token: refresh_token@,
                }
            },
            ImportAction::Finish(result) => ImportActionView::Finish(result@),
        }
    }
}

/// An import and the action that it answers with.
pub type ImportTurn = (ImportSessionView, ImportActionView);

/// What an import and its answer hold.
pub open spec fn import_turn_view(turn: (ImportSession, ImportAction)) -> ImportTurn {
    (turn.0@, turn.1@)
}

/// Goes through the lines from the place `from` on: a blank line is passed
/// over, a line that holds no account is counted as failed, and the first
/// line that holds one is answered with. Behind the last line the import
/// ends and hands its result over.
pub open spec fn scan_from(s: ImportSessionView, from: nat) -> ImportTurn
    decreases s.lines.len() - from,
{
    if from >= s.lines.len() {
        (
            ImportSessionView { at: s.lines.len(), result: nothing_imported(), ..s },
            ImportActionView::Finish(s.result),
        )
    } else {
        match line_stands_for(s.lines[from as int]) {
            ImportLineView::Blank => scan_from(s, from + 1),
            ImportLineView::Entry { email, password, client_id, refresh_token } => (
                ImportSessionView { at: from, ..s },
                ImportActionView::Upsert { email, password, client_id, refresh_token },
            ),
            other => scan_from(
                ImportSessionView {
                    result: with_failure(s.result, from + 1, parse_failure(other)),
                    ..s
                },
                from + 1,
            ),
        }
    }
}

/// An import of `input` before its first write.
pub open spec fn import_started(input: Seq<char>) -> ImportTurn {
    scan_from(
        ImportSessionView { lines: lines_of(input), at: 0, result: nothing_imported() },
        0,
    )
}

/// What an import answers in the state `s` to `event`: the line whose
/// account was being written is counted, and the lines behind it are gone
/// through. An import that has ended stays ended.
pub open spec fn import_step_of(s: ImportSessionView, event: ImportEventView) -> ImportTurn {
    if s.at >= s.lines.len() {
        scan_from(s, s.at)
    } else {
        match event {
            ImportEventView::Done => scan_from(
                ImportSessionView { result: with_success(s.result), ..s },
                s.at + 1,
            ),
            ImportEventView::Failed(text) => scan_from(
                ImportSessionView { result: with_failure(s.result, s.at + 1, text), ..s },
                s.at + 1,
            ),
        }
    }
}

impl ImportResult {
    /// Every failure has its sentence.
    pub open spec fn wf(&self) -> bool {
        self.failed_count == self.failed_lines.len()
    }

    /// An import before its first line.
    pub fn new() -> (r: Self)
        ensures
            r@ == nothing_imported(),
            r.wf(),
    {
        let r = ImportResult { success_count: 0, failed_count: 0, failed_lines: Vec::new() };
        assert(r.failed_lines.deep_view() =~= Seq::<Seq<char>>::empty());
        r
    }

    /// Counts the line `line_no` as failed for `reason`.
    pub fn record_failure(&mut self, line_no: usize, reason: &str)
        requires
            old(self).wf(),
        ensures
            final(self)@ == with_failure(old(self)@, line_no as nat, reason@),
            final(self).wf(),
    {
        let ghost before = self.failed_lines.deep_view();
        let mut sentence = "第 ".to_owned();
        sentence.append(decimal(line_no).as_str());
        sentence.append(" 行: ");
        sentence.append(reason);
        self.failed_lines.push(sentence);
        assert(self.failed_count < self.failed_lines.len());
        self.failed_count = self.failed_count + 1;
        assert(self.failed_lines.deep_view() =~= before.push(sentence@));
    }
}

/// Why a line that holds no account fails.
fn parse_failure_text(line: &ImportLine) -> (r: String)
    ensures
        r@ == parse_failure(line@),
{
    match line {
        ImportLine::Malformed { segments } => {
            let mut text = "格式错误 (期望 4 段，实际 ".to_owned();
            text.append(decimal(*segments).as_str());
            text.append(")");
            text
        },
        _ => "存在空字段".to_owned(),
    }
}

impl ImportSession {
    /// Every line that was dealt with is counted at most once, and every
    /// failure has its sentence.
    pub open spec fn wf(&self) -> bool {
        &&& self.result.wf()
        &&& self.at <= self.lines.len()
        &&& self.result.success_count + self.result.failed_count <= self.at
    }

    /// Whether this session is well formed. A session that `start` or `step`
    /// returned always is.
    pub fn is_consistent(&self) -> (r: bool)
        ensures
            r == self.wf(),
    {
        self.result.failed_count == self.result.failed_lines.len() && self.at <= self.lines.len()
            && self.result.success_count <= self.at && self.result.failed_count <= self.at
            - self.result.success_count
    }

    fn scan(self, from: usize) -> (r: (ImportSession, ImportAction))
        requires
            self.result.wf(),
            from <= self.lines.len(),
            self.result.success_count + self.result.failed_count <= from,
        ensures
            import_turn_view(r) == scan_from(self@, from as nat),
            r.0.wf(),
    {
        let mut s = self;
        let mut i: usize = from;
        while i < s.lines.len()
            invariant
                from <= i <= s.lines.len(),
                s.lines == self.lines,
                s.at == self.at,
                s.result.wf(),
                s.result.success_count + s.result.failed_count <= i,
                scan_from(self@, from as nat) == scan_from(s@, i as nat),
            decreases s.lines.len() - i,
        {
            assert(s@.lines[i as int] == s.lines@[i as int]@);
            let line = parse_import_line(s.lines[i].as_str());
            match line {
                ImportLine::Blank => {},
                ImportLine::Entry { email, password, client_id, refresh_token } => {
                    s.at = i;
                    return (s, ImportAction::Upsert { email, password, client_id, refresh_token });
                },
                other => {
                    let reason = parse_failure_text(&other);
                    s.result.record_failure(i + 1, reason.as_str());
                },
            }
            i += 1;
        }
        let result = ImportResult {
            success_count: s.result.success_count,
            failed_count: s.result.failed_count,
            failed_lines: s.result.failed_lines,
        };
        s.at = s.lines.len();
        s.result = ImportResult::new();
        (s, ImportAction::Finish(result))
    }

    /// Starts the import of `input`: its lines are gone through up to the
    /// first that holds an account.
    pub fn start(input: &str) -> (r: (ImportSession, ImportAction))
        ensures
            import_turn_view(r) == import_started(input@),
            r.0.wf(),
    {
        let session = ImportSession { lines: lines(input), at: 0, result: ImportResult::new() };
        session.scan(0)
    }

    /// Takes how the last write went and answers with the next account to
    /// write, or with the result.
    pub fn step(self, event: ImportEvent) -> (r: (ImportSession, ImportAction))
        requires
            self.wf(),
        ensures
            import_turn_view(r) == import_step_of(self@, event@),
            r.0.wf(),
    {
        if self.at >= self.lines.len() {
            let from = self.at;
            self.scan(from)
        } else {
            let mut s = self;
            let from = s.at + 1;
            match event {
                ImportEvent::Done => {
                    s.result.success_count = s.result.success_count + 1;
                },
                ImportEvent::Failed(text) => {
                    s.result.record_failure(from, text.as_str());
                },
            }
            s.scan(from)
        }
    }
}

} // verus!
