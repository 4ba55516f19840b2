//! Deduplicated persistence: which fetched messages are new to the store, and
//! the rows that a new message is written as.

use vstd::prelude::*;
use crate::records::{
    AttachmentInput, AttachmentInputView, MailFetchRecord, MailFetchRecordView, MailRecord,
    MailRecordView,
};
use crate::text::{opt_text_copy, opt_text_eq};

verus! {

/// The identity of a message in the store: the account it belongs to, its
/// subject, its sender and its time. An absent field equals only an absent
/// field.
pub struct MessageKey {
    pub email_id: int,
    pub subject: Option<Seq<char>>,
    pub sender: Option<Seq<char>>,
    pub received_time: Option<Seq<char>>,
}

/// The identity of a stored message.
pub open spec fn row_key(row: MailRecordView) -> MessageKey {
    MessageKey {
        email_id: row.email_id,
        subject: row.subject,
        sender: row.sender,
        received_time: row.received_time,
    }
}

/// The identity that a fetched message has in the store of account `email_id`.
pub open spec fn message_key(email_id: int, record: MailFetchRecordView) -> MessageKey {
    MessageKey {
        email_id,
        subject: record.subject,
        sender: record.sender,
        received_time: record.received_time,
    }
}

/// The identities of stored messages, row by row.
pub open spec fn row_keys(rows: Seq<MailRecordView>) -> Seq<MessageKey> {
    rows.map_values(|row: MailRecordView| row_key(row))
}

/// The identities of fetched messages of account `email_id`, one by one.
pub open spec fn message_keys(email_id: int, records: Seq<MailFetchRecordView>) -> Seq<MessageKey> {
    records.map_values(|record: MailFetchRecordView| message_key(email_id, record))
}

/// Of the messages `fetched` for account `email_id`, in order, those that get
/// stored when each is skipped if its identity is known and is known from
/// then on if it is not.
pub open spec fn new_messages(
    known: Seq<MessageKey>,
    email_id: int,
    fetched: Seq<MailFetchRecordView>,
) -> Seq<MailFetchRecordView>
    decreases fetched.len(),
{
    if fetched.len() == 0 {
        Seq::empty()
    } else {
        let key = message_key(email_id, fetched[0]);
        if known.contains(key) {
            new_messages(known, email_id, fetched.drop_first())
        } else {
            seq![fetched[0]] + new_messages(known.push(key), email_id, fetched.drop_first())
        }
    }
}

/// Whether the store already holds the message: a row of the same account
/// with the same subject, sender and time.
pub fn mail_record_exists(rows: &Vec<MailRecord>, email_id: i64, record: &MailFetchRecord) -> (r:
    bool)
    ensures
        r == row_keys(rows.deep_view()).contains(message_key(email_id as int, record@)),
{
    let ghost keys = row_keys(rows.deep_view());
    let ghost key = message_key(email_id as int, record@);
    let mut i: usize = 0;
    while i < rows.len()
        invariant
            i <= rows.len(),
            keys == row_keys(rows.deep_view()),
            key == message_key(email_id as int, record@),
            forall|j: int| 0 <= j < i ==> keys[j] != key,
        decreases rows.len() - i,
    {
        let row = &rows[i];
        assert(keys[i as int] == row_key(row@));
        if row.email_id == email_id && opt_text_eq(&row.subject, &record.subject) && opt_text_eq(
            &row.sender,
            &record.sender,
        ) && opt_text_eq(&row.received_time, &record.received_time) {
            return true;
        }
        i += 1;
    }
    false
}

/// Whether one of `records` has the identity of `record`.
fn planned_already(records: &Vec<MailFetchRecord>, email_id: i64, record: &MailFetchRecord) -> (r:
    bool)
    ensures
        r == message_keys(email_id as int, records.deep_view()).contains(
            message_key(email_id as int, record@),
        ),
{
    let ghost keys = message_keys(email_id as int, records.deep_view());
    let ghost key = message_key(email_id as int, record@);
    let mut i: usize = 0;
    while i < records.len()
        invariant
            i <= records.len(),
            keys == message_keys(email_id as int, records.deep_view()),
            key == message_key(email_id as int, record@),
            forall|j: int| 0 <= j < i ==> keys[j] != key,
        decreases records.len() - i,
    {
        let other = &records[i];
        assert(keys[i as int] == message_key(email_id as int, other@));
        if opt_text_eq(&other.subject, &record.subject) && opt_text_eq(
            &other.sender,
            &record.sender,
        ) && opt_text_eq(&other.received_time, &record.received_time) {
            return true;
        }
        i += 1;
    }
    false
}

/// Decides which of the fetched messages are written: each message is
/// checked against the stored rows and against the messages accepted before
/// it, so a message that comes twice in one batch is written once.
pub fn plan_save(rows: &Vec<MailRecord>, email_id: i64, fetched: &Vec<MailFetchRecord>) -> (plan:
    Vec<MailFetchRecord>)
    ensures
        plan.deep_view() == new_messages(
            row_keys(rows.deep_view()),
            email_id as int,
            fetched.deep_view(),
        ),
{
    let ghost known = row_keys(rows.deep_view());
    let ghost all = fetched.deep_view();
    let mut plan: Vec<MailFetchRecord> = Vec::new();
    let mut i: usize = 0;
    assert(all.subrange(0, all.len() as int) =~= all);
    assert(message_keys(email_id as int, plan.deep_view()) =~= Seq::<MessageKey>::empty());
    assert(known + Seq::<MessageKey>::empty() =~= known);
    assert(plan.deep_view() + new_messages(known, email_id as int, all) =~= new_messages(
        known,
        email_id as int,
        all,
    ));
    while i < fetched.len()
        invariant
            i <= fetched.len(),
            known == row_keys(rows.deep_view()),
            all == fetched.deep_view(),
            new_messages(known, email_id as int, all) == plan.deep_view() + new_messages(
                known + message_keys(email_id as int, plan.deep_view()),
                email_id as int,
                all.subrange(i as int, all.len() as int),
            ),
        decreases fetched.len() - i,
    {
        let record = &fetched[i];
        let ghost rest = all.subrange(i as int, all.len() as int);
        let ghost seen = known + message_keys(email_id as int, plan.deep_view());
        let ghost key = message_key(email_id as int, record@);
        let ghost before = plan.deep_view();
        proof {
            assert(rest[0] == record@);
            assert(rest.drop_first() =~= all.subrange(i + 1, all.len() as int));
            assert(seen.contains(key) <==> (known.contains(key) || message_keys(
                email_id as int,
                before,
            ).contains(key))) by {
                lemma_concat_contains(known, message_keys(email_id as int, before), key);
            }
        }
        let stored = mail_record_exists(rows, email_id, record);
        if !stored && !planned_already(&plan, email_id, record) {
            plan.push(record.clone());
            proof {
                assert(plan.deep_view() =~= before.push(record@));
                assert(message_keys(email_id as int, plan.deep_view()) =~= message_keys(
                    email_id as int,
                    before,
                ).push(key));
                assert(known + message_keys(email_id as int, plan.deep_view()) =~= seen.push(key));
                assert(before + (seq![record@] + new_messages(
                    seen.push(key),
                    email_id as int,
                    rest.drop_first(),
                )) =~= plan.deep_view() + new_messages(
                    seen.push(key),
                    email_id as int,
                    rest.drop_first(),
                ));
            }
        }
        i += 1;
    }
    assert(all.subrange(i as int, all.len() as int).len() == 0);
    assert(plan.deep_view() + Seq::<MailFetchRecordView>::empty() =~= plan.deep_view());
    plan
}

/// Two sequences one after the other hold what either holds.
pub proof fn lemma_concat_contains(a: Seq<MessageKey>, b: Seq<MessageKey>, k: MessageKey)
    ensures
        (a + b).contains(k) <==> (a.contains(k) || b.contains(k)),
{
    if a.contains(k) {
        let i = choose|i: int| 0 <= i < a.len() && a[i] == k;
        assert((a + b)[i] == k);
    }
    if b.contains(k) {
        let i = choose|i: int| 0 <= i < b.len() && b[i] == k;
        assert((a + b)[a.len() + i] == k);
    }
    if (a + b).contains(k) {
        let i = choose|i: int| 0 <= i < (a + b).len() && (a + b)[i] == k;
        if i < a.len() {
            assert(a[i] == k);
        } else {
            assert(b[i - a.len()] == k);
        }
    }
}

/// A sequence with one more item holds what it held, and the item.
pub proof fn lemma_push_contains(s: Seq<MessageKey>, added: MessageKey, k: MessageKey)
    ensures
        s.push(added).contains(k) <==> (s.contains(k) || k == added),
{
    assert(s.push(added) =~= s + seq![added]);
    lemma_concat_contains(s, seq![added], k);
    if k == added {
        assert(seq![added][0] == k);
    }
}

/// After a save every fetched message is known: each identity stands among
/// those known before or among those of the messages the save wrote.
pub proof fn lemma_fetched_are_known_after_save(
    known: Seq<MessageKey>,
    email_id: int,
    fetched: Seq<MailFetchRecordView>,
)
    ensures
        forall|j: int|
            0 <= j < fetched.len() ==> (known + message_keys(
                email_id,
                new_messages(known, email_id, fetched),
            )).contains(#[trigger] message_key(email_id, fetched[j])),
    decreases fetched.len(),
{
    if fetched.len() > 0 {
        let key = message_key(email_id, fetched[0]);
        let rest = fetched.drop_first();
        let written = new_messages(known, email_id, fetched);
        let after = known + message_keys(email_id, written);
        if known.contains(key) {
            lemma_fetched_are_known_after_save(known, email_id, rest);
            assert forall|j: int| 0 <= j < fetched.len() implies after.contains(
                #[trigger] message_key(email_id, fetched[j]),
            ) by {
                if j == 0 {
                    lemma_concat_contains(known, message_keys(email_id, written), key);
                } else {
                    assert(fetched[j] == rest[j - 1]);
                    assert(after.contains(message_key(email_id, rest[j - 1])));
                }
            }
        } else {
            let later = new_messages(known.push(key), email_id, rest);
            lemma_fetched_are_known_after_save(known.push(key), email_id, rest);
            assert(after =~= known.push(key) + message_keys(email_id, later));
            assert forall|j: int| 0 <= j < fetched.len() implies after.contains(
                #[trigger] message_key(email_id, fetched[j]),
            ) by {
                if j == 0 {
                    lemma_push_contains(known, key, key);
                    lemma_concat_contains(known.push(key), message_keys(email_id, later), key);
                } else {
                    assert(fetched[j] == rest[j - 1]);
                    assert(after.contains(message_key(email_id, rest[j - 1])));
                }
            }
        }
    }
}

/// Where every fetched message is known, a save writes nothing.
pub proof fn lemma_known_messages_are_skipped(
    known: Seq<MessageKey>,
    email_id: int,
    fetched: Seq<MailFetchRecordView>,
)
    requires
        forall|j: int|
            0 <= j < fetched.len() ==> known.contains(#[trigger] message_key(email_id, fetched[j])),
    ensures
        new_messages(known, email_id, fetched) == Seq::<MailFetchRecordView>::empty(),
    decreases fetched.len(),
{
    if fetched.len() > 0 {
        let rest = fetched.drop_first();
        assert(known.contains(message_key(email_id, fetched[0])));
        assert forall|j: int| 0 <= j < rest.len() implies known.contains(
            #[trigger] message_key(email_id, rest[j]),
        ) by {
            assert(rest[j] == fetched[j + 1]);
        }
        lemma_known_messages_are_skipped(known, email_id, rest);
    }
}

/// Saving is idempotent: when the messages that a save wrote are known, a
/// second save of the same fetched messages writes none of them, however
/// many there are.
pub proof fn lemma_second_save_writes_nothing(
    known: Seq<MessageKey>,
    email_id: int,
    fetched: Seq<MailFetchRecordView>,
)
    ensures
        new_messages(
            known + message_keys(email_id, new_messages(known, email_id, fetched)),
            email_id,
            fetched,
        ) == Seq::<MailFetchRecordView>::empty(),
{
    lemma_fetched_are_known_after_save(known, email_id, fetched);
    lemma_known_messages_are_skipped(
        known + message_keys(email_id, new_messages(known, email_id, fetched)),
        email_id,
        fetched,
    );
}

/// A save writes no more messages than were fetched.
pub proof fn lemma_saved_at_most_fetched(
    known: Seq<MessageKey>,
    email_id: int,
    fetched: Seq<MailFetchRecordView>,
)
    ensures
        new_messages(known, email_id, fetched).len() <= fetched.len(),
    decreases fetched.len(),
{
    if fetched.len() > 0 {
        let key = message_key(email_id, fetched[0]);
        if known.contains(key) {
            lemma_saved_at_most_fetched(known, email_id, fetched.drop_first());
        } else {
            lemma_saved_at_most_fetched(known.push(key), email_id, fetched.drop_first());
        }
    }
}

/// The messages that a save writes were unknown before it and differ from
/// each other: where no identity was stored twice, none is after the save.
pub proof fn lemma_save_keeps_identities_unique(
    known: Seq<MessageKey>,
    email_id: int,
    fetched: Seq<MailFetchRecordView>,
)
    requires
        known.no_duplicates(),
    ensures
        (known + message_keys(email_id, new_messages(known, email_id, fetched))).no_duplicates(),
    decreases fetched.len(),
{
    if fetched.len() == 0 {
        assert(known + message_keys(email_id, new_messages(known, email_id, fetched)) =~= known);
    } else {
        let key = message_key(email_id, fetched[0]);
        let rest = fetched.drop_first();
        if known.contains(key) {
            lemma_save_keeps_identities_unique(known, email_id, rest);
        } else {
            let grown = known.push(key);
            assert(grown.no_duplicates()) by {
                assert forall|i: int, j: int|
                    0 <= i < grown.len() && 0 <= j < grown.len() && i != j implies grown[i]
                    != grown[j] by {
                    if i == known.len() {
                        assert(known[j] == grown[j]);
                    } else if j == known.len() {
                        assert(known[i] == grown[i]);
                    }
                }
            }
            lemma_save_keeps_identities_unique(grown, email_id, rest);
            assert(known + message_keys(email_id, new_messages(known, email_id, fetched))
                =~= grown + message_keys(email_id, new_messages(grown, email_id, rest)));
        }
    }
}

/// Two fetched messages with the same subject and sender and both without a
/// time are one message to the store: of the two, the second is never
/// written.
pub proof fn lemma_absent_times_are_duplicates(
    known: Seq<MessageKey>,
    email_id: int,
    first: MailFetchRecordView,
    second: MailFetchRecordView,
)
    requires
        first.subject == second.subject,
        first.sender == second.sender,
        first.received_time is None,
        second.received_time is None,
    ensures
        new_messages(known, email_id, seq![first, second]) == new_messages(
            known,
            email_id,
            seq![first],
        ),
{
    let key = message_key(email_id, first);
    let both = seq![first, second];
    let one = seq![first];
    assert(message_key(email_id, second) == key);
    assert(both.drop_first() =~= seq![second]);
    assert(one.drop_first() =~= Seq::<MailFetchRecordView>::empty());
    assert(seq![second].drop_first() =~= Seq::<MailFetchRecordView>::empty());
    reveal_with_fuel(new_messages, 3);
    if known.contains(key) {
    } else {
        lemma_push_contains(known, key, key);
    }
}

/// A fetched message without a time never has the identity of a stored
/// message with one.
pub proof fn lemma_absent_time_differs_from_present(
    row: MailRecordView,
    email_id: int,
    record: MailFetchRecordView,
)
    requires
        record.received_time is None,
        row.received_time is Some,
    ensures
        row_key(row) != message_key(email_id, record),
{
}

/// The flag that a stored message carries: 1 where it came with at least one
/// attachment, else 0.
pub open spec fn attachments_flag(record: MailFetchRecordView) -> int {
    if record.attachments.len() > 0 {
        1
    } else {
        0
    }
}

/// The row that a new message is stored as under the id `mail_id`.
pub open spec fn stored_row(
    mail_id: int,
    email_id: int,
    record: MailFetchRecordView,
) -> MailRecordView {
    MailRecordView {
        id: mail_id,
        email_id,
        subject: record.subject,
        sender: record.sender,
        received_time: record.received_time,
        content: Some(record.content),
        folder: Some(record.folder),
        has_attachments: attachments_flag(record),
    }
}

/// Builds the row that a new message is stored as.
pub fn mail_row(mail_id: i64, email_id: i64, record: &MailFetchRecord) -> (r: MailRecord)
    ensures
        r@ == stored_row(mail_id as int, email_id as int, record@),
        row_key(r@) == message_key(email_id as int, record@),
{
    let has_attachments: i64 = if record.attachments.len() > 0 {
        1
    } else {
        0
    };
    MailRecord {
        id: mail_id,
        email_id,
        subject: opt_text_copy(&record.subject),
        sender: opt_text_copy(&record.sender),
        received_time: opt_text_copy(&record.received_time),
        content: Some(record.content.clone()),
        folder: Some(record.folder.clone()),
        has_attachments,
    }
}

/// One attachment as it is stored with its message.
#[derive(Debug, Clone, PartialEq, Eq)]
pub struct AttachmentRow {
    /// The stored message that the attachment belongs to.
    pub mail_id: i64,
    pub filename: String,
    pub content_type: String,
    /// The number of bytes in `content`.
    pub size: i64,
    pub content: Vec<u8>,
}

/// What an [`AttachmentRow`] holds.
pub struct AttachmentRowView {
    pub mail_id: int,
    pub filename: Seq<char>,
    pub content_type: Seq<char>,
    pub size: int,
    pub content: Seq<u8>,
}

impl View for AttachmentRow {
    type V = AttachmentRowView;

    open spec fn view(&self) -> AttachmentRowView {
        AttachmentRowView {
            mail_id: self.mail_id as int,
            filename: self.filename@,
            content_type: self.content_type@,
            size: self.size as int,
            content: self.content@,
        }
    }
}

impl DeepView for AttachmentRow {
    type V = AttachmentRowView;

    open spec fn deep_view(&self) -> AttachmentRowView {
        self@
    }
}

/// The size that is stored for `len` bytes: `len` itself, which the column
/// holds up to `i64::MAX`.
pub open spec fn stored_size(len: nat) -> int {
    if len <= i64::MAX {
        len as int
    } else {
        i64::MAX as int
    }
}

/// The row that an attachment of the stored message `mail_id` is stored as.
pub open spec fn attachment_row(
    mail_id: int,
    attachment: AttachmentInputView,
) -> AttachmentRowView {
    AttachmentRowView {
        mail_id,
        filename: attachment.filename,
        content_type: attachment.content_type,
        size: stored_size(attachment.content.len()),
        content: attachment.content,
    }
}

/// Builds the rows that the attachments of a newly stored message are
/// written as: one row for each attachment, in the order in which they were
/// extracted, each with its bytes and their number.
pub fn attachment_rows(mail_id: i64, attachments: &Vec<AttachmentInput>) -> (r: Vec<AttachmentRow>)
    ensures
        r.deep_view() == attachments.deep_view().map_values(
            |a: AttachmentInputView| attachment_row(mail_id as int, a),
        ),
{
    let mut rows: Vec<AttachmentRow> = Vec::new();
    let mut i: usize = 0;
    while i < attachments.len()
        invariant
            i <= attachments.len(),
            rows.len() == i,
            forall|j: int|
                0 <= j < i ==> rows@[j]@ == attachment_row(mail_id as int, attachments@[j]@),
        decreases attachments.len() - i,
    {
        let attachment = &attachments[i];
        let len = attachment.content.len() as u64;
        let size: i64 = if len <= 0x7fff_ffff_ffff_ffff {
            len as i64
        } else {
            i64::MAX
        };
        rows.push(
            AttachmentRow {
                mail_id,
                filename: attachment.filename.clone(),
                content_type: attachment.content_type.clone(),
                size,
                content: attachment.content.clone(),
            },
        );
        i += 1;
    }
    assert(rows.deep_view() =~= attachments.deep_view().map_values(
        |a: AttachmentInputView| attachment_row(mail_id as int, a),
    ));
    rows
}

} // verus!
