use outlook_mail::records::{AttachmentInput, MailFetchRecord, MailRecord};
use outlook_mail::store::{attachment_rows, mail_record_exists, mail_row, plan_save};

fn message(subject: Option<&str>, sender: Option<&str>, time: Option<&str>) -> MailFetchRecord {
    MailFetchRecord {
        subject: subject.map(|s| s.to_string()),
        sender: sender.map(|s| s.to_string()),
        received_time: time.map(|s| s.to_string()),
        content: "body".to_string(),
        folder: "INBOX".to_string(),
        attachments: Vec::new(),
    }
}

fn blob(name: &str, bytes: &[u8]) -> AttachmentInput {
    AttachmentInput {
        filename: name.to_string(),
        content_type: "application/octet-stream".to_string(),
        content: bytes.to_vec(),
    }
}

fn numbered(n: usize) -> Vec<MailFetchRecord> {
    let mut out = Vec::new();
    let mut i = 0;
    while i < n {
        out.push(message(
            Some(&format!("subject {}", i)),
            Some("a@example.com"),
            Some("2024-01-01T00:00:00+00:00"),
        ));
        i += 1;
    }
    out
}

fn write_all(rows: &mut Vec<MailRecord>, email_id: i64, plan: &Vec<MailFetchRecord>) {
    for record in plan {
        let id = rows.len() as i64 + 1;
        rows.push(mail_row(id, email_id, record));
    }
}

#[test]
fn a_second_save_of_the_same_messages_writes_none() {
    for n in [0usize, 1, 2, 17] {
        let fetched = numbered(n);
        let mut rows: Vec<MailRecord> = Vec::new();
        let first = plan_save(&rows, 7, &fetched);
        assert_eq!(first.len(), n);
        write_all(&mut rows, 7, &first);
        let second = plan_save(&rows, 7, &fetched);
        assert_eq!(fetched.len(), n);
        assert_eq!(second.len(), 0);
    }
}

#[test]
fn only_the_unknown_messages_are_planned_in_order() {
    let mut rows: Vec<MailRecord> = Vec::new();
    write_all(&mut rows, 1, &vec![message(Some("b"), Some("x"), Some("t"))]);
    let fetched = vec![
        message(Some("a"), Some("x"), Some("t")),
        message(Some("b"), Some("x"), Some("t")),
        message(Some("c"), Some("x"), Some("t")),
    ];
    let plan = plan_save(&rows, 1, &fetched);
    assert_eq!(plan.len(), 2);
    assert_eq!(plan[0].subject, Some("a".to_string()));
    assert_eq!(plan[1].subject, Some("c".to_string()));
}

#[test]
fn messages_without_time_and_equal_otherwise_are_duplicates() {
    let fetched = vec![message(Some("s"), Some("x"), None), message(Some("s"), Some("x"), None)];
    let plan = plan_save(&Vec::new(), 1, &fetched);
    assert_eq!(plan.len(), 1);
}

#[test]
fn a_message_twice_in_one_batch_is_written_once() {
    let fetched = vec![
        message(Some("s"), Some("x"), Some("t")),
        message(Some("other"), Some("x"), Some("t")),
        message(Some("s"), Some("x"), Some("t")),
    ];
    let plan = plan_save(&Vec::new(), 1, &fetched);
    assert_eq!(plan.len(), 2);
    assert_eq!(plan[0].subject, Some("s".to_string()));
    assert_eq!(plan[1].subject, Some("other".to_string()));
}

#[test]
fn absent_time_never_matches_a_stored_time() {
    let mut rows: Vec<MailRecord> = Vec::new();
    write_all(&mut rows, 1, &vec![message(Some("s"), Some("x"), Some("2024-01-01T00:00:00+00:00"))]);
    assert!(!mail_record_exists(&rows, 1, &message(Some("s"), Some("x"), None)));
    assert!(mail_record_exists(
        &rows,
        1,
        &message(Some("s"), Some("x"), Some("2024-01-01T00:00:00+00:00"))
    ));
}

#[test]
fn present_time_never_matches_a_stored_absent_time() {
    let mut rows: Vec<MailRecord> = Vec::new();
    write_all(&mut rows, 1, &vec![message(Some("s"), Some("x"), None)]);
    assert!(mail_record_exists(&rows, 1, &message(Some("s"), Some("x"), None)));
    assert!(!mail_record_exists(&rows, 1, &message(Some("s"), Some("x"), Some("t"))));
}

#[test]
fn absent_subject_and_sender_match_only_absent() {
    let mut rows: Vec<MailRecord> = Vec::new();
    write_all(&mut rows, 1, &vec![message(None, None, None)]);
    assert!(mail_record_exists(&rows, 1, &message(None, None, None)));
    assert!(!mail_record_exists(&rows, 1, &message(Some(""), None, None)));
    assert!(!mail_record_exists(&rows, 1, &message(None, Some(""), None)));
}

#[test]
fn another_account_s_message_is_no_duplicate() {
    let mut rows: Vec<MailRecord> = Vec::new();
    write_all(&mut rows, 1, &vec![message(Some("s"), Some("x"), Some("t"))]);
    assert!(!mail_record_exists(&rows, 2, &message(Some("s"), Some("x"), Some("t"))));
    assert_eq!(plan_save(&rows, 2, &vec![message(Some("s"), Some("x"), Some("t"))]).len(), 1);
}

#[test]
fn content_and_folder_are_no_part_of_the_identity() {
    let mut rows: Vec<MailRecord> = Vec::new();
    write_all(&mut rows, 1, &vec![message(Some("s"), Some("x"), Some("t"))]);
    let mut other = message(Some("s"), Some("x"), Some("t"));
    other.content = "different".to_string();
    other.folder = "Junk".to_string();
    other.attachments.push(blob("a", b"1"));
    assert!(mail_record_exists(&rows, 1, &other));
}

#[test]
fn nothing_exists_in_an_empty_store() {
    assert!(!mail_record_exists(&Vec::new(), 1, &message(None, None, None)));
}

#[test]
fn the_row_of_a_message_flags_its_attachments() {
    let plain = message(Some("s"), Some("x"), Some("t"));
    let row = mail_row(41, 7, &plain);
    assert_eq!(row.id, 41);
    assert_eq!(row.email_id, 7);
    assert_eq!(row.subject, Some("s".to_string()));
    assert_eq!(row.sender, Some("x".to_string()));
    assert_eq!(row.received_time, Some("t".to_string()));
    assert_eq!(row.content, Some("body".to_string()));
    assert_eq!(row.folder, Some("INBOX".to_string()));
    assert_eq!(row.has_attachments, 0);

    let mut with = message(None, None, None);
    with.attachments.push(blob("a.bin", b"abc"));
    let row = mail_row(42, 7, &with);
    assert_eq!(row.has_attachments, 1);
    assert_eq!(row.subject, None);
    assert_eq!(row.received_time, None);
}

#[test]
fn attachments_become_rows_in_order_with_their_size() {
    let rows = attachment_rows(9, &vec![blob("a.bin", b"abc"), blob("b.bin", b""), blob("c", b"12345")]);
    assert_eq!(rows.len(), 3);
    assert_eq!(rows[0].mail_id, 9);
    assert_eq!(rows[0].filename, "a.bin");
    assert_eq!(rows[0].content_type, "application/octet-stream");
    assert_eq!(rows[0].size, 3);
    assert_eq!(rows[0].content, b"abc".to_vec());
    assert_eq!(rows[1].size, 0);
    assert_eq!(rows[2].filename, "c");
    assert_eq!(rows[2].size, 5);
    assert_eq!(rows[2].mail_id, 9);
}

#[test]
fn no_attachments_give_no_rows() {
    assert!(attachment_rows(9, &Vec::new()).is_empty());
}
