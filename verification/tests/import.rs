use outlook_mail::import::{
    classify_pieces, entry_of, parse_import_line, ImportAction, ImportEvent, ImportLine,
    ImportResult, ImportSession,
};

fn entry(email: &str, password: &str, client_id: &str, refresh_token: &str) -> ImportLine {
    ImportLine::Entry {
        email: email.to_string(),
        password: password.to_string(),
        client_id: client_id.to_string(),
        refresh_token: refresh_token.to_string(),
    }
}

fn import(input: &str, failing: &[&str]) -> (ImportResult, Vec<String>) {
    let mut written: Vec<String> = Vec::new();
    let (mut session, mut action) = ImportSession::start(input);
    loop {
        match action {
            ImportAction::Upsert { email, .. } => {
                let event = if failing.contains(&email.as_str()) {
                    ImportEvent::Failed(format!("cannot write {}", email))
                } else {
                    written.push(email);
                    ImportEvent::Done
                };
                let (next, then) = session.step(event);
                session = next;
                action = then;
            }
            ImportAction::Finish(result) => return (result, written),
        }
    }
}

#[test]
fn a_line_of_four_fields_is_an_account() {
    assert_eq!(
        parse_import_line("bob@outlook.com----secret----client----refresh"),
        entry("bob@outlook.com", "secret", "client", "refresh")
    );
}

#[test]
fn white_space_around_line_and_fields_is_dropped() {
    assert_eq!(
        parse_import_line("  bob@outlook.com ---- secret ----\tclient----refresh \r"),
        entry("bob@outlook.com", "secret", "client", "refresh")
    );
}

#[test]
fn a_line_of_white_space_is_blank() {
    assert_eq!(parse_import_line(""), ImportLine::Blank);
    assert_eq!(parse_import_line("   \t "), ImportLine::Blank);
}

#[test]
fn another_number_of_fields_is_malformed() {
    assert_eq!(parse_import_line("a----b----c"), ImportLine::Malformed { segments: 3 });
    assert_eq!(parse_import_line("a"), ImportLine::Malformed { segments: 1 });
    assert_eq!(parse_import_line("a----b----c----d----e"), ImportLine::Malformed { segments: 5 });
    assert_eq!(parse_import_line("a---b---c---d"), ImportLine::Malformed { segments: 1 });
}

#[test]
fn an_empty_field_is_reported() {
    assert_eq!(parse_import_line("a----b--------d"), ImportLine::EmptyField);
    assert_eq!(parse_import_line("a----b----c---- "), ImportLine::EmptyField);
    assert_eq!(parse_import_line("----b----c----d"), ImportLine::EmptyField);
}

#[test]
fn pieces_are_classified_after_trimming() {
    let pieces = vec![" a ".to_string(), "b".to_string(), "c".to_string(), "d\t".to_string()];
    assert_eq!(classify_pieces(&pieces), entry("a", "b", "c", "d"));
    assert_eq!(classify_pieces(&Vec::new()), ImportLine::Malformed { segments: 0 });
    assert_eq!(
        entry_of(String::new(), "b".to_string(), "c".to_string(), "d".to_string()),
        ImportLine::EmptyField
    );
    assert_eq!(
        entry_of("a".to_string(), "b".to_string(), "c".to_string(), "d".to_string()),
        entry("a", "b", "c", "d")
    );
}

#[test]
fn lines_are_counted_written_and_reported_in_order() {
    let input = "a@x.com----p----c----r\n\
                 \n\
                 broken line\n\
                 b@x.com----p----c----r\r\n\
                 c@x.com--------c----r\n\
                 d@x.com----p----c----r";
    let (result, written) = import(input, &["b@x.com"]);
    assert_eq!(written, vec!["a@x.com".to_string(), "d@x.com".to_string()]);
    assert_eq!(result.success_count, 2);
    assert_eq!(result.failed_count, 3);
    assert_eq!(
        result.failed_lines,
        vec![
            "第 3 行: 格式错误 (期望 4 段，实际 1)".to_string(),
            "第 4 行: cannot write b@x.com".to_string(),
            "第 5 行: 存在空字段".to_string(),
        ]
    );
}

#[test]
fn an_empty_input_imports_nothing() {
    let (result, written) = import("", &[]);
    assert!(written.is_empty());
    assert_eq!(result.success_count, 0);
    assert_eq!(result.failed_count, 0);
    assert!(result.failed_lines.is_empty());
    let (result, _) = import("\n\n   \n", &[]);
    assert_eq!(result.success_count, 0);
    assert_eq!(result.failed_count, 0);
}

#[test]
fn an_import_that_has_ended_stays_ended() {
    let (session, action) = ImportSession::start("x");
    match action {
        ImportAction::Finish(result) => {
            assert_eq!(result.failed_count, 1);
            assert_eq!(result.failed_lines, vec!["第 1 行: 格式错误 (期望 4 段，实际 1)".to_string()]);
        }
        other => panic!("unexpected: {:?}", other),
    }
    let (_, action) = session.step(ImportEvent::Done);
    assert_eq!(action, ImportAction::Finish(ImportResult::new()));
}

#[test]
fn failures_are_recorded_with_their_line() {
    let mut result = ImportResult::new();
    result.record_failure(12, "duplicate address");
    assert_eq!(result.failed_count, 1);
    assert_eq!(result.success_count, 0);
    assert_eq!(result.failed_lines, vec!["第 12 行: duplicate address".to_string()]);
}
