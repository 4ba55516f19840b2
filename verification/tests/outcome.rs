use outlook_mail::mode::ApiMode;
use outlook_mail::outcome::{collect_batch, BatchCheckResult, CheckError, CheckResult};

#[test]
fn summary_names_counts_and_mode() {
    let result = CheckResult::completed(3, 12, 5, ApiMode::Graph);
    assert_eq!(result.email_id, 3);
    assert!(result.success);
    assert_eq!(result.fetched, 12);
    assert_eq!(result.saved, 5);
    assert_eq!(result.message, "成功获取 12 封邮件，新增 5 封 (模式: Graph)");
    let result = CheckResult::completed(3, 0, 0, ApiMode::Imap);
    assert_eq!(result.message, "成功获取 0 封邮件，新增 0 封 (模式: Imap)");
}

#[test]
fn failure_entry_has_no_counts_and_the_error_s_text() {
    let entry = CheckResult::failed(8, &CheckError::Mailbox("no such folder".to_string()));
    assert_eq!(entry.email_id, 8);
    assert!(!entry.success);
    assert_eq!(entry.fetched, 0);
    assert_eq!(entry.saved, 0);
    assert_eq!(entry.message, "收件失败: no such folder");
}

#[test]
fn every_error_has_its_text() {
    assert_eq!(CheckError::UnsupportedMailType.message(), "仅支持 outlook 收件");
    assert_eq!(CheckError::Token("t".to_string()).message(), "t");
    assert_eq!(CheckError::Rest("r".to_string()).message(), "r");
    assert_eq!(CheckError::Mailbox("m".to_string()).message(), "m");
    assert_eq!(CheckError::Storage("s".to_string()).message(), "s");
    assert_eq!(CheckError::Unexpected.message(), "unexpected event");
}

#[test]
fn one_failure_among_three_accounts_is_isolated() {
    let batch = collect_batch(vec![
        (1, Ok(CheckResult::completed(1, 4, 2, ApiMode::Graph))),
        (2, Err(CheckError::Mailbox("connection refused".to_string()))),
        (3, Ok(CheckResult::completed(3, 1, 1, ApiMode::Imap))),
    ]);
    assert_eq!(batch.success_count, 2);
    assert_eq!(batch.failed_count, 1);
    assert_eq!(batch.results.len(), 3);
    assert_eq!(batch.results[0].email_id, 1);
    assert!(batch.results[0].success);
    assert_eq!(batch.results[0].fetched, 4);
    assert_eq!(batch.results[1].email_id, 2);
    assert!(!batch.results[1].success);
    assert_eq!(batch.results[1].fetched, 0);
    assert_eq!(batch.results[1].saved, 0);
    assert_eq!(batch.results[1].message, "收件失败: connection refused");
    assert_eq!(batch.results[2].email_id, 3);
    assert!(batch.results[2].success);
    assert_eq!(batch.results[2].saved, 1);
}

#[test]
fn empty_batch_counts_nothing() {
    let batch = collect_batch(Vec::new());
    assert_eq!(batch.success_count, 0);
    assert_eq!(batch.failed_count, 0);
    assert!(batch.results.is_empty());
    let fresh = BatchCheckResult::new();
    assert_eq!(fresh.success_count, 0);
    assert_eq!(fresh.failed_count, 0);
    assert!(fresh.results.is_empty());
}

#[test]
fn outcomes_are_recorded_one_by_one() {
    let mut batch = BatchCheckResult::new();
    batch.record(5, Err(CheckError::UnsupportedMailType));
    batch.record(6, Ok(CheckResult::completed(6, 0, 0, ApiMode::Imap)));
    batch.record(7, Err(CheckError::Token("刷新令牌失败: a - b".to_string())));
    assert_eq!(batch.success_count, 1);
    assert_eq!(batch.failed_count, 2);
    assert_eq!(batch.results.len(), 3);
    assert_eq!(batch.results[0].message, "收件失败: 仅支持 outlook 收件");
    assert_eq!(batch.results[0].email_id, 5);
    assert_eq!(batch.results[1].email_id, 6);
    assert_eq!(batch.results[2].message, "收件失败: 刷新令牌失败: a - b");
}
