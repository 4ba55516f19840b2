use outlook_mail::mailbox::{MailboxAction, MailboxEvent, MailboxPhase, MailboxSession};
use outlook_mail::records::MailFetchRecord;

/// A mailbox server held in memory.
struct Server {
    connect: Result<(), String>,
    login: Result<(), String>,
    select: Result<(), String>,
    search: Result<Vec<u32>, String>,
    fetch_fails_at: Option<String>,
    logout: Result<(), String>,
    fetched: Vec<String>,
    log: Vec<String>,
}

fn server(ids: Vec<u32>) -> Server {
    Server {
        connect: Ok(()),
        login: Ok(()),
        select: Ok(()),
        search: Ok(ids),
        fetch_fails_at: None,
        logout: Ok(()),
        fetched: Vec::new(),
        log: Vec::new(),
    }
}

fn done(outcome: &Result<(), String>) -> MailboxEvent {
    match outcome {
        Ok(()) => MailboxEvent::Done,
        Err(text) => MailboxEvent::Failed(text.clone()),
    }
}

fn body_of(id: &str) -> Vec<Option<Vec<u8>>> {
    if id == "13" {
        vec![Some(b" not a header\r\n\r\nbroken".to_vec())]
    } else if id == "14" {
        vec![None]
    } else {
        vec![Some(format!("Subject: message {}\r\n\r\nbody {}", id, id).into_bytes())]
    }
}

fn retrieve(server: &mut Server, since: Option<&str>) -> Result<Vec<MailFetchRecord>, String> {
    let (mut session, mut action) = MailboxSession::start(
        "bob@outlook.com".to_string(),
        "TOKEN".to_string(),
        "INBOX".to_string(),
        since.map(|s| s.to_string()),
    );
    loop {
        let event = match action {
            MailboxAction::Connect { host, port, timeout_secs } => {
                server.log.push(format!("connect {}:{} {}", host, port, timeout_secs));
                done(&server.connect)
            }
            MailboxAction::Authenticate { mechanism, credential } => {
                server.log.push(format!("login {} {:?}", mechanism, credential));
                done(&server.login)
            }
            MailboxAction::Select { folder } => {
                server.log.push(format!("select {}", folder));
                done(&server.select)
            }
            MailboxAction::Search { criteria } => {
                server.log.push(format!("search {}", criteria));
                match &server.search {
                    Ok(ids) => MailboxEvent::Matched(ids.clone()),
                    Err(text) => MailboxEvent::Failed(text.clone()),
                }
            }
            MailboxAction::Fetch { messages, item } => {
                assert_eq!(item, "RFC822");
                server.fetched.push(messages.clone());
                if server.fetch_fails_at.as_deref() == Some(messages.as_str()) {
                    MailboxEvent::Failed("BAD fetch".to_string())
                } else {
                    MailboxEvent::Bodies(body_of(&messages))
                }
            }
            MailboxAction::Logout => {
                server.log.push("logout".to_string());
                done(&server.logout)
            }
            MailboxAction::Finish(end) => {
                assert_eq!(session.phase, MailboxPhase::Finished);
                return end;
            }
        };
        let (next, then) = session.step(event);
        session = next;
        action = then;
    }
}

#[test]
fn a_session_runs_from_connect_to_logout() {
    let mut s = server(vec![2, 1]);
    let records = retrieve(&mut s, Some("2024-01-01T00:00:00+00:00")).unwrap();
    assert_eq!(
        s.log,
        vec![
            "connect outlook.office365.com:993 30".to_string(),
            "login XOAUTH2 \"user=bob@outlook.com\\u{1}auth=Bearer TOKEN\\u{1}\\u{1}\"".to_string(),
            "select INBOX".to_string(),
            "search SINCE 01-Jan-2024".to_string(),
            "logout".to_string(),
        ]
    );
    assert_eq!(s.fetched, vec!["1".to_string(), "2".to_string()]);
    assert_eq!(records.len(), 2);
    assert_eq!(records[0].subject, Some("message 1".to_string()));
    assert_eq!(records[0].content, "body 1");
    assert_eq!(records[0].folder, "INBOX");
    assert_eq!(records[1].subject, Some("message 2".to_string()));
}

#[test]
fn without_a_last_check_every_message_is_searched() {
    let mut s = server(Vec::new());
    let records = retrieve(&mut s, None).unwrap();
    assert!(records.is_empty());
    assert_eq!(s.log[3], "search ALL");
    assert_eq!(s.log[4], "logout");
    assert!(s.fetched.is_empty());
}

#[test]
fn of_150_matching_ids_exactly_the_100_highest_are_fetched() {
    let ids: Vec<u32> = (1001..=1150).rev().collect();
    let mut s = server(ids);
    let records = retrieve(&mut s, None).unwrap();
    let expected: Vec<String> = (1051..=1150).map(|id: u32| id.to_string()).collect();
    assert_eq!(s.fetched.len(), 100);
    assert_eq!(s.fetched, expected);
    assert_eq!(records.len(), 100);
    assert_eq!(records[0].subject, Some("message 1051".to_string()));
    assert_eq!(records[99].subject, Some("message 1150".to_string()));
}

#[test]
fn a_message_that_does_not_parse_is_skipped_in_silence() {
    let mut s = server(vec![12, 13, 14, 15]);
    let records = retrieve(&mut s, None).unwrap();
    assert_eq!(s.fetched.len(), 4);
    assert_eq!(records.len(), 2);
    assert_eq!(records[0].subject, Some("message 12".to_string()));
    assert_eq!(records[1].subject, Some("message 15".to_string()));
}

#[test]
fn a_rejected_login_keeps_its_words() {
    let mut s = server(vec![1]);
    s.login = Err("No Response: Unable to AUTHENTICATE.".to_string());
    assert_eq!(retrieve(&mut s, None), Err("No Response: Unable to AUTHENTICATE.".to_string()));
    assert_eq!(s.log.len(), 2);
    assert!(s.fetched.is_empty());
}

#[test]
fn a_failed_connection_ends_the_session() {
    let mut s = server(vec![1]);
    s.connect = Err("connection timed out".to_string());
    assert_eq!(retrieve(&mut s, None), Err("connection timed out".to_string()));
    assert_eq!(s.log.len(), 1);
}

#[test]
fn a_missing_folder_ends_the_session() {
    let mut s = server(vec![1]);
    s.select = Err("No Response: folder does not exist".to_string());
    assert_eq!(retrieve(&mut s, None), Err("No Response: folder does not exist".to_string()));
    assert_eq!(s.log.len(), 3);
}

#[test]
fn a_failed_search_ends_the_session() {
    let mut s = server(Vec::new());
    s.search = Err("BAD search".to_string());
    assert_eq!(retrieve(&mut s, None), Err("BAD search".to_string()));
}

#[test]
fn a_failed_fetch_ends_the_session_and_drops_what_was_fetched() {
    let mut s = server(vec![1, 2, 3]);
    s.fetch_fails_at = Some("2".to_string());
    assert_eq!(retrieve(&mut s, None), Err("BAD fetch".to_string()));
    assert_eq!(s.fetched, vec!["1".to_string(), "2".to_string()]);
    assert!(!s.log.contains(&"logout".to_string()));
}

#[test]
fn a_failed_logout_fails_the_retrieval() {
    let mut s = server(vec![1]);
    s.logout = Err("connection lost".to_string());
    assert_eq!(retrieve(&mut s, None), Err("connection lost".to_string()));
}

#[test]
fn an_event_that_is_not_awaited_ends_the_session() {
    let (session, _) = MailboxSession::start(
        "a".to_string(),
        "t".to_string(),
        "INBOX".to_string(),
        None,
    );
    let (session, action) = session.step(MailboxEvent::Matched(vec![1]));
    assert_eq!(action, MailboxAction::Finish(Err("unexpected event".to_string())));
    assert_eq!(session.phase, MailboxPhase::Finished);
    let (_, action) = session.step(MailboxEvent::Done);
    assert_eq!(action, MailboxAction::Finish(Err("unexpected event".to_string())));
}
